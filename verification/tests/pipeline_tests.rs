use platformer::components::{
    Coin, CoinSlot, Ground, HudText, JumpState, Platform, Player, SlotColor, Vec2i,
};
use platformer::constants::{COIN_SLOTS, PLAYER_HALF_HEIGHT};
use platformer::counter::recolor_slots;
use platformer::pipeline::{step_frame, FrameInput, GameState};

fn scene_with_three_coins(contacts: Vec<u64>) -> GameState {
    let mut state = GameState::new();
    state.player = Some(Player {
        position: Vec2i { x: 0, y: 0 },
        velocity: Vec2i { x: 0, y: 0 },
        half_height: PLAYER_HALF_HEIGHT,
        contacts,
    });
    state.ground.push(Ground {
        id: 1,
        platform: Platform {
            position: Vec2i { x: 0, y: -14000 },
            half_extents: Vec2i { x: 26000, y: 1400 },
        },
    });
    for id in [10, 11, 12] {
        state.coins.push(Coin {
            id,
            position: Vec2i { x: 0, y: 0 },
        });
    }
    for index in 0..COIN_SLOTS {
        state.slots.push(CoinSlot {
            index,
            color: SlotColor::Empty,
        });
    }
    state.hud = Some(HudText {
        content: String::new(),
    });
    state
}

fn quiet_frame() -> FrameInput {
    FrameInput {
        movement: Some(Vec2i { x: 0, y: 0 }),
        jump: Some(JumpState::Idle),
        delta_ms: 16,
        measured_fps: Some(60),
    }
}

#[test]
fn touching_all_three_coins_fills_all_three_slots() {
    // Three collectibles, all in contact in one frame, counter starting at 0.
    let mut state = scene_with_three_coins(vec![10, 11, 12]);
    step_frame(&mut state, &quiet_frame());

    assert_eq!(state.coin_state.collected, 3);
    assert!(state.coins.is_empty());
    assert_eq!(state.slots.len(), 3);
    assert!(state.slots.iter().all(|slot| slot.color == SlotColor::Filled));
}

#[test]
fn airborne_fired_jump_leaves_vertical_velocity() {
    // No platform contact; the jump trigger fires anyway.
    let mut state = scene_with_three_coins(vec![]);
    state.player.as_mut().unwrap().velocity.y = -900;
    let mut input = quiet_frame();
    input.jump = Some(JumpState::Fired);
    step_frame(&mut state, &input);
    assert_eq!(state.player.as_ref().unwrap().velocity.y, -900);
}

#[test]
fn recolor_pass_fills_exactly_the_first_counter_slots() {
    for collected in 0..=COIN_SLOTS {
        let mut slots: Vec<CoinSlot> = (0..COIN_SLOTS)
            .map(|index| CoinSlot {
                index,
                color: SlotColor::Filled,
            })
            .collect();
        recolor_slots(&mut slots, collected);
        for slot in &slots {
            let expected = if slot.index < collected {
                SlotColor::Filled
            } else {
                SlotColor::Empty
            };
            assert_eq!(slot.color, expected);
        }
    }
}

#[test]
fn recolor_is_gated_on_counter_changes() {
    let mut state = scene_with_three_coins(vec![]);
    // First frame: nothing collected, yet the slots get their initial pass.
    step_frame(&mut state, &quiet_frame());
    assert_eq!(state.seen_collected, Some(0));
    assert!(state.slots.iter().all(|slot| slot.color == SlotColor::Empty));

    // Paint a slot behind the counter's back: with no counter change, the
    // next frame must not repaint it.
    state.slots[0].color = SlotColor::Filled;
    step_frame(&mut state, &quiet_frame());
    assert_eq!(state.slots[0].color, SlotColor::Filled);

    // Once the counter changes, the pass repaints every slot.
    state.coins.push(Coin {
        id: 50,
        position: Vec2i { x: 0, y: 0 },
    });
    state.player.as_mut().unwrap().contacts = vec![50];
    step_frame(&mut state, &quiet_frame());
    assert_eq!(state.coin_state.collected, 1);
    assert_eq!(state.slots[0].color, SlotColor::Filled);
    assert_eq!(state.slots[1].color, SlotColor::Empty);
}

#[test]
fn a_frame_writes_the_hud_from_the_frame_signals() {
    let mut state = scene_with_three_coins(vec![]);
    let mut input = quiet_frame();
    input.movement = Some(Vec2i { x: 50, y: -100 });
    input.jump = Some(JumpState::Fired);
    step_frame(&mut state, &input);
    // First frame: the default zero sample refreshes immediately.
    assert_eq!(
        state.hud.as_ref().unwrap().content,
        "FPS:   60\nMove: [0.50, -1.00] (WASD/Arrows/Stick)\nJump: Fired (Space/W/Up/South)"
    );
}
