use platformer::collection::collect_coins;
use platformer::components::{Coin, CoinSlot, Player, SlotColor, Vec2i};
use platformer::constants::PLAYER_HALF_HEIGHT;
use platformer::counter::update_coin_counter;
use platformer::resources::CoinState;

fn player_with_contacts(contacts: Vec<u64>) -> Player {
    Player {
        position: Vec2i { x: 0, y: 0 },
        velocity: Vec2i { x: 0, y: 0 },
        half_height: PLAYER_HALF_HEIGHT,
        contacts,
    }
}

#[test]
fn collect_coins_despawns_and_counts() {
    let mut coin_state = CoinState::default();

    // Arrange a colliding player so the collection path runs.
    let coin_id: u64 = 7;
    let mut coins = vec![Coin {
        id: coin_id,
        position: Vec2i { x: 0, y: 0 },
    }];
    let player = Some(player_with_contacts(vec![coin_id]));

    collect_coins(&mut coin_state, &player, &mut coins);

    // Collection removed the coin and updated the counter.
    assert!(coins.iter().all(|coin| coin.id != coin_id));
    assert_eq!(coin_state.collected, 1);
}

#[test]
fn update_coin_counter_sets_slot_colors() {
    // Use a known count to make the expected colors deterministic.
    let coin_state = CoinState { collected: 2 };
    let mut seen: Option<usize> = None;

    // Seed UI slots so the stage can update their colors.
    let mut slots: Vec<CoinSlot> = (0..4)
        .map(|index| CoinSlot {
            index,
            color: SlotColor::Empty,
        })
        .collect();

    update_coin_counter(&coin_state, &mut seen, &mut slots);

    // Colors match the collected count.
    for slot in &slots {
        let expected = if slot.index < 2 {
            SlotColor::Filled
        } else {
            SlotColor::Empty
        };
        assert_eq!(slot.color, expected);
    }
}
