//! The per-frame pipeline: the four update stages run strictly once per
//! simulation tick, in fixed order, over the shared state store — input
//! mapping with grounding, collection, HUD sync, indicator recolor.

use vstd::prelude::*;

use crate::collection::{collect_coins, collected_after, collected_hits, surviving_coins};
use crate::components::{Coin, CoinSlot, Ground, HudText, JumpState, Player, Vec2i};
use crate::counter::{slots_recolored, update_coin_counter};
use crate::hud::{sampled_value, ticked_timer, update_hud};
use crate::movement::{apply_player_input, player_input_applied};
use crate::resources::{coin_state_wf, CoinState, FpsDisplay};
use crate::utils::hud_chars;

verus! {

/// The externally supplied signals for one frame: the directional input and
/// jump-trigger state (absent while the input layer is not ready), the
/// elapsed wall-clock time, and the instantaneous frame-rate measurement.
#[derive(Clone, Copy, Debug)]
pub struct FrameInput {
    pub movement: Option<Vec2i>,
    pub jump: Option<JumpState>,
    pub delta_ms: u32,
    pub measured_fps: Option<u32>,
}

/// The shared entity/state store the four stages run over.
pub struct GameState {
    pub player: Option<Player>,
    pub ground: Vec<Ground>,
    pub coins: Vec<Coin>,
    pub coin_state: CoinState,
    pub fps_display: FpsDisplay,
    pub hud: Option<HudText>,
    pub slots: Vec<CoinSlot>,
    pub seen_collected: Option<usize>,
}

/// Valid frame signals: each input axis is a fixed-point value in the
/// conceptual range of minus one to one.
pub open spec fn frame_input_wf(input: FrameInput) -> bool {
    input.movement matches Some(m) ==> -100 <= m.x <= 100 && -100 <= m.y <= 100
}

/// The counter value after this frame's collection pass.
pub open spec fn collected_after_frame(s: GameState) -> nat {
    match s.player {
        Some(p) => collected_after(
            s.coin_state.collected as nat,
            collected_hits(s.coins@, p.contacts@),
        ),
        None => s.coin_state.collected as nat,
    }
}

impl GameState {
    /// An empty store at simulation start: no entities yet, the counter at
    /// zero, the frame-rate sample at its defaults, no counter value shown.
    pub fn new() -> (s: GameState)
        ensures
            s.player is None,
            s.ground@.len() == 0,
            s.coins@.len() == 0,
            s.coin_state.collected == 0,
            s.fps_display.timer_ms == 0,
            s.fps_display.value == 0,
            s.hud is None,
            s.slots@.len() == 0,
            s.seen_collected is None,
    {
        GameState {
            player: None,
            ground: Vec::new(),
            coins: Vec::new(),
            coin_state: CoinState { collected: 0 },
            fps_display: FpsDisplay { timer_ms: 0, value: 0 },
            hud: None,
            slots: Vec::new(),
            seen_collected: None,
        }
    }
}

/// Runs one simulation frame: the four stages in their fixed dependency
/// order. The contract restates each stage's effect over the old store, so
/// a whole frame is pinned down from the frame signals alone.
pub fn step_frame(state: &mut GameState, input: &FrameInput)
    requires
        frame_input_wf(*input),
        coin_state_wf(old(state).coin_state),
    ensures
        coin_state_wf(final(state).coin_state),
        // Static scenery is never touched.
        final(state).ground@ == old(state).ground@,
        // Stage 1: movement and grounding.
        match (old(state).player, input.movement, input.jump) {
            (Some(p0), Some(m), Some(j)) => {
                &&& final(state).player matches Some(p1) && player_input_applied(
                    p0,
                    p1,
                    old(state).ground@,
                    m,
                    j,
                )
            },
            _ => final(state).player == old(state).player,
        },
        // Stage 2: collection.
        match old(state).player {
            Some(p0) => {
                &&& final(state).coins@ == surviving_coins(old(state).coins@, p0.contacts@)
                &&& final(state).coin_state.collected == collected_after_frame(*old(state))
            },
            None => {
                &&& final(state).coins@ == old(state).coins@
                &&& final(state).coin_state == old(state).coin_state
            },
        },
        // Stage 3: HUD text and frame-rate sample.
        match (input.movement, input.jump, old(state).hud) {
            (Some(m), Some(j), Some(_)) => {
                &&& final(state).fps_display.timer_ms == ticked_timer(
                    old(state).fps_display.timer_ms as int,
                    input.delta_ms as int,
                )
                &&& final(state).fps_display.value == sampled_value(
                    old(state).fps_display,
                    input.delta_ms as int,
                    input.measured_fps,
                )
                &&& final(state).hud matches Some(h) && h.content@ == hud_chars(
                    sampled_value(old(state).fps_display, input.delta_ms as int, input.measured_fps),
                    m.x as int,
                    m.y as int,
                    j,
                )
            },
            _ => final(state).fps_display == old(state).fps_display && final(state).hud == old(
                state,
            ).hud,
        },
        // Stage 4: indicator recolor, gated on the counter having changed.
        if old(state).seen_collected == Some(collected_after_frame(*old(state)) as usize) {
            final(state).slots@ == old(state).slots@ && final(state).seen_collected == old(
                state,
            ).seen_collected
        } else {
            slots_recolored(
                old(state).slots@,
                final(state).slots@,
                collected_after_frame(*old(state)) as int,
            ) && final(state).seen_collected == Some(collected_after_frame(*old(state)) as usize)
        },
{
    apply_player_input(&mut state.player, &state.ground, &input.movement, &input.jump);
    collect_coins(&mut state.coin_state, &state.player, &mut state.coins);
    update_hud(
        &mut state.fps_display,
        input.delta_ms,
        input.measured_fps,
        &input.movement,
        &input.jump,
        &mut state.hud,
    );
    update_coin_counter(&state.coin_state, &mut state.seen_collected, &mut state.slots);
}

} // verus!
