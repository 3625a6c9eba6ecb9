//! Presentation sync for the HUD text: advances the frame-rate resample
//! timer, refreshes the smoothed sample when it elapses (or while the sample
//! is still at its default zero value), and recomposes the HUD text from
//! current input, jump state and sample.

use vstd::prelude::*;

use crate::components::{HudText, JumpState, Vec2i};
use crate::constants::FPS_SAMPLE_INTERVAL_MS;
use crate::resources::FpsDisplay;
use crate::utils::{format_hud_text, hud_chars};

verus! {

/// Whether the repeating resample timer elapses during a tick of
/// `delta_ms`.
pub open spec fn timer_finishes(timer_ms: int, delta_ms: int) -> bool {
    timer_ms + delta_ms >= FPS_SAMPLE_INTERVAL_MS
}

/// The accumulated time after a tick: wraps around the interval when the
/// timer elapses.
pub open spec fn ticked_timer(timer_ms: int, delta_ms: int) -> int {
    if timer_finishes(timer_ms, delta_ms) {
        (timer_ms + delta_ms) % (FPS_SAMPLE_INTERVAL_MS as int)
    } else {
        timer_ms + delta_ms
    }
}

/// The frame-rate sample after a tick: refreshed from the external
/// measurement when the timer elapses or while the sample is still at its
/// default zero value (an absent measurement reads as zero), kept otherwise.
pub open spec fn sampled_value(display: FpsDisplay, delta_ms: int, measured: Option<u32>) -> int {
    if timer_finishes(display.timer_ms as int, delta_ms) || display.value == 0 {
        match measured {
            Some(v) => v as int,
            None => 0,
        }
    } else {
        display.value as int
    }
}

/// Presentation-sync stage for the HUD text: ticks the resample timer,
/// refreshes the sample on a debounced cadence, and recomposes the HUD text
/// from the sample, the input vector and the jump state. A silent no-op — no
/// time is accumulated either — when the input source, the jump-state source
/// or the HUD surface is absent this frame.
pub fn update_hud(
    fps_display: &mut FpsDisplay,
    delta_ms: u32,
    measured_fps: Option<u32>,
    movement: &Option<Vec2i>,
    jump: &Option<JumpState>,
    hud: &mut Option<HudText>,
)
    requires
        (*movement) matches Some(m) ==> -100 <= m.x <= 100 && -100 <= m.y <= 100,
    ensures
        match (*movement, *jump, *old(hud)) {
            (Some(m), Some(j), Some(_)) => {
                &&& final(fps_display).timer_ms == ticked_timer(
                    old(fps_display).timer_ms as int,
                    delta_ms as int,
                )
                &&& final(fps_display).value == sampled_value(
                    *old(fps_display),
                    delta_ms as int,
                    measured_fps,
                )
                &&& (*final(hud)) matches Some(h) && h.content@ == hud_chars(
                    sampled_value(*old(fps_display), delta_ms as int, measured_fps),
                    m.x as int,
                    m.y as int,
                    j,
                )
            },
            _ => *final(fps_display) == *old(fps_display) && *final(hud) == *old(hud),
        },
{
    let m: Vec2i;
    let j: JumpState;
    match (*movement, *jump) {
        (Some(mv), Some(js)) => {
            m = mv;
            j = js;
        },
        _ => {
            return ;
        },
    }
    if hud.is_none() {
        return ;
    }
    let total: u64 = fps_display.timer_ms as u64 + delta_ms as u64;
    if total >= FPS_SAMPLE_INTERVAL_MS {
        fps_display.timer_ms = (total % FPS_SAMPLE_INTERVAL_MS) as u32;
        fps_display.value = match measured_fps {
            Some(v) => v,
            None => 0,
        };
    } else {
        fps_display.timer_ms = total as u32;
        if fps_display.value == 0 {
            fps_display.value = match measured_fps {
                Some(v) => v,
                None => 0,
            };
        }
    }
    let text = format_hud_text(fps_display.value, m, j);
    match hud {
        Some(h) => {
            h.content = text;
        },
        None => {},
    }
}

} // verus!
