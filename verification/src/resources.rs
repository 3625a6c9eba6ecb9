//! Process-wide shared state: the collection counter and the smoothed
//! frame-rate sample.

use vstd::prelude::*;

use crate::constants::COIN_SLOTS;

verus! {

/// The collection counter: non-negative, monotonically non-decreasing during
/// a session, clamped to [`COIN_SLOTS`].
#[derive(Clone, Copy, Debug, PartialEq, Eq, Structural)]
pub struct CoinState {
    pub collected: usize,
}

/// Invariant of the counter: it never exceeds the number of indicator slots.
pub open spec fn coin_state_wf(s: CoinState) -> bool {
    s.collected <= COIN_SLOTS
}

impl Default for CoinState {
    /// The counter starts at zero.
    fn default() -> (s: Self)
        ensures
            s.collected == 0,
            coin_state_wf(s),
    {
        CoinState { collected: 0 }
    }
}

/// The smoothed frame-rate sample: a repeating timer (milliseconds
/// accumulated toward the next resample) and the last sampled value in
/// frames per second.
#[derive(Clone, Copy, Debug, PartialEq, Eq, Structural)]
pub struct FpsDisplay {
    pub timer_ms: u32,
    pub value: u32,
}

impl Default for FpsDisplay {
    /// The timer starts empty and the sample at its default zero value.
    fn default() -> (s: Self)
        ensures
            s.timer_ms == 0,
            s.value == 0,
    {
        FpsDisplay { timer_ms: 0, value: 0 }
    }
}

} // verus!
