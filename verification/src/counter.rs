//! Indicator recolor: keeps the counter indicator slots in sync with the
//! collection counter, gated on the counter having changed since the
//! previous frame.

use vstd::prelude::*;

use crate::components::{CoinSlot, SlotColor};
use crate::resources::CoinState;

verus! {

/// The color an indicator slot must show under a given counter value: filled
/// iff its index is below the counter.
pub open spec fn slot_color_for(index: int, collected: int) -> SlotColor {
    if index < collected {
        SlotColor::Filled
    } else {
        SlotColor::Empty
    }
}

/// Whether the slots show exactly the given counter value: every slot keeps
/// its index and is filled iff its index is below the counter.
pub open spec fn slots_recolored(before: Seq<CoinSlot>, after: Seq<CoinSlot>, collected: int) -> bool {
    &&& after.len() == before.len()
    &&& forall|k: int|
        0 <= k < before.len() ==> (#[trigger] after[k]).index == before[k].index && after[k].color
            == slot_color_for(before[k].index as int, collected)
}

/// A recolor pass: sets every slot's color from the counter, leaving the
/// indices untouched. After the pass, slot `i` is filled iff `i` is below
/// the counter.
pub fn recolor_slots(slots: &mut Vec<CoinSlot>, collected: usize)
    ensures
        slots_recolored(old(slots)@, final(slots)@, collected as int),
{
    let mut updated: Vec<CoinSlot> = Vec::new();
    let mut i: usize = 0;
    while i < slots.len()
        invariant
            i <= slots@.len(),
            updated@.len() == i,
            forall|k: int|
                0 <= k < i ==> (#[trigger] updated@[k]).index == slots@[k].index
                    && updated@[k].color == slot_color_for(slots@[k].index as int, collected as int),
        decreases slots@.len() - i,
    {
        let slot = slots[i];
        let color = if slot.index < collected {
            SlotColor::Filled
        } else {
            SlotColor::Empty
        };
        updated.push(CoinSlot { index: slot.index, color });
        i = i + 1;
    }
    *slots = updated;
}

/// Presentation-sync stage for the counter indicators: recolors the slots
/// only when the counter differs from the value shown last frame (change
/// detection); `seen` holds the counter value the slots currently show,
/// `None` before the first pass.
pub fn update_coin_counter(coin_state: &CoinState, seen: &mut Option<usize>, slots: &mut Vec<CoinSlot>)
    ensures
        match (*old(seen)) {
            Some(v) if v == coin_state.collected => {
                &&& final(slots)@ == old(slots)@
                &&& *final(seen) == *old(seen)
            },
            _ => {
                &&& slots_recolored(old(slots)@, final(slots)@, coin_state.collected as int)
                &&& *final(seen) == Some(coin_state.collected)
            },
        },
{
    let changed = match (*seen) {
        Some(v) => v != coin_state.collected,
        None => true,
    };
    if changed {
        recolor_slots(slots, coin_state.collected);
        *seen = Some(coin_state.collected);
    }
}

} // verus!
