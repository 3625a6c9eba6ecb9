//! Entity data of the simulation: the character, platforms, collectibles,
//! indicator slots and the HUD text surface.
//!
//! Entity identity is an opaque `u64` handle handed out by the surrounding
//! collision layer; the core only compares handles, it never fabricates them.

use vstd::prelude::*;

verus! {

/// A 2D vector in hundredths of a world unit.
#[derive(Clone, Copy, Debug, PartialEq, Eq, Structural)]
pub struct Vec2i {
    pub x: i32,
    pub y: i32,
}

/// The controllable character: exactly one exists while the simulation runs.
/// `contacts` is the set of entities currently touching it, refreshed every
/// frame by the surrounding collision layer.
#[derive(Clone, Debug)]
pub struct Player {
    pub position: Vec2i,
    pub velocity: Vec2i,
    pub half_height: i32,
    pub contacts: Vec<u64>,
}

/// Geometry of a static platform: its center and half-extents, used for
/// top-surface computation.
#[derive(Clone, Copy, Debug, PartialEq, Eq, Structural)]
pub struct Platform {
    pub position: Vec2i,
    pub half_extents: Vec2i,
}

/// A ground entity: an entity handle together with its platform geometry.
/// Contact handles are resolved against a table of these.
#[derive(Clone, Copy, Debug, PartialEq, Eq, Structural)]
pub struct Ground {
    pub id: u64,
    pub platform: Platform,
}

/// A collectible pickup: destroyed exactly once, in the frame its collection
/// is detected.
#[derive(Clone, Copy, Debug, PartialEq, Eq, Structural)]
pub struct Coin {
    pub id: u64,
    pub position: Vec2i,
}

/// Visual state of one indicator slot.
#[derive(Clone, Copy, Debug, PartialEq, Eq, Structural)]
pub enum SlotColor {
    Empty,
    Filled,
}

/// One indicator slot of the collection counter; the index is immutable once
/// created, the color is a pure function of `index < counter`.
#[derive(Clone, Copy, Debug, PartialEq, Eq, Structural)]
pub struct CoinSlot {
    pub index: usize,
    pub color: SlotColor,
}

/// State of the jump action for the current frame. Only `Fired` — the
/// edge-triggered state, true on the frame the action begins — is acted on.
#[derive(Clone, Copy, Debug, PartialEq, Eq, Structural)]
pub enum JumpState {
    Idle,
    Fired,
    Held,
    Released,
}

/// The HUD text surface: its content is fully recomputed every frame.
#[derive(Clone, Debug)]
pub struct HudText {
    pub content: String,
}

} // verus!
