//! Verified core of a small 2D platformer simulation.
//!
//! Four update stages run once per simulation frame, in fixed order, over a
//! shared state store: input-to-velocity mapping with ground-contact
//! determination ([`movement`]), pickup collection ([`collection`]), HUD text
//! composition with frame-rate sampling ([`hud`] and [`utils`]), and
//! counter-indicator recoloring ([`counter`]). The [`pipeline`] module ties
//! the stages together into one verified per-frame step.
//!
//! Positions, velocities and input axes are fixed-point integers in
//! hundredths of a world unit (see [`constants::SCALE`]); the surrounding
//! engine converts to and from its own floating-point values at the boundary.

pub mod components;
pub mod constants;
pub mod resources;
pub mod movement;
pub mod collection;
pub mod counter;
pub mod utils;
pub mod hud;
pub mod pipeline;
