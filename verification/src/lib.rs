//! Per-tick movement and action resolution core for a 2D platformer.
//!
//! Each simulation tick turns an input snapshot and a small set of timed
//! action states (jump, dash, grounding) into a single desired displacement
//! vector. The displacement is handed to an external physics resolver, which
//! integrates it and reports back a grounded/airborne contact signal. The
//! host loop around this crate owns the window, the rendering and the
//! collision engine; this crate owns the decisions.
//!
//! Distances are whole display units, displacements are units per tick, and
//! time is counted in milliseconds.

pub mod entity;
pub mod feedback;
pub mod input;
pub mod laws;
pub mod motion;
pub mod state;
pub mod timing;
pub mod tuning;
pub mod vec2;

pub use vec2::Vec2;
