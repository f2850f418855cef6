//! Verified gameplay rules for a 2D platformer.
//!
//! The host game engine owns rendering, physics integration, level loading
//! and input polling; this crate owns the per-tick gameplay decisions that
//! sit between them: jump-count gating, positional ground detection with
//! hysteresis, the player movement rule, animation state selection and
//! frame advance, and camera framing clamped to the level bounds.
//!
//! All quantities are fixed-point integers so that every rule can be stated
//! and proved exactly: positions, velocities and camera translations are in
//! hundredths of a pixel (the resolution the ground detector samples at),
//! and time is in microseconds.

pub mod actions;
pub mod animation;
pub mod camera;
pub mod ground;
pub mod jump;
pub mod movement;
pub mod player;
