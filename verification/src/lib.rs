//! A 2D Pong simulation core, together with two small support components:
//! an orbiting/panning camera controller and an on-screen debug-text store.
//!
//! All quantities are fixed-point: an `i64` counts thousandths of a unit
//! (a position in milli-pixels, a speed in milli-pixels per second, a time
//! step in milliseconds). The host game loop reads input and renders; this
//! crate owns the per-frame update rules.

pub mod fixed;
pub mod game;
pub mod paddle;
pub mod ball;
pub mod rng;
pub mod scores;
pub mod controls;
pub mod view;
pub mod sim;
pub mod camera;
pub mod debug_text;
