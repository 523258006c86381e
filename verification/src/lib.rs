//! Gameplay core of a side-scrolling reflex game: a bird falls under gravity,
//! flaps on every activation, and has to thread a stream of scrolling gap
//! obstacles.
//!
//! The crate holds the phase machine, the entity model and every per-frame
//! gameplay pass. The host owns the window, the renderer, the sound and the
//! rigid-body integration; it feeds each frame's readings in and carries the
//! resulting commands out.
//!
//! Lengths are integers in thousandths of a world unit, velocities in
//! thousandths of a world unit per second, and time spans in nanoseconds.

pub mod application;
pub mod bird;
pub mod cleanup;
pub mod consts;
pub mod entropy;
pub mod game;
pub mod input;
pub mod invariants;
pub mod laws;
pub mod obstacles;
pub mod physics;
pub mod schedule;
pub mod state;
pub mod timer;
pub mod world;

pub use state::{AppState, GameState};
