//! Simulation core of a sprite benchmark: many independent sprites fall
//! under gravity, bounce off the edges of the viewport, and are spawned in
//! batches on demand.
//!
//! Positions, velocities and colors are held in fixed point: a coordinate
//! counts ten-thousandths of a pixel, a color channel thousandths of full
//! intensity. Random draws come in as values, so every function here is
//! deterministic and its result is stated exactly.
pub mod geometry;
pub mod color;
pub mod gopher;
pub mod physics;
pub mod spawn;
pub mod frame;
pub mod laws;
