//! A small 2D rendering core.
//!
//! The library models the draw-state and resource logic of a 2D renderer:
//! batched quad rendering, dirty-tracked shader parameters, a blend-mode
//! cache, and a glyph atlas. All geometry uses 16.16 fixed-point scalars,
//! and every driver interaction is recorded as a command value in the
//! context's log; an unverified executor replays the log against the
//! actual graphics driver.

pub mod commands;
pub mod context;
pub mod fixed;
pub mod graphics;

pub use context::Context;
