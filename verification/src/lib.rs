//! Discrete game rules of a small golf game: shot control, scoring,
//! the run clock, input dispatch and mesh index handling.

pub mod clock;
pub mod control;
pub mod id;
pub mod input;
pub mod mesh;
pub mod progress;
