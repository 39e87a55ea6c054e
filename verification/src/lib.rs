//! Contact-sheet generation: planning evenly spaced sample timestamps for a
//! video, sizing a thumbnail grid, and compositing extracted still frames
//! into one canvas image.

pub mod compose;
pub mod config;
pub mod errors;
pub mod frames;
pub mod geometry;
pub mod plan;
pub mod probe;
pub mod run;
