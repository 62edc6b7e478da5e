//! A small base for 2D graphical applications.
//!
//! The verified core keeps the renderer's registries of images and shapes,
//! turns shape descriptions into the vertex and index data that is uploaded to
//! the GPU, and records each frame as a list of render passes. Talking to the
//! GPU and to the window system is left to the caller, which replays what the
//! core decided.

pub mod frame;
pub mod ids;
pub mod render;
pub mod shape;
pub mod ui;
