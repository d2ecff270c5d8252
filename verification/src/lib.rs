//! Verified core of a textured-quad demo: the decisions and the arithmetic
//! that sit between a windowing/OpenGL framework and the screen.
//!
//! Nothing in this crate talks to the GPU or to the window system. The
//! embedding application owns the event loop and the GPU objects; it asks this
//! crate what to do with an input event, which viewport to set, how the vertex
//! buffer is laid out and what the texture holds.

pub mod geometry;
pub mod input;
pub mod runner;
pub mod texture;
