//! Render-state lifecycle of a windowed triangle demo.
//!
//! The crate holds the decisions of the demo: how pointer positions map to
//! normalized coordinates, how the render state reacts to resizes, key
//! presses and pointer moves, what a frame consists of, and how the
//! application shell dispatches window events. The window system and the
//! graphics device act on what these functions return.

pub mod app;
pub mod input;
pub mod math;
pub mod shader;
pub mod state;
pub mod surface;
