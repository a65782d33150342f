//! An interactive 2D viewport, without the window.
//!
//! The crate holds the camera model, the cache that keeps redundant state
//! changes away from the GPU, the renderer front end that records GPU
//! commands, and the controller that turns pointer and wheel events into
//! camera moves. Windowing, the GPU itself and floating-point arithmetic are
//! left to the host: it executes the recorded commands and lends the
//! controller its arithmetic unit.

pub mod arith;
pub mod camera;
pub mod config;
pub mod diagnostics;
pub mod interaction;
pub mod render;
pub mod scalar;
