//! A verified core for a 2D GUI rendering toolkit.
//!
//! The library models the data and decisions of a quad-based renderer:
//! the vertex layout handed to the GPU, the presentation-surface
//! configuration and its lifecycle, a widget tree with build, layout and
//! draw passes, and the application shell's event-driven state machine.
//! Everything platform- or GPU-specific (the window, the device, the
//! actual presentation) lives outside, feeding plain values in and
//! carrying plain values out.

pub mod shell;
pub mod surface;
pub mod vertex;
pub mod widget;
