//! Scaffold and state machines shared by a set of generative sketches:
//! run-mode and capture control, a fixed-point model of rotating channels,
//! and the arc-column layout.

pub mod arcs;
pub mod circles;
pub mod framework;
mod random;
