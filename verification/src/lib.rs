//! Verified core of a small library of interactive visual controls: a button
//! with an accessible attribute composer and an optional dropdown panel, a
//! link-styled button, and an animated collapse container.
//!
//! The reactive engine and the rendering layer are external collaborators:
//! every function here is a pure computation from current input values
//! (signal snapshots, a measured layout dimension) to attribute values,
//! controller states and style text, recomputed by the host on every change.

pub mod aria;
pub mod button;
pub mod collapse;
pub mod digits;
pub mod dropdown;
pub mod hooks;
