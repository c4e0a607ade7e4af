//! Frame scheduling for a real-time model viewer.
//!
//! The library holds the decisions of the render loop: which frame slot a
//! draw cycle takes, when a fence must be waited on, how the presentation
//! surface is sized and when it is rebuilt, and in which order the graphics
//! device is told to wait, release and apply. The caller performs the device
//! work that each returned action names and reports back what the platform
//! answered.

pub mod slots;
pub mod surface;
pub mod material;
pub mod actions;
pub mod viewer;
