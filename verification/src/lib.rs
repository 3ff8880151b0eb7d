//! Core of a small real-time voxel renderer: a free-flying camera with a
//! two-axis orientation, the byte layout and upload policy of the GPU
//! instance buffer, a fixed-timestep game loop, and the routing of window
//! and input events to engine actions.
//!
//! Everything that talks to the window system or the GPU device lives
//! outside this crate; the crate decides, and hands plain values out.

pub mod buffer;
pub mod camera;
pub mod face;
pub mod game;
pub mod surface;
pub mod timestep;
