//! Verified core of a depth-tracking pipeline: a stream of raw depth frames
//! from a 3D sensor is turned into a displayable pixel buffer, the nearest
//! object in each frame is located, and its screen position is carried to
//! normalized device coordinates for a rendering surface to place a marker.
//!
//! The sensor connection, the rendering engine and the input devices are
//! collaborators outside this crate; the pipeline here is driven by plain
//! values handed in each tick.

pub mod blob;
pub mod frame;
pub mod grid;
pub mod mapper;
pub mod pipeline;
pub mod tilt;
pub mod visual;
