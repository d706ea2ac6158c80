//! The depth-frame format: a row-major grid of unsigned depth samples with a
//! fixed 640 x 480 geometry. A frame of any other length is treated as
//! absent/invalid by every downstream stage.

use vstd::prelude::*;

verus! {

/// Number of columns in a depth frame.
pub const FRAME_WIDTH: usize = 640;

/// Number of rows in a depth frame.
pub const FRAME_HEIGHT: usize = 480;

/// Number of samples in a complete depth frame.
pub const FRAME_SAMPLES: usize = FRAME_WIDTH * FRAME_HEIGHT;

/// A frame is complete when it holds exactly one sample per grid cell;
/// anything else counts as "no frame".
pub open spec fn frame_full(s: Seq<u16>) -> bool {
    s.len() == FRAME_SAMPLES
}

} // verus!
