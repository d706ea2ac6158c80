//! Coordinate mapping from a detected screen position toward the rendering
//! surface's world space. The exact part lives here: the vertical flip to
//! the bottom-left-origin convention, the rejection of the "no detection"
//! sentinel column, and the normalization to device coordinates, carried as
//! integer numerators so nothing is rounded. The final step — applying the
//! inverse of the surface's projection and camera transforms — is
//! floating-point matrix work owned by the rendering side.

use vstd::prelude::*;
use crate::blob::ScreenPosition;
use crate::frame::{FRAME_HEIGHT, FRAME_WIDTH};

verus! {

/// A screen position carried to normalized device coordinates, kept exact:
/// the NDC point is `(x / 640, y / 480)` with these fields as numerators,
/// each in `-640 ..= 640` resp. `-480 ..= 480`.
#[derive(Clone, Copy, Debug, PartialEq, Eq, Structural)]
pub struct NdcPosition {
    pub x: i32,
    pub y: i32,
}

/// The vertical flip from top-left-origin pixel rows to bottom-left-origin
/// display rows: the distance |y - 480|.
pub open spec fn flipped_y(y: int) -> int {
    if y <= FRAME_HEIGHT {
        FRAME_HEIGHT - y
    } else {
        y - FRAME_HEIGHT
    }
}

/// What the mapper yields for a screen position within the frame: nothing
/// for the sentinel column zero (a detection there is indistinguishable from
/// "no detection"), otherwise the NDC numerators `2x - 640` and
/// `2 * |y - 480| - 480`.
pub open spec fn ndc_of(pos: ScreenPosition) -> Option<NdcPosition> {
    if pos.x == 0 {
        None
    } else {
        Some(
            NdcPosition {
                x: (2 * pos.x - FRAME_WIDTH) as i32,
                y: (2 * flipped_y(pos.y as int) - FRAME_HEIGHT) as i32,
            },
        )
    }
}

/// Flip, validate and normalize a detected screen position. `None` exactly
/// when the position sits in the sentinel column.
pub fn screen_to_ndc(pos: ScreenPosition) -> (r: Option<NdcPosition>)
    requires
        pos.x < FRAME_WIDTH,
        pos.y < FRAME_HEIGHT,
    ensures
        r == ndc_of(pos),
        r is None <==> pos.x == 0,
{
    if pos.x == 0 {
        return None;
    }
    let fy: usize = FRAME_HEIGHT - (pos.y as usize);
    let nx: i32 = 2 * (pos.x as i32) - (FRAME_WIDTH as i32);
    let ny: i32 = 2 * (fy as i32) - (FRAME_HEIGHT as i32);
    Some(NdcPosition { x: nx, y: ny })
}

/// The mapper is a function of the screen position alone — equal inputs map
/// to equal outputs — and it rejects exactly the sentinel column.
pub proof fn lemma_mapper_deterministic(a: ScreenPosition, b: ScreenPosition)
    requires
        a == b,
    ensures
        ndc_of(a) == ndc_of(b),
        ndc_of(a) is None <==> a.x == 0,
{
}

} // verus!
