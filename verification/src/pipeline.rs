//! Per-tick orchestration. Each tick the frame source is polled outside this
//! crate (non-blocking; `None` means no new frame) and the result is handed
//! in. The pipeline stores the latest frame, re-renders the published pixel
//! buffer, locates the nearest blob and publishes its NDC position. Every
//! stage is skipped when its precondition fails, so a tick without a new
//! frame — or with no valid detection — leaves the prior outputs unchanged.

use vstd::prelude::*;
use crate::blob::{blob_center_x, blob_center_y, center_of_close_blob, ScreenPosition};
use crate::frame::{frame_full, FRAME_SAMPLES};
use crate::mapper::{ndc_of, screen_to_ndc, NdcPosition};
use crate::visual::{pixel_seq, update_image_from_depth_data};

verus! {

/// The screen position the locator reports for a complete frame.
pub open spec fn located_screen(s: Seq<u16>) -> ScreenPosition {
    ScreenPosition { x: blob_center_x(s) as u16, y: blob_center_y(s) as u16 }
}

/// A frame the source may hand over: a complete grid, or the empty marker
/// for "nothing captured". Anything else is invalid and treated as absent.
pub open spec fn frame_acceptable(s: Seq<u16>) -> bool {
    s.len() == 0 || frame_full(s)
}

/// The tick-to-tick state: the latest frame and the two published outputs.
pub struct FramePipeline {
    /// Latest frame received; empty before the first frame arrives.
    pub held: Vec<u16>,
    /// Published RGBA visualization of the held frame.
    pub pixels: Vec<u8>,
    /// Last published tracked position, as NDC numerators; `None` until a
    /// valid detection has been seen.
    pub published_pos: Option<NdcPosition>,
}

impl FramePipeline {
    /// Holds between ticks: the held frame is absent or complete, and for a
    /// complete frame the published outputs agree with it — the pixels
    /// visualize it and, whenever it has a valid detection, the published
    /// position is that detection.
    pub open spec fn inv(self) -> bool {
        &&& frame_acceptable(self.held@)
        &&& frame_full(self.held@) ==> {
            &&& self.pixels@ == pixel_seq(self.held@)
            &&& (ndc_of(located_screen(self.held@)) is Some ==> self.published_pos == ndc_of(
                located_screen(self.held@),
            ))
        }
    }

    /// A fresh pipeline: no frame yet, nothing published.
    pub fn new() -> (p: FramePipeline)
        ensures
            p.inv(),
            p.held@.len() == 0,
            p.pixels@.len() == 0,
            p.published_pos is None,
    {
        FramePipeline { held: Vec::new(), pixels: Vec::new(), published_pos: None }
    }

    /// One tick: Acquire (already done by the caller, non-blocking) →
    /// Store (latest acceptable frame wins; `None` or an invalid length
    /// keeps the previous frame) → Visualize → Locate → Map, where the last
    /// three run only on a complete frame and a position is published only
    /// for a valid detection.
    pub fn tick(&mut self, incoming: Option<Vec<u16>>)
        requires
            old(self).inv(),
        ensures
            final(self).inv(),
            final(self).held@ == (match incoming {
                Some(f) => if frame_acceptable(f@) {
                    f@
                } else {
                    old(self).held@
                },
                None => old(self).held@,
            }),
            frame_full(final(self).held@) ==> final(self).pixels@ == pixel_seq(
                final(self).held@,
            ),
            !frame_full(final(self).held@) ==> final(self).pixels@ == old(self).pixels@,
            frame_full(final(self).held@) ==> final(self).published_pos == (match ndc_of(
                located_screen(final(self).held@),
            ) {
                Some(p) => Some(p),
                None => old(self).published_pos,
            }),
            !frame_full(final(self).held@) ==> final(self).published_pos == old(self).published_pos,
            incoming is None ==> final(self).held@ == old(self).held@ && final(self).pixels@
                == old(self).pixels@ && final(self).published_pos == old(self).published_pos,
    {
        match incoming {
            Some(f) => {
                if f.len() == 0 || f.len() == FRAME_SAMPLES {
                    self.held = f;
                }
            },
            None => {},
        }
        if self.held.len() == FRAME_SAMPLES {
            update_image_from_depth_data(&self.held, &mut self.pixels);
            let pos = center_of_close_blob(&self.held);
            proof {
                assert(pos == located_screen(self.held@));
            }
            match screen_to_ndc(pos) {
                Some(p) => {
                    self.published_pos = Some(p);
                },
                None => {},
            }
        }
    }
}

} // verus!
