//! Depth visualization: each depth sample becomes one RGBA pixel whose
//! colour channels are zero and whose alpha channel is the sample divided by
//! eight (truncating), clamped into the byte range. Pixels come in the same
//! row-major order as the samples; an empty frame leaves the target buffer
//! untouched.

use vstd::prelude::*;

verus! {

/// Alpha byte of one depth sample: floor(sample / 8), clamped into
/// `0 ..= 255`.
pub open spec fn alpha_of(sample: u16) -> u8 {
    if sample / 8 > 255 {
        255u8
    } else {
        (sample / 8) as u8
    }
}

/// The RGBA bytes visualizing a frame: four bytes per sample, colour
/// channels zero, alpha from `alpha_of`.
pub open spec fn pixel_seq(s: Seq<u16>) -> Seq<u8> {
    Seq::new(
        4 * s.len(),
        |i: int|
            if i % 4 == 3 {
                alpha_of(s[i / 4])
            } else {
                0u8
            },
    )
}

/// Render a frame into a fresh RGBA buffer.
pub fn depth_to_pixels(data: &Vec<u16>) -> (pixels: Vec<u8>)
    ensures
        pixels@ == pixel_seq(data@),
{
    let mut pixels: Vec<u8> = Vec::new();
    let mut i: usize = 0;
    while i < data.len()
        invariant
            i <= data@.len(),
            pixels@.len() == 4 * i,
            forall|k: int| 0 <= k < pixels@.len() ==> pixels@[k] == pixel_seq(data@)[k],
        decreases data@.len() - i,
    {
        let m = data[i];
        pixels.push(0);
        pixels.push(0);
        pixels.push(0);
        let a = m / 8;
        let clamped: u8 = if a > 255 {
            255
        } else {
            a as u8
        };
        pixels.push(clamped);
        proof {
            assert(clamped == alpha_of(data@[i as int]));
            assert forall|k: int| 0 <= k < pixels@.len() implies pixels@[k] == pixel_seq(data@)[k] by {
                if k < 4 * i {
                } else {
                    assert(k / 4 == i && (k % 4 == 3 <==> k == 4 * i + 3));
                }
            };
        }
        i += 1;
    }
    proof {
        assert(pixels@ =~= pixel_seq(data@));
    }
    pixels
}

/// The buffer state after publishing a frame over a prior buffer: an absent
/// (empty) frame leaves the buffer as it was, any other frame replaces it
/// with the frame's visualization.
pub open spec fn updated_pixels(prior: Seq<u8>, d: Seq<u16>) -> Seq<u8> {
    if d.len() == 0 {
        prior
    } else {
        pixel_seq(d)
    }
}

/// Overwrite the published pixel buffer from the current frame; an absent
/// (empty) frame leaves the buffer untouched, matching the "no partial
/// update" rule.
pub fn update_image_from_depth_data(data: &Vec<u16>, pixels: &mut Vec<u8>)
    ensures
        final(pixels)@ == updated_pixels(old(pixels)@, data@),
{
    if data.len() == 0 {
        return ;
    }
    *pixels = depth_to_pixels(data);
}

/// The visualization is a pure function of the frame: byte `4i + 3` is the
/// clamped alpha of sample `i`, the other three bytes of each pixel are
/// zero, and the buffer holds exactly four bytes per sample.
pub proof fn lemma_visualizer_pointwise(s: Seq<u16>, i: int)
    requires
        0 <= i < s.len(),
    ensures
        pixel_seq(s).len() == 4 * s.len(),
        pixel_seq(s)[4 * i] == 0,
        pixel_seq(s)[4 * i + 1] == 0,
        pixel_seq(s)[4 * i + 2] == 0,
        pixel_seq(s)[4 * i + 3] == alpha_of(s[i]),
        alpha_of(s[i]) <= 255,
        s[i] / 8 <= 255 ==> alpha_of(s[i]) == s[i] / 8,
{
    assert((4 * i) / 4 == i && (4 * i) % 4 == 0);
    assert((4 * i + 1) / 4 == i && (4 * i + 1) % 4 == 1);
    assert((4 * i + 2) / 4 == i && (4 * i + 2) % 4 == 2);
    assert((4 * i + 3) / 4 == i && (4 * i + 3) % 4 == 3);
}

/// Identical frames visualize to identical buffers: the output depends on
/// the samples alone.
pub proof fn lemma_visualizer_deterministic(a: Seq<u16>, b: Seq<u16>)
    requires
        a == b,
    ensures
        pixel_seq(a) == pixel_seq(b),
{
}

/// Publishing one non-empty frame is deterministic and pure in the stateful
/// sense too: whatever two buffers held before, updating both from the same
/// frame leaves them byte-identical. (An empty frame instead keeps each
/// buffer as it was, so it is left out here.)
pub proof fn lemma_update_image_deterministic(d: Seq<u16>, prior1: Seq<u8>, prior2: Seq<u8>)
    requires
        d.len() > 0,
    ensures
        updated_pixels(prior1, d) == updated_pixels(prior2, d),
{
}

} // verus!
