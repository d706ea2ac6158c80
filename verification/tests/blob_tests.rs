use depth_track::blob::center_of_close_blob;
use depth_track::blob::ScreenPosition;

const W: usize = 640;
const H: usize = 480;

fn uniform_frame(depth: u16) -> Vec<u16> {
    vec![depth; W * H]
}

fn set_rect(frame: &mut Vec<u16>, c0: usize, c1: usize, r0: usize, r1: usize, depth: u16) {
    for r in r0..=r1 {
        for c in c0..=c1 {
            frame[r * W + c] = depth;
        }
    }
}

#[test]
fn no_near_sample_returns_sentinel() {
    let frame = uniform_frame(1000);
    let pos = center_of_close_blob(&frame);
    assert_eq!(pos, ScreenPosition { x: 0, y: 0 });
}

#[test]
fn threshold_is_strict() {
    // A sample exactly at the threshold is not near; one below is.
    let mut frame = uniform_frame(1000);
    frame[100 * W + 200] = 400;
    let pos = center_of_close_blob(&frame);
    assert_eq!(pos, ScreenPosition { x: 0, y: 0 });

    frame[100 * W + 200] = 399;
    let pos = center_of_close_blob(&frame);
    assert_eq!(pos, ScreenPosition { x: 200, y: 100 });
}

#[test]
fn rectangular_region_yields_bounding_box_midpoint() {
    let mut frame = uniform_frame(1000);
    set_rect(&mut frame, 100, 199, 50, 99, 120);
    let pos = center_of_close_blob(&frame);
    assert_eq!(pos, ScreenPosition { x: (100 + 199) / 2, y: (50 + 99) / 2 });
}

#[test]
fn single_near_pixel_is_its_own_center() {
    let mut frame = uniform_frame(2047);
    frame[20 * W + 10] = 1;
    let pos = center_of_close_blob(&frame);
    assert_eq!(pos, ScreenPosition { x: 10, y: 20 });
}

#[test]
fn detection_at_origin_is_indistinguishable_from_none() {
    // The inherited ambiguity: a genuine blob at the origin reports the
    // same value as "nothing detected".
    let mut frame = uniform_frame(1000);
    frame[0] = 10;
    let pos = center_of_close_blob(&frame);
    assert_eq!(pos, ScreenPosition { x: 0, y: 0 });
}

#[test]
fn centered_block_scenario() {
    // All samples at depth 1000 except a 10 x 10 block of depth 100 around
    // pixel (320, 240).
    let mut frame = uniform_frame(1000);
    set_rect(&mut frame, 315, 324, 235, 244, 100);
    let pos = center_of_close_blob(&frame);
    assert_eq!(pos, ScreenPosition { x: 319, y: 239 });
    assert!((pos.x as i32 - 320).abs() <= 1);
    assert!((pos.y as i32 - 240).abs() <= 1);
}

#[test]
fn disjoint_blobs_share_one_bounding_box() {
    // Two near regions: the reported point is the midpoint of the joint
    // bounding extent.
    let mut frame = uniform_frame(1000);
    set_rect(&mut frame, 10, 19, 100, 109, 50);
    set_rect(&mut frame, 600, 609, 300, 309, 50);
    let pos = center_of_close_blob(&frame);
    assert_eq!(pos, ScreenPosition { x: (10 + 609) / 2, y: (100 + 309) / 2 });
}
