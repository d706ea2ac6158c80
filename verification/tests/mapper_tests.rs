use depth_track::blob::ScreenPosition;
use depth_track::mapper::screen_to_ndc;
use depth_track::mapper::NdcPosition;

#[test]
fn sentinel_column_is_rejected() {
    // x below one pixel means "no valid detection", whatever the row.
    assert_eq!(screen_to_ndc(ScreenPosition { x: 0, y: 0 }), None);
    assert_eq!(screen_to_ndc(ScreenPosition { x: 0, y: 240 }), None);
    assert_eq!(screen_to_ndc(ScreenPosition { x: 0, y: 479 }), None);
}

#[test]
fn frame_center_maps_to_ndc_origin() {
    // (320, 240) flips to (320, 240) and normalizes to NDC (0, 0).
    let r = screen_to_ndc(ScreenPosition { x: 320, y: 240 });
    assert_eq!(r, Some(NdcPosition { x: 0, y: 0 }));
}

#[test]
fn near_corner_maps_to_ndc_extremes() {
    // (1, 0) flips to (1, 480): NDC numerators (2*1 - 640, 2*480 - 480).
    let r = screen_to_ndc(ScreenPosition { x: 1, y: 0 });
    assert_eq!(r, Some(NdcPosition { x: -638, y: 480 }));

    // (639, 479) flips to (639, 1): NDC numerators (638, -478).
    let r = screen_to_ndc(ScreenPosition { x: 639, y: 479 });
    assert_eq!(r, Some(NdcPosition { x: 638, y: -478 }));
}

#[test]
fn mapping_is_idempotent_for_identical_inputs() {
    let pos = ScreenPosition { x: 123, y: 45 };
    let first = screen_to_ndc(pos);
    let second = screen_to_ndc(pos);
    assert_eq!(first, second);
    assert_eq!(first, Some(NdcPosition { x: 2 * 123 - 640, y: 2 * (480 - 45) - 480 }));
}
