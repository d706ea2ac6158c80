use depth_track::visual::depth_to_pixels;
use depth_track::visual::update_image_from_depth_data;

#[test]
fn alpha_is_depth_over_eight_clamped() {
    let data: Vec<u16> = vec![0, 7, 8, 100, 1000, 2040, 2047, 65535];
    let pixels = depth_to_pixels(&data);
    let expected_alpha: Vec<u8> = vec![0, 0, 1, 12, 125, 255, 255, 255];
    assert_eq!(pixels.len(), 4 * data.len());
    for (i, a) in expected_alpha.iter().enumerate() {
        assert_eq!(&pixels[4 * i..4 * i + 4], &[0, 0, 0, *a]);
    }
}

#[test]
fn identical_frames_yield_identical_buffers() {
    let data: Vec<u16> = (0..1000u16).map(|i| i * 13 % 2048).collect();
    let first = depth_to_pixels(&data);
    let second = depth_to_pixels(&data);
    assert_eq!(first, second);
}

#[test]
fn empty_frame_leaves_buffer_untouched() {
    let data: Vec<u16> = Vec::new();
    let mut buffer: Vec<u8> = vec![9, 8, 7, 6];
    update_image_from_depth_data(&data, &mut buffer);
    assert_eq!(buffer, vec![9, 8, 7, 6]);
}

#[test]
fn non_empty_frame_overwrites_buffer() {
    let data: Vec<u16> = vec![80, 81];
    let mut buffer: Vec<u8> = vec![9, 8, 7, 6];
    update_image_from_depth_data(&data, &mut buffer);
    assert_eq!(buffer, vec![0, 0, 0, 10, 0, 0, 0, 10]);
}
