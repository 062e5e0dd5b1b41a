use byd::term::{
    frame_wait, pixel_at, readback_expired, CANVAS_SIZE, FPS, FRAME_NANOS, OUTPUT_BUFFER_SIZE,
    READBACK_WAIT_NANOS,
};

fn buffer() -> Vec<u8> {
    (0..OUTPUT_BUFFER_SIZE as usize).map(|i| (i % 251) as u8).collect()
}

#[test]
fn a_cell_takes_the_four_bytes_of_its_pixel() {
    let data = buffer();
    assert_eq!(pixel_at(&data, 0, 0), Some((0, 1, 2, 3)));
    assert_eq!(pixel_at(&data, 1, 0), Some((4, 5, 6, 7)));
    // row 1 starts 512 bytes in: 512 % 251 == 10
    assert_eq!(pixel_at(&data, 0, 1), Some((10, 11, 12, 13)));
    let last = (127 + 127 * 128) * 4;
    assert_eq!(
        pixel_at(&data, 127, 127),
        Some((data[last], data[last + 1], data[last + 2], data[last + 3]))
    );
    assert_eq!(last + 4, OUTPUT_BUFFER_SIZE as usize);
}

#[test]
fn a_cell_beyond_the_frame_has_no_pixel() {
    let data = buffer();
    assert_eq!(pixel_at(&data, 128, 0), None);
    assert_eq!(pixel_at(&data, 0, 128), None);
    assert_eq!(pixel_at(&data, usize::MAX, usize::MAX), None);
    assert_eq!(CANVAS_SIZE, 128);
}

#[test]
fn a_buffer_that_ends_early_has_no_pixel_there() {
    let data = buffer();
    assert_eq!(pixel_at(&data[..7], 1, 0), None);
    assert_eq!(pixel_at(&data[..8], 1, 0), Some((4, 5, 6, 7)));
    assert_eq!(pixel_at(&[], 0, 0), None);
}

#[test]
fn a_frame_waits_for_what_is_left_of_its_time() {
    assert_eq!(FPS, 30);
    assert_eq!(FRAME_NANOS, (1000 / FPS as u128) * 1_000_000);
    assert_eq!(frame_wait(0), 33_000_000);
    assert_eq!(frame_wait(10_000_000), 23_000_000);
    assert_eq!(frame_wait(32_999_999), 1);
    assert_eq!(frame_wait(33_000_000), 0);
    assert_eq!(frame_wait(u128::MAX), 0);
}

#[test]
fn a_frame_is_waited_for_no_longer_than_a_second() {
    assert_eq!(READBACK_WAIT_NANOS, 1_000_000_000);
    assert!(!readback_expired(0));
    assert!(!readback_expired(999_999_999));
    assert!(readback_expired(1_000_000_000));
    assert!(readback_expired(u128::MAX));
}
