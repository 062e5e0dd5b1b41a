use byd::state::{accepts_size, next_pow2, readback_layout};
use byd::texture::ImageDataLayout;

#[test]
fn small_numbers_round_up_to_the_next_power_of_two() {
    let expected = [1u32, 1, 2, 4, 4, 8, 8, 8, 8, 16, 16, 16, 16, 16, 16, 16, 16, 32];
    for (n, p) in expected.iter().enumerate() {
        assert_eq!(next_pow2(n as u32), *p, "for {}", n);
    }
}

#[test]
fn a_power_of_two_stays() {
    for k in 0..32 {
        assert_eq!(next_pow2(1u32 << k), 1u32 << k);
    }
    for k in 2..31 {
        assert_eq!(next_pow2((1u32 << k) + 1), 1u32 << (k + 1));
        assert_eq!(next_pow2((1u32 << k) - 1), 1u32 << k);
    }
}

#[test]
fn above_two_to_the_31_there_is_no_power_of_two() {
    assert_eq!(next_pow2(0x8000_0000), 0x8000_0000);
    assert_eq!(next_pow2(0x8000_0001), 0);
    assert_eq!(next_pow2(u32::MAX), 0);
}

#[test]
fn a_frame_is_read_back_in_rows_of_a_power_of_two() {
    assert_eq!(
        readback_layout(128, 128),
        Some(ImageDataLayout { offset: 0, bytes_per_row: Some(512), rows_per_image: Some(128) })
    );
    assert_eq!(
        readback_layout(1280, 720),
        Some(ImageDataLayout { offset: 0, bytes_per_row: Some(8192), rows_per_image: Some(1024) })
    );
    assert_eq!(
        readback_layout(1, 0),
        Some(ImageDataLayout { offset: 0, bytes_per_row: Some(4), rows_per_image: Some(1) })
    );
}

#[test]
fn a_frame_without_columns_or_too_large_is_not_read_back() {
    assert_eq!(readback_layout(0, 10), None);
    // 2^29 pixels are 2^31 bytes to the row, 2^29 + 1 round up to 2^30 pixels
    assert_eq!(
        readback_layout(1 << 29, 1),
        Some(ImageDataLayout { offset: 0, bytes_per_row: Some(1 << 31), rows_per_image: Some(1) })
    );
    assert_eq!(readback_layout((1 << 29) + 1, 1), None);
    assert_eq!(readback_layout(u32::MAX, 1), None);
    assert_eq!(readback_layout(1, 0x8000_0001), None);
    assert!(readback_layout(1, 0x8000_0000).is_some());
}

#[test]
fn an_empty_window_is_passed_over() {
    assert!(accepts_size(1, 1));
    assert!(!accepts_size(0, 1));
    assert!(!accepts_size(1, 0));
    assert!(!accepts_size(0, 0));
}
