use byd::layout::{
    LayoutError, UniformLayout, ACTOR_UNIFORM_SIZE, CAMERA_UNIFORM_SIZE, FLAG_SIZE, MAX_OBJECTS,
};

#[test]
fn the_usual_alignment_is_usable() {
    let layout = UniformLayout::new(256).unwrap();
    assert_eq!(layout.alignment(), 256);
    assert_eq!(layout.camera_buffer_size(), 256);
    assert_eq!(layout.actor_buffer_size(), 2048 * 256);
    assert_eq!(layout.enabled_buffer_size(), 512);
}

#[test]
fn an_alignment_below_the_camera_record_is_too_small() {
    assert_eq!(UniformLayout::new(0).unwrap_err(), LayoutError::TooSmall);
    assert_eq!(UniformLayout::new(64).unwrap_err(), LayoutError::TooSmall);
    assert_eq!(UniformLayout::new(127).unwrap_err(), LayoutError::TooSmall);
    assert_eq!(UniformLayout::new(128).unwrap().alignment(), 128);
}

#[test]
fn an_alignment_that_is_no_multiple_of_four_is_unaligned() {
    assert_eq!(UniformLayout::new(129).unwrap_err(), LayoutError::Unaligned);
    assert_eq!(UniformLayout::new(130).unwrap_err(), LayoutError::Unaligned);
    assert_eq!(UniformLayout::new(132).unwrap().alignment(), 132);
}

#[test]
fn an_alignment_whose_last_slot_is_out_of_reach_is_too_large() {
    // 2048 * 2097151 < 2^32 <= 2048 * 2097152
    assert_eq!(UniformLayout::new(2_097_152).unwrap_err(), LayoutError::TooLarge);
    assert_eq!(UniformLayout::new(u32::MAX - 3).unwrap_err(), LayoutError::TooLarge);
    assert_eq!(UniformLayout::new(2_097_148).unwrap().alignment(), 2_097_148);
}

#[test]
fn slots_start_at_multiples_of_the_alignment() {
    let layout = UniformLayout::new(256).unwrap();
    assert_eq!(layout.actor_offset(0), Some(0));
    assert_eq!(layout.actor_offset(1), Some(256));
    assert_eq!(layout.actor_offset(2), Some(512));
    assert_eq!(layout.actor_offset(2047), Some(2047 * 256));
    assert_eq!(layout.actor_offset(2048), None);
    assert_eq!(layout.actor_offset(u64::MAX), None);
}

#[test]
fn distinct_slots_have_distinct_aligned_offsets() {
    for alignment in [128u32, 256, 260, 1024] {
        let layout = UniformLayout::new(alignment).unwrap();
        let mut last: Option<u32> = None;
        for index in 0..MAX_OBJECTS {
            let offset = layout.actor_offset(index).unwrap();
            assert_eq!(offset % alignment, 0);
            assert!(offset as u64 + ACTOR_UNIFORM_SIZE <= layout.actor_buffer_size());
            if let Some(before) = last {
                assert!(before as u64 + ACTOR_UNIFORM_SIZE <= offset as u64);
            }
            last = Some(offset);
        }
    }
}

#[test]
fn the_largest_usable_alignment_keeps_every_offset_in_32_bits() {
    let layout = UniformLayout::new(2_097_148).unwrap();
    assert_eq!(layout.actor_offset(2047), Some(4_292_861_956));
    assert_eq!(layout.actor_buffer_size(), 2048 * 2_097_148);
}

#[test]
fn the_placeholder_has_the_flag_off_and_every_other_texture_on() {
    let layout = UniformLayout::new(512).unwrap();
    assert_eq!(layout.enabled_offset(0), 0);
    assert_eq!(layout.enabled_offset(1), 512);
    assert_eq!(layout.enabled_offset(99), 512);
    assert!(layout.enabled_offset(1) as u64 + FLAG_SIZE <= layout.enabled_buffer_size());
}

#[test]
fn the_records_have_their_sizes() {
    assert_eq!(CAMERA_UNIFORM_SIZE, 128);
    assert_eq!(ACTOR_UNIFORM_SIZE, 80);
    assert_eq!(MAX_OBJECTS, 2048);
}
