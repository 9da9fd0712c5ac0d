use frame_throttle::{create_image_data, SurfaceError, VideoProcessor};

#[test]
fn it_works() {
    let result: usize = frame_throttle::add(2, 2);
    assert_eq!(result, 4);
}

#[test]
fn example_sequence_throttles_at_sixty_fps() {
    let mut processor = VideoProcessor::new(2, 1);
    let f1: [u8; 8] = [255, 0, 0, 255, 0, 255, 0, 255];
    let f2: [u8; 8] = [0, 0, 255, 255, 0, 0, 255, 255];
    // 16.67 ms in microseconds (the default, set here explicitly)
    processor.set_frame_skip_threshold(16_670);
    let out1: Vec<u8> = processor.process_frame(0, &f1);
    assert_eq!(out1, f1.to_vec());
    let out2: Vec<u8> = processor.process_frame(5_000, &f2);
    assert_eq!(out2, f1.to_vec());
    let out3: Vec<u8> = processor.process_frame(20_000, &f2);
    assert_eq!(out3, f2.to_vec());
    // the last accepted time moved to 20 ms: 10 ms later is again below the
    // threshold, so the frame accepted at 20 ms is still returned
    let out4: Vec<u8> = processor.process_frame(30_000, &f1);
    assert_eq!(out4, f2.to_vec());
}

#[test]
fn skip_returns_retained_buffer_unchanged() {
    let mut processor = VideoProcessor::new(1, 1);
    let f1: [u8; 4] = [1, 2, 3, 4];
    let f2: [u8; 4] = [9, 9, 9, 9];
    let accepted: Vec<u8> = processor.process_frame(0, &f1);
    assert_eq!(accepted, vec![1, 2, 3, 4]);
    let skipped: Vec<u8> = processor.process_frame(1, &f2);
    assert_eq!(skipped, vec![1, 2, 3, 4]);
    // the skip left the last accepted time at 0, so the threshold still
    // measures from there
    let skipped_again: Vec<u8> = processor.process_frame(16_669, &f2);
    assert_eq!(skipped_again, vec![1, 2, 3, 4]);
    let accepted_again: Vec<u8> = processor.process_frame(16_670, &f2);
    assert_eq!(accepted_again, vec![9, 9, 9, 9]);
}

#[test]
fn accept_drops_trailing_partial_group() {
    let mut processor = VideoProcessor::new(1, 1);
    let seven: [u8; 7] = [10, 20, 30, 40, 50, 60, 70];
    let out: Vec<u8> = processor.process_frame(0, &seven);
    assert_eq!(out, vec![10, 20, 30, 40]);
    let three: [u8; 3] = [1, 2, 3];
    let out2: Vec<u8> = processor.process_frame(100_000, &three);
    assert_eq!(out2, Vec::<u8>::new());
}

#[test]
fn output_before_first_accepted_frame_is_empty() {
    let mut processor = VideoProcessor::new(2, 2);
    let frame: [u8; 16] = [7; 16];
    // at the very start of time no interval has passed, so the frame is
    // skipped and the still-empty retained buffer comes back
    let out: Vec<u8> = processor.process_frame(i64::MIN, &frame);
    assert_eq!(out, Vec::<u8>::new());
}

#[test]
fn same_timestamp_same_input_gives_same_output() {
    let mut processor = VideoProcessor::new(1, 1);
    let frame: [u8; 4] = [5, 6, 7, 8];
    let first: Vec<u8> = processor.process_frame(1_000, &frame);
    let second: Vec<u8> = processor.process_frame(1_000, &frame);
    assert_eq!(first, second);
    // the same holds when skipping is disabled and both calls accept
    processor.set_frame_skip_threshold(0);
    let third: Vec<u8> = processor.process_frame(2_000, &frame);
    let fourth: Vec<u8> = processor.process_frame(2_000, &frame);
    assert_eq!(third, fourth);
}

#[test]
fn threshold_change_applies_to_later_calls_only() {
    let mut processor = VideoProcessor::new(1, 1);
    let f1: [u8; 4] = [1, 1, 1, 1];
    let f2: [u8; 4] = [2, 2, 2, 2];
    let f3: [u8; 4] = [3, 3, 3, 3];
    let out1: Vec<u8> = processor.process_frame(0, &f1);
    assert_eq!(out1, vec![1, 1, 1, 1]);
    let out2: Vec<u8> = processor.process_frame(10_000, &f2);
    assert_eq!(out2, vec![1, 1, 1, 1]);
    processor.set_frame_skip_threshold(5_000);
    // the earlier skip is not revisited; the retained frame is still f1, and
    // the next call is judged against the new threshold and accepts
    let out3: Vec<u8> = processor.process_frame(10_000, &f3);
    assert_eq!(out3, vec![3, 3, 3, 3]);
}

#[test]
fn default_threshold_is_one_sixty_fps_period() {
    let mut processor = VideoProcessor::new(1, 1);
    let f1: [u8; 4] = [1, 2, 3, 4];
    let f2: [u8; 4] = [5, 6, 7, 8];
    let accepted: Vec<u8> = processor.process_frame(0, &f1);
    assert_eq!(accepted, vec![1, 2, 3, 4]);
    let at_16669: Vec<u8> = processor.process_frame(16_669, &f2);
    assert_eq!(at_16669, vec![1, 2, 3, 4]);
    let at_16670: Vec<u8> = processor.process_frame(16_670, &f2);
    assert_eq!(at_16670, vec![5, 6, 7, 8]);
}

#[test]
fn negative_threshold_disables_skipping() {
    let mut processor = VideoProcessor::new(1, 1);
    processor.set_frame_skip_threshold(-1);
    let f1: [u8; 4] = [1, 1, 1, 1];
    let f2: [u8; 4] = [2, 2, 2, 2];
    let out1: Vec<u8> = processor.process_frame(0, &f1);
    assert_eq!(out1, vec![1, 1, 1, 1]);
    let out2: Vec<u8> = processor.process_frame(0, &f2);
    assert_eq!(out2, vec![2, 2, 2, 2]);
}

#[test]
fn returned_frame_is_a_copy_not_an_alias() {
    let mut processor = VideoProcessor::new(1, 1);
    let frame: [u8; 4] = [1, 2, 3, 4];
    let mut out: Vec<u8> = processor.process_frame(0, &frame);
    out[0] = 99;
    let again: Vec<u8> = processor.process_frame(0, &frame);
    assert_eq!(again, vec![1, 2, 3, 4]);
}

#[test]
fn surface_round_trip_preserves_bytes() {
    let bytes: [u8; 8] = [255, 0, 0, 255, 0, 255, 0, 255];
    let surface = create_image_data(2, 1, &bytes).unwrap();
    assert_eq!(surface.width(), 2);
    assert_eq!(surface.height(), 1);
    assert_eq!(surface.data().as_slice(), &bytes);
}

#[test]
fn surface_copies_the_callers_bytes() {
    let mut bytes: Vec<u8> = vec![1, 2, 3, 4];
    let surface = create_image_data(1, 1, &bytes).unwrap();
    bytes[0] = 99;
    assert_eq!(surface.data().as_slice(), &[1, 2, 3, 4]);
}

#[test]
fn surface_rejects_zero_dimensions() {
    assert!(matches!(create_image_data(0, 1, &[]), Err(SurfaceError::InvalidDimensions)));
    assert!(matches!(create_image_data(1, 0, &[]), Err(SurfaceError::InvalidDimensions)));
    assert!(matches!(create_image_data(0, 0, &[]), Err(SurfaceError::InvalidDimensions)));
}

#[test]
fn surface_rejects_length_mismatch() {
    let short: [u8; 7] = [0; 7];
    let long: [u8; 9] = [0; 9];
    let exact: [u8; 8] = [0; 8];
    assert!(matches!(create_image_data(2, 1, &short), Err(SurfaceError::LengthMismatch)));
    assert!(matches!(create_image_data(2, 1, &long), Err(SurfaceError::LengthMismatch)));
    assert!(create_image_data(2, 1, &exact).is_ok());
}
