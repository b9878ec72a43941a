use sine_engine::pipeline::{
    check_format, fill_interleaved_i16, fill_interleaved_u16, SampleFormat, SetupError,
};

#[test]
fn stereo_interleaving_is_left_even_right_odd() {
    let frames = vec![(1000i64, -1000i64), (2000, -2000)];
    let mut out = vec![0i16; 4];
    fill_interleaved_i16(&mut out, 2, &frames);
    assert_eq!(out, vec![1000, -1000, 2000, -2000]);
}

#[test]
fn mono_buffers_take_the_left_sample() {
    let frames = vec![(10i64, -10i64), (20, -20), (30, -30)];
    let mut out = vec![0i16; 3];
    fill_interleaved_i16(&mut out, 1, &frames);
    assert_eq!(out, vec![10, 20, 30]);
}

#[test]
fn odd_channel_counts_still_alternate_by_index() {
    // With three channels the rule still assigns left to even channel
    // indices (0 and 2) and right to the odd one (1).
    let frames = vec![(7i64, -7i64), (9, -9)];
    let mut out = vec![0i16; 6];
    fill_interleaved_i16(&mut out, 3, &frames);
    assert_eq!(out, vec![7, -7, 7, 9, -9, 9]);

    let frames5 = vec![(3i64, -3i64)];
    let mut out5 = vec![0i16; 5];
    fill_interleaved_i16(&mut out5, 5, &frames5);
    assert_eq!(out5, vec![3, -3, 3, -3, 3]);
}

#[test]
fn a_trailing_partial_frame_is_filled() {
    let frames = vec![(1i64, -1i64), (2, -2), (3, -3)];
    let mut out = vec![0i16; 5];
    fill_interleaved_i16(&mut out, 2, &frames);
    assert_eq!(out, vec![1, -1, 2, -2, 3]);
}

#[test]
fn interleaved_samples_are_clamped() {
    let frames = vec![(40_000i64, -40_000i64)];
    let mut out = vec![0i16; 2];
    fill_interleaved_i16(&mut out, 2, &frames);
    assert_eq!(out, vec![32767, -32768]);
}

#[test]
fn unsigned_fill_uses_offset_binary() {
    let frames = vec![(0i64, -32768i64), (32767, 40_000)];
    let mut out = vec![0u16; 4];
    fill_interleaved_u16(&mut out, 2, &frames);
    assert_eq!(out, vec![32768, 0, 65535, 65535]);
}

#[test]
fn supported_formats_pass_setup() {
    assert_eq!(check_format(SampleFormat::F32), Ok(SampleFormat::F32));
    assert_eq!(check_format(SampleFormat::I16), Ok(SampleFormat::I16));
    assert_eq!(check_format(SampleFormat::U16), Ok(SampleFormat::U16));
}

#[test]
fn unsupported_formats_fail_fast_at_setup() {
    assert_eq!(
        check_format(SampleFormat::Other),
        Err(SetupError::UnsupportedFormat)
    );
}
