use tomchat::audio::{downsample, prepare_chunk, stereo_to_mono, TARGET_SAMPLE_RATE};

#[test]
fn stereo_keeps_left_channel() {
    // [L0,R0,L1,R1,...] -> [L0,L1,...]
    let input: Vec<i16> = vec![10, -1, 20, -2, 30, -3, 40, -4];
    let mono = stereo_to_mono(&input);
    assert_eq!(mono, vec![10, 20, 30, 40]);
}

#[test]
fn stereo_drops_trailing_unpaired_sample() {
    let input: Vec<i16> = vec![5, 6, 7];
    let mono = stereo_to_mono(&input);
    assert_eq!(mono, vec![5]);
}

#[test]
fn stereo_of_empty_is_empty() {
    let input: Vec<i16> = Vec::new();
    assert_eq!(stereo_to_mono(&input), Vec::<i16>::new());
}

#[test]
fn downsample_averages_groups() {
    // 7 samples at ratio 3: ceil(7/3) = 3 outputs, the last group short.
    let input: Vec<i16> = vec![1, 2, 3, 10, 20, 30, 7];
    let out = downsample(&input, 3);
    assert_eq!(out, vec![2, 20, 7]);
}

#[test]
fn downsample_ratio_one_is_identity() {
    let input: Vec<i16> = vec![4, 5, 6];
    assert_eq!(downsample(&input, 1), vec![4, 5, 6]);
}

#[test]
fn downsample_rounds_toward_negative_infinity() {
    let input: Vec<i16> = vec![-3, -4];
    assert_eq!(downsample(&input, 2), vec![-4]);
}

#[test]
fn downsample_handles_extremes() {
    let input: Vec<i16> = vec![i16::MIN, i16::MIN, i16::MAX, i16::MAX];
    assert_eq!(downsample(&input, 2), vec![i16::MIN, i16::MAX]);
}

#[test]
fn downsample_of_empty_is_empty() {
    let input: Vec<i16> = Vec::new();
    assert_eq!(downsample(&input, 4), Vec::<i16>::new());
}

#[test]
fn prepare_chunk_stereo_then_decimation() {
    // 32 kHz stereo: take left channel, then average pairs (ratio 2).
    let input: Vec<i16> = vec![10, 0, 20, 0, 30, 0, 50, 0];
    let out = prepare_chunk(input, 2, 32000);
    assert_eq!(out, vec![15, 40]);
}

#[test]
fn prepare_chunk_at_target_rate_is_untouched() {
    let input: Vec<i16> = vec![1, 2, 3];
    let out = prepare_chunk(input.clone(), 1, TARGET_SAMPLE_RATE);
    assert_eq!(out, input);
}

#[test]
fn prepare_chunk_fractional_ratio_below_two_is_untouched() {
    // 22050 / 16000 = 1 in integer terms: no decimation.
    let input: Vec<i16> = vec![9, 8, 7];
    let out = prepare_chunk(input.clone(), 1, 22050);
    assert_eq!(out, input);
}

#[test]
fn prepare_chunk_mono_44100_halves() {
    let input: Vec<i16> = vec![100, 200, 300, 400, 500];
    let out = prepare_chunk(input, 1, 44100);
    assert_eq!(out, vec![150, 350, 500]);
}
