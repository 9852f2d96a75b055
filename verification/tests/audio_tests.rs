use voxie::audio::{audio_energy, is_quiet, is_silent, resample_to_mono, samples_to_ms};

#[test]
fn identity_mono_same_rate() {
    let data: Vec<i16> = vec![3, -7, 200, -32768, 32767, 0];
    let out = resample_to_mono(&data, 16000, 1, 16000);
    assert_eq!(out, data);
}

#[test]
fn identity_zero_channels_same_rate() {
    // a channel count of zero passes through like mono
    let data: Vec<i16> = vec![5, 6, 7];
    let out = resample_to_mono(&data, 44100, 0, 44100);
    assert_eq!(out, data);
}

#[test]
fn mixdown_identical_stereo_channels() {
    let data: Vec<i16> = vec![10, 10, -500, -500, 32767, 32767, 0, 0];
    let out = resample_to_mono(&data, 16000, 2, 16000);
    assert_eq!(out, vec![10, -500, 32767, 0]);
}

#[test]
fn mixdown_averages_frames() {
    let data: Vec<i16> = vec![10, 20, 7, 8];
    let out = resample_to_mono(&data, 16000, 2, 16000);
    // (10+20)/2 = 15, (7+8)/2 = 7 (rounded down)
    assert_eq!(out, vec![15, 7]);
}

#[test]
fn half_rate_length_and_constant_value() {
    let data: Vec<i16> = vec![1234; 1000];
    let out = resample_to_mono(&data, 32000, 1, 16000);
    assert_eq!(out.len(), 500);
    assert!(out.iter().all(|&s| s == 1234));

    let odd: Vec<i16> = vec![-77; 999];
    let out = resample_to_mono(&odd, 32000, 1, 16000);
    assert_eq!(out.len(), 500);
    assert!(out.iter().all(|&s| s == -77));
}

#[test]
fn empty_input_empty_output() {
    let data: Vec<i16> = Vec::new();
    assert_eq!(resample_to_mono(&data, 48000, 2, 16000), Vec::<i16>::new());
    assert_eq!(resample_to_mono(&data, 16000, 1, 16000), Vec::<i16>::new());
}

#[test]
fn downsample_three_to_one_interpolates() {
    // 48000 -> 16000 picks every third sample exactly
    let data: Vec<i16> = (0..12).map(|i| (i * 100) as i16).collect();
    let out = resample_to_mono(&data, 48000, 1, 16000);
    assert_eq!(out, vec![0, 300, 600, 900]);
}

#[test]
fn upsample_doubles_and_blends() {
    let data: Vec<i16> = vec![0, 100];
    let out = resample_to_mono(&data, 8000, 1, 16000);
    // positions 0, 1/2, 1, 3/2: the last clamps to the final sample
    assert_eq!(out, vec![0, 50, 100, 100]);
}

#[test]
fn duration_exact_values() {
    assert_eq!(samples_to_ms(32000, 16000), 2000);
    assert_eq!(samples_to_ms(16000, 16000), 1000);
    assert_eq!(samples_to_ms(8000, 16000), 500);
    assert_eq!(samples_to_ms(1, 16000), 0);
    assert_eq!(samples_to_ms(0, 16000), 0);
}

#[test]
fn energy_is_sum_of_squares() {
    let data: Vec<i16> = vec![3, -4];
    assert_eq!(audio_energy(&data), 25);
    assert_eq!(audio_energy(&Vec::new()), 0);
}

#[test]
fn all_zero_audio_is_silent() {
    let data: Vec<i16> = vec![0; 16000];
    assert!(is_silent(&data));
    assert!(is_quiet(&data));
}

#[test]
fn loud_audio_is_not_silent() {
    let data: Vec<i16> = vec![3000; 16000];
    assert!(!is_silent(&data));
    assert!(!is_quiet(&data));
}

#[test]
fn silence_threshold_edge() {
    // one sample: silent iff 4_000_000 * s^2 < 32767^2 = 1073676289
    let just_below: Vec<i16> = vec![16];
    assert!(is_silent(&just_below)); // 4e6 * 256 = 1.024e9 < 1.0737e9
    let just_above: Vec<i16> = vec![17];
    assert!(!is_silent(&just_above)); // 4e6 * 289 = 1.156e9
}

#[test]
fn empty_audio_is_not_silent_by_definition() {
    // emptiness is the EmptyAudio error's business, not the silence gate's
    let data: Vec<i16> = Vec::new();
    assert!(!is_silent(&data));
}
