use discord2::audio::{
    capture_to_stereo, fill_period, monitor_to_stereo, needs_resample, select_for_output,
};

#[test]
fn capture_mono_is_doubled() {
    assert_eq!(capture_to_stereo(&[1, 2, 3], 1), vec![1, 1, 2, 2, 3, 3]);
}

#[test]
fn capture_stereo_passes_unchanged() {
    assert_eq!(capture_to_stereo(&[1, 2, 3, 4], 2), vec![1, 2, 3, 4]);
}

#[test]
fn capture_other_layouts_send_nothing() {
    assert_eq!(capture_to_stereo(&[1, 2, 3, 4, 5, 6], 6), Vec::<u32>::new());
    assert_eq!(capture_to_stereo(&[1, 2], 0), Vec::<u32>::new());
}

#[test]
fn capture_of_float_samples_keeps_their_bits() {
    let data: Vec<u32> = [0.5f32, -0.25f32].iter().map(|s| s.to_bits()).collect();
    let out: Vec<f32> = capture_to_stereo(&data, 1).into_iter().map(f32::from_bits).collect();
    assert_eq!(out, vec![0.5, 0.5, -0.25, -0.25]);
}

#[test]
fn monitor_mono_is_doubled_and_others_pass() {
    assert_eq!(monitor_to_stereo(&[7, 8], 1), vec![7, 7, 8, 8]);
    assert_eq!(monitor_to_stereo(&[7, 8, 9], 3), vec![7, 8, 9]);
    assert_eq!(monitor_to_stereo(&[], 1), Vec::<u32>::new());
}

#[test]
fn output_selection_by_channels() {
    assert_eq!(select_for_output(&[1, 2, 3, 4, 5], 2), vec![1, 2, 3, 4, 5]);
    assert_eq!(select_for_output(&[1, 2, 3, 4, 5], 1), vec![1, 3, 5]);
    assert_eq!(select_for_output(&[1, 2, 3, 4], 1), vec![1, 3]);
    assert_eq!(select_for_output(&[1, 2, 3, 4], 6), Vec::<u32>::new());
}

#[test]
fn mono_capture_played_on_mono_device_round_trips() {
    let data = vec![10, 20, 30, 40];
    assert_eq!(select_for_output(&capture_to_stereo(&data, 1), 1), data);
    assert_eq!(select_for_output(&capture_to_stereo(&data, 2), 2), data);
}

#[test]
fn resampling_only_between_different_rates_of_something() {
    assert!(needs_resample(44100, 48000, 10));
    assert!(!needs_resample(48000, 48000, 10));
    assert!(!needs_resample(44100, 48000, 0));
}

#[test]
fn fill_period_pads_with_silence() {
    assert_eq!(fill_period(&[7, 8], 4), vec![7, 8, 0, 0]);
    assert_eq!(fill_period(&[7, 8, 9], 2), vec![7, 8]);
    assert_eq!(fill_period(&[], 0), Vec::<u32>::new());
    assert_eq!(f32::from_bits(fill_period(&[], 1)[0]), 0.0);
}
