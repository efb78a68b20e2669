use pipewire::peaks::{all_channel_peaks, channel_peak};
use pipewire::registry::{core_error_requests_quit, should_bind, ObjectKind};

fn samples_as_bytes(samples: &[f32]) -> Vec<u8> {
    let mut bytes = Vec::new();
    for s in samples {
        bytes.extend_from_slice(&s.to_le_bytes());
    }
    bytes
}

#[test]
fn only_connection_errors_are_fatal() {
    assert!(core_error_requests_quit(0));
    assert!(!core_error_requests_quit(1));
    assert!(!core_error_requests_quit(42));
}

#[test]
fn only_ports_are_bound() {
    assert!(should_bind(&ObjectKind::Port));
    assert!(!should_bind(&ObjectKind::Node));
    assert!(!should_bind(&ObjectKind::Link));
    assert!(!should_bind(&ObjectKind::Other));
}

#[test]
fn channel_peak_takes_magnitudes() {
    let bytes = samples_as_bytes(&[0.1, -0.5, 0.3]);
    let peak = channel_peak(&bytes, 0, 1, 3);
    assert_eq!(f32::from_bits(peak), 0.5);
}

#[test]
fn channel_peak_of_empty_channel_is_zero() {
    let bytes = samples_as_bytes(&[0.5]);
    // Channel 1 of a two-channel layout has no sample in a one-sample block.
    let peak = channel_peak(&bytes, 1, 2, 0);
    assert_eq!(peak, 0);
}

#[test]
fn channel_peak_strides_over_other_channels() {
    let bytes = samples_as_bytes(&[0.25, 0.5, -0.75, 0.125]);
    assert_eq!(f32::from_bits(channel_peak(&bytes, 0, 2, 4)), 0.75);
    assert_eq!(f32::from_bits(channel_peak(&bytes, 1, 2, 4)), 0.5);
}

#[test]
fn all_channel_peaks_reports_each_channel() {
    let bytes = samples_as_bytes(&[1.0, -2.0, 0.5, 1.5, -0.25, 0.125]);
    let peaks = all_channel_peaks(&bytes, 3, 6);
    assert_eq!(peaks.len(), 3);
    assert_eq!(f32::from_bits(peaks[0]), 1.5);
    assert_eq!(f32::from_bits(peaks[1]), 2.0);
    assert_eq!(f32::from_bits(peaks[2]), 0.5);
}

#[test]
fn zero_channels_yield_no_peaks() {
    let bytes = samples_as_bytes(&[0.5, 0.5]);
    let peaks = all_channel_peaks(&bytes, 0, 2);
    assert!(peaks.is_empty());
}

#[test]
fn undefined_samples_take_no_part_in_the_peak() {
    let bytes = samples_as_bytes(&[0.1, f32::NAN, 0.3]);
    let peak = channel_peak(&bytes, 0, 1, 3);
    assert_eq!(f32::from_bits(peak), 0.3);
}

#[test]
fn all_undefined_block_peaks_at_zero() {
    let bytes = samples_as_bytes(&[f32::NAN, -f32::NAN]);
    let peak = channel_peak(&bytes, 0, 1, 2);
    assert_eq!(f32::from_bits(peak), 0.0);
}

#[test]
fn infinite_magnitude_is_the_peak() {
    let bytes = samples_as_bytes(&[0.5, f32::NEG_INFINITY, 0.25]);
    let peak = channel_peak(&bytes, 0, 1, 3);
    assert_eq!(f32::from_bits(peak), f32::INFINITY);
}

#[test]
fn trailing_partial_sample_is_ignored() {
    let mut bytes = samples_as_bytes(&[0.5]);
    bytes.push(0xff);
    // One whole sample; the stray byte beyond it plays no part.
    let peak = channel_peak(&bytes, 0, 1, 1);
    assert_eq!(f32::from_bits(peak), 0.5);
}
