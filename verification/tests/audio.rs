use fluid_voice_windows::audio::{
    requested_device, supported_summary, AudioError, AudioInputDevice, SupportedConfigRange,
};

fn range(channels: u16, min: u32, max: u32) -> SupportedConfigRange {
    SupportedConfigRange {
        channels,
        min_sample_rate: min,
        max_sample_rate: max,
    }
}

#[test]
fn summary_sorts_distinct_channels_and_bounds_rates() {
    let summary = supported_summary(&vec![
        range(2, 44_100, 48_000),
        range(1, 8_000, 96_000),
        range(2, 16_000, 192_000),
        range(6, 48_000, 48_000),
    ]);
    assert_eq!(summary.channels, vec![1, 2, 6]);
    assert_eq!(summary.min_sample_rate, Some(8_000));
    assert_eq!(summary.max_sample_rate, Some(192_000));
}

#[test]
fn summary_of_no_configs_is_empty() {
    let summary = supported_summary(&Vec::new());
    assert!(summary.channels.is_empty());
    assert_eq!(summary.min_sample_rate, None);
    assert_eq!(summary.max_sample_rate, None);
}

#[test]
fn device_is_default_when_names_match() {
    let summary = supported_summary(&vec![range(1, 16_000, 48_000)]);
    let device = AudioInputDevice::describe("Mic", Some("Mic"), summary);
    assert!(device.is_default);
    assert_eq!(device.id, "Mic");
    let other = AudioInputDevice::describe("USB", Some("Mic"), supported_summary(&Vec::new()));
    assert!(!other.is_default);
}

#[test]
fn blank_device_id_asks_for_default() {
    assert_eq!(requested_device(None), None);
    assert_eq!(requested_device(Some("  ")), None);
    assert_eq!(requested_device(Some(" Mic ")), Some(" Mic ".to_string()));
}

#[test]
fn audio_error_messages() {
    assert_eq!(
        AudioError::DeviceNotFound("USB".to_string()).message(),
        "input device not found: USB"
    );
    assert_eq!(AudioError::NotRecording.message(), "there is no active recording");
}
