use audio_redirect::catalog::{AudioDevices, DeviceInfo, Direction};
use audio_redirect::config::{SampleFormat, StreamConfig, SupportedConfigRange};
use audio_redirect::devices::{default_input_device, get_input_devices, get_output_devices};
use audio_redirect::errors::AudioError;
use audio_redirect::report::render_inventory;
use audio_redirect::text::{fmt_u64, str_eq};

fn mic() -> DeviceInfo {
    DeviceInfo {
        name: String::from("Microphone"),
        default_input: Some(StreamConfig::new(48000, 2, SampleFormat::F32)),
        default_output: None,
        input_configs: vec![SupportedConfigRange::new(8000, 48000, 2, SampleFormat::F32)],
        output_configs: vec![],
        input_query_error: None,
        output_query_error: None,
    }
}

fn speakers() -> DeviceInfo {
    DeviceInfo {
        name: String::from("Speakers"),
        default_input: None,
        default_output: Some(StreamConfig::new(44100, 2, SampleFormat::I16)),
        input_configs: vec![],
        output_configs: vec![SupportedConfigRange::new(44100, 44100, 2, SampleFormat::I16)],
        input_query_error: None,
        output_query_error: None,
    }
}

fn broken() -> DeviceInfo {
    DeviceInfo {
        name: String::from("Loopback"),
        default_input: None,
        default_output: None,
        input_configs: vec![],
        output_configs: vec![],
        input_query_error: Some(String::from("backend timed out")),
        output_query_error: None,
    }
}

fn catalog() -> AudioDevices {
    AudioDevices::new(
        String::from("TestHost"),
        vec![mic(), speakers(), broken()],
        Some("Microphone"),
        Some("Speakers"),
    )
}

#[test]
fn resolves_defaults_by_name() {
    let c = catalog();
    assert_eq!(c.default_input, Some(0));
    assert_eq!(c.default_output, Some(1));
    assert_eq!(c.host_id(), "TestHost");
    assert_eq!(c.devices().len(), 3);
    let d = c.default_input_device().expect("default input");
    assert_eq!(d.name, "Microphone");
    let d = default_input_device(&c).expect("default input");
    assert_eq!(d.name, "Microphone");
}

#[test]
fn missing_defaults_fail_with_no_device_available() {
    let c = AudioDevices::new(String::from("TestHost"), vec![speakers()], None, None);
    assert_eq!(c.default_input_device().unwrap_err(), AudioError::NoDeviceAvailable);
    assert_eq!(c.default_output_device().unwrap_err(), AudioError::NoDeviceAvailable);
}

#[test]
fn find_device_is_exact_and_direction_aware() {
    let c = catalog();
    assert_eq!(c.find_device("Speakers", Direction::Output).unwrap(), 1);
    assert_eq!(
        c.find_device("Speakers", Direction::Input).unwrap_err(),
        AudioError::DeviceNotFound
    );
    assert_eq!(
        c.find_device("speakers", Direction::Output).unwrap_err(),
        AudioError::DeviceNotFound
    );
    assert_eq!(
        c.find_device("Headset", Direction::Output).unwrap_err(),
        AudioError::DeviceNotFound
    );
}

#[test]
fn find_device_takes_first_of_equal_names() {
    let mut first = speakers();
    first.name = String::from("Twin");
    let mut second = speakers();
    second.name = String::from("Twin");
    let c = AudioDevices::new(String::from("TestHost"), vec![mic(), first, second], None, None);
    assert_eq!(c.find_device("Twin", Direction::Output).unwrap(), 1);
}

#[test]
fn supported_configs_by_direction() {
    let d = speakers();
    let out = d.supported_configs(Direction::Output).expect("playback configs");
    assert_eq!(out.len(), 1);
    assert_eq!(out[0], SupportedConfigRange::new(44100, 44100, 2, SampleFormat::I16));
    assert_eq!(
        d.supported_configs(Direction::Input).unwrap_err(),
        AudioError::UnsupportedDirection
    );
}

#[test]
fn failed_query_is_surfaced_not_swallowed() {
    let d = broken();
    match d.supported_configs(Direction::Input).unwrap_err() {
        AudioError::DeviceQueryFailed(reason) => assert_eq!(reason, "backend timed out"),
        other => panic!("unexpected error: {:?}", other),
    }
    assert_eq!(
        d.supported_configs(Direction::Output).unwrap_err(),
        AudioError::UnsupportedDirection
    );
}

#[test]
fn input_device_listing() {
    let c = catalog();
    assert_eq!(get_input_devices(&c), "Microphone\n");
}

#[test]
fn output_device_listing() {
    let c = catalog();
    assert_eq!(get_output_devices(&c), "Speakers\n");
}

#[test]
fn report_lists_everything_in_order() {
    let c = catalog();
    let expected = "Host: TestHost\n\
        Default input device: Microphone\n\
        Default output device: Speakers\n\
        Devices:\n\
        - Microphone\n\
        \x20 Default input config: 48000 Hz, 2 ch, f32\n\
        \x20 Supported input configs:\n\
        \x20   1.1. 8000-48000 Hz, 2 ch, f32\n\
        - Speakers\n\
        \x20 Default output config: 44100 Hz, 2 ch, i16\n\
        \x20 Supported output configs:\n\
        \x20   2.1. 44100-44100 Hz, 2 ch, i16\n\
        - Loopback\n\
        \x20 input config query failed: backend timed out\n";
    assert_eq!(render_inventory(&c), expected);
}

#[test]
fn report_omits_missing_defaults() {
    let c = AudioDevices::new(String::from("TestHost"), vec![speakers()], None, None);
    let report = render_inventory(&c);
    assert!(!report.contains("Default input device:"));
    assert!(!report.contains("Default output device:"));
    assert!(report.contains("- Speakers\n"));
}

#[test]
fn report_is_identical_for_identical_snapshots() {
    assert_eq!(render_inventory(&catalog()), render_inventory(&catalog()));
}

#[test]
fn decimal_rendering() {
    assert_eq!(fmt_u64(0), "0");
    assert_eq!(fmt_u64(7), "7");
    assert_eq!(fmt_u64(48000), "48000");
    assert_eq!(fmt_u64(u64::MAX), "18446744073709551615");
}

#[test]
fn exact_string_equality() {
    assert!(str_eq("Speakers", "Speakers"));
    assert!(!str_eq("Speakers", "speakers"));
    assert!(!str_eq("Speakers", "Speaker"));
    assert!(str_eq("", ""));
}
