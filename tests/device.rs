use eruption::constants::{CANVAS_SIZE, DEVICE_SETTLE_MILLIS, MAX_KEYS};
use eruption::hwdevices::{
    DeviceInfo, HidDeviceDescriptor, HwDeviceError, KeyStates, KeyboardHidEvent,
    KeyboardHidEventCode, LedKind, LifecycleState, RGBA,
};
use eruption::roccat_vulcan_pro_tkl::{
    first_frame_step, next_frame_step, FrameStep,
    bind_hiddev, ctrl_report_frames, decode_event_report, keyboard_hid_event_code_from_report,
    DialMode, InitPolicy, RoccatVulcanProTKL, CALIBRATION_REPORT, CTRL_INTERFACE, LED_INTERFACE,
};

fn descriptor(vid: u16, pid: u16, serial: Option<&str>, iface: i32, path: &str) -> HidDeviceDescriptor {
    HidDeviceDescriptor {
        vendor_id: vid,
        product_id: pid,
        serial_number: serial.map(|s| s.to_string()),
        interface_number: iface,
        path: path.to_string(),
    }
}

fn listing() -> Vec<HidDeviceDescriptor> {
    vec![
        descriptor(0x1e7d, 0x311a, Some("ABC"), 0, "/dev/hidraw0"),
        descriptor(0x1e7d, 0x311a, Some("ABC"), CTRL_INTERFACE, "/dev/hidraw1"),
        descriptor(0x1e7d, 0x311a, Some("ABC"), 2, "/dev/hidraw2"),
        descriptor(0x1e7d, 0x311a, Some("ABC"), LED_INTERFACE, "/dev/hidraw3"),
        descriptor(0x1e7d, 0x311a, Some("ABC"), LED_INTERFACE, "/dev/hidraw4"),
    ]
}

fn bound() -> RoccatVulcanProTKL {
    bind_hiddev(&listing(), 0x1e7d, 0x311a, "ABC").unwrap()
}

fn opened() -> RoccatVulcanProTKL {
    let mut dev = bound();
    dev.open().unwrap();
    dev.opened(true, true).unwrap();
    dev
}

fn initialized() -> RoccatVulcanProTKL {
    let mut dev = opened();
    let mut seq = dev.send_init_sequence(InitPolicy::BestEffort).unwrap();
    while seq.current_reports().is_some() {
        seq.step_done(true);
    }
    dev.init_sequence_done(&seq).unwrap();
    dev
}

fn report(bytes: [u8; 5]) -> [u8; 8] {
    [bytes[0], bytes[1], bytes[2], bytes[3], bytes[4], 0, 0, 0]
}

#[test]
fn bind_selects_first_control_and_led_interface() {
    let dev = bound();
    assert_eq!(dev.lifecycle_state(), LifecycleState::Bound);
    assert_eq!(dev.ctrl_hiddev_info.as_ref().unwrap().path, "/dev/hidraw1");
    assert_eq!(dev.led_hiddev_info.as_ref().unwrap().path, "/dev/hidraw3");
    assert_eq!(dev.get_usb_vid(), 0x1e7d);
    assert_eq!(dev.get_usb_pid(), 0x311a);
    assert_eq!(dev.get_usb_path(), "/dev/hidraw3");
    assert_eq!(dev.dial_mode, DialMode::Brightness);
}

#[test]
fn bind_fails_without_led_interface() {
    let devices = vec![descriptor(0x1e7d, 0x311a, Some("ABC"), CTRL_INTERFACE, "/dev/hidraw1")];
    assert_eq!(
        bind_hiddev(&devices, 0x1e7d, 0x311a, "ABC").err(),
        Some(HwDeviceError::EnumerationError)
    );
}

#[test]
fn bind_fails_for_other_product() {
    assert_eq!(
        bind_hiddev(&listing(), 0x1e7d, 0x3098, "ABC").err(),
        Some(HwDeviceError::EnumerationError)
    );
}

#[test]
fn bind_unknown_serial_leaves_device_unbound() {
    let mut dev = RoccatVulcanProTKL::new();
    assert_eq!(dev.lifecycle_state(), LifecycleState::Unbound);
    assert_eq!(
        dev.bind_device(&listing(), 0x1e7d, 0x311a, "XYZ"),
        Err(HwDeviceError::EnumerationError)
    );
    assert_eq!(dev.lifecycle_state(), LifecycleState::Unbound);
    assert!(dev.ctrl_hiddev_info.is_none());
}

#[test]
fn bind_serial_is_case_sensitive() {
    assert_eq!(
        bind_hiddev(&listing(), 0x1e7d, 0x311a, "abc").err(),
        Some(HwDeviceError::EnumerationError)
    );
}

#[test]
fn bind_missing_serial_counts_as_empty() {
    let devices = vec![
        descriptor(1, 2, None, CTRL_INTERFACE, "c"),
        descriptor(1, 2, None, LED_INTERFACE, "l"),
    ];
    let dev = bind_hiddev(&devices, 1, 2, "").unwrap();
    assert_eq!(dev.get_usb_path(), "l");
    assert!(bind_hiddev(&devices, 1, 2, "S").is_err());
}

#[test]
fn bind_device_binds_an_unbound_instance() {
    let mut dev = RoccatVulcanProTKL::new();
    assert_eq!(dev.bind_device(&listing(), 0x1e7d, 0x311a, "ABC"), Ok(()));
    assert_eq!(dev.lifecycle_state(), LifecycleState::Bound);
    assert_eq!(dev.get_usb_path(), "/dev/hidraw3");
}

#[test]
fn operations_on_unbound_device_fail() {
    let dev = RoccatVulcanProTKL::new();
    assert_eq!(dev.open().err(), Some(HwDeviceError::DeviceNotBound));
    assert_eq!(dev.send_ctrl_report(0x00).err(), Some(HwDeviceError::DeviceNotBound));
    assert_eq!(dev.send_init_sequence(InitPolicy::BestEffort).err(), Some(HwDeviceError::DeviceNotBound));
    assert_eq!(dev.get_device_info().err(), Some(HwDeviceError::DeviceNotBound));
    assert_eq!(dev.get_next_event_timeout(-1), Err(HwDeviceError::DeviceNotBound));
    let canvas = vec![RGBA { r: 1, g: 2, b: 3, a: 0 }; CANVAS_SIZE];
    assert_eq!(dev.send_led_map(&canvas).err(), Some(HwDeviceError::DeviceNotBound));
    assert_eq!(dev.write_data_raw(&[0x21]).err(), Some(HwDeviceError::DeviceNotBound));
    assert_eq!(dev.read_data_raw(8), Err(HwDeviceError::DeviceNotBound));
    assert_eq!(dev.wait_for_ctrl_dev(), Err(HwDeviceError::DeviceNotBound));
    let mut dev = dev;
    assert_eq!(dev.close_all(), Err(HwDeviceError::DeviceNotBound));
    assert_eq!(dev.opened(true, true), Err(HwDeviceError::DeviceNotBound));
    assert_eq!(dev.lifecycle_state(), LifecycleState::Unbound);
}

#[test]
fn operations_on_bound_device_need_open() {
    let mut dev = bound();
    assert_eq!(dev.send_ctrl_report(0x0d).err(), Some(HwDeviceError::DeviceNotOpened));
    assert_eq!(dev.get_device_info().err(), Some(HwDeviceError::DeviceNotOpened));
    assert_eq!(dev.get_next_event_timeout(10), Err(HwDeviceError::DeviceNotOpened));
    let canvas = vec![RGBA { r: 0, g: 0, b: 0, a: 0 }; CANVAS_SIZE];
    assert_eq!(dev.send_led_map(&canvas).err(), Some(HwDeviceError::DeviceNotOpened));
    assert_eq!(dev.set_led_off_pattern().err(), Some(HwDeviceError::DeviceNotOpened));
    assert_eq!(dev.close_all(), Err(HwDeviceError::DeviceNotOpened));
    let mut seq_dev = dev.clone();
    assert_eq!(
        seq_dev.init_sequence_done(&eruption::roccat_vulcan_pro_tkl::InitSequence {
            policy: InitPolicy::BestEffort,
            step: 6,
            failed_steps: 0
        }),
        Err(HwDeviceError::DeviceNotOpened)
    );
    let (ctrl, led) = dev.open().unwrap();
    assert_eq!(ctrl.interface_number, CTRL_INTERFACE);
    assert_eq!(led.interface_number, LED_INTERFACE);
}

#[test]
fn operations_on_opened_device_need_init() {
    let dev = opened();
    assert_eq!(dev.lifecycle_state(), LifecycleState::Opened);
    assert_eq!(dev.get_next_event_timeout(-1), Err(HwDeviceError::DeviceNotInitialized));
    let canvas = vec![RGBA { r: 0, g: 0, b: 0, a: 0 }; CANVAS_SIZE];
    assert_eq!(dev.send_led_map(&canvas).err(), Some(HwDeviceError::DeviceNotInitialized));
    assert_eq!(dev.set_led_init_pattern().err(), Some(HwDeviceError::DeviceNotInitialized));
    assert_eq!(dev.write_data_raw(&[1, 2]).err(), Some(HwDeviceError::DeviceNotInitialized));
    assert_eq!(dev.read_data_raw(4), Err(HwDeviceError::DeviceNotInitialized));
    assert_eq!(
        dev.set_status_led(LedKind::CapsLock, true).err(),
        Some(HwDeviceError::DeviceNotInitialized)
    );
    assert!(dev.send_ctrl_report(0x0e).is_ok());
    assert_eq!(dev.get_device_info().unwrap(), vec![0x0f, 0, 0, 0, 0, 0]);
    assert_eq!(dev.wait_for_ctrl_dev(), Ok(DEVICE_SETTLE_MILLIS));
}

#[test]
fn open_failure_leaves_device_bound() {
    let mut dev = bound();
    assert_eq!(dev.opened(true, false), Err(HwDeviceError::DeviceOpenError));
    assert_eq!(dev.lifecycle_state(), LifecycleState::Bound);
    assert_eq!(dev.opened(false, true), Err(HwDeviceError::DeviceOpenError));
    assert_eq!(dev.lifecycle_state(), LifecycleState::Bound);
}

#[test]
fn close_all_returns_to_bound() {
    let mut dev = initialized();
    assert_eq!(dev.lifecycle_state(), LifecycleState::Initialized);
    assert_eq!(dev.close_all(), Ok(()));
    assert_eq!(dev.lifecycle_state(), LifecycleState::Bound);
    assert!(!dev.is_initialized);
    assert!(dev.ctrl_hiddev_info.is_some());
    assert_eq!(dev.close_all(), Err(HwDeviceError::DeviceNotOpened));
}

#[test]
fn init_sequence_steps_and_frames() {
    let dev = opened();
    let mut seq = dev.send_init_sequence(InitPolicy::BestEffort).unwrap();
    let mut ids = Vec::new();
    let mut counts = Vec::new();
    while let Some(frames) = seq.current_reports() {
        ids.push(seq.current_report_id().unwrap());
        counts.push(frames.len());
        seq.step_done(true);
    }
    assert_eq!(ids, vec![0x00, 0x00, 0x0d, 0x04, 0x0e, 0x11]);
    assert_eq!(counts, vec![1, 1, 1, 35, 1, 1]);
    assert!(seq.is_finished());
}

#[test]
fn init_sequence_best_effort_ignores_failures() {
    let mut dev = opened();
    let mut seq = dev.send_init_sequence(InitPolicy::BestEffort).unwrap();
    let mut steps = 0;
    while seq.current_reports().is_some() {
        seq.step_done(steps % 2 == 0);
        steps += 1;
    }
    assert_eq!(steps, 6);
    assert_eq!(seq.failed_steps, 3);
    assert_eq!(dev.init_sequence_done(&seq), Ok(()));
    assert_eq!(dev.lifecycle_state(), LifecycleState::Initialized);
}

#[test]
fn init_sequence_strict_stops_at_failure() {
    let mut dev = opened();
    let mut seq = dev.send_init_sequence(InitPolicy::Strict).unwrap();
    seq.step_done(true);
    seq.step_done(false);
    assert!(seq.current_reports().is_none());
    assert_eq!(dev.init_sequence_done(&seq), Err(HwDeviceError::InvalidResult));
    assert_eq!(dev.lifecycle_state(), LifecycleState::Opened);
}

#[test]
fn init_sequence_unfinished_is_rejected() {
    let mut dev = opened();
    let mut seq = dev.send_init_sequence(InitPolicy::BestEffort).unwrap();
    seq.step_done(true);
    assert_eq!(dev.init_sequence_done(&seq), Err(HwDeviceError::InvalidResult));
    assert_eq!(dev.lifecycle_state(), LifecycleState::Opened);
}

#[test]
fn ctrl_report_templates() {
    assert_eq!(ctrl_report_frames(0x00).unwrap(), vec![vec![0x00]]);
    let param = ctrl_report_frames(0x0d).unwrap();
    assert_eq!(param.len(), 1);
    assert_eq!(param[0].len(), 16);
    assert_eq!(&param[0][0..7], &[0x0d, 0x10, 0x00, 0x00, 0x02, 0x0f, 0x45]);
    assert_eq!(ctrl_report_frames(0x0e).unwrap(), vec![vec![0x0e, 0x05, 0x01, 0x00, 0x00]]);
    let table = ctrl_report_frames(0x11).unwrap();
    assert_eq!(table.len(), 1);
    assert_eq!(table[0].len(), 299);
    assert_eq!(table[0], CALIBRATION_REPORT.to_vec());
    assert_eq!(&table[0][0..4], &[0x11, 0x2b, 0x01, 0x00]);
    assert_eq!(&table[0][297..299], &[0x4a, 0x75]);
    assert!(ctrl_report_frames(0x0f).is_none());
}

#[test]
fn ctrl_report_sweep_order() {
    let sweep = ctrl_report_frames(0x04).unwrap();
    assert_eq!(sweep.len(), 35);
    assert_eq!(sweep[0], vec![0x04, 0x00, 0xa0, 0x00]);
    assert_eq!(sweep[1], vec![0x04, 0x00, 0xa1, 0x00]);
    assert_eq!(sweep[6], vec![0x04, 0x00, 0xb0, 0x00]);
    assert_eq!(sweep[7], vec![0x04, 0x01, 0xa0, 0x00]);
    assert_eq!(sweep[34], vec![0x04, 0x04, 0xb0, 0x00]);
}

#[test]
fn ctrl_report_unknown_id_is_invalid_status_code() {
    let dev = opened();
    assert_eq!(dev.send_ctrl_report(0x42).err(), Some(HwDeviceError::InvalidStatusCode));
    assert_eq!(dev.send_ctrl_report(0x04).unwrap().len(), 35);
}

#[test]
fn device_info_parsing() {
    let dev = opened();
    let info = dev.device_info_received(Some(&[0x0f, 0x06, 115, 0, 0, 0]));
    assert_eq!(info, Ok(DeviceInfo { firmware_version: 115 }));
    assert_eq!(dev.get_firmware_revision(&info), "115");
    assert_eq!(
        dev.device_info_received(Some(&[0x0f, 0x06, 115])),
        Err(HwDeviceError::InvalidResult)
    );
    let failed = dev.device_info_received(None);
    assert_eq!(failed, Err(HwDeviceError::InvalidResult));
    assert_eq!(dev.get_firmware_revision(&failed), "<unknown>");
    let raw = eruption::roccat_vulcan_pro_tkl::DeviceInfo::from_report(&[1, 2, 3, 4, 5, 6, 7]).unwrap();
    assert_eq!(raw.report_id, 1);
    assert_eq!(raw.firmware_version, 3);
    assert_eq!(raw.reserved3, 6);
}

#[test]
fn status_led_reports() {
    let dev = initialized();
    assert_eq!(
        dev.set_status_led(LedKind::NumLock, true).unwrap(),
        Some(vec![0x21, 0, 0, 0, 0, 0, 0, 0])
    );
    assert_eq!(
        dev.set_status_led(LedKind::CapsLock, false).unwrap(),
        Some(vec![0x22, 0, 0, 0, 0, 0, 0, 0])
    );
    assert_eq!(
        dev.set_status_led(LedKind::ScrollLock, true).unwrap(),
        Some(vec![0x23, 0, 0, 0, 0, 0, 0, 0])
    );
    assert_eq!(
        dev.set_status_led(LedKind::GameMode, true).unwrap(),
        Some(vec![0x24, 0, 0, 0, 0, 0, 0, 0])
    );
    assert_eq!(dev.set_status_led(LedKind::AudioMute, true), Ok(None));
    assert_eq!(RoccatVulcanProTKL::new().set_status_led(LedKind::Fx, true), Ok(None));
}

#[test]
fn raw_io_on_initialized_device() {
    let dev = initialized();
    assert_eq!(dev.write_data_raw(&[1, 2, 3]).unwrap(), vec![1, 2, 3]);
    assert_eq!(dev.read_data_raw(16), Ok(16));
    assert_eq!(dev.raw_transfer_done(false), Err(HwDeviceError::InvalidResult));
    assert_eq!(dev.raw_transfer_done(true), Ok(()));
    assert_eq!(dev.get_next_event_timeout(100), Ok(()));
    assert_eq!(dev.get_support_script_file(), "keyboards/roccat_vulcan_pro_tkl");
}

#[test]
fn key_codes_from_reports() {
    let expected = [
        (16, KeyboardHidEventCode::KEY_F1),
        (24, KeyboardHidEventCode::KEY_F2),
        (33, KeyboardHidEventCode::KEY_F3),
        (32, KeyboardHidEventCode::KEY_F4),
        (40, KeyboardHidEventCode::KEY_F5),
        (48, KeyboardHidEventCode::KEY_F6),
        (56, KeyboardHidEventCode::KEY_F7),
        (57, KeyboardHidEventCode::KEY_F8),
        (17, KeyboardHidEventCode::KEY_ESC),
        (119, KeyboardHidEventCode::KEY_FN),
    ];
    for (raw, code) in expected.iter() {
        assert_eq!(keyboard_hid_event_code_from_report(0xfb, *raw), *code);
    }
    assert_eq!(keyboard_hid_event_code_from_report(0x0a, 57), KeyboardHidEventCode::KEY_CAPS_LOCK);
    assert_eq!(keyboard_hid_event_code_from_report(0x0a, 255), KeyboardHidEventCode::KEY_EASY_SHIFT);
    assert_eq!(keyboard_hid_event_code_from_report(0x0a, 16), KeyboardHidEventCode::Unknown(16));
    assert_eq!(keyboard_hid_event_code_from_report(0xfb, 1), KeyboardHidEventCode::Unknown(1));
    assert_eq!(keyboard_hid_event_code_from_report(0x00, 16), KeyboardHidEventCode::Unknown(16));
}

#[test]
fn key_code_round_trip() {
    let dev = RoccatVulcanProTKL::new();
    for report in [0xfbu8, 0x0a] {
        for raw in 0..=255u8 {
            let code = keyboard_hid_event_code_from_report(report, raw);
            assert_eq!(dev.hid_event_code_to_report(&code), raw);
        }
    }
}

#[test]
fn key_indices() {
    let dev = RoccatVulcanProTKL::new();
    assert_eq!(dev.hid_event_code_to_key_index(&KeyboardHidEventCode::KEY_FN), 65);
    assert_eq!(dev.hid_event_code_to_key_index(&KeyboardHidEventCode::KEY_CAPS_LOCK), 6);
    assert_eq!(dev.hid_event_code_to_key_index(&KeyboardHidEventCode::KEY_EASY_SHIFT), 6);
    assert_eq!(dev.hid_event_code_to_report(&KeyboardHidEventCode::KEY_EASY_SHIFT), 255);
    assert_eq!(dev.hid_event_code_to_report(&KeyboardHidEventCode::KEY_CAPS_LOCK), 57);
    assert_eq!(dev.hid_event_code_to_key_index(&KeyboardHidEventCode::KEY_F1), 0);
    assert_eq!(dev.hid_event_code_to_key_index(&KeyboardHidEventCode::Unknown(9)), 0);
    assert_eq!(dev.ev_key_to_key_index(1), 3);
    assert_eq!(dev.ev_key_to_key_index(0), 0);
    assert_eq!(dev.ev_key_to_key_index(0x1d0), 0);
    assert_eq!(dev.ev_key_to_key_index(58), 6);
}

#[test]
fn decode_key_reports() {
    let up = decode_event_report(&report([0x03, 0x00, 0xfb, 16, 0x00]), DialMode::Brightness);
    assert_eq!(up, (KeyboardHidEvent::KeyUp { code: KeyboardHidEventCode::KEY_F1 }, DialMode::Brightness));
    let down = decode_event_report(&report([0x03, 0x00, 0xfb, 119, 0x01]), DialMode::Volume);
    assert_eq!(down, (KeyboardHidEvent::KeyDown { code: KeyboardHidEventCode::KEY_FN }, DialMode::Volume));
    let odd = decode_event_report(&report([0x03, 0x00, 0xfb, 119, 0x02]), DialMode::Brightness);
    assert_eq!(odd.0, KeyboardHidEvent::Unknown);
}

#[test]
fn decode_caps_lock_is_inverted() {
    let down = decode_event_report(&report([0x03, 0x00, 0x0a, 0x39, 0x00]), DialMode::Brightness);
    assert_eq!(down.0, KeyboardHidEvent::KeyDown { code: KeyboardHidEventCode::KEY_CAPS_LOCK });
    let up = decode_event_report(&report([0x03, 0x00, 0x0a, 0xff, 0x01]), DialMode::Brightness);
    assert_eq!(up.0, KeyboardHidEvent::KeyUp { code: KeyboardHidEventCode::KEY_EASY_SHIFT });
    let other = decode_event_report(&report([0x03, 0x00, 0x0a, 0x10, 0x00]), DialMode::Brightness);
    assert_eq!(other.0, KeyboardHidEvent::Unknown);
}

#[test]
fn decode_brightness_and_mute() {
    assert_eq!(
        decode_event_report(&report([0x03, 0x00, 0x0c, 0x42, 0x00]), DialMode::Brightness).0,
        KeyboardHidEvent::SetBrightness(0x42)
    );
    assert_eq!(
        decode_event_report(&report([0x42, 0xe2, 0x00, 0x00, 0x00]), DialMode::Brightness).0,
        KeyboardHidEvent::MuteDown
    );
    assert_eq!(
        decode_event_report(&report([0x42, 0x00, 0x00, 0x00, 0x07]), DialMode::Brightness).0,
        KeyboardHidEvent::MuteUp
    );
    assert_eq!(
        decode_event_report(&[0; 8], DialMode::Brightness),
        (KeyboardHidEvent::Unknown, DialMode::Brightness)
    );
}

#[test]
fn dial_mode_priming_scenario() {
    let mut dev = initialized();
    let mut states = KeyStates::new();
    let primed = dev.event_report_received(Some(report([0x03, 0x00, 0x0b, 0x26, 0x00])), &mut states);
    assert_eq!(primed, Ok(KeyboardHidEvent::Unknown));
    assert_eq!(dev.dial_mode, DialMode::Volume);
    let first = dev.event_report_received(Some(report([0x03, 0x00, 0xcc, 0x01, 0x00])), &mut states);
    assert_eq!(first, Ok(KeyboardHidEvent::VolumeUp));
    assert_eq!(dev.dial_mode, DialMode::Brightness);
    let second = dev.event_report_received(Some(report([0x03, 0x00, 0xcc, 0x01, 0x00])), &mut states);
    assert_eq!(second, Ok(KeyboardHidEvent::BrightnessUp));
    assert_eq!(dev.dial_mode, DialMode::Brightness);
}

#[test]
fn dial_mode_second_primer_and_down() {
    let mut dev = initialized();
    let mut states = KeyStates::new();
    dev.event_report_received(Some(report([0x03, 0x00, 0x0b, 0x27, 0x05])), &mut states).unwrap();
    let ev = dev.event_report_received(Some(report([0x03, 0x00, 0xcc, 0xff, 0x00])), &mut states);
    assert_eq!(ev, Ok(KeyboardHidEvent::VolumeDown));
    let ev = dev.event_report_received(Some(report([0x03, 0x00, 0xcc, 0xff, 0x00])), &mut states);
    assert_eq!(ev, Ok(KeyboardHidEvent::BrightnessDown));
    let ev = dev.event_report_received(Some(report([0x03, 0x00, 0xcc, 0x05, 0x00])), &mut states);
    assert_eq!(ev, Ok(KeyboardHidEvent::Unknown));
}

#[test]
fn key_events_update_key_states() {
    let mut dev = initialized();
    let mut states = KeyStates::new();
    assert_eq!(states.len(), MAX_KEYS);
    dev.event_report_received(Some(report([0x03, 0x00, 0xfb, 119, 0x01])), &mut states).unwrap();
    assert_eq!(states.get(65), Some(true));
    dev.event_report_received(Some(report([0x03, 0x00, 0x0a, 0xff, 0x00])), &mut states).unwrap();
    assert_eq!(states.get(6), Some(true));
    dev.event_report_received(Some(report([0x03, 0x00, 0x0a, 0x39, 0x01])), &mut states).unwrap();
    assert_eq!(states.get(6), Some(false));
    dev.event_report_received(Some(report([0x03, 0x00, 0xfb, 119, 0x00])), &mut states).unwrap();
    assert_eq!(states.get(65), Some(false));
    assert_eq!(states.get(MAX_KEYS), None);
}

#[test]
fn non_key_events_leave_key_states() {
    let mut dev = initialized();
    let mut states = KeyStates::new();
    states.set(3, true);
    for bytes in [
        [0x03, 0x00, 0x0c, 0x10, 0x00],
        [0x42, 0xe2, 0x00, 0x00, 0x00],
        [0x03, 0x00, 0x0b, 0x26, 0x00],
        [0x03, 0x00, 0xcc, 0x01, 0x00],
        [0x99, 0x00, 0x00, 0x00, 0x00],
    ] {
        dev.event_report_received(Some(report(bytes)), &mut states).unwrap();
        for i in 0..MAX_KEYS {
            assert_eq!(states.get(i), Some(i == 3));
        }
    }
}

#[test]
fn decoding_every_prefix_yields_one_event() {
    let mut states = KeyStates::new();
    let mut dev = initialized();
    for b2 in 0..=255u8 {
        for b3 in [0x00u8, 0x01, 0x10, 0x26, 0x39, 0x77, 0xff] {
            for b4 in [0x00u8, 0x01, 0x02] {
                let before: Vec<Option<bool>> = (0..MAX_KEYS).map(|i| states.get(i)).collect();
                let ev = dev.event_report_received(Some(report([0x03, 0x00, b2, b3, b4])), &mut states).unwrap();
                let after: Vec<Option<bool>> = (0..MAX_KEYS).map(|i| states.get(i)).collect();
                match ev {
                    KeyboardHidEvent::KeyDown { .. } | KeyboardHidEvent::KeyUp { .. } => {}
                    _ => assert_eq!(before, after),
                }
            }
        }
    }
}

#[test]
fn failed_read_is_invalid_result() {
    let mut dev = initialized();
    let mut states = KeyStates::new();
    assert_eq!(dev.event_report_received(None, &mut states), Err(HwDeviceError::InvalidResult));
}

#[test]
fn error_descriptions() {
    assert_eq!(HwDeviceError::LedMapError.description(), "Invalid LED map");
    assert_eq!(HwDeviceError::DeviceNotBound.description(), "Device not bound");
}

#[test]
fn frame_steps_stop_at_first_failure() {
    assert_eq!(first_frame_step(0), FrameStep::Finished);
    assert_eq!(first_frame_step(3), FrameStep::Send(0));
    assert_eq!(next_frame_step(3, 0, true), FrameStep::Send(1));
    assert_eq!(next_frame_step(3, 1, false), FrameStep::Failed);
    assert_eq!(next_frame_step(3, 2, true), FrameStep::Finished);
    // drive a transfer of five frames where the third fails
    let outcomes = [true, true, false, true, true];
    let mut sent = Vec::new();
    let mut step = first_frame_step(outcomes.len());
    while let FrameStep::Send(i) = step {
        sent.push(i);
        step = next_frame_step(outcomes.len(), i, outcomes[i]);
    }
    assert_eq!(sent, vec![0, 1, 2]);
    assert_eq!(step, FrameStep::Failed);
}
