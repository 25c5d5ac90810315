//! Backend for the ROCCAT Vulcan Pro TKL keyboards.
//!
//! The backend is a state machine over the device's lifecycle. Every
//! operation that needs a transfer comes in two halves: the first checks the
//! lifecycle state and returns what the host has to send or read; the second
//! takes what the transfer returned and decides the result.
use vstd::prelude::*;
use vstd::slice::slice_to_vec;
use vstd::string::to_string_from_display_ensures;

use crate::constants::{CANVAS_SIZE, DEVICE_SETTLE_MILLIS, MAX_KEYS};
use crate::hwdevices::{
    DeviceCapabilities, HidDeviceDescriptor, HwDeviceError, KeyStates, KeyboardHidEvent,
    KeyboardHidEventCode, LedKind, LifecycleState, RGBA,
};

verus! {

/// Number of keys of the device's LED layout.
pub const NUM_KEYS: usize = 127;

/// USB interface of the control sub-device.
pub const CTRL_INTERFACE: i32 = 1;

/// USB interface of the LED sub-device.
pub const LED_INTERFACE: i32 = 3;

/// Control reports sent to initialize the device, in order.
pub const INIT_SEQUENCE: [u8; 6] = [0x00, 0x00, 0x0d, 0x04, 0x0e, 0x11];

/// Handshake report (`0x00`).
pub const HANDSHAKE_REPORT: [u8; 1] = [0x00];

/// Parameter report (`0x0d`).
pub const PARAMETER_REPORT: [u8; 16] = [
    0x0d, 0x10, 0x00, 0x00, 0x02, 0x0f, 0x45, 0x00, 0x00, 0x00, 0x00, 0x00,
    0x00, 0x00, 0x00, 0x00,
];

/// Zone values of the sweep report (`0x04`): the outer iteration.
pub const SWEEP_ZONES: [u8; 5] = [0x00, 0x01, 0x02, 0x03, 0x04];

/// Address values of the sweep report (`0x04`): the inner iteration.
pub const SWEEP_ADDRESSES: [u8; 7] = [0xa0, 0xa1, 0xa2, 0xa3, 0xa4, 0xa5, 0xb0];

/// Commit report (`0x0e`).
pub const COMMIT_REPORT: [u8; 5] = [0x0e, 0x05, 0x01, 0x00, 0x00];

/// Gradient and calibration table report (`0x11`).
pub const CALIBRATION_REPORT: [u8; 299] = [
    0x11, 0x2b, 0x01, 0x00, 0x09, 0x06, 0x45, 0x80, 0x00, 0xff, 0xff, 0xff,
    0xff, 0xff, 0xff, 0xff, 0xff, 0xff, 0xff, 0xff, 0xff, 0x0a, 0x0a, 0x0a,
    0x0a, 0x0a, 0x0a, 0x11, 0x11, 0x11, 0x11, 0x17, 0x17, 0x00, 0x00, 0x00,
    0x00, 0x00, 0x00, 0x00, 0x00, 0x00, 0x00, 0x00, 0x00, 0xff, 0xff, 0xff,
    0xff, 0xff, 0xff, 0xff, 0xff, 0xff, 0xff, 0xff, 0xff, 0x17, 0x17, 0x17,
    0x17, 0x1e, 0x1e, 0x1e, 0x1e, 0x1e, 0x1e, 0x1e, 0x25, 0x00, 0x00, 0x00,
    0x00, 0x00, 0x00, 0x00, 0x00, 0x00, 0x00, 0x00, 0x00, 0xff, 0xff, 0xff,
    0xff, 0xff, 0xff, 0xff, 0xff, 0xff, 0xff, 0xff, 0xff, 0x25, 0x25, 0x25,
    0x25, 0x2b, 0x2b, 0x2b, 0x2b, 0x32, 0x32, 0x39, 0x39, 0x00, 0x00, 0x00,
    0x00, 0x00, 0x00, 0x00, 0x00, 0x00, 0x00, 0x00, 0x00, 0xff, 0xff, 0xff,
    0xff, 0xff, 0xff, 0xff, 0xff, 0xff, 0xff, 0xff, 0xff, 0x32, 0x39, 0x39,
    0x3f, 0x39, 0x39, 0x3f, 0x3f, 0x46, 0x46, 0x46, 0x3f, 0x00, 0x00, 0x00,
    0x00, 0x00, 0x00, 0x00, 0x00, 0x00, 0x00, 0x00, 0x00, 0xff, 0xff, 0xff,
    0xff, 0xff, 0xff, 0xff, 0xff, 0xff, 0xfe, 0xfe, 0xff, 0x3f, 0x46, 0x46,
    0x4d, 0x4d, 0x46, 0x46, 0x4d, 0x4d, 0x53, 0x53, 0x4d, 0x00, 0x00, 0x00,
    0x00, 0x00, 0x00, 0x00, 0x00, 0x00, 0x00, 0x00, 0x00, 0xfe, 0xfe, 0xfc,
    0xfc, 0xfc, 0xfc, 0xfc, 0xfc, 0xfa, 0xfa, 0xfa, 0xfa, 0x53, 0x53, 0x57,
    0x57, 0x57, 0x57, 0x57, 0x57, 0x5c, 0x5c, 0x5c, 0x5c, 0x00, 0x00, 0x00,
    0x00, 0x00, 0x00, 0x00, 0x00, 0x00, 0x00, 0x00, 0x00, 0xfa, 0xfa, 0xf8,
    0xf6, 0xf6, 0xf8, 0xf8, 0xf6, 0xf6, 0xf6, 0xf6, 0x00, 0x5c, 0x5c, 0x62,
    0x66, 0x66, 0x62, 0x62, 0x66, 0x66, 0x66, 0x66, 0x00, 0x00, 0x00, 0x00,
    0x00, 0x00, 0x00, 0x00, 0x00, 0x00, 0x00, 0x00, 0x00, 0xf4, 0xf4, 0xf4,
    0x00, 0xf1, 0xf1, 0xf1, 0xf1, 0xf4, 0xef, 0xef, 0xef, 0x6b, 0x6b, 0x6b,
    0x00, 0x71, 0x71, 0x71, 0x71, 0x6b, 0x75, 0x75, 0x75, 0x00, 0x00, 0x00,
    0x00, 0x00, 0x00, 0x00, 0x00, 0x00, 0x00, 0x00, 0x00, 0x4a, 0x75,
];


/// Which of the two functions the shared rotary dial adjusts next.
#[derive(Clone, Copy, Debug, PartialEq, Eq, Structural)]
pub enum DialMode {
    Volume,
    Brightness,
}

/// The logical key code of a raw key report, given its report type.
pub open spec fn code_from_report_spec(report: u8, code: u8) -> KeyboardHidEventCode {
    if report == 0xfb {
        if code == 16 {
            KeyboardHidEventCode::KEY_F1
        } else if code == 24 {
            KeyboardHidEventCode::KEY_F2
        } else if code == 33 {
            KeyboardHidEventCode::KEY_F3
        } else if code == 32 {
            KeyboardHidEventCode::KEY_F4
        } else if code == 40 {
            KeyboardHidEventCode::KEY_F5
        } else if code == 48 {
            KeyboardHidEventCode::KEY_F6
        } else if code == 56 {
            KeyboardHidEventCode::KEY_F7
        } else if code == 57 {
            KeyboardHidEventCode::KEY_F8
        } else if code == 17 {
            KeyboardHidEventCode::KEY_ESC
        } else if code == 119 {
            KeyboardHidEventCode::KEY_FN
        } else {
            KeyboardHidEventCode::Unknown(code)
        }
    } else if report == 0x0a {
        if code == 57 {
            KeyboardHidEventCode::KEY_CAPS_LOCK
        } else if code == 255 {
            KeyboardHidEventCode::KEY_EASY_SHIFT
        } else {
            KeyboardHidEventCode::Unknown(code)
        }
    } else {
        KeyboardHidEventCode::Unknown(code)
    }
}

/// The raw code that the device uses for a logical key code.
pub open spec fn code_to_report_spec(code: KeyboardHidEventCode) -> u8 {
    match code {
        KeyboardHidEventCode::KEY_F1 => 16,
        KeyboardHidEventCode::KEY_F2 => 24,
        KeyboardHidEventCode::KEY_F3 => 33,
        KeyboardHidEventCode::KEY_F4 => 32,
        KeyboardHidEventCode::KEY_F5 => 40,
        KeyboardHidEventCode::KEY_F6 => 48,
        KeyboardHidEventCode::KEY_F7 => 56,
        KeyboardHidEventCode::KEY_F8 => 57,
        KeyboardHidEventCode::KEY_ESC => 17,
        KeyboardHidEventCode::KEY_FN => 119,
        KeyboardHidEventCode::KEY_CAPS_LOCK => 57,
        KeyboardHidEventCode::KEY_EASY_SHIFT => 255,
        KeyboardHidEventCode::Unknown(c) => c,
    }
}

/// The logical key index of a key code; `0` for the codes without one.
/// Easy Shift shares the physical switch of Caps Lock.
pub open spec fn code_to_key_index_spec(code: KeyboardHidEventCode) -> u8 {
    match code {
        KeyboardHidEventCode::KEY_FN => 65,
        KeyboardHidEventCode::KEY_CAPS_LOCK => 6,
        KeyboardHidEventCode::KEY_EASY_SHIFT => 6,
        _ => 0,
    }
}

/// Maps a raw key report to its logical key code.
pub fn keyboard_hid_event_code_from_report(report: u8, code: u8) -> (r: KeyboardHidEventCode)
    ensures
        r == code_from_report_spec(report, code),
{
    match report {
        0xfb => match code {
            16 => KeyboardHidEventCode::KEY_F1,
            24 => KeyboardHidEventCode::KEY_F2,
            33 => KeyboardHidEventCode::KEY_F3,
            32 => KeyboardHidEventCode::KEY_F4,
            40 => KeyboardHidEventCode::KEY_F5,
            48 => KeyboardHidEventCode::KEY_F6,
            56 => KeyboardHidEventCode::KEY_F7,
            57 => KeyboardHidEventCode::KEY_F8,
            17 => KeyboardHidEventCode::KEY_ESC,
            119 => KeyboardHidEventCode::KEY_FN,
            _ => KeyboardHidEventCode::Unknown(code),
        },
        0x0a => match code {
            57 => KeyboardHidEventCode::KEY_CAPS_LOCK,
            255 => KeyboardHidEventCode::KEY_EASY_SHIFT,
            _ => KeyboardHidEventCode::Unknown(code),
        },
        _ => KeyboardHidEventCode::Unknown(code),
    }
}

/// Whether `d` is the interface `iface` of the device with the given
/// identity; a device without a serial number has the serial `""`.
pub open spec fn matches_interface(
    d: HidDeviceDescriptor,
    usb_vid: u16,
    usb_pid: u16,
    serial: Seq<char>,
    iface: i32,
) -> bool {
    &&& d.vendor_id == usb_vid
    &&& d.product_id == usb_pid
    &&& d.serial_spec() == serial
    &&& d.interface_number == iface
}

/// Whether `i` is the first position of the listing that matches.
pub open spec fn is_first_match(
    devices: Seq<HidDeviceDescriptor>,
    i: int,
    usb_vid: u16,
    usb_pid: u16,
    serial: Seq<char>,
    iface: i32,
) -> bool {
    &&& 0 <= i < devices.len()
    &&& matches_interface(devices[i], usb_vid, usb_pid, serial, iface)
    &&& forall|j: int| 0 <= j < i ==> !matches_interface(devices[j], usb_vid, usb_pid, serial, iface)
}

/// The first position of the listing that matches, if any.
pub open spec fn first_match(
    devices: Seq<HidDeviceDescriptor>,
    usb_vid: u16,
    usb_pid: u16,
    serial: Seq<char>,
    iface: i32,
) -> Option<int> {
    if exists|i: int| is_first_match(devices, i, usb_vid, usb_pid, serial, iface) {
        Some(choose|i: int| is_first_match(devices, i, usb_vid, usb_pid, serial, iface))
    } else {
        None
    }
}

proof fn lemma_first_match_unique(
    devices: Seq<HidDeviceDescriptor>,
    i: int,
    usb_vid: u16,
    usb_pid: u16,
    serial: Seq<char>,
    iface: i32,
)
    requires
        is_first_match(devices, i, usb_vid, usb_pid, serial, iface),
    ensures
        first_match(devices, usb_vid, usb_pid, serial, iface) == Some(i),
{
    let k = choose|k: int| is_first_match(devices, k, usb_vid, usb_pid, serial, iface);
    assert(is_first_match(devices, k, usb_vid, usb_pid, serial, iface));
    if k < i {
        assert(!matches_interface(devices[k], usb_vid, usb_pid, serial, iface));
    } else if i < k {
        assert(!matches_interface(devices[i], usb_vid, usb_pid, serial, iface));
    }
}

/// The position of the first interface of the listing that matches.
fn find_interface(
    devices: &Vec<HidDeviceDescriptor>,
    usb_vid: u16,
    usb_pid: u16,
    serial: &String,
    iface: i32,
) -> (r: Option<usize>)
    ensures
        match r {
            Some(i) => first_match(devices@, usb_vid, usb_pid, serial@, iface) == Some(i as int),
            None => first_match(devices@, usb_vid, usb_pid, serial@, iface) is None,
        },
{
    let mut i: usize = 0;
    while i < devices.len()
        invariant
            i <= devices@.len(),
            forall|j: int|
                0 <= j < i ==> !matches_interface(devices@[j], usb_vid, usb_pid, serial@, iface),
        decreases devices.len() - i,
    {
        let d = &devices[i];
        let same_serial = match &d.serial_number {
            Some(s) => s.eq(serial),
            None => String::new().eq(serial),
        };
        if d.vendor_id == usb_vid && d.product_id == usb_pid && same_serial
            && d.interface_number == iface {
            proof {
                lemma_first_match_unique(devices@, i as int, usb_vid, usb_pid, serial@, iface);
            }
            return Some(i);
        }
        i = i + 1;
    }
    assert(!exists|k: int| is_first_match(devices@, k, usb_vid, usb_pid, serial@, iface));
    None
}

/// Device specific code for the ROCCAT Vulcan Pro TKL series keyboards.
///
/// The lifecycle state follows from the three flags, in this order: a device
/// that is not bound is `Unbound`, one that is bound but not opened is
/// `Bound`, and so on.
#[derive(Clone, Debug)]
pub struct RoccatVulcanProTKL {
    pub is_initialized: bool,
    pub is_bound: bool,
    pub ctrl_hiddev_info: Option<HidDeviceDescriptor>,
    pub led_hiddev_info: Option<HidDeviceDescriptor>,
    pub is_opened: bool,
    pub dial_mode: DialMode,
}

/// The error of an operation that needs the state `required` but finds the
/// device in `current`; `Ok` where `current` is far enough along.
pub open spec fn state_check(current: LifecycleState, required: LifecycleState) -> Result<
    (),
    HwDeviceError,
> {
    if current.rank() >= required.rank() {
        Ok(())
    } else {
        match current {
            LifecycleState::Unbound => Err(HwDeviceError::DeviceNotBound),
            LifecycleState::Bound => Err(HwDeviceError::DeviceNotOpened),
            _ => Err(HwDeviceError::DeviceNotInitialized),
        }
    }
}

impl RoccatVulcanProTKL {
    pub open spec fn lifecycle(&self) -> LifecycleState {
        if !self.is_bound {
            LifecycleState::Unbound
        } else if !self.is_opened {
            LifecycleState::Bound
        } else if !self.is_initialized {
            LifecycleState::Opened
        } else {
            LifecycleState::Initialized
        }
    }

    /// A bound device holds both interface descriptors.
    pub open spec fn wf(&self) -> bool {
        self.is_bound ==> (self.ctrl_hiddev_info is Some && self.led_hiddev_info is Some)
    }

    /// The device right after it was bound to the two interfaces.
    pub open spec fn bound_spec(ctrl_dev: HidDeviceDescriptor, led_dev: HidDeviceDescriptor) -> Self {
        RoccatVulcanProTKL {
            is_initialized: false,
            is_bound: true,
            ctrl_hiddev_info: Some(ctrl_dev),
            led_hiddev_info: Some(led_dev),
            is_opened: false,
            dial_mode: DialMode::Brightness,
        }
    }

    /// A driver instance that is not bound to any device.
    pub fn new() -> (r: Self)
        ensures
            r.wf(),
            r.lifecycle() == LifecycleState::Unbound,
            r.ctrl_hiddev_info is None,
            r.led_hiddev_info is None,
            r.dial_mode == DialMode::Brightness,
    {
        RoccatVulcanProTKL {
            is_initialized: false,
            is_bound: false,
            ctrl_hiddev_info: None,
            led_hiddev_info: None,
            is_opened: false,
            dial_mode: DialMode::Brightness,
        }
    }

    /// Binds the driver to the supplied HID interfaces.
    pub fn bind(ctrl_dev: &HidDeviceDescriptor, led_dev: &HidDeviceDescriptor) -> (r: Self)
        ensures
            r == Self::bound_spec(*ctrl_dev, *led_dev),
            r.wf(),
            r.lifecycle() == LifecycleState::Bound,
    {
        RoccatVulcanProTKL {
            is_initialized: false,
            is_bound: true,
            ctrl_hiddev_info: Some(ctrl_dev.duplicate()),
            led_hiddev_info: Some(led_dev.duplicate()),
            is_opened: false,
            dial_mode: DialMode::Brightness,
        }
    }

    pub fn lifecycle_state(&self) -> (r: LifecycleState)
        ensures
            r == self.lifecycle(),
    {
        if !self.is_bound {
            LifecycleState::Unbound
        } else if !self.is_opened {
            LifecycleState::Bound
        } else if !self.is_initialized {
            LifecycleState::Opened
        } else {
            LifecycleState::Initialized
        }
    }

    /// Fails with the matching `DeviceNot*` error unless the device has
    /// reached `required`.
    pub fn check_state(&self, required: LifecycleState) -> (r: Result<(), HwDeviceError>)
        ensures
            r == state_check(self.lifecycle(), required),
    {
        if !self.is_bound {
            if required == LifecycleState::Unbound {
                Ok(())
            } else {
                Err(HwDeviceError::DeviceNotBound)
            }
        } else if !self.is_opened {
            if required == LifecycleState::Opened || required == LifecycleState::Initialized {
                Err(HwDeviceError::DeviceNotOpened)
            } else {
                Ok(())
            }
        } else if !self.is_initialized && required == LifecycleState::Initialized {
            Err(HwDeviceError::DeviceNotInitialized)
        } else {
            Ok(())
        }
    }

    pub fn get_device_capabilities(&self) -> (r: DeviceCapabilities)
        ensures
            r == (DeviceCapabilities {}),
    {
        DeviceCapabilities {}
    }

    /// The logical key index of a key code.
    pub fn hid_event_code_to_key_index(&self, code: &KeyboardHidEventCode) -> (r: u8)
        ensures
            r == code_to_key_index_spec(*code),
    {
        match code {
            KeyboardHidEventCode::KEY_FN => 65,
            KeyboardHidEventCode::KEY_CAPS_LOCK => 6,
            KeyboardHidEventCode::KEY_EASY_SHIFT => 6,
            _ => 0,
        }
    }

    /// The raw code that the device reports for a key code.
    pub fn hid_event_code_to_report(&self, code: &KeyboardHidEventCode) -> (r: u8)
        ensures
            r == code_to_report_spec(*code),
    {
        match code {
            KeyboardHidEventCode::KEY_F1 => 16,
            KeyboardHidEventCode::KEY_F2 => 24,
            KeyboardHidEventCode::KEY_F3 => 33,
            KeyboardHidEventCode::KEY_F4 => 32,
            KeyboardHidEventCode::KEY_F5 => 40,
            KeyboardHidEventCode::KEY_F6 => 48,
            KeyboardHidEventCode::KEY_F7 => 56,
            KeyboardHidEventCode::KEY_F8 => 57,
            KeyboardHidEventCode::KEY_ESC => 17,
            KeyboardHidEventCode::KEY_FN => 119,
            KeyboardHidEventCode::KEY_CAPS_LOCK => 57,
            KeyboardHidEventCode::KEY_EASY_SHIFT => 255,
            KeyboardHidEventCode::Unknown(code) => *code,
        }
    }
}

/// The views of a list of byte buffers.
pub open spec fn frames_view(frames: Seq<Vec<u8>>) -> Seq<Seq<u8>> {
    Seq::new(frames.len(), |k: int| frames[k]@)
}

/// The view of a result that carries frames to send.
pub open spec fn frames_result(r: Result<Vec<Vec<u8>>, HwDeviceError>) -> Result<
    Seq<Seq<u8>>,
    HwDeviceError,
> {
    match r {
        Ok(f) => Ok(frames_view(f@)),
        Err(e) => Err(e),
    }
}

/// The sweep report (`0x04`): one frame per zone and address, zones outer.
pub open spec fn sweep_frames_spec() -> Seq<Seq<u8>> {
    Seq::new(
        35,
        |k: int| seq![0x04u8, SWEEP_ZONES@[k / 7], SWEEP_ADDRESSES@[k % 7], 0x00u8],
    )
}

/// The frames of control report `id`, in the order in which they are sent
/// as feature reports; `None` for a report that the device does not know.
pub open spec fn ctrl_report_frames_spec(id: u8) -> Option<Seq<Seq<u8>>> {
    if id == 0x00 {
        Some(seq![HANDSHAKE_REPORT@])
    } else if id == 0x0d {
        Some(seq![PARAMETER_REPORT@])
    } else if id == 0x04 {
        Some(sweep_frames_spec())
    } else if id == 0x0e {
        Some(seq![COMMIT_REPORT@])
    } else if id == 0x11 {
        Some(seq![CALIBRATION_REPORT@])
    } else {
        None
    }
}

fn single_frame(frame: &[u8]) -> (r: Vec<Vec<u8>>)
    ensures
        frames_view(r@) == seq![frame@],
{
    let mut r: Vec<Vec<u8>> = Vec::new();
    r.push(slice_to_vec(frame));
    assert(frames_view(r@) =~= seq![frame@]);
    r
}

fn sweep_frames() -> (r: Vec<Vec<u8>>)
    ensures
        frames_view(r@) == sweep_frames_spec(),
{
    let mut r: Vec<Vec<u8>> = Vec::new();
    let mut k: usize = 0;
    while k < 35
        invariant
            k <= 35,
            frames_view(r@) =~= sweep_frames_spec().take(k as int),
        decreases 35 - k,
    {
        let mut frame: Vec<u8> = Vec::new();
        frame.push(0x04);
        frame.push(SWEEP_ZONES[k / 7]);
        frame.push(SWEEP_ADDRESSES[k % 7]);
        frame.push(0x00);
        assert(frame@ =~= sweep_frames_spec()[k as int]);
        let ghost before = r@;
        r.push(frame);
        assert(frames_view(r@) =~= frames_view(before).push(frame@));
        assert(sweep_frames_spec().take(k + 1) =~= sweep_frames_spec().take(k as int).push(
            frame@,
        ));
        k = k + 1;
    }
    r
}

/// Encodes control report `id` as the frames to send.
pub fn ctrl_report_frames(id: u8) -> (r: Option<Vec<Vec<u8>>>)
    ensures
        r is Some <==> ctrl_report_frames_spec(id) is Some,
        r is Some ==> frames_view(r->0@) == ctrl_report_frames_spec(id)->0,
{
    match id {
        0x00 => Some(single_frame(&HANDSHAKE_REPORT)),
        0x0d => Some(single_frame(&PARAMETER_REPORT)),
        0x04 => Some(sweep_frames()),
        0x0e => Some(single_frame(&COMMIT_REPORT)),
        0x11 => Some(single_frame(&CALIBRATION_REPORT)),
        _ => None,
    }
}

/// What the host does next while it transfers a list of frames in order.
#[derive(Clone, Copy, Debug, PartialEq, Eq, Structural)]
pub enum FrameStep {
    /// Transfer the frame at this position.
    Send(usize),
    /// Every frame was transferred.
    Finished,
    /// A frame failed; the frames after it are not transferred.
    Failed,
}

/// The first step of transferring `total` frames.
pub fn first_frame_step(total: usize) -> (r: FrameStep)
    ensures
        r == (if total == 0 {
            FrameStep::Finished
        } else {
            FrameStep::Send(0)
        }),
{
    if total == 0 {
        FrameStep::Finished
    } else {
        FrameStep::Send(0)
    }
}

/// The step after the frame at `sent` was transferred, or failed: the
/// transfer stops at the first frame that fails.
pub fn next_frame_step(total: usize, sent: usize, succeeded: bool) -> (r: FrameStep)
    requires
        sent < total,
    ensures
        r == (if !succeeded {
            FrameStep::Failed
        } else if sent + 1 < total {
            FrameStep::Send((sent + 1) as usize)
        } else {
            FrameStep::Finished
        }),
{
    if !succeeded {
        FrameStep::Failed
    } else if sent + 1 < total {
        FrameStep::Send(sent + 1)
    } else {
        FrameStep::Finished
    }
}

/// How the init sequence treats a step that failed.
#[derive(Clone, Copy, Debug, PartialEq, Eq, Structural)]
pub enum InitPolicy {
    /// Log the failure and go on with the remaining steps; the device ends
    /// up initialized whatever failed.
    BestEffort,
    /// Stop at the first failed step; the device stays uninitialized.
    Strict,
}

/// Progress through the init sequence of a device: one step per entry of
/// `INIT_SEQUENCE`, each followed by a settle delay of
/// `DEVICE_SETTLE_MILLIS`.
#[derive(Clone, Copy, Debug, PartialEq, Eq, Structural)]
pub struct InitSequence {
    pub policy: InitPolicy,
    pub step: usize,
    pub failed_steps: usize,
}

impl InitSequence {
    pub open spec fn wf(&self) -> bool {
        self.step <= 6 && self.failed_steps <= self.step
    }

    /// All steps were taken, or a failure ended a strict sequence.
    pub open spec fn finished(&self) -> bool {
        self.step >= 6 || (self.policy == InitPolicy::Strict && self.failed_steps > 0)
    }

    /// The sequence ended and the device may count as initialized.
    pub open spec fn succeeded(&self) -> bool {
        self.finished() && (self.policy == InitPolicy::BestEffort || self.failed_steps == 0)
    }

    pub fn is_finished(&self) -> (r: bool)
        ensures
            r == self.finished(),
    {
        self.step >= 6 || (self.policy == InitPolicy::Strict && self.failed_steps > 0)
    }

    /// The control report of the current step; `None` once finished.
    pub fn current_report_id(&self) -> (r: Option<u8>)
        requires
            self.wf(),
        ensures
            r == (if self.finished() {
                None::<u8>
            } else {
                Some(INIT_SEQUENCE@[self.step as int])
            }),
    {
        if self.is_finished() {
            None
        } else {
            Some(INIT_SEQUENCE[self.step])
        }
    }

    /// The frames to send for the current step; `None` once finished. The
    /// host sends them in order and stops at the first that fails.
    pub fn current_reports(&self) -> (r: Option<Vec<Vec<u8>>>)
        requires
            self.wf(),
        ensures
            r is None <==> self.finished(),
            r is Some ==> frames_view(r->0@) == ctrl_report_frames_spec(
                INIT_SEQUENCE@[self.step as int],
            )->0,
    {
        match self.current_report_id() {
            Some(id) => ctrl_report_frames(id),
            None => None,
        }
    }

    /// Records the outcome of the current step, after its settle delay.
    pub fn step_done(&mut self, succeeded: bool)
        requires
            old(self).wf(),
            !old(self).finished(),
        ensures
            final(self).wf(),
            final(self).policy == old(self).policy,
            final(self).step == old(self).step + 1,
            final(self).failed_steps == old(self).failed_steps + (if succeeded {
                0int
            } else {
                1int
            }),
    {
        self.step = self.step + 1;
        if !succeeded {
            self.failed_steps = self.failed_steps + 1;
        }
    }
}

/// The result of an operation that needs `required`, where `plan` is what it
/// hands to the host when the state allows it.
pub open spec fn guarded<T>(
    current: LifecycleState,
    required: LifecycleState,
    plan: Result<T, HwDeviceError>,
) -> Result<T, HwDeviceError> {
    match state_check(current, required) {
        Err(e) => Err(e),
        Ok(_) => plan,
    }
}

/// Binding a device of the listing: the first control and the first LED
/// interface that match, or `EnumerationError` where either is missing.
pub open spec fn bind_hiddev_spec(
    devices: Seq<HidDeviceDescriptor>,
    usb_vid: u16,
    usb_pid: u16,
    serial: Seq<char>,
) -> Result<RoccatVulcanProTKL, HwDeviceError> {
    let ctrl = first_match(devices, usb_vid, usb_pid, serial, CTRL_INTERFACE);
    let led = first_match(devices, usb_vid, usb_pid, serial, LED_INTERFACE);
    if ctrl is Some && led is Some {
        Ok(RoccatVulcanProTKL::bound_spec(devices[ctrl->0], devices[led->0]))
    } else {
        Err(HwDeviceError::EnumerationError)
    }
}

/// Binds the driver to the device of the listing with the given identity.
pub fn bind_hiddev(
    devices: &Vec<HidDeviceDescriptor>,
    usb_vid: u16,
    usb_pid: u16,
    serial: &str,
) -> (r: Result<RoccatVulcanProTKL, HwDeviceError>)
    ensures
        r == bind_hiddev_spec(devices@, usb_vid, usb_pid, serial@),
        r is Ok ==> r->Ok_0.wf(),
{
    let target = serial.to_owned();
    let ctrl = find_interface(devices, usb_vid, usb_pid, &target, CTRL_INTERFACE);
    let led = find_interface(devices, usb_vid, usb_pid, &target, LED_INTERFACE);
    match (ctrl, led) {
        (Some(c), Some(l)) => Ok(RoccatVulcanProTKL::bind(&devices[c], &devices[l])),
        _ => Err(HwDeviceError::EnumerationError),
    }
}

impl RoccatVulcanProTKL {
    /// The device after a call of `bind_device`.
    pub open spec fn after_bind(
        self,
        devices: Seq<HidDeviceDescriptor>,
        usb_vid: u16,
        usb_pid: u16,
        serial: Seq<char>,
    ) -> Self {
        match bind_hiddev_spec(devices, usb_vid, usb_pid, serial) {
            Ok(d) => d,
            Err(_) => self,
        }
    }

    /// Binds this instance to the device of the listing with the given
    /// identity; on failure the instance is left as it was.
    pub fn bind_device(
        &mut self,
        devices: &Vec<HidDeviceDescriptor>,
        usb_vid: u16,
        usb_pid: u16,
        serial: &str,
    ) -> (r: Result<(), HwDeviceError>)
        requires
            old(self).wf(),
        ensures
            final(self).wf(),
            *final(self) == old(self).after_bind(devices@, usb_vid, usb_pid, serial@),
            r == (match bind_hiddev_spec(devices@, usb_vid, usb_pid, serial@) {
                Ok(_) => Ok(()),
                Err(e) => Err(e),
            }),
    {
        match bind_hiddev(devices, usb_vid, usb_pid, serial) {
            Ok(d) => {
                *self = d;
                Ok(())
            },
            Err(e) => Err(e),
        }
    }

    /// First half of `open`: the control and LED interfaces that the host
    /// opens, in this order.
    pub fn open(&self) -> (r: Result<(HidDeviceDescriptor, HidDeviceDescriptor), HwDeviceError>)
        requires
            self.wf(),
        ensures
            r == guarded(
                self.lifecycle(),
                LifecycleState::Bound,
                Ok((self.ctrl_hiddev_info->0, self.led_hiddev_info->0)),
            ),
    {
        self.check_state(LifecycleState::Bound)?;
        match (&self.ctrl_hiddev_info, &self.led_hiddev_info) {
            (Some(c), Some(l)) => Ok((c.duplicate(), l.duplicate())),
            _ => Err(HwDeviceError::DeviceNotBound),
        }
    }

    /// Second half of `open`: whether the host opened the control and the
    /// LED interface. Where either failed, the host drops what it opened and
    /// the device is left as it was.
    pub fn opened(&mut self, ctrl_opened: bool, led_opened: bool) -> (r: Result<(), HwDeviceError>)
        requires
            old(self).wf(),
        ensures
            final(self).wf(),
            r == guarded(
                old(self).lifecycle(),
                LifecycleState::Bound,
                if ctrl_opened && led_opened {
                    Ok(())
                } else {
                    Err(HwDeviceError::DeviceOpenError)
                },
            ),
            r is Ok ==> *final(self) == (RoccatVulcanProTKL {
                is_opened: true,
                is_initialized: false,
                ..*old(self)
            }),
            r is Ok ==> final(self).lifecycle() == LifecycleState::Opened,
            r is Err ==> *final(self) == *old(self),
    {
        self.check_state(LifecycleState::Bound)?;
        if ctrl_opened && led_opened {
            self.is_opened = true;
            self.is_initialized = false;
            Ok(())
        } else {
            Err(HwDeviceError::DeviceOpenError)
        }
    }

    /// Closes both interfaces: the host drops its handles where this
    /// succeeds, and the device returns to `Bound`.
    pub fn close_all(&mut self) -> (r: Result<(), HwDeviceError>)
        requires
            old(self).wf(),
        ensures
            final(self).wf(),
            r == guarded(old(self).lifecycle(), LifecycleState::Opened, Ok(())),
            r is Ok ==> *final(self) == (RoccatVulcanProTKL {
                is_opened: false,
                is_initialized: false,
                ..*old(self)
            }),
            r is Ok ==> final(self).lifecycle() == LifecycleState::Bound,
            r is Err ==> *final(self) == *old(self),
    {
        self.check_state(LifecycleState::Opened)?;
        self.is_opened = false;
        self.is_initialized = false;
        Ok(())
    }

    /// Encodes control report `id` for a device that is open.
    pub fn send_ctrl_report(&self, id: u8) -> (r: Result<Vec<Vec<u8>>, HwDeviceError>)
        ensures
            frames_result(r) == guarded(
                self.lifecycle(),
                LifecycleState::Opened,
                match ctrl_report_frames_spec(id) {
                    Some(f) => Ok(f),
                    None => Err(HwDeviceError::InvalidStatusCode),
                },
            ),
    {
        self.check_state(LifecycleState::Opened)?;
        match ctrl_report_frames(id) {
            Some(frames) => Ok(frames),
            None => Err(HwDeviceError::InvalidStatusCode),
        }
    }

    /// The settle delay after a control report: the milliseconds that the
    /// host waits before the next transfer on the control interface.
    pub fn wait_for_ctrl_dev(&self) -> (r: Result<u64, HwDeviceError>)
        ensures
            r == guarded(self.lifecycle(), LifecycleState::Opened, Ok(DEVICE_SETTLE_MILLIS)),
    {
        self.check_state(LifecycleState::Opened)?;
        Ok(DEVICE_SETTLE_MILLIS)
    }

    /// Starts the init sequence of a device that is open.
    pub fn send_init_sequence(&self, policy: InitPolicy) -> (r: Result<InitSequence, HwDeviceError>)
        ensures
            r == guarded(
                self.lifecycle(),
                LifecycleState::Opened,
                Ok(InitSequence { policy, step: 0, failed_steps: 0 }),
            ),
            r is Ok ==> r->Ok_0.wf(),
    {
        self.check_state(LifecycleState::Opened)?;
        Ok(InitSequence { policy, step: 0, failed_steps: 0 })
    }

    /// Ends the init sequence: a sequence that succeeded leaves the device
    /// `Initialized`; one that did not finish, or that failed under the
    /// strict policy, gives `InvalidResult` and leaves the device as it was.
    pub fn init_sequence_done(&mut self, seq: &InitSequence) -> (r: Result<(), HwDeviceError>)
        requires
            old(self).wf(),
        ensures
            final(self).wf(),
            r == guarded(
                old(self).lifecycle(),
                LifecycleState::Opened,
                if seq.succeeded() {
                    Ok(())
                } else {
                    Err(HwDeviceError::InvalidResult)
                },
            ),
            r is Ok ==> *final(self) == (RoccatVulcanProTKL { is_initialized: true, ..*old(self) }),
            r is Ok ==> final(self).lifecycle() == LifecycleState::Initialized,
            r is Err ==> *final(self) == *old(self),
    {
        self.check_state(LifecycleState::Opened)?;
        let ok = seq.is_finished() && (seq.policy == InitPolicy::BestEffort || seq.failed_steps
            == 0);
        if ok {
            self.is_initialized = true;
            Ok(())
        } else {
            Err(HwDeviceError::InvalidResult)
        }
    }
}

/// Size of an input report of the control interface.
pub const EVENT_REPORT_SIZE: usize = 8;

/// Whether a report starts with the key-report prefix `03 00 <kind>`.
pub open spec fn has_prefix(b: Seq<u8>, kind: u8) -> bool {
    b[0] == 0x03 && b[1] == 0x00 && b[2] == kind
}

/// Decodes an input report, given the dial mode that preceding reports
/// left: the event, and the dial mode after it.
pub open spec fn decode_report_spec(b: Seq<u8>, mode: DialMode) -> (KeyboardHidEvent, DialMode) {
    if has_prefix(b, 0xfb) {
        let code = code_from_report_spec(0xfb, b[3]);
        (
            if b[4] == 0x00 {
                KeyboardHidEvent::KeyUp { code }
            } else if b[4] == 0x01 {
                KeyboardHidEvent::KeyDown { code }
            } else {
                KeyboardHidEvent::Unknown
            },
            mode,
        )
    } else if has_prefix(b, 0x0a) {
        let code = code_from_report_spec(0x0a, b[3]);
        (
            if (b[3] == 0x39 || b[3] == 0xff) && b[4] == 0x00 {
                KeyboardHidEvent::KeyDown { code }
            } else if (b[3] == 0x39 || b[3] == 0xff) && b[4] == 0x01 {
                KeyboardHidEvent::KeyUp { code }
            } else {
                KeyboardHidEvent::Unknown
            },
            mode,
        )
    } else if has_prefix(b, 0x0b) && (b[3] == 0x26 || b[3] == 0x27) {
        (KeyboardHidEvent::Unknown, DialMode::Volume)
    } else if has_prefix(b, 0xcc) {
        (
            if mode == DialMode::Volume {
                if b[3] == 0x01 {
                    KeyboardHidEvent::VolumeUp
                } else if b[3] == 0xff {
                    KeyboardHidEvent::VolumeDown
                } else {
                    KeyboardHidEvent::Unknown
                }
            } else {
                if b[3] == 0x01 {
                    KeyboardHidEvent::BrightnessUp
                } else if b[3] == 0xff {
                    KeyboardHidEvent::BrightnessDown
                } else {
                    KeyboardHidEvent::Unknown
                }
            },
            DialMode::Brightness,
        )
    } else if has_prefix(b, 0x0c) {
        (KeyboardHidEvent::SetBrightness(b[3]), mode)
    } else if b[0] == 0x42 && b[1] == 0xe2 && b[2] == 0x00 && b[3] == 0x00 {
        (KeyboardHidEvent::MuteDown, mode)
    } else if b[0] == 0x42 && b[1] == 0x00 && b[2] == 0x00 && b[3] == 0x00 {
        (KeyboardHidEvent::MuteUp, mode)
    } else {
        (KeyboardHidEvent::Unknown, mode)
    }
}

/// The key-state table after `event`: a key event records its key as
/// pressed or released, any other event leaves the table alone.
pub open spec fn key_states_after(states: Seq<bool>, event: KeyboardHidEvent) -> Seq<bool> {
    match event {
        KeyboardHidEvent::KeyDown { code } => states.update(
            code_to_key_index_spec(code) as int,
            true,
        ),
        KeyboardHidEvent::KeyUp { code } => states.update(
            code_to_key_index_spec(code) as int,
            false,
        ),
        _ => states,
    }
}

/// Decodes one input report of the control interface.
pub fn decode_event_report(report: &[u8; 8], dial_mode: DialMode) -> (r: (
    KeyboardHidEvent,
    DialMode,
))
    ensures
        r == decode_report_spec(report@, dial_mode),
{
    let b0 = report[0];
    let b1 = report[1];
    let b2 = report[2];
    let code = report[3];
    let status = report[4];
    if b0 == 0x03 && b1 == 0x00 {
        match b2 {
            // key reports, KEY_FN included
            0xfb => {
                let code = keyboard_hid_event_code_from_report(0xfb, code);
                let event = match status {
                    0x00 => KeyboardHidEvent::KeyUp { code },
                    0x01 => KeyboardHidEvent::KeyDown { code },
                    _ => KeyboardHidEvent::Unknown,
                };
                return (event, dial_mode);
            },
            // Caps Lock and Easy Shift share one switch and report inverted
            0x0a => {
                let event = if code == 0x39 || code == 0xff {
                    let code = keyboard_hid_event_code_from_report(0x0a, code);
                    match status {
                        0x00 => KeyboardHidEvent::KeyDown { code },
                        0x01 => KeyboardHidEvent::KeyUp { code },
                        _ => KeyboardHidEvent::Unknown,
                    }
                } else {
                    KeyboardHidEvent::Unknown
                };
                return (event, dial_mode);
            },
            // these prime the dial for a volume adjustment
            0x0b => {
                if code == 0x26 || code == 0x27 {
                    return (KeyboardHidEvent::Unknown, DialMode::Volume);
                }
            },
            // the dial turned: its meaning is consumed, brightness is the default
            0xcc => {
                let event = match dial_mode {
                    DialMode::Volume => match code {
                        0x01 => KeyboardHidEvent::VolumeUp,
                        0xff => KeyboardHidEvent::VolumeDown,
                        _ => KeyboardHidEvent::Unknown,
                    },
                    DialMode::Brightness => match code {
                        0x01 => KeyboardHidEvent::BrightnessUp,
                        0xff => KeyboardHidEvent::BrightnessDown,
                        _ => KeyboardHidEvent::Unknown,
                    },
                };
                return (event, DialMode::Brightness);
            },
            0x0c => {
                return (KeyboardHidEvent::SetBrightness(code), dial_mode);
            },
            _ => {},
        }
    }
    if b0 == 0x42 && b2 == 0x00 && code == 0x00 {
        if b1 == 0xe2 {
            return (KeyboardHidEvent::MuteDown, dial_mode);
        } else if b1 == 0x00 {
            return (KeyboardHidEvent::MuteUp, dial_mode);
        }
    }
    (KeyboardHidEvent::Unknown, dial_mode)
}

impl RoccatVulcanProTKL {
    /// First half of reading the next event: the host then reads one report
    /// of `EVENT_REPORT_SIZE` bytes from the control interface, waiting at
    /// most `millis` milliseconds (`-1`: without limit).
    pub fn get_next_event_timeout(&self, millis: i32) -> (r: Result<(), HwDeviceError>)
        ensures
            r == state_check(self.lifecycle(), LifecycleState::Initialized),
    {
        self.check_state(LifecycleState::Initialized)
    }

    /// Second half of reading the next event: decodes the report that was
    /// read (`None`: the read failed), moves the dial mode along and records
    /// key events in the key-state table.
    pub fn event_report_received(
        &mut self,
        report: Option<[u8; 8]>,
        key_states: &mut KeyStates,
    ) -> (r: Result<KeyboardHidEvent, HwDeviceError>)
        requires
            old(key_states)@.len() == MAX_KEYS,
        ensures
            match report {
                None => {
                    &&& r == Err::<KeyboardHidEvent, HwDeviceError>(HwDeviceError::InvalidResult)
                    &&& *final(self) == *old(self)
                    &&& final(key_states)@ == old(key_states)@
                },
                Some(b) => {
                    let (event, mode) = decode_report_spec(b@, old(self).dial_mode);
                    &&& r == Ok::<KeyboardHidEvent, HwDeviceError>(event)
                    &&& *final(self) == (RoccatVulcanProTKL { dial_mode: mode, ..*old(self) })
                    &&& final(key_states)@ == key_states_after(old(key_states)@, event)
                },
            },
    {
        match report {
            None => Err(HwDeviceError::InvalidResult),
            Some(buf) => {
                let (event, mode) = decode_event_report(&buf, self.dial_mode);
                self.dial_mode = mode;
                match event {
                    KeyboardHidEvent::KeyDown { code } => {
                        let index = self.hid_event_code_to_key_index(&code) as usize;
                        key_states.set(index, true);
                    },
                    KeyboardHidEvent::KeyUp { code } => {
                        let index = self.hid_event_code_to_key_index(&code) as usize;
                        key_states.set(index, false);
                    },
                    _ => {},
                }
                Ok(event)
            },
        }
    }
}

/// Keys per block of the LED buffer.
pub const LED_BLOCK_KEYS: usize = 12;

/// Bytes per block of the LED buffer: a red, a green and a blue plane.
pub const LED_BLOCK_SIZE: usize = 36;

/// Size of one LED write report.
pub const LED_REPORT_SIZE: usize = 64;

/// Size of the header of an LED write report.
pub const LED_HEADER_SIZE: usize = 4;

/// Bytes of the LED buffer that one write report carries.
pub const LED_CHUNK_SIZE: usize = 60;

/// Number of LED write reports per frame: enough chunks for three bytes per
/// key.
pub const NUM_LED_REPORTS: usize = (NUM_KEYS * 3 + LED_CHUNK_SIZE - 1) / LED_CHUNK_SIZE;

/// Offset in the LED buffer of channel `channel` (0: red, 1: green, 2: blue)
/// of the key at `index`.
pub open spec fn led_offset(index: int, channel: int) -> int {
    (index / 12) * 36 + index % 12 + channel * 12
}

pub open spec fn channel_value(c: RGBA, channel: int) -> u8 {
    if channel == 0 {
        c.r
    } else if channel == 1 {
        c.g
    } else {
        c.b
    }
}

/// The byte at `offset` of the LED buffer: blocks of 12 keys, each a plane
/// of red bytes, then green, then blue; zero past the last key.
pub open spec fn led_buffer_byte(led_map: Seq<RGBA>, offset: int) -> u8 {
    let index = (offset / 36) * 12 + offset % 12;
    if index < NUM_KEYS {
        channel_value(led_map[index], (offset % 36) / 12)
    } else {
        0
    }
}

/// The header of LED write report `k`: the first one differs from the rest.
pub open spec fn led_report_header(k: int) -> Seq<u8> {
    if k == 0 {
        seq![0xa1u8, 0x01u8, 0x34u8, 0x01u8]
    } else {
        seq![0xa1u8, (k + 1) as u8, 0x00u8, 0x00u8]
    }
}

/// LED write report `k`: its header and chunk `k` of the LED buffer.
pub open spec fn led_report_spec(led_map: Seq<RGBA>, k: int) -> Seq<u8> {
    led_report_header(k) + Seq::new(60, |j: int| led_buffer_byte(led_map, k * 60 + j))
}

pub open spec fn led_reports_spec(led_map: Seq<RGBA>) -> Seq<Seq<u8>> {
    Seq::new(NUM_LED_REPORTS as nat, |k: int| led_report_spec(led_map, k))
}

/// The reports for a canvas, or `LedMapError` for one shorter than
/// `NUM_KEYS`.
pub open spec fn led_map_result(led_map: Seq<RGBA>) -> Result<Seq<Seq<u8>>, HwDeviceError> {
    if led_map.len() < NUM_KEYS {
        Err(HwDeviceError::LedMapError)
    } else {
        Ok(led_reports_spec(led_map))
    }
}

/// An all-black canvas of `CANVAS_SIZE` slots.
pub open spec fn black_canvas() -> Seq<RGBA> {
    Seq::new(CANVAS_SIZE as nat, |i: int| RGBA { r: 0, g: 0, b: 0, a: 0 })
}

fn led_byte(led_map: &[RGBA], offset: usize) -> (r: u8)
    requires
        led_map@.len() >= NUM_KEYS,
        offset < NUM_LED_REPORTS * LED_CHUNK_SIZE,
    ensures
        r == led_buffer_byte(led_map@, offset as int),
{
    let index = (offset / LED_BLOCK_SIZE) * LED_BLOCK_KEYS + offset % LED_BLOCK_KEYS;
    if index < NUM_KEYS {
        let color = led_map[index];
        let channel = (offset % LED_BLOCK_SIZE) / LED_BLOCK_KEYS;
        if channel == 0 {
            color.r
        } else if channel == 1 {
            color.g
        } else {
            color.b
        }
    } else {
        0
    }
}

fn led_report(led_map: &[RGBA], k: usize) -> (r: Vec<u8>)
    requires
        led_map@.len() >= NUM_KEYS,
        k < NUM_LED_REPORTS,
    ensures
        r@ == led_report_spec(led_map@, k as int),
{
    let mut report: Vec<u8> = Vec::new();
    if k == 0 {
        report.push(0xa1);
        report.push(0x01);
        report.push(0x34);
        report.push(0x01);
    } else {
        report.push(0xa1);
        report.push((k + 1) as u8);
        report.push(0x00);
        report.push(0x00);
    }
    assert(report@ =~= led_report_header(k as int));
    let mut j: usize = 0;
    while j < LED_CHUNK_SIZE
        invariant
            led_map@.len() >= NUM_KEYS,
            k < NUM_LED_REPORTS,
            j <= LED_CHUNK_SIZE,
            report@ =~= led_report_header(k as int) + Seq::new(
                j as nat,
                |i: int| led_buffer_byte(led_map@, k * 60 + i),
            ),
        decreases LED_CHUNK_SIZE - j,
    {
        report.push(led_byte(led_map, k * LED_CHUNK_SIZE + j));
        j = j + 1;
    }
    report
}

/// Lays a canvas out as the LED write reports of one frame, in the order in
/// which they are written; a canvas shorter than `NUM_KEYS` is an error.
pub fn led_map_reports(led_map: &[RGBA]) -> (r: Result<Vec<Vec<u8>>, HwDeviceError>)
    ensures
        frames_result(r) == led_map_result(led_map@),
{
    if led_map.len() < NUM_KEYS {
        return Err(HwDeviceError::LedMapError);
    }
    let mut reports: Vec<Vec<u8>> = Vec::new();
    let mut k: usize = 0;
    while k < NUM_LED_REPORTS
        invariant
            led_map@.len() >= NUM_KEYS,
            k <= NUM_LED_REPORTS,
            frames_view(reports@) =~= led_reports_spec(led_map@).take(k as int),
        decreases NUM_LED_REPORTS - k,
    {
        let report = led_report(led_map, k);
        let ghost before = reports@;
        reports.push(report);
        assert(frames_view(reports@) =~= frames_view(before).push(report@));
        assert(led_reports_spec(led_map@).take(k + 1) =~= led_reports_spec(led_map@).take(
            k as int,
        ).push(report@));
        k = k + 1;
    }
    assert(frames_view(reports@) =~= led_reports_spec(led_map@));
    Ok(reports)
}

/// Whether the host wrote a whole LED report: `written` is what the write
/// returned, `None` where it failed.
pub fn led_report_written(written: Option<usize>) -> (r: Result<(), HwDeviceError>)
    ensures
        r == (match written {
            Some(n) => if n >= LED_REPORT_SIZE {
                Ok(())
            } else {
                Err(HwDeviceError::WriteError)
            },
            None => Err(HwDeviceError::WriteError),
        }),
{
    match written {
        Some(n) => if n >= LED_REPORT_SIZE {
            Ok(())
        } else {
            Err(HwDeviceError::WriteError)
        },
        None => Err(HwDeviceError::WriteError),
    }
}

/// For a canvas of exactly `NUM_KEYS` keys, the frame takes
/// `ceil(NUM_KEYS * 3 / LED_CHUNK_SIZE)` write reports, each of
/// `LED_REPORT_SIZE` bytes, and the header of the first differs from the
/// header of every other.
pub proof fn lemma_led_reports_shape(led_map: Seq<RGBA>)
    requires
        led_map.len() == NUM_KEYS,
    ensures
        led_map_result(led_map) is Ok,
        ({
            let reports = led_map_result(led_map)->Ok_0;
            &&& reports.len() * LED_CHUNK_SIZE >= NUM_KEYS * 3
            &&& (reports.len() - 1) * LED_CHUNK_SIZE < NUM_KEYS * 3
            &&& forall|k: int| 0 <= k < reports.len() ==> #[trigger] reports[k].len() == LED_REPORT_SIZE
            &&& forall|k: int|
                1 <= k < reports.len() ==> #[trigger] reports[k].subrange(0, 4) != reports[0].subrange(
                    0,
                    4,
                )
        }),
{
    let reports = led_reports_spec(led_map);
    assert forall|k: int| 1 <= k < reports.len() implies #[trigger] reports[k].subrange(0, 4)
        != reports[0].subrange(0, 4) by {
        assert(reports[k].subrange(0, 4)[1] == (k + 1) as u8);
        assert(reports[0].subrange(0, 4)[1] == 1u8);
    }
}

/// No two distinct pairs of key and channel share a byte of the LED buffer.
pub proof fn lemma_led_offset_injective(i1: int, c1: int, i2: int, c2: int)
    requires
        0 <= i1 < NUM_KEYS,
        0 <= i2 < NUM_KEYS,
        0 <= c1 < 3,
        0 <= c2 < 3,
        led_offset(i1, c1) == led_offset(i2, c2),
    ensures
        i1 == i2,
        c1 == c2,
{
    let q1 = i1 / 12;
    let q2 = i2 / 12;
    let s1 = i1 % 12;
    let s2 = i2 % 12;
    assert(i1 == q1 * 12 + s1 && 0 <= s1 < 12);
    assert(i2 == q2 * 12 + s2 && 0 <= s2 < 12);
    assert(q1 == q2);
    assert(c1 == c2);
}

/// Channel `channel` of the key at `index` travels in the LED report and at
/// the position that its offset gives: what the key's color holds.
pub proof fn lemma_led_offset_carries_channel(led_map: Seq<RGBA>, index: int, channel: int)
    requires
        led_map.len() >= NUM_KEYS,
        0 <= index < NUM_KEYS,
        0 <= channel < 3,
    ensures
        0 <= led_offset(index, channel) < NUM_LED_REPORTS * LED_CHUNK_SIZE,
        ({
            let o = led_offset(index, channel);
            led_reports_spec(led_map)[o / 60][LED_HEADER_SIZE + o % 60] == channel_value(
                led_map[index],
                channel,
            )
        }),
{
    let o = led_offset(index, channel);
    let q = index / 12;
    let s = index % 12;
    assert(index == q * 12 + s && 0 <= s < 12);
    assert(0 <= q <= 10);
    assert(o == q * 36 + (s + channel * 12));
    assert(o / 36 == q && o % 36 == s + channel * 12);
    assert(o % 12 == s);
    assert((o % 36) / 12 == channel);
    let k = o / 60;
    let j = o % 60;
    assert(o == k * 60 + j && 0 <= j < 60);
    assert(led_report_spec(led_map, k)[LED_HEADER_SIZE + j] == led_buffer_byte(led_map, k * 60 + j));
}

impl RoccatVulcanProTKL {
    /// First half of sending a canvas: the LED write reports, which the host
    /// writes in order to the LED interface, stopping at the first write
    /// that `led_report_written` does not accept.
    pub fn send_led_map(&self, led_map: &[RGBA]) -> (r: Result<Vec<Vec<u8>>, HwDeviceError>)
        ensures
            frames_result(r) == guarded(
                self.lifecycle(),
                LifecycleState::Initialized,
                led_map_result(led_map@),
            ),
    {
        self.check_state(LifecycleState::Initialized)?;
        led_map_reports(led_map)
    }

    fn black_led_map_reports(&self) -> (r: Result<Vec<Vec<u8>>, HwDeviceError>)
        ensures
            frames_result(r) == guarded(
                self.lifecycle(),
                LifecycleState::Initialized,
                led_map_result(black_canvas()),
            ),
    {
        self.check_state(LifecycleState::Initialized)?;
        let mut led_map: Vec<RGBA> = Vec::new();
        let mut i: usize = 0;
        while i < CANVAS_SIZE
            invariant
                i <= CANVAS_SIZE,
                led_map@ =~= black_canvas().take(i as int),
            decreases CANVAS_SIZE - i,
        {
            led_map.push(RGBA { r: 0x00, g: 0x00, b: 0x00, a: 0x00 });
            i = i + 1;
        }
        assert(led_map@ =~= black_canvas());
        led_map_reports(led_map.as_slice())
    }

    /// The reports that switch every LED off, for the start of the session.
    pub fn set_led_init_pattern(&self) -> (r: Result<Vec<Vec<u8>>, HwDeviceError>)
        ensures
            frames_result(r) == guarded(
                self.lifecycle(),
                LifecycleState::Initialized,
                led_map_result(black_canvas()),
            ),
    {
        self.black_led_map_reports()
    }

    /// The reports that switch every LED off, for the end of the session.
    pub fn set_led_off_pattern(&self) -> (r: Result<Vec<Vec<u8>>, HwDeviceError>)
        ensures
            frames_result(r) == guarded(
                self.lifecycle(),
                LifecycleState::Initialized,
                led_map_result(black_canvas()),
            ),
    {
        self.black_led_map_reports()
    }
}

/// Size of the device-info feature report.
pub const DEVICE_INFO_SIZE: usize = 6;

/// ROCCAT Vulcan Pro TKL device info, as the device returns it in feature
/// report `0x0f`.
#[derive(Clone, Copy, Debug, PartialEq, Eq, Structural)]
pub struct DeviceInfo {
    pub report_id: u8,
    pub size: u8,
    pub firmware_version: u8,
    pub reserved1: u8,
    pub reserved2: u8,
    pub reserved3: u8,
}

impl DeviceInfo {
    /// Reads the fields of the report from their byte offsets; `None` for a
    /// report shorter than `DEVICE_INFO_SIZE`.
    pub fn from_report(buf: &[u8]) -> (r: Option<DeviceInfo>)
        ensures
            r == (if buf@.len() >= DEVICE_INFO_SIZE {
                Some(
                    DeviceInfo {
                        report_id: buf@[0],
                        size: buf@[1],
                        firmware_version: buf@[2],
                        reserved1: buf@[3],
                        reserved2: buf@[4],
                        reserved3: buf@[5],
                    },
                )
            } else {
                None::<DeviceInfo>
            }),
    {
        if buf.len() < DEVICE_INFO_SIZE {
            return None;
        }
        Some(
            DeviceInfo {
                report_id: buf[0],
                size: buf[1],
                firmware_version: buf[2],
                reserved1: buf[3],
                reserved2: buf[4],
                reserved3: buf[5],
            },
        )
    }
}

/// The report that switches a status LED, for the kinds that the device has.
pub open spec fn status_led_report_spec(led_kind: LedKind) -> Option<Seq<u8>> {
    let id: u8 = match led_kind {
        LedKind::NumLock => 0x21,
        LedKind::CapsLock => 0x22,
        LedKind::ScrollLock => 0x23,
        LedKind::GameMode => 0x24,
        _ => 0x00,
    };
    if id == 0 {
        None
    } else {
        Some(seq![id, 0x00u8, 0x00u8, 0x00u8, 0x00u8, 0x00u8, 0x00u8, 0x00u8])
    }
}

impl RoccatVulcanProTKL {
    /// First half of the device-info query: the buffer, report id first, that
    /// the host fills with feature report `0x0f` of the control interface.
    pub fn get_device_info(&self) -> (r: Result<Vec<u8>, HwDeviceError>)
        ensures
            match r {
                Ok(buf) => state_check(self.lifecycle(), LifecycleState::Opened) is Ok && buf@
                    == seq![0x0fu8, 0x00u8, 0x00u8, 0x00u8, 0x00u8, 0x00u8],
                Err(e) => state_check(self.lifecycle(), LifecycleState::Opened) == Err::<
                    (),
                    HwDeviceError,
                >(e),
            },
    {
        self.check_state(LifecycleState::Opened)?;
        let mut buf: Vec<u8> = Vec::new();
        buf.push(0x0f);
        let mut i: usize = 1;
        while i < DEVICE_INFO_SIZE
            invariant
                1 <= i <= DEVICE_INFO_SIZE,
                buf@ =~= seq![0x0fu8, 0x00u8, 0x00u8, 0x00u8, 0x00u8, 0x00u8].take(i as int),
            decreases DEVICE_INFO_SIZE - i,
        {
            buf.push(0x00);
            i = i + 1;
        }
        Ok(buf)
    }

    /// Second half of the device-info query: interprets the report that the
    /// host read (`None`: the read failed).
    pub fn device_info_received(&self, report: Option<&[u8]>) -> (r: Result<
        crate::hwdevices::DeviceInfo,
        HwDeviceError,
    >)
        ensures
            r == (match report {
                Some(buf) => if buf@.len() >= DEVICE_INFO_SIZE {
                    Ok(crate::hwdevices::DeviceInfo { firmware_version: buf@[2] as i32 })
                } else {
                    Err(HwDeviceError::InvalidResult)
                },
                None => Err(HwDeviceError::InvalidResult),
            }),
    {
        match report {
            Some(buf) => match DeviceInfo::from_report(buf) {
                Some(info) => Ok(crate::hwdevices::DeviceInfo::new(info.firmware_version as i32)),
                None => Err(HwDeviceError::InvalidResult),
            },
            None => Err(HwDeviceError::InvalidResult),
        }
    }

    /// The firmware revision for display: the version number, or
    /// `<unknown>` where the query failed.
    pub fn get_firmware_revision(
        &self,
        info: &Result<crate::hwdevices::DeviceInfo, HwDeviceError>,
    ) -> (r: String)
        ensures
            match info {
                Ok(i) => to_string_from_display_ensures::<i32>(&i.firmware_version, r),
                Err(_) => r@ == "<unknown>"@,
            },
    {
        match info {
            Ok(i) => i.firmware_version.to_string(),
            Err(_) => "<unknown>".to_owned(),
        }
    }

    /// The path of the LED interface.
    pub fn get_usb_path(&self) -> (r: String)
        requires
            self.wf(),
            self.is_bound,
        ensures
            r@ == self.led_hiddev_info->0.path@,
    {
        match &self.led_hiddev_info {
            Some(led) => led.path.clone(),
            None => String::new(),
        }
    }

    pub fn get_usb_vid(&self) -> (r: u16)
        requires
            self.wf(),
            self.is_bound,
        ensures
            r == self.ctrl_hiddev_info->0.vendor_id,
    {
        match &self.ctrl_hiddev_info {
            Some(ctrl) => ctrl.vendor_id,
            None => 0,
        }
    }

    pub fn get_usb_pid(&self) -> (r: u16)
        requires
            self.wf(),
            self.is_bound,
        ensures
            r == self.ctrl_hiddev_info->0.product_id,
    {
        match &self.ctrl_hiddev_info {
            Some(ctrl) => ctrl.product_id,
            None => 0,
        }
    }

    /// The support script of the effect layer for this device.
    pub fn get_support_script_file(&self) -> (r: String)
        ensures
            r@ == "keyboards/roccat_vulcan_pro_tkl"@,
    {
        "keyboards/roccat_vulcan_pro_tkl".to_owned()
    }

    /// First half of a raw write to the control interface: the bytes that
    /// the host writes.
    pub fn write_data_raw(&self, buf: &[u8]) -> (r: Result<Vec<u8>, HwDeviceError>)
        ensures
            match r {
                Ok(v) => state_check(self.lifecycle(), LifecycleState::Initialized) is Ok && v@
                    == buf@,
                Err(e) => state_check(self.lifecycle(), LifecycleState::Initialized) == Err::<
                    (),
                    HwDeviceError,
                >(e),
            },
    {
        self.check_state(LifecycleState::Initialized)?;
        Ok(slice_to_vec(buf))
    }

    /// First half of a raw read from the control interface: the number of
    /// bytes that the host reads.
    pub fn read_data_raw(&self, size: usize) -> (r: Result<usize, HwDeviceError>)
        ensures
            r == guarded(self.lifecycle(), LifecycleState::Initialized, Ok(size)),
    {
        self.check_state(LifecycleState::Initialized)?;
        Ok(size)
    }

    /// Whether a raw transfer that the host performed succeeded.
    pub fn raw_transfer_done(&self, succeeded: bool) -> (r: Result<(), HwDeviceError>)
        ensures
            r == (if succeeded {
                Ok(())
            } else {
                Err(HwDeviceError::InvalidResult)
            }),
    {
        if succeeded {
            Ok(())
        } else {
            Err(HwDeviceError::InvalidResult)
        }
    }

    /// The raw report that switches a status LED, to be written with
    /// `write_data_raw`; `Ok(None)` for the kinds that this device does not
    /// switch.
    pub fn set_status_led(&self, led_kind: LedKind, on: bool) -> (r: Result<
        Option<Vec<u8>>,
        HwDeviceError,
    >)
        ensures
            match status_led_report_spec(led_kind) {
                None => r == Ok::<Option<Vec<u8>>, HwDeviceError>(None),
                Some(report) => match r {
                    Ok(v) => state_check(self.lifecycle(), LifecycleState::Initialized) is Ok
                        && v is Some && v->0@ == report,
                    Err(e) => state_check(self.lifecycle(), LifecycleState::Initialized) == Err::<
                        (),
                        HwDeviceError,
                    >(e),
                },
            },
    {
        let id: u8 = match led_kind {
            LedKind::NumLock => 0x21,
            LedKind::CapsLock => 0x22,
            LedKind::ScrollLock => 0x23,
            LedKind::GameMode => 0x24,
            _ => 0x00,
        };
        if id == 0 {
            return Ok(None);
        }
        self.check_state(LifecycleState::Initialized)?;
        let mut report: Vec<u8> = Vec::new();
        report.push(id);
        let mut i: usize = 1;
        while i < 8
            invariant
                1 <= i <= 8,
                report@ =~= status_led_report_spec(led_kind)->0.take(i as int),
                status_led_report_spec(led_kind) is Some,
                status_led_report_spec(led_kind)->0[0] == id,
            decreases 8 - i,
        {
            report.push(0x00);
            i = i + 1;
        }
        Ok(Some(report))
    }
}

/// An operation that needs the state `required`, invoked in an earlier
/// state, fails with the `DeviceNot*` error of the state that the device is
/// in, and hands the host nothing to transfer, whatever its plan was.
pub proof fn lemma_io_needs_state<T>(
    current: LifecycleState,
    required: LifecycleState,
    plan: Result<T, HwDeviceError>,
)
    requires
        current.rank() < required.rank(),
    ensures
        guarded(current, required, plan) == Err::<T, HwDeviceError>(
            match current {
                LifecycleState::Unbound => HwDeviceError::DeviceNotBound,
                LifecycleState::Bound => HwDeviceError::DeviceNotOpened,
                _ => HwDeviceError::DeviceNotInitialized,
            },
        ),
{
}

/// Every input report decodes to exactly one event, and the key-state
/// table changes only through a key event: a key-down or key-up event
/// writes its key's entry, which lies inside the table, and leaves every
/// other entry alone; every other event leaves the table as it was.
pub proof fn lemma_decode_touches_only_key_events(
    report: Seq<u8>,
    mode: DialMode,
    states: Seq<bool>,
)
    requires
        report.len() == EVENT_REPORT_SIZE,
        states.len() == MAX_KEYS,
    ensures
        ({
            let event = decode_report_spec(report, mode).0;
            let after = key_states_after(states, event);
            &&& after.len() == states.len()
            &&& !(event is KeyDown || event is KeyUp) ==> after == states
            &&& event is KeyDown ==> {
                let index = code_to_key_index_spec(event->KeyDown_code) as int;
                &&& index < MAX_KEYS
                &&& after[index]
                &&& forall|i: int| 0 <= i < states.len() && i != index ==> after[i] == states[i]
            }
            &&& event is KeyUp ==> {
                let index = code_to_key_index_spec(event->KeyUp_code) as int;
                &&& index < MAX_KEYS
                &&& !after[index]
                &&& forall|i: int| 0 <= i < states.len() && i != index ==> after[i] == states[i]
            }
        }),
{
}

/// Mapping a raw key report to its key code and the key code back to the
/// device's raw code gives the raw code again: for every code that the
/// device names, and for the unknown codes, which carry their raw code.
pub proof fn lemma_report_code_round_trip(report: u8, code: u8)
    ensures
        code_to_report_spec(code_from_report_spec(report, code)) == code,
{
}

/// Binding to a serial number that no enumerated interface has fails with
/// `EnumerationError` and leaves an unbound device unbound.
pub proof fn lemma_bind_unknown_serial(
    dev: RoccatVulcanProTKL,
    devices: Seq<HidDeviceDescriptor>,
    usb_vid: u16,
    usb_pid: u16,
    serial: Seq<char>,
)
    requires
        forall|i: int| 0 <= i < devices.len() ==> #[trigger] devices[i].serial_spec() != serial,
        dev.lifecycle() == LifecycleState::Unbound,
    ensures
        bind_hiddev_spec(devices, usb_vid, usb_pid, serial) == Err::<
            RoccatVulcanProTKL,
            HwDeviceError,
        >(HwDeviceError::EnumerationError),
        dev.after_bind(devices, usb_vid, usb_pid, serial) == dev,
        dev.after_bind(devices, usb_vid, usb_pid, serial).lifecycle() == LifecycleState::Unbound,
{
    assert(!exists|i: int| is_first_match(devices, i, usb_vid, usb_pid, serial, CTRL_INTERFACE));
}

} // verus!
