//! The device model shared by every hardware backend: colors, key codes,
//! decoded events, errors, USB descriptors and the shared key-state table.
use vstd::prelude::*;

use crate::constants::MAX_KEYS;

verus! {

/// A color with red, green, blue and alpha components.
#[derive(Clone, Copy, Debug, PartialEq, Eq, Structural)]
pub struct RGBA {
    pub r: u8,
    pub g: u8,
    pub b: u8,
    pub a: u8,
}

/// The logical key identifiers that a backend reports. Raw codes that a
/// backend does not know are carried through as `Unknown`.
#[allow(non_camel_case_types)]
#[derive(Clone, Copy, Debug, PartialEq, Eq, Structural)]
pub enum KeyboardHidEventCode {
    KEY_F1,
    KEY_F2,
    KEY_F3,
    KEY_F4,
    KEY_F5,
    KEY_F6,
    KEY_F7,
    KEY_F8,
    KEY_ESC,
    KEY_FN,
    KEY_CAPS_LOCK,
    KEY_EASY_SHIFT,
    Unknown(u8),
}

/// One decoded HID input report.
#[derive(Clone, Copy, Debug, PartialEq, Eq, Structural)]
pub enum KeyboardHidEvent {
    KeyDown { code: KeyboardHidEventCode },
    KeyUp { code: KeyboardHidEventCode },
    VolumeUp,
    VolumeDown,
    BrightnessUp,
    BrightnessDown,
    SetBrightness(u8),
    MuteUp,
    MuteDown,
    Unknown,
}

/// The errors of the device layer.
#[derive(Clone, Copy, Debug, PartialEq, Eq, Structural)]
pub enum HwDeviceError {
    EnumerationError,
    DeviceNotBound,
    DeviceNotOpened,
    DeviceNotInitialized,
    DeviceOpenError,
    InvalidResult,
    InvalidStatusCode,
    LedMapError,
    WriteError,
}

impl HwDeviceError {
    /// A human readable description of the error.
    pub fn description(&self) -> (r: &'static str)
        ensures
            r@ == self.description_spec(),
    {
        match self {
            HwDeviceError::EnumerationError => "Could not enumerate the device",
            HwDeviceError::DeviceNotBound => "Device not bound",
            HwDeviceError::DeviceNotOpened => "Device not opened",
            HwDeviceError::DeviceNotInitialized => "Device not initialized",
            HwDeviceError::DeviceOpenError => "Could not open the device",
            HwDeviceError::InvalidResult => "Invalid result",
            HwDeviceError::InvalidStatusCode => "Invalid status code",
            HwDeviceError::LedMapError => "Invalid LED map",
            HwDeviceError::WriteError => "Could not write to the device",
        }
    }

    pub open spec fn description_spec(&self) -> Seq<char> {
        match self {
            HwDeviceError::EnumerationError => "Could not enumerate the device"@,
            HwDeviceError::DeviceNotBound => "Device not bound"@,
            HwDeviceError::DeviceNotOpened => "Device not opened"@,
            HwDeviceError::DeviceNotInitialized => "Device not initialized"@,
            HwDeviceError::DeviceOpenError => "Could not open the device"@,
            HwDeviceError::InvalidResult => "Invalid result"@,
            HwDeviceError::InvalidStatusCode => "Invalid status code"@,
            HwDeviceError::LedMapError => "Invalid LED map"@,
            HwDeviceError::WriteError => "Could not write to the device"@,
        }
    }
}

/// Information that a device reports about itself.
#[derive(Clone, Copy, Debug, PartialEq, Eq, Structural)]
pub struct DeviceInfo {
    pub firmware_version: i32,
}

impl DeviceInfo {
    pub fn new(firmware_version: i32) -> (r: Self)
        ensures
            r.firmware_version == firmware_version,
    {
        DeviceInfo { firmware_version }
    }
}

/// Optional capabilities of a device; none are defined yet.
#[derive(Clone, Copy, Debug, PartialEq, Eq, Structural)]
pub struct DeviceCapabilities {}

/// The status LEDs that a keyboard may have.
#[derive(Clone, Copy, Debug, PartialEq, Eq, Structural)]
pub enum LedKind {
    Unknown,
    AudioMute,
    Fx,
    Volume,
    NumLock,
    CapsLock,
    ScrollLock,
    GameMode,
}

/// The progression that every device instance passes through before it
/// accepts I/O.
#[derive(Clone, Copy, Debug, PartialEq, Eq, Structural)]
pub enum LifecycleState {
    Unbound,
    Bound,
    Opened,
    Initialized,
}

impl LifecycleState {
    /// The position of the state in the progression.
    pub open spec fn rank(self) -> int {
        match self {
            LifecycleState::Unbound => 0,
            LifecycleState::Bound => 1,
            LifecycleState::Opened => 2,
            LifecycleState::Initialized => 3,
        }
    }
}

/// One enumerated USB HID interface, as the host's HID library lists it.
#[derive(Clone, Debug)]
pub struct HidDeviceDescriptor {
    pub vendor_id: u16,
    pub product_id: u16,
    pub serial_number: Option<String>,
    pub interface_number: i32,
    pub path: String,
}

impl HidDeviceDescriptor {
    /// The serial number, where a device without one counts as `""`.
    pub open spec fn serial_spec(&self) -> Seq<char> {
        match self.serial_number {
            Some(s) => s@,
            None => Seq::empty(),
        }
    }

    /// A copy of the descriptor.
    pub fn duplicate(&self) -> (r: Self)
        ensures
            r == *self,
    {
        let serial_number = match &self.serial_number {
            Some(s) => Some(s.clone()),
            None => None,
        };
        HidDeviceDescriptor {
            vendor_id: self.vendor_id,
            product_id: self.product_id,
            serial_number,
            interface_number: self.interface_number,
            path: self.path.clone(),
        }
    }
}

/// The shared key-state table: one pressed flag per logical key index.
pub struct KeyStates {
    states: Vec<bool>,
}

impl View for KeyStates {
    type V = Seq<bool>;

    closed spec fn view(&self) -> Seq<bool> {
        self.states@
    }
}

impl KeyStates {
    /// A table of `MAX_KEYS` released keys.
    pub fn new() -> (r: Self)
        ensures
            r@ == Seq::new(MAX_KEYS as nat, |i: int| false),
    {
        let mut states: Vec<bool> = Vec::new();
        let mut i: usize = 0;
        while i < MAX_KEYS
            invariant
                i <= MAX_KEYS,
                states@ == Seq::new(i as nat, |j: int| false),
            decreases MAX_KEYS - i,
        {
            states.push(false);
            i = i + 1;
        }
        KeyStates { states }
    }

    pub fn len(&self) -> (r: usize)
        ensures
            r == self@.len(),
    {
        self.states.len()
    }

    /// Whether the key at `index` is held down; `None` outside the table.
    pub fn get(&self, index: usize) -> (r: Option<bool>)
        ensures
            r == (if index < self@.len() {
                Some(self@[index as int])
            } else {
                None::<bool>
            }),
    {
        if index < self.states.len() {
            Some(self.states[index])
        } else {
            None
        }
    }

    /// Records the key at `index` as pressed or released.
    pub fn set(&mut self, index: usize, pressed: bool)
        requires
            index < old(self)@.len(),
        ensures
            final(self)@ == old(self)@.update(index as int, pressed),
    {
        self.states.set(index, pressed);
    }
}

} // verus!
