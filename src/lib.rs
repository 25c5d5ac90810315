//! Device protocol layer for RGB-illuminated USB HID keyboards: device
//! matching, the lifecycle of a bound device, the control-report codec,
//! HID event decoding and the canvas-to-LED mapping.
//!
//! The library decides; the host performs the HID transfers it asks for and
//! hands the outcomes back.
pub mod constants;
pub mod ev_keymap;
pub mod hwdevices;
pub mod roccat_vulcan_pro_tkl;
pub mod scripting;
pub mod sensors;
