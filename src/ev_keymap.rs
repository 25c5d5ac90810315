//! Key index table for evdev key codes of the ROCCAT Vulcan Pro TKL.
use vstd::prelude::*;

use crate::roccat_vulcan_pro_tkl::RoccatVulcanProTKL;

verus! {

/// Maps evdev key codes below 128 to key indices, for the ISO layout;
/// `0xff` marks a code without a key. Codes from 128 on have no key.
pub const EV_TO_INDEX_ISO: [u8; 128] = [
    0xff, 0x02, 0x08, 0x0e, 0x15, 0x1a, 0x1f, 0x24, 0x29, 0x30, 0x36, 0x3c, 0x42, 0x48, 0x50, 0x04,
    0x09, 0x0f, 0x16, 0x1b, 0x20, 0x25, 0x2a, 0x31, 0x37, 0x3d, 0x43, 0x49, 0x52, 0x01, 0x0a, 0x10,
    0x17, 0x1c, 0x21, 0x26, 0x2b, 0x32, 0x38, 0x3e, 0x44, 0x03, 0x00, 0x4a, 0x0b, 0x11, 0x18, 0x1d,
    0x22, 0x27, 0x2c, 0x33, 0x39, 0x3f, 0x4b, 0xff, 0x0c, 0x23, 0x05, 0x0d, 0x14, 0x19, 0x1e, 0x28,
    0x2f, 0x35, 0x3b, 0x41, 0x47, 0xff, 0xff, 0xff, 0xff, 0xff, 0xff, 0xff, 0xff, 0xff, 0xff, 0xff,
    0xff, 0xff, 0xff, 0xff, 0xff, 0xff, 0x06, 0x4d, 0x4f, 0xff, 0xff, 0xff, 0xff, 0xff, 0xff, 0xff,
    0xff, 0x4c, 0xff, 0xff, 0x3a, 0xff, 0x58, 0x5a, 0x5d, 0x56, 0x5f, 0x59, 0x5b, 0x5e, 0x54, 0x55,
    0xff, 0xff, 0xff, 0xff, 0xff, 0xff, 0xff, 0xff, 0xff, 0xff, 0xff, 0xff, 0xff, 0x07, 0xff, 0x46,
];

/// The table entry for the low byte of an evdev key code.
pub open spec fn ev_table_entry(low: int) -> u8 {
    if low < 128 {
        EV_TO_INDEX_ISO@[low]
    } else {
        0xff
    }
}

impl RoccatVulcanProTKL {
    /// The logical key index of an evdev key code on the ISO layout: the
    /// table entry of the code's low byte plus one, wrapping, so that codes
    /// without a key give `0`.
    pub fn ev_key_to_key_index(&self, key: u16) -> (r: u8)
        ensures
            r == (ev_table_entry((key % 256) as int) + 1) % 256,
    {
        let low = (key % 256) as usize;
        let entry = if low < 128 {
            EV_TO_INDEX_ISO[low]
        } else {
            0xff
        };
        entry.wrapping_add(1)
    }
}

} // verus!
