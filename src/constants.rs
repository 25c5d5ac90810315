use vstd::prelude::*;

verus! {

/// Number of slots of the canvas that the rendering layer paints, one per
/// logical key index across the managed keyboard surface.
pub const CANVAS_SIZE: usize = 144;

/// Number of entries of the shared key-state table.
pub const MAX_KEYS: usize = 144;

/// Time in milliseconds that the device needs to process a control report.
pub const DEVICE_SETTLE_MILLIS: u64 = 5;

} // verus!
