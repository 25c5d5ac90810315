//! System sensors for effect scripts: memory and swap usage.
use vstd::prelude::*;

verus! {

#[verifier::external_type_specification]
#[verifier::external_body]
pub struct ExSystem(sysinfo::System);

/// Relies on sysinfo::System::new: a handle on the machine's state, with
/// nothing loaded yet.
pub assume_specification[ sysinfo::System::new ]() -> sysinfo::System;

/// Relies on sysinfo::System::refresh_all: reloads what the handle reports.
pub assume_specification[ sysinfo::System::refresh_all ](system: &mut sysinfo::System);

/// Relies on sysinfo::System::total_memory: the RAM size in bytes.
pub assume_specification[ sysinfo::System::total_memory ](system: &sysinfo::System) -> u64;

/// Relies on sysinfo::System::used_memory: the used RAM in bytes.
pub assume_specification[ sysinfo::System::used_memory ](system: &sysinfo::System) -> u64;

/// Relies on sysinfo::System::total_swap: the swap size in bytes.
pub assume_specification[ sysinfo::System::total_swap ](system: &sysinfo::System) -> u64;

/// Relies on sysinfo::System::used_swap: the used swap in bytes.
pub assume_specification[ sysinfo::System::used_swap ](system: &sysinfo::System) -> u64;

/// An error of the sensors plugin.
#[derive(Clone, Copy, Debug, PartialEq, Eq, Structural)]
pub struct SensorsPluginError {
    pub code: u32,
}

impl SensorsPluginError {
    pub fn description(&self) -> (r: &'static str)
        ensures
            r@ == (if self.code == 0 {
                ""@
            } else {
                "Unknown error"@
            }),
    {
        if self.code == 0 {
            ""
        } else {
            "Unknown error"
        }
    }
}

/// Query system sensor values.
#[derive(Clone, Copy, Debug, PartialEq, Eq, Structural)]
pub struct SensorsPlugin {}

/// Whole kibibytes in `bytes` bytes.
pub fn kib_of_bytes(bytes: u64) -> (r: u64)
    ensures
        r == bytes / 1024,
{
    bytes / 1024
}

fn refreshed_system() -> sysinfo::System {
    let mut system = sysinfo::System::new();
    system.refresh_all();
    system
}

impl SensorsPlugin {
    pub fn new() -> (r: Self)
        ensures
            r == (SensorsPlugin {}),
    {
        SensorsPlugin {}
    }

    pub fn get_name(&self) -> (r: String)
        ensures
            r@ == "Sensors"@,
    {
        "Sensors".to_owned()
    }

    pub fn get_description(&self) -> (r: String)
        ensures
            r@ == "Query system sensor values"@,
    {
        "Query system sensor values".to_owned()
    }

    /// The RAM size in KiB, as the machine reports it now.
    pub fn get_mem_total_kb() -> u64 {
        let system = refreshed_system();
        kib_of_bytes(system.total_memory())
    }

    /// The used RAM in KiB, as the machine reports it now.
    pub fn get_mem_used_kb() -> u64 {
        let system = refreshed_system();
        kib_of_bytes(system.used_memory())
    }

    /// The swap size in KiB, as the machine reports it now.
    pub fn get_swap_total_kb() -> u64 {
        let system = refreshed_system();
        kib_of_bytes(system.total_swap())
    }

    /// The used swap in KiB, as the machine reports it now.
    pub fn get_swap_used_kb() -> u64 {
        let system = refreshed_system();
        kib_of_bytes(system.used_swap())
    }
}

} // verus!
