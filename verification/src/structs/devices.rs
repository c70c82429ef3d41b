//! A simulator listing (`xcrun simctl list --json devices`).
use std::collections::HashMap;
use vstd::prelude::*;

verus! {

/// A simulator as listed.
#[derive(Debug)]
pub struct Device {
    pub last_booted_at: Option<String>,
    pub data_path: String,
    pub data_path_size: u64,
    pub log_path: String,
    pub udid: String,
    pub is_available: bool,
    pub log_path_size: Option<u64>,
    pub device_type_identifier: String,
    pub state: String,
    pub name: String,
}

/// The simulators of each runtime, keyed by the runtime's identifier.
#[derive(Debug)]
pub struct Devices {
    pub devices: HashMap<String, Vec<Device>>,
}

} // verus!
