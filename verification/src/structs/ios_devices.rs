//! The records of `xcrun simctl` listings of simulators, device types and
//! runtimes.
use std::collections::HashMap;
use vstd::prelude::*;

verus! {

/// A simulator as listed.
#[derive(Debug)]
pub struct Device {
    pub last_booted_at: Option<String>,
    pub data_path: String,
    pub data_path_size: u64,
    pub log_path: String,
    pub udid: String,
    pub is_available: bool,
    pub log_path_size: Option<u64>,
    pub device_type_identifier: String,
    pub state: String,
    pub name: String,
}

/// The simulators of each runtime, keyed by the runtime's identifier.
#[derive(Debug)]
pub struct Devices {
    pub devices: HashMap<String, Vec<Device>>,
}

/// A device type as listed.
#[derive(Debug)]
pub struct DeviceType {
    pub product_family: String,
    pub bundle_path: String,
    pub max_runtime_version: String,
    pub max_runtime_version_string: String,
    pub identifier: String,
    pub min_runtime_version: String,
    pub min_runtime_version_string: String,
    pub name: String,
}

/// A device type listing.
#[derive(Debug)]
pub struct DeviceTypes {
    pub device_types: Vec<DeviceType>,
}

/// A device type as a runtime lists it.
#[derive(Debug)]
pub struct SupportedDeviceTypes {
    pub bundle_path: String,
    pub name: String,
    pub identifier: String,
    pub product_family: String,
}

/// A runtime listing.
#[derive(Debug)]
pub struct Runtimes {
    pub runtimes: Vec<Runtime>,
}

/// A runtime as listed.
#[derive(Debug)]
pub struct Runtime {
    pub bundle_path: String,
    pub build_version: String,
    pub platform: String,
    pub runtime_root: String,
    pub identifier: String,
    pub version: String,
    pub is_internal: bool,
    pub is_available: bool,
    pub name: String,
    pub supported_device_types: Vec<SupportedDeviceTypes>,
}

} // verus!
