//! The `stop` subcommand, which does nothing yet.
use crate::structs::devices::Device;
use crate::structs::ios_devices::Devices;
use vstd::prelude::*;

verus! {

/// Stops nothing: the subcommand is not implemented.
pub fn run(ios_devices: Devices, android_devices: Vec<Device>) {
}

} // verus!
