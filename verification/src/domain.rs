//! Platform-neutral devices, device types and runtimes.
pub mod device;
pub mod runtime;

pub use device::{Device, DeviceState};
pub use runtime::{DeviceType, Runtime};
