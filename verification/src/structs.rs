//! The records of `xcrun simctl` JSON listings, field for field.
pub mod devices;
pub mod ios_devices;
