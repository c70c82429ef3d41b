//! The `start` subcommand: choose one device of the platform and start it.
use super::device_done_spec;
use crate::platform::PlatformKind;
use vstd::prelude::*;

verus! {

/// The prompt under which the device is chosen.
pub const PROMPT: &'static str = "Select the device to start";

/// The report once the device is started.
pub fn done_message(platform: PlatformKind, device_name: &str) -> (r: String)
    ensures
        r@ == device_done_spec(platform, device_name@, "started"@),
{
    super::device_done(platform, device_name, "started")
}

} // verus!
