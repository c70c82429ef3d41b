//! The `erase` subcommand: choose one device of the platform and erase it.
use super::device_done_spec;
use crate::platform::PlatformKind;
use vstd::prelude::*;

verus! {

/// The prompt under which the device is chosen.
pub const PROMPT: &'static str = "Select the device to erase content and settings from";

/// The report once the device is erased.
pub fn done_message(platform: PlatformKind, device_name: &str) -> (r: String)
    ensures
        r@ == device_done_spec(platform, device_name@, "erased"@),
{
    super::device_done(platform, device_name, "erased")
}

} // verus!
