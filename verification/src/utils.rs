//! Helpers for reading tool output.
pub mod android;
pub mod ios;

use crate::domain::device::opt_view;
use crate::platform::ios::ios_version_in;
use crate::platform::IosPlatform;
use vstd::prelude::*;

verus! {

/// The iOS version that a runtime identifier names, such as `17.0` for
/// `com.apple.CoreSimulator.SimRuntime.iOS-17-0`.
pub fn extract_ios_version(input: &str) -> (r: Option<String>)
    ensures
        opt_view(r) == ios_version_in(input@),
{
    IosPlatform::extract_version(input)
}

} // verus!
