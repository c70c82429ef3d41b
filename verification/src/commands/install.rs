//! The `install` subcommand: choose a runtime not yet installed and install it.
use crate::domain::runtime::Runtime;
use crate::platform::{kind_name, PlatformKind};
use vstd::prelude::*;

verus! {

/// The prompt under which the runtime is chosen.
pub const PROMPT: &'static str = "Select the runtime to install";

/// The report once a runtime is installed, such as
/// `Android runtime 'Android 34 (google apis, arm64-v8a)' installed successfully.`.
pub fn done_message(platform: PlatformKind, runtime: &Runtime) -> (r: String)
    ensures
        r@ == kind_name(platform) + " runtime '"@ + runtime@.name + "' installed successfully."@,
{
    let mut r = platform.to_string();
    r.append(" runtime '");
    r.append(runtime.name.as_str());
    r.append("' installed successfully.");
    r
}

} // verus!
