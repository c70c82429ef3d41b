//! The decisions of each subcommand, between the prompts and runs that the
//! program performs.
pub mod create;
pub mod delete;
pub mod erase;
pub mod flow;
pub mod install;
pub mod list;
pub mod start;
pub mod stop;

use crate::domain::device::{device_views, display_name_of, Device};
use crate::domain::runtime::{runtime_views, Runtime};
use crate::error::{Error, ErrorView};
use crate::platform::{kind_name, PlatformKind};
use crate::text::string_views;
use vstd::prelude::*;

verus! {

/// What an action on one device offers for choice: the devices' display
/// names, or the error that the platform has no device.
pub open spec fn device_choices_spec(platform: PlatformKind, devices: Seq<Device>) -> Result<
    Seq<Seq<char>>,
    ErrorView,
> {
    if devices.len() == 0 {
        Err(ErrorView::NoDevicesAvailable { platform: kind_name(platform) })
    } else {
        Ok(device_views(devices).map_values(|d| display_name_of(d)))
    }
}

/// What an action on one device offers for choice.
pub fn device_choices(platform: PlatformKind, devices: &Vec<Device>) -> (r: Result<
    Vec<String>,
    Error,
>)
    ensures
        crate::error::strings_res_view(r) == device_choices_spec(platform, devices@),
{
    if devices.len() == 0 {
        return Err(Error::NoDevicesAvailable { platform: platform.to_string() });
    }
    crate::ui::select_device(devices)
}

/// What a choice of runtime offers: the runtimes' names, or the error that
/// the platform has no runtime.
pub open spec fn runtime_choices_spec(platform: PlatformKind, runtimes: Seq<Runtime>) -> Result<
    Seq<Seq<char>>,
    ErrorView,
> {
    if runtimes.len() == 0 {
        Err(ErrorView::NoDevicesAvailable { platform: kind_name(platform) + " runtime"@ })
    } else {
        Ok(runtime_views(runtimes).map_values(|r: crate::domain::runtime::RuntimeView| r.name))
    }
}

/// What a choice of runtime offers.
pub fn runtime_choices(platform: PlatformKind, runtimes: &Vec<Runtime>) -> (r: Result<
    Vec<String>,
    Error,
>)
    ensures
        crate::error::strings_res_view(r) == runtime_choices_spec(platform, runtimes@),
{
    if runtimes.len() == 0 {
        let mut p = platform.to_string();
        p.append(" runtime");
        return Err(Error::NoDevicesAvailable { platform: p });
    }
    let mut r: Vec<String> = Vec::new();
    let n = runtimes.len();
    for i in 0..n
        invariant
            n == runtimes@.len(),
            string_views(r@) == runtime_views(runtimes@.take(i as int)).map_values(
                |x: crate::domain::runtime::RuntimeView| x.name,
            ),
    {
        let ghost before = r@;
        r.push(runtimes[i].name.clone());
        assert(string_views(r@) =~= string_views(before).push(runtimes@[i as int]@.name));
        assert(runtime_views(runtimes@.take(i + 1)).map_values(
            |x: crate::domain::runtime::RuntimeView| x.name,
        ) =~= runtime_views(runtimes@.take(i as int)).map_values(
            |x: crate::domain::runtime::RuntimeView| x.name,
        ).push(runtimes@[i as int]@.name));
    }
    assert(runtimes@.take(n as int) =~= runtimes@);
    Ok(r)
}

/// The report of an action done on a device, such as
/// `iOS device 'iPhone 15' deleted successfully.`.
pub open spec fn device_done_spec(platform: PlatformKind, name: Seq<char>, verb: Seq<char>) -> Seq<
    char,
> {
    kind_name(platform) + " device '"@ + name + "' "@ + verb + " successfully."@
}

/// The report of an action done on a device.
pub fn device_done(platform: PlatformKind, name: &str, verb: &str) -> (r: String)
    ensures
        r@ == device_done_spec(platform, name@, verb@),
{
    let mut r = platform.to_string();
    r.append(" device '");
    r.append(name);
    r.append("' ");
    r.append(verb);
    r.append(" successfully.");
    r
}

} // verus!
