//! The `create` subcommand: choose a runtime, then a device type, name the
//! device, and create it.
use crate::domain::runtime::{device_type_views, DeviceType, DeviceTypeView, Runtime};
use crate::error::{Error, ErrorView};
use crate::platform::{kind_name, PlatformKind};
use crate::text::{chars_of, replace_chars, replace_seq, string_of, string_views};
use vstd::prelude::*;

verus! {

/// The prompt under which the runtime is chosen.
pub const RUNTIME_PROMPT: &'static str = "Select your runtime";

/// The prompt under which the device type is chosen.
pub const DEVICE_TYPE_PROMPT: &'static str = "Select your device type";

/// The prompt under which the device is named.
pub const NAME_PROMPT: &'static str = "Enter the device name";

/// A name with its spaces made underscores.
pub open spec fn underscored(name: Seq<char>) -> Seq<char> {
    replace_seq(name, seq![' '], seq!['_'])
}

/// A name with its spaces made underscores.
fn underscore(name: &str) -> (r: Vec<char>)
    ensures
        r@ == underscored(name@),
{
    let cs = chars_of(name);
    let space: [char; 1] = [' '];
    let under: [char; 1] = ['_'];
    assert(space@ =~= seq![' ']);
    assert(under@ =~= seq!['_']);
    replace_chars(cs.as_slice(), space.as_slice(), under.as_slice())
}

/// The device types that the chosen runtime itself lists, where it lists any;
/// where it lists none, the platform's device types are to be fetched.
pub fn known_device_types(runtime: &Runtime) -> (r: Option<Vec<DeviceType>>)
    ensures
        runtime@.supported_device_types.len() == 0 ==> r is None,
        runtime@.supported_device_types.len() > 0 ==> (r matches Some(v) && device_type_views(v@)
            == runtime@.supported_device_types),
{
    let n = runtime.supported_device_types.len();
    if n == 0 {
        return None;
    }
    let mut v: Vec<DeviceType> = Vec::new();
    for i in 0..n
        invariant
            n == runtime.supported_device_types@.len(),
            device_type_views(v@) == device_type_views(runtime.supported_device_types@.take(
                i as int,
            )),
    {
        let t = &runtime.supported_device_types[i];
        let ghost before = v@;
        v.push(DeviceType::new(t.identifier.as_str(), t.name.as_str()));
        assert(device_type_views(v@) =~= device_type_views(before).push(t@));
        assert(device_type_views(runtime.supported_device_types@.take(i + 1)) =~= device_type_views(
            runtime.supported_device_types@.take(i as int),
        ).push(t@));
    }
    assert(runtime.supported_device_types@.take(n as int) =~= runtime.supported_device_types@);
    Some(v)
}

/// What a choice of device type offers: the types' names with spaces made
/// underscores, or the error that the platform has no device type.
pub fn device_type_choices(platform: PlatformKind, types: &Vec<DeviceType>) -> (r: Result<
    Vec<String>,
    Error,
>)
    ensures
        types@.len() == 0 ==> (r matches Err(e) && e@ == (ErrorView::NoDevicesAvailable {
            platform: kind_name(platform) + " device type"@,
        })),
        types@.len() > 0 ==> (r matches Ok(v) && string_views(v@) == device_type_views(
            types@,
        ).map_values(|t: DeviceTypeView| underscored(t.name))),
{
    if types.len() == 0 {
        let mut p = platform.to_string();
        p.append(" device type");
        return Err(Error::NoDevicesAvailable { platform: p });
    }
    let mut r: Vec<String> = Vec::new();
    let n = types.len();
    for i in 0..n
        invariant
            n == types@.len(),
            string_views(r@) == device_type_views(types@.take(i as int)).map_values(
                |t: DeviceTypeView| underscored(t.name),
            ),
    {
        let u = underscore(types[i].name.as_str());
        let s = string_of(u.as_slice());
        let ghost before = r@;
        r.push(s);
        assert(string_views(r@) =~= string_views(before).push(underscored(types@[i as int]@.name)));
        assert(device_type_views(types@.take(i + 1)).map_values(
            |t: DeviceTypeView| underscored(t.name),
        ) =~= device_type_views(types@.take(i as int)).map_values(
            |t: DeviceTypeView| underscored(t.name),
        ).push(underscored(types@[i as int]@.name)));
    }
    assert(types@.take(n as int) =~= types@);
    Ok(r)
}

/// The name offered for the new device: the device type's name with spaces
/// made underscores, a space, and the runtime's name.
pub fn default_device_name(device_type: &DeviceType, runtime: &Runtime) -> (r: String)
    ensures
        r@ == underscored(device_type@.name) + seq![' '] + runtime@.name,
{
    let mut u = underscore(device_type.name.as_str());
    u.push(' ');
    crate::text::append_str(&mut u, runtime.name.as_str());
    string_of(u.as_slice())
}

/// The report once the device is created.
pub fn done_message(platform: PlatformKind, device_name: &str) -> (r: String)
    ensures
        r@ == super::device_done_spec(platform, device_name@, "created"@),
{
    super::device_done(platform, device_name, "created")
}

} // verus!
