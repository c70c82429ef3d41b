//! The `list` subcommand: print the devices of the chosen platforms.
use crate::domain::device::{display_name_of, state_name, Device, DeviceState};
use crate::error::{error_text, Error};
use crate::platform::{kind_name, PlatformKind, PlatformRegistry};
use crate::text::lowercase;
use vstd::prelude::*;

verus! {

/// The color in which a device's state is shown.
#[derive(Debug, Clone, Copy, PartialEq, Eq, Structural)]
pub enum StatusColor {
    Green,
    Red,
    Plain,
}

/// Booted devices are shown green, shut-down ones red, others plain.
pub open spec fn status_color_of(s: DeviceState) -> StatusColor {
    match s {
        DeviceState::Booted => StatusColor::Green,
        DeviceState::Shutdown => StatusColor::Red,
        DeviceState::Unknown => StatusColor::Plain,
    }
}

/// Whether a platform is listed under the given flags: any platform when no
/// flag is given, else one that a flag names.
pub open spec fn is_listed(k: PlatformKind, ios: bool, android: bool) -> bool {
    !(ios || android) || (ios && k == PlatformKind::Ios) || (android && k
        == PlatformKind::Android)
}

/// The platforms whose devices are listed, in registry order.
pub open spec fn listed_platforms(available: Seq<PlatformKind>, ios: bool, android: bool) -> Seq<
    PlatformKind,
>
    decreases available.len(),
{
    if available.len() == 0 {
        available
    } else {
        let p = listed_platforms(available.drop_last(), ios, android);
        if is_listed(available.last(), ios, android) {
            p.push(available.last())
        } else {
            p
        }
    }
}

/// Law: the listed platforms are the available ones that the flags name, in
/// registry order, each once; with no flag, all of them.
pub proof fn law_listed_platforms(available: Seq<PlatformKind>, ios: bool, android: bool)
    ensures
        !(ios || android) ==> listed_platforms(available, ios, android) == available,
        forall|i: int|
            0 <= i < listed_platforms(available, ios, android).len() ==> available.contains(
                #[trigger] listed_platforms(available, ios, android)[i],
            ) && is_listed(listed_platforms(available, ios, android)[i], ios, android),
        forall|k: int|
            0 <= k < available.len() && is_listed(#[trigger] available[k], ios, android)
                ==> listed_platforms(available, ios, android).contains(available[k]),
    decreases available.len(),
{
    if available.len() > 0 {
        let prev = available.drop_last();
        law_listed_platforms(prev, ios, android);
        let p = listed_platforms(prev, ios, android);
        let r = listed_platforms(available, ios, android);
        if !(ios || android) {
            assert(prev.push(available.last()) =~= available);
        }
        assert forall|i: int| 0 <= i < r.len() implies available.contains(#[trigger] r[i])
            && is_listed(r[i], ios, android) by {
            if i < p.len() {
                assert(r[i] == p[i]);
                let j = choose|j: int| 0 <= j < prev.len() && prev[j] == p[i];
                assert(available[j] == prev[j]);
            } else {
                assert(available[available.len() - 1] == r[i]);
            }
        }
        assert forall|k: int|
            0 <= k < available.len() && is_listed(#[trigger] available[k], ios, android)
                implies r.contains(available[k]) by {
            if k < available.len() - 1 {
                assert(available[k] == prev[k]);
                let j = choose|j: int| 0 <= j < p.len() && p[j] == prev[k];
                assert(r[j] == p[j]);
            } else {
                assert(r[p.len() as int] == available[k]);
            }
        }
    }
}

/// Law: what the flags select. An available platform that a set flag names
/// is listed (`--ios` lists iOS, `--android` lists Android); with no flag
/// every available platform is listed; and a listed platform is available
/// and is named by a set flag, or no flag is set.
pub proof fn law_flagged_platforms_listed(available: Seq<PlatformKind>, ios: bool, android: bool)
    ensures
        ios && available.contains(PlatformKind::Ios) ==> listed_platforms(
            available,
            ios,
            android,
        ).contains(PlatformKind::Ios),
        android && available.contains(PlatformKind::Android) ==> listed_platforms(
            available,
            ios,
            android,
        ).contains(PlatformKind::Android),
        !ios && !android ==> listed_platforms(available, ios, android) == available,
        forall|k: PlatformKind|
            #[trigger] listed_platforms(available, ios, android).contains(k) ==> available.contains(k)
                && ((!ios && !android) || (ios && k == PlatformKind::Ios) || (android && k
                == PlatformKind::Android)),
{
    law_listed_platforms(available, ios, android);
    let r = listed_platforms(available, ios, android);
    if ios && available.contains(PlatformKind::Ios) {
        let k = choose|k: int| 0 <= k < available.len() && available[k] == PlatformKind::Ios;
        assert(is_listed(available[k], ios, android));
    }
    if android && available.contains(PlatformKind::Android) {
        let k = choose|k: int| 0 <= k < available.len() && available[k] == PlatformKind::Android;
        assert(is_listed(available[k], ios, android));
    }
    assert forall|k: PlatformKind| #[trigger] r.contains(k) implies available.contains(k) && ((
    !ios && !android) || (ios && k == PlatformKind::Ios) || (android && k
        == PlatformKind::Android)) by {
        let i = choose|i: int| 0 <= i < r.len() && r[i] == k;
        assert(is_listed(r[i], ios, android));
    }
}

/// The platforms whose devices are listed.
pub fn platforms_to_list(registry: &PlatformRegistry, ios: bool, android: bool) -> (r: Vec<
    PlatformKind,
>)
    ensures
        r@ == listed_platforms(registry@, ios, android),
{
    let ps = registry.platforms();
    let mut r: Vec<PlatformKind> = Vec::new();
    assert(ps@.take(0) =~= Seq::<PlatformKind>::empty());
    for i in 0..ps.len()
        invariant
            r@ == listed_platforms(ps@.take(i as int), ios, android),
    {
        let k = ps[i];
        assert(ps@.take(i + 1).drop_last() =~= ps@.take(i as int));
        let wanted = !(ios || android) || (ios && k == PlatformKind::Ios) || (android && k
            == PlatformKind::Android);
        if wanted {
            r.push(k);
        }
    }
    assert(ps@.take(ps@.len() as int) =~= ps@);
    r
}

/// The heading of a platform's devices, such as `iOS Devices:`.
pub fn header(platform: PlatformKind) -> (r: String)
    ensures
        r@ == kind_name(platform) + " Devices:"@,
{
    let mut r = platform.to_string();
    r.append(" Devices:");
    r
}

/// The lowercase name of a platform.
pub open spec fn lower_kind_name(k: PlatformKind) -> Seq<char> {
    match k {
        PlatformKind::Ios => seq!['i', 'o', 's'],
        PlatformKind::Android => seq!['a', 'n', 'd', 'r', 'o', 'i', 'd'],
    }
}

/// The line shown when a platform has no device, such as
/// `  No ios devices found.`.
pub fn no_devices_line(platform: PlatformKind) -> (r: String)
    ensures
        r@ == "  No "@ + lowercase(kind_name(platform)) + " devices found."@,
        r@ == "  No "@ + lower_kind_name(platform) + " devices found."@,
{
    proof {
        reveal_strlit("iOS");
        reveal_strlit("Android");
        assert(crate::text::ascii_lowercase("iOS"@) =~= lower_kind_name(PlatformKind::Ios));
        assert(crate::text::ascii_lowercase("Android"@) =~= lower_kind_name(PlatformKind::Android));
    }
    let lower = crate::text::to_lowercase(platform.as_str());
    let mut r = "  No ".to_string();
    r.append(lower.as_str());
    r.append(" devices found.");
    r
}

/// The line of one device: its display name, a dash, then its state in the
/// state's color. The first part is returned with the state's name and color.
pub fn device_line(device: &Device) -> (r: (String, &'static str, StatusColor))
    ensures
        r.0@ == "  "@ + display_name_of(device@) + " - "@,
        r.1@ == state_name(device.state),
        r.2 == status_color_of(device.state),
{
    let mut first = "  ".to_string();
    let name = device.display_name();
    first.append(name.as_str());
    first.append(" - ");
    let color = match device.state {
        DeviceState::Booted => StatusColor::Green,
        DeviceState::Shutdown => StatusColor::Red,
        DeviceState::Unknown => StatusColor::Plain,
    };
    (first, device.state.as_str(), color)
}

/// The line shown when a platform's devices could not be listed.
pub fn error_line(e: &Error) -> (r: String)
    ensures
        r@ == "  Error listing devices: "@ + error_text(e@),
{
    let mut r = "  Error listing devices: ".to_string();
    let t = e.to_string();
    r.append(t.as_str());
    r
}

/// A line of a platform's listing: plain text, or a device's text followed by
/// its state, shown in the state's color.
pub enum Line {
    Text(String),
    Device { text: String, state: &'static str, color: StatusColor },
}

/// Whether `l` is the plain line `t`.
pub open spec fn is_text(l: Line, t: Seq<char>) -> bool {
    l matches Line::Text(s) && s@ == t
}

/// Whether `l` is the line of the device `d`.
pub open spec fn is_device_line(l: Line, d: crate::domain::device::DeviceView) -> bool {
    l matches Line::Device { text, state, color } && text@ == "  "@ + display_name_of(d) + " - "@
        && state@ == state_name(d.state) && color == status_color_of(d.state)
}

/// The listing of one platform: its heading, then the error that its devices
/// could not be listed, or that it has none, or one line per device in order.
pub fn report(platform: PlatformKind, listing: &Result<Vec<Device>, Error>) -> (r: Vec<Line>)
    ensures
        r@.len() >= 1,
        is_text(r@[0], kind_name(platform) + " Devices:"@),
        match listing {
            Err(e) => r@.len() == 2 && is_text(r@[1], "  Error listing devices: "@ + error_text(e@)),
            Ok(v) => if v@.len() == 0 {
                r@.len() == 2 && is_text(r@[1], "  No "@ + lower_kind_name(platform) + " devices found."@)
            } else {
                &&& r@.len() == v@.len() + 1
                &&& forall|i: int| 1 <= i < r@.len() ==> is_device_line(#[trigger] r@[i], v@[i - 1]@)
            },
        },
{
    let mut r: Vec<Line> = Vec::new();
    r.push(Line::Text(header(platform)));
    match listing {
        Err(e) => r.push(Line::Text(error_line(e))),
        Ok(devices) => {
            if devices.len() == 0 {
                r.push(Line::Text(no_devices_line(platform)));
            } else {
                let n = devices.len();
                for i in 0..n
                    invariant
                        n == devices@.len(),
                        r@.len() == i + 1,
                        is_text(r@[0], kind_name(platform) + " Devices:"@),
                        forall|j: int| 1 <= j < r@.len() ==> is_device_line(#[trigger] r@[j], devices@[j - 1]@),
                {
                    let (text, state, color) = device_line(&devices[i]);
                    r.push(Line::Device { text, state, color });
                }
            }
        },
    }
    r
}

} // verus!
