//! The decisions around prompts: which platform a request resolves to, what
//! is offered for choice, and what an answer picks.
use crate::domain::device::{device_views, display_name_of, Device};
use crate::error::{Error, ErrorView};
use crate::platform::{kind_name, PlatformKind, PlatformRegistry};
use crate::text::string_views;
use vstd::prelude::*;

verus! {

/// The prompt under which the platform is chosen.
pub const PLATFORM_PROMPT: &'static str = "Select your platform";

/// A platform, or the question that decides it.
pub enum PlatformChoice {
    /// The platform is settled.
    Chosen(PlatformKind),
    /// The user is to pick one of these platforms, shown by name under
    /// `PLATFORM_PROMPT`.
    Ask(Vec<PlatformKind>),
}

/// The platform choice that the available platforms call for: none is an
/// error, one is taken, several are asked about.
pub open spec fn select_platform_spec(available: Seq<PlatformKind>) -> Result<
    Result<PlatformKind, Seq<PlatformKind>>,
    ErrorView,
> {
    if available.len() == 0 {
        Err(ErrorView::NoPlatformsAvailable)
    } else if available.len() == 1 {
        Ok(Ok(available[0]))
    } else {
        Ok(Err(available))
    }
}

/// A platform choice as plain values: the platform, or the platforms asked about.
pub open spec fn choice_view(c: PlatformChoice) -> Result<PlatformKind, Seq<PlatformKind>> {
    match c {
        PlatformChoice::Chosen(k) => Ok(k),
        PlatformChoice::Ask(v) => Err(v@),
    }
}

pub open spec fn choice_res_view(r: Result<PlatformChoice, Error>) -> Result<
    Result<PlatformKind, Seq<PlatformKind>>,
    ErrorView,
> {
    match r {
        Ok(c) => Ok(choice_view(c)),
        Err(e) => Err(e@),
    }
}

/// The platform choice that the registry calls for when no flag settles it.
pub fn select_platform(registry: &PlatformRegistry) -> (r: Result<PlatformChoice, Error>)
    ensures
        choice_res_view(r) == select_platform_spec(registry@),
{
    let platforms = registry.platforms();
    if platforms.len() == 0 {
        Err(Error::NoPlatformsAvailable)
    } else if platforms.len() == 1 {
        Ok(PlatformChoice::Chosen(platforms[0]))
    } else {
        let mut v: Vec<PlatformKind> = Vec::new();
        for i in 0..platforms.len()
            invariant
                v@ == platforms@.take(i as int),
        {
            v.push(platforms[i]);
            assert(platforms@.take(i + 1) =~= platforms@.take(i as int).push(platforms@[i as int]));
        }
        assert(platforms@.take(platforms@.len() as int) =~= platforms@);
        Ok(PlatformChoice::Ask(v))
    }
}

/// The platform choice for a request: the iOS flag asks for iOS, else the
/// Android flag for Android, each an error where that platform was not
/// found; with neither flag the registry decides.
pub open spec fn resolve_platform_spec(available: Seq<PlatformKind>, ios: bool, android: bool) -> Result<
    Result<PlatformKind, Seq<PlatformKind>>,
    ErrorView,
> {
    if ios {
        if available.contains(PlatformKind::Ios) {
            Ok(Ok(PlatformKind::Ios))
        } else {
            Err(
                ErrorView::CommandFailed {
                    command: "iOS"@,
                    message: "iOS platform is not available"@,
                },
            )
        }
    } else if android {
        if available.contains(PlatformKind::Android) {
            Ok(Ok(PlatformKind::Android))
        } else {
            Err(
                ErrorView::CommandFailed {
                    command: "Android"@,
                    message: "Android platform is not available"@,
                },
            )
        }
    } else {
        select_platform_spec(available)
    }
}

/// The platform choice for a request with the given flags.
pub fn resolve_platform(registry: &PlatformRegistry, ios: bool, android: bool) -> (r: Result<
    PlatformChoice,
    Error,
>)
    ensures
        choice_res_view(r) == resolve_platform_spec(registry@, ios, android),
{
    if ios {
        match registry.get(PlatformKind::Ios) {
            Some(k) => Ok(PlatformChoice::Chosen(k)),
            None => Err(
                Error::CommandFailed {
                    command: "iOS".to_string(),
                    message: "iOS platform is not available".to_string(),
                },
            ),
        }
    } else if android {
        match registry.get(PlatformKind::Android) {
            Some(k) => Ok(PlatformChoice::Chosen(k)),
            None => Err(
                Error::CommandFailed {
                    command: "Android".to_string(),
                    message: "Android platform is not available".to_string(),
                },
            ),
        }
    } else {
        select_platform(registry)
    }
}

/// Law: a request that passes the platform check resolves, for a platform
/// that its flag names, to that platform without asking.
pub proof fn law_checked_request_resolves(c: crate::cli::Command, available: Seq<PlatformKind>)
    requires
        crate::cli::request_problem(c, available) is None,
    ensures
        ({
            let (ios, android) = crate::cli::command_flags(c);
            &&& ios ==> resolve_platform_spec(available, ios, android) == Ok::<
                Result<PlatformKind, Seq<PlatformKind>>,
                ErrorView,
            >(Ok(PlatformKind::Ios))
            &&& !ios && android ==> resolve_platform_spec(available, ios, android) == Ok::<
                Result<PlatformKind, Seq<PlatformKind>>,
                ErrorView,
            >(Ok(PlatformKind::Android))
        }),
{
}

/// Law: with no flag, the user is asked only when more than one platform is
/// available, and then about all of them.
pub proof fn law_unflagged_request(available: Seq<PlatformKind>)
    ensures
        available.len() == 1 ==> resolve_platform_spec(available, false, false) == Ok::<
            Result<PlatformKind, Seq<PlatformKind>>,
            ErrorView,
        >(Ok(available[0])),
        available.len() > 1 ==> resolve_platform_spec(available, false, false) == Ok::<
            Result<PlatformKind, Seq<PlatformKind>>,
            ErrorView,
        >(Err(available)),
        available.len() == 0 ==> resolve_platform_spec(available, false, false) == Err::<
            Result<PlatformKind, Seq<PlatformKind>>,
            ErrorView,
        >(ErrorView::NoPlatformsAvailable),
{
}

/// The index that an answer to a choice picks; a dismissed prompt is a
/// cancellation.
pub fn chosen_index(answer: Option<usize>) -> (r: Result<usize, Error>)
    ensures
        match answer {
            Some(i) => r == Ok::<usize, Error>(i),
            None => r matches Err(e) && e@ == ErrorView::UserCancelled,
        },
{
    match answer {
        Some(i) => Ok(i),
        None => Err(Error::UserCancelled),
    }
}

/// The platform that an answer to the platform question picks.
pub fn finish_platform_selection(options: &Vec<PlatformKind>, answer: Option<usize>) -> (r: Result<
    PlatformKind,
    Error,
>)
    requires
        answer matches Some(i) ==> i < options@.len(),
    ensures
        match answer {
            Some(i) => r == Ok::<PlatformKind, Error>(options@[i as int]),
            None => r matches Err(e) && e@ == ErrorView::UserCancelled,
        },
{
    match answer {
        Some(i) => Ok(options[i]),
        None => Err(Error::UserCancelled),
    }
}

/// The names under which platforms are offered.
pub fn platform_names(options: &Vec<PlatformKind>) -> (r: Vec<String>)
    ensures
        string_views(r@) == options@.map_values(|k: PlatformKind| kind_name(k)),
{
    let mut r: Vec<String> = Vec::new();
    for i in 0..options.len()
        invariant
            string_views(r@) == options@.take(i as int).map_values(|k: PlatformKind| kind_name(k)),
    {
        let ghost before = r@;
        let name = options[i].to_string();
        r.push(name);
        assert(string_views(r@) =~= string_views(before).push(kind_name(options@[i as int])));
        assert(options@.take(i + 1).map_values(|k: PlatformKind| kind_name(k)) =~= options@.take(
            i as int,
        ).map_values(|k: PlatformKind| kind_name(k)).push(kind_name(options@[i as int])));
    }
    assert(options@.take(options@.len() as int) =~= options@);
    r
}

/// What a device choice offers: the devices' display names, or the error
/// that there is no device to choose.
pub fn select_device(devices: &Vec<Device>) -> (r: Result<Vec<String>, Error>)
    ensures
        devices@.len() == 0 ==> (r matches Err(e) && e@ == (ErrorView::NoDevicesAvailable {
            platform: "device"@,
        })),
        devices@.len() > 0 ==> (r matches Ok(v) && string_views(v@) == device_views(
            devices@,
        ).map_values(|d| display_name_of(d))),
{
    if devices.len() == 0 {
        return Err(Error::NoDevicesAvailable { platform: "device".to_string() });
    }
    let mut r: Vec<String> = Vec::new();
    let n = devices.len();
    for i in 0..n
        invariant
            n == devices@.len(),
            string_views(r@) == device_views(devices@.take(i as int)).map_values(
                |d| display_name_of(d),
            ),
    {
        let ghost before = r@;
        let name = devices[i].display_name();
        r.push(name);
        assert(string_views(r@) =~= string_views(before).push(display_name_of(devices@[i as int]@)));
        assert(device_views(devices@.take(i + 1)).map_values(|d| display_name_of(d))
            =~= device_views(devices@.take(i as int)).map_values(|d| display_name_of(d)).push(
            display_name_of(devices@[i as int]@),
        ));
    }
    assert(devices@.take(n as int) =~= devices@);
    Ok(r)
}

/// Whether a choice among `count` items can be offered: none is an error.
pub fn select_item(count: usize) -> (r: Result<(), Error>)
    ensures
        count == 0 ==> (r matches Err(e) && e@ == (ErrorView::NoDevicesAvailable {
            platform: "item"@,
        })),
        count > 0 ==> r is Ok,
{
    if count == 0 {
        Err(Error::NoDevicesAvailable { platform: "item".to_string() })
    } else {
        Ok(())
    }
}

} // verus!
