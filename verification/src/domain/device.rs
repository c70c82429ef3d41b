//! A simulator or emulator, whatever its platform.
use crate::text::{ascii_lowercase, is_ascii_text, lowercase, to_lowercase};
use vstd::prelude::*;

verus! {

/// The run state of a device.
#[derive(Debug, Clone, Copy, PartialEq, Eq, Structural)]
pub enum DeviceState {
    Booted,
    Shutdown,
    Unknown,
}

/// The name under which a state is shown.
pub open spec fn state_name(s: DeviceState) -> Seq<char> {
    match s {
        DeviceState::Booted => "Booted"@,
        DeviceState::Shutdown => "Shutdown"@,
        DeviceState::Unknown => "Unknown"@,
    }
}

/// The state that a reported state name denotes: its lowercase form is
/// compared with `booted` and `shutdown`; anything else is unknown.
pub open spec fn state_from_name(s: Seq<char>) -> DeviceState {
    if lowercase(s) == "booted"@ {
        DeviceState::Booted
    } else if lowercase(s) == "shutdown"@ {
        DeviceState::Shutdown
    } else {
        DeviceState::Unknown
    }
}

impl Default for DeviceState {
    fn default() -> (r: Self)
        ensures
            r == DeviceState::Unknown,
    {
        DeviceState::Unknown
    }
}

impl DeviceState {
    /// The name under which this state is shown.
    pub fn as_str(&self) -> (r: &'static str)
        ensures
            r@ == state_name(*self),
    {
        match self {
            DeviceState::Booted => "Booted",
            DeviceState::Shutdown => "Shutdown",
            DeviceState::Unknown => "Unknown",
        }
    }

    /// The state that a reported state name denotes, ignoring case. Each
    /// state's own name denotes that state.
    pub fn from_name(s: &str) -> (r: Self)
        ensures
            r == state_from_name(s@),
            forall|st: DeviceState| s@ == state_name(st) ==> r == st,
    {
        proof {
            lemma_state_names();
        }
        let l = to_lowercase(s);
        if l == "booted".to_string() {
            DeviceState::Booted
        } else if l == "shutdown".to_string() {
            DeviceState::Shutdown
        } else {
            DeviceState::Unknown
        }
    }
}

impl<'a> From<&'a str> for DeviceState {
    /// The state that a reported state name denotes, ignoring case.
    fn from(s: &'a str) -> (r: Self) {
        DeviceState::from_name(s)
    }
}

impl<'a> vstd::std_specs::convert::FromSpecImpl<&'a str> for DeviceState {
    open spec fn obeys_from_spec() -> bool {
        true
    }

    open spec fn from_spec(s: &'a str) -> Self {
        state_from_name(s@)
    }
}

proof fn lemma_state_names()
    ensures
        "Booted"@ == seq!['B', 'o', 'o', 't', 'e', 'd'],
        "Shutdown"@ == seq!['S', 'h', 'u', 't', 'd', 'o', 'w', 'n'],
        "Unknown"@ == seq!['U', 'n', 'k', 'n', 'o', 'w', 'n'],
        "booted"@ == seq!['b', 'o', 'o', 't', 'e', 'd'],
        "shutdown"@ == seq!['s', 'h', 'u', 't', 'd', 'o', 'w', 'n'],
        is_ascii_text("Booted"@),
        is_ascii_text("Shutdown"@),
        is_ascii_text("Unknown"@),
        ascii_lowercase("Booted"@) == "booted"@,
        ascii_lowercase("Shutdown"@) == "shutdown"@,
        ascii_lowercase("Unknown"@) == seq!['u', 'n', 'k', 'n', 'o', 'w', 'n'],
{
    reveal_strlit("Booted");
    reveal_strlit("Shutdown");
    reveal_strlit("Unknown");
    reveal_strlit("booted");
    reveal_strlit("shutdown");
    assert("Booted"@ =~= seq!['B', 'o', 'o', 't', 'e', 'd']);
    assert("Shutdown"@ =~= seq!['S', 'h', 'u', 't', 'd', 'o', 'w', 'n']);
    assert("Unknown"@ =~= seq!['U', 'n', 'k', 'n', 'o', 'w', 'n']);
    assert("booted"@ =~= seq!['b', 'o', 'o', 't', 'e', 'd']);
    assert("shutdown"@ =~= seq!['s', 'h', 'u', 't', 'd', 'o', 'w', 'n']);
    assert(ascii_lowercase("Booted"@) =~= "booted"@);
    assert(ascii_lowercase("Shutdown"@) =~= "shutdown"@);
    assert(ascii_lowercase("Unknown"@) =~= seq!['u', 'n', 'k', 'n', 'o', 'w', 'n']);
}

/// A device as the library reasons about it.
pub struct DeviceView {
    pub id: Seq<char>,
    pub name: Seq<char>,
    pub state: DeviceState,
    pub platform_version: Option<Seq<char>>,
}

/// A device of either platform.
#[derive(Debug, Clone)]
pub struct Device {
    /// Unique identifier (the UDID on iOS, the AVD name on Android).
    pub id: String,
    /// Display name.
    pub name: String,
    /// Current run state.
    pub state: DeviceState,
    /// Platform version, such as `17.0`, where known.
    pub platform_version: Option<String>,
}

pub open spec fn opt_view(o: Option<String>) -> Option<Seq<char>> {
    match o {
        Some(s) => Some(s@),
        None => None,
    }
}

impl View for Device {
    type V = DeviceView;

    open spec fn view(&self) -> DeviceView {
        DeviceView {
            id: self.id@,
            name: self.name@,
            state: self.state,
            platform_version: opt_view(self.platform_version),
        }
    }
}

/// The views of a sequence of devices.
pub open spec fn device_views(v: Seq<Device>) -> Seq<DeviceView> {
    v.map_values(|d: Device| d@)
}

/// The name under which a device is listed: its name, followed by its
/// platform version in parentheses where one is known.
pub open spec fn display_name_of(d: DeviceView) -> Seq<char> {
    match d.platform_version {
        Some(v) => d.name + " ("@ + v + ")"@,
        None => d.name,
    }
}

impl Device {
    /// A device in unknown state with no platform version.
    pub fn new(id: &str, name: &str) -> (r: Self)
        ensures
            r@ == (DeviceView {
                id: id@,
                name: name@,
                state: DeviceState::Unknown,
                platform_version: None,
            }),
    {
        Device {
            id: id.to_string(),
            name: name.to_string(),
            state: DeviceState::Unknown,
            platform_version: None,
        }
    }

    /// The same device in the given state.
    pub fn with_state(self, state: DeviceState) -> (r: Self)
        ensures
            r@ == (DeviceView { state, ..self@ }),
    {
        let mut d = self;
        d.state = state;
        d
    }

    /// The same device with the given platform version.
    pub fn with_platform_version(self, version: &str) -> (r: Self)
        ensures
            r@ == (DeviceView { platform_version: Some(version@), ..self@ }),
    {
        let mut d = self;
        d.platform_version = Some(version.to_string());
        d
    }

    /// The name under which the device is listed.
    pub fn display_name(&self) -> (r: String)
        ensures
            r@ == display_name_of(self@),
    {
        match &self.platform_version {
            Some(version) => {
                let mut r = self.name.clone();
                r.append(" (");
                r.append(version.as_str());
                r.append(")");
                r
            },
            None => self.name.clone(),
        }
    }
}

} // verus!
