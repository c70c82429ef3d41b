//! Platforms, tool detection, the registry of available platforms, and the
//! plain-value protocol by which outside programs are described and their
//! outcomes read.
pub mod android;
pub mod ios;

pub use android::AndroidPlatform;
pub use ios::IosPlatform;

use crate::error::{Error, ErrorView};
use vstd::prelude::*;

verus! {

/// The platforms that simulators and emulators run on.
#[derive(Debug, Clone, Copy, PartialEq, Eq, Structural)]
pub enum PlatformKind {
    Ios,
    Android,
}

/// The name under which a platform is shown.
pub open spec fn kind_name(k: PlatformKind) -> Seq<char> {
    match k {
        PlatformKind::Ios => "iOS"@,
        PlatformKind::Android => "Android"@,
    }
}

impl PlatformKind {
    /// The name under which the platform is shown.
    pub fn as_str(&self) -> (r: &'static str)
        ensures
            r@ == kind_name(*self),
    {
        match self {
            PlatformKind::Ios => "iOS",
            PlatformKind::Android => "Android",
        }
    }

    /// The name under which the platform is shown, as an owned string.
    pub fn to_string(&self) -> (r: String)
        ensures
            r@ == kind_name(*self),
    {
        self.as_str().to_string()
    }
}

/// What every platform offers beside its operations on devices: its kind,
/// and the name under which it is shown, which is its kind's name.
pub trait Platform {
    /// The kind of this platform.
    spec fn platform_kind(&self) -> PlatformKind;

    /// The kind of this platform.
    fn kind(&self) -> (r: PlatformKind)
        ensures
            r == self.platform_kind(),
    ;

    /// The name under which the platform is shown.
    fn name(&self) -> (r: &'static str)
        ensures
            r@ == kind_name(self.platform_kind()),
    {
        let k = self.kind();
        k.as_str()
    }
}

/// Whether a platform's tools are usable, and if not, why.
#[derive(Debug)]
pub struct ToolStatus {
    pub available: bool,
    pub message: Option<String>,
}

impl ToolStatus {
    /// The tools are usable.
    pub fn available() -> (r: Self)
        ensures
            r.available,
            r.message is None,
    {
        ToolStatus { available: true, message: None }
    }

    /// The tools are not usable, for the given reason.
    pub fn unavailable(message: &str) -> (r: Self)
        ensures
            !r.available,
            r.message matches Some(m) && m@ == message@,
    {
        ToolStatus { available: false, message: Some(message.to_string()) }
    }
}

/// The platforms found usable, iOS before Android.
pub open spec fn detected(ios: bool, android: bool) -> Seq<PlatformKind> {
    (if ios {
        seq![PlatformKind::Ios]
    } else {
        Seq::empty()
    }) + (if android {
        seq![PlatformKind::Android]
    } else {
        Seq::empty()
    })
}

/// The platforms whose tools are available, each at most once.
pub struct PlatformRegistry {
    platforms: Vec<PlatformKind>,
}

impl View for PlatformRegistry {
    type V = Seq<PlatformKind>;

    closed spec fn view(&self) -> Seq<PlatformKind> {
        self.platforms@
    }
}

impl PlatformRegistry {
    #[verifier::type_invariant]
    closed spec fn each_once(self) -> bool {
        self.platforms@.no_duplicates()
    }

    /// The registry of the platforms whose tools are available.
    pub fn detect(ios: &ToolStatus, android: &ToolStatus) -> (r: Self)
        ensures
            r@ == detected(ios.available, android.available),
            r@.no_duplicates(),
    {
        let mut platforms: Vec<PlatformKind> = Vec::new();
        if IosPlatform::try_new(ios).is_some() {
            platforms.push(PlatformKind::Ios);
        }
        if AndroidPlatform::try_new(android).is_some() {
            platforms.push(PlatformKind::Android);
        }
        assert(platforms@ =~= detected(ios.available, android.available));
        PlatformRegistry { platforms }
    }

    /// Whether any platform is available.
    pub fn any_available(&self) -> (r: bool)
        ensures
            r == (self@.len() > 0),
    {
        !self.platforms.is_empty()
    }

    /// The available platforms, in detection order.
    pub fn platforms(&self) -> (r: &[PlatformKind])
        ensures
            r@ == self@,
    {
        self.platforms.as_slice()
    }

    /// The platform of the given kind, if it is available.
    pub fn get(&self, kind: PlatformKind) -> (r: Option<PlatformKind>)
        ensures
            r == (if self@.contains(kind) {
                Some(kind)
            } else {
                None
            }),
    {
        let n = self.platforms.len();
        for i in 0..n
            invariant
                n == self@.len(),
                forall|j: int| 0 <= j < i ==> self@[j] != kind,
        {
            if self.platforms[i] == kind {
                return Some(kind);
            }
        }
        None
    }
}

/// The warnings shown when no platform is available: per platform, that the
/// host is not macOS, or else that its tool was not found (for iOS, that
/// `xcrun --version` did not succeed; for Android, that `emulator -version`
/// could not be started). A platform whose tool was found gets no warning.
pub open spec fn unavailable_warnings_spec(
    on_macos: bool,
    xcrun_found: bool,
    emulator_started: bool,
) -> Seq<Seq<char>> {
    (if !on_macos {
        seq!["Warning: iOS simulators are only supported on macOS.\n"@]
    } else if !xcrun_found {
        seq![
            "Warning: iOS support unavailable - Xcode Command Line Tools not found.\nInstall with: xcode-select --install\n"@,
        ]
    } else {
        Seq::empty()
    }) + (if !on_macos {
        seq!["Warning: Android emulators are currently only supported on macOS.\n"@]
    } else if !emulator_started {
        seq![
            "Warning: Android support unavailable - Android Emulator not found.\nMake sure Android SDK is installed and ANDROID_HOME is set.\n"@,
        ]
    } else {
        Seq::empty()
    })
}

impl PlatformRegistry {
    /// The warnings for the platforms that could not be set up, given whether
    /// the host is macOS, whether the `xcrun` probe succeeded and whether the
    /// `emulator` probe could be started (neither probe is consulted off macOS).
    pub fn unavailable_warnings(on_macos: bool, xcrun_found: bool, emulator_started: bool) -> (r:
        Vec<String>)
        ensures
            crate::text::string_views(r@) == unavailable_warnings_spec(
                on_macos,
                xcrun_found,
                emulator_started,
            ),
    {
        let mut r: Vec<String> = Vec::new();
        if !on_macos {
            r.push("Warning: iOS simulators are only supported on macOS.\n".to_string());
        } else if !xcrun_found {
            r.push(
                "Warning: iOS support unavailable - Xcode Command Line Tools not found.\nInstall with: xcode-select --install\n".to_string(),
            );
        }
        if !on_macos {
            r.push(
                "Warning: Android emulators are currently only supported on macOS.\n".to_string(),
            );
        } else if !emulator_started {
            r.push(
                "Warning: Android support unavailable - Android Emulator not found.\nMake sure Android SDK is installed and ANDROID_HOME is set.\n".to_string(),
            );
        }
        assert(crate::text::string_views(r@) =~= unavailable_warnings_spec(
            on_macos,
            xcrun_found,
            emulator_started,
        ));
        r
    }
}

// ---------------------------------------------------------------------------
// Outside programs as plain values
// ---------------------------------------------------------------------------

/// A run of an outside program: what to start and with which arguments.
pub struct Invocation {
    pub program: String,
    pub args: Vec<String>,
}

/// The program and the arguments of an invocation, as character sequences.
pub open spec fn invocation_view(inv: Invocation) -> (Seq<char>, Seq<Seq<char>>) {
    (inv.program@, crate::text::string_views(inv.args@))
}

/// What a program that ran left behind. `stdout` holds its output with any
/// invalid UTF-8 replaced; `stdout_invalid_utf8` holds the decoder's reason
/// where the output was not valid UTF-8.
pub struct CommandOutput {
    pub success: bool,
    pub stdout: String,
    pub stdout_invalid_utf8: Option<String>,
    pub stderr: String,
}

/// How a run of an outside program ended.
pub enum CommandResult {
    /// The program ran to its end.
    Completed(CommandOutput),
    /// The program could not be started; the text is the system's reason.
    FailedToStart { message: String },
}

/// Whether the program ran and reported success.
pub open spec fn succeeded(r: CommandResult) -> bool {
    r matches CommandResult::Completed(out) && out.success
}

/// Whether the program could be started at all.
pub open spec fn started(r: CommandResult) -> bool {
    r is Completed
}

/// Whether a probe of a tool shows it present: the program ran and succeeded.
pub fn command_exists(result: &CommandResult) -> (r: bool)
    ensures
        r == succeeded(*result),
{
    match result {
        CommandResult::Completed(out) => out.success,
        CommandResult::FailedToStart { .. } => false,
    }
}

/// Whether a program could be started at all.
pub fn command_started(result: &CommandResult) -> (r: bool)
    ensures
        r == started(*result),
{
    match result {
        CommandResult::Completed(_) => true,
        CommandResult::FailedToStart { .. } => false,
    }
}

/// The outcome of a run under the usual rule: a program that could not be
/// started is an I/O error, one that reported failure is a failed command
/// named by `label` with its error output as the message.
pub open spec fn checked_spec(label: Seq<char>, result: CommandResult) -> Result<
    CommandOutput,
    ErrorView,
> {
    match result {
        CommandResult::FailedToStart { message } => Err(ErrorView::Io { message: message@ }),
        CommandResult::Completed(out) => if out.success {
            Ok(out)
        } else {
            Err(ErrorView::CommandFailed { command: label, message: out.stderr@ })
        },
    }
}

/// The output of a run, or the error that the run amounts to.
pub fn checked(label: &str, result: CommandResult) -> (r: Result<CommandOutput, Error>)
    ensures
        crate::error::res_view(r) == checked_spec(label@, result),
{
    match result {
        CommandResult::FailedToStart { message } => Err(Error::Io { message }),
        CommandResult::Completed(out) => {
            if out.success {
                Ok(out)
            } else {
                Err(Error::CommandFailed { command: label.to_string(), message: out.stderr })
            }
        },
    }
}

/// The standard output of a run that must be valid UTF-8.
pub open spec fn strict_stdout_spec(out: CommandOutput) -> Result<Seq<char>, ErrorView> {
    match out.stdout_invalid_utf8 {
        Some(reason) => Err(
            ErrorView::Parse { message: "Invalid UTF-8 in command output: "@ + reason@ },
        ),
        None => Ok(out.stdout@),
    }
}

/// The standard output of a run, refused where it is not valid UTF-8.
pub fn strict_stdout(out: CommandOutput) -> (r: Result<String, Error>)
    ensures
        crate::error::res_views(r) == strict_stdout_spec(out),
{
    match out.stdout_invalid_utf8 {
        Some(reason) => {
            let mut m = "Invalid UTF-8 in command output: ".to_string();
            m.append(reason.as_str());
            Err(Error::Parse { message: m })
        },
        None => Ok(out.stdout),
    }
}

/// The views of a sequence of string slices.
pub open spec fn strs_views(s: Seq<&str>) -> Seq<Seq<char>> {
    s.map_values(|x: &str| x@)
}

/// Owned copies of the given arguments.
pub fn arg_list(parts: &[&str]) -> (r: Vec<String>)
    ensures
        crate::text::string_views(r@) == strs_views(parts@),
{
    let mut r: Vec<String> = Vec::new();
    for i in 0..parts.len()
        invariant
            crate::text::string_views(r@) == strs_views(parts@.take(i as int)),
    {
        let ghost before = r@;
        r.push(parts[i].to_string());
        assert(crate::text::string_views(r@) =~= crate::text::string_views(before).push(
            parts@[i as int]@,
        ));
        assert(strs_views(parts@.take(i + 1)) =~= strs_views(parts@.take(i as int)).push(
            parts@[i as int]@,
        ));
    }
    assert(parts@.take(parts@.len() as int) =~= parts@);
    r
}

/// The outcome of a run whose only product is success: the usual rule of
/// `checked_spec`, with nothing kept of the output.
pub open spec fn finished_spec(label: Seq<char>, result: CommandResult) -> Result<(), ErrorView> {
    match checked_spec(label, result) {
        Ok(_) => Ok(()),
        Err(e) => Err(e),
    }
}

/// Whether a run succeeded, or the error that it amounts to.
pub fn finished(label: &str, result: CommandResult) -> (r: Result<(), Error>)
    ensures
        crate::error::res_view(r) == finished_spec(label@, result),
{
    match checked(label, result) {
        Ok(_) => Ok(()),
        Err(e) => Err(e),
    }
}

/// The standard output of a run that must succeed and print valid UTF-8.
pub open spec fn strict_listing_spec(label: Seq<char>, result: CommandResult) -> Result<
    Seq<char>,
    ErrorView,
> {
    match checked_spec(label, result) {
        Ok(out) => strict_stdout_spec(out),
        Err(e) => Err(e),
    }
}

/// The standard output of a run that must succeed and print valid UTF-8.
pub fn strict_listing(label: &str, result: CommandResult) -> (r: Result<String, Error>)
    ensures
        crate::error::res_views(r) == strict_listing_spec(label@, result),
{
    match checked(label, result) {
        Ok(out) => strict_stdout(out),
        Err(e) => Err(e),
    }
}

/// The standard output of a run that must succeed, with any invalid UTF-8
/// replaced.
pub open spec fn lossy_listing_spec(label: Seq<char>, result: CommandResult) -> Result<
    Seq<char>,
    ErrorView,
> {
    match checked_spec(label, result) {
        Ok(out) => Ok(out.stdout@),
        Err(e) => Err(e),
    }
}

/// The standard output of a run that must succeed, with any invalid UTF-8
/// replaced.
pub fn lossy_listing(label: &str, result: CommandResult) -> (r: Result<String, Error>)
    ensures
        crate::error::res_views(r) == lossy_listing_spec(label@, result),
{
    match checked(label, result) {
        Ok(out) => Ok(out.stdout),
        Err(e) => Err(e),
    }
}

/// An invocation of `program` with the given arguments.
pub fn invocation(program: &str, args: Vec<String>) -> (r: Invocation)
    ensures
        r.program@ == program@,
        r.args == args,
{
    Invocation { program: program.to_string(), args }
}

} // verus!
