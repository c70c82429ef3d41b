//! Helpers for reading Android SDK tool output.
use crate::domain::device::opt_view;
use crate::platform::android::{profile_names, system_image_of, system_images_in};
use crate::platform::{AndroidPlatform, CommandResult};
use crate::text::{char_views, chars_of, lines_of, split_by, split_chars, strings_of, CharClass};
use vstd::prelude::*;

verus! {

/// The emulator names of an `emulator -list-avds` output: its pieces between
/// line breaks, except the last (the text after the final line break).
pub fn emulator_names(output: &str) -> (r: Vec<String>)
    ensures
        crate::text::string_views(r@) == split_by(output@, CharClass::Only('\n')).drop_last(),
{
    let cs = chars_of(output);
    let mut pieces = split_chars(cs.as_slice(), &CharClass::Only('\n'));
    let ghost all = char_views(pieces@);
    proof {
        crate::text::lemma_split_nonempty(output@, CharClass::Only('\n'));
    }
    let ghost before = pieces@;
    pieces.pop();
    assert(pieces@ == before.drop_last());
    assert(char_views(pieces@) =~= all.drop_last());
    strings_of(&pieces)
}

/// The device profile names of an `avdmanager list device` output.
pub fn device_profiles_from_listing(output: &str) -> (r: Vec<String>)
    ensures
        crate::text::string_views(r@) == profile_names(lines_of(output@)),
{
    AndroidPlatform::profile_names_from_listing(output)
}

/// The system image paths named in an `sdkmanager --list` output.
pub fn system_images_from_listing(output: &str) -> (r: Vec<String>)
    ensures
        crate::text::string_views(r@) == system_images_in(lines_of(output@)),
{
    AndroidPlatform::system_images_from_listing(output)
}

/// The system image path that a line of `sdkmanager --list` output names.
pub fn format_system_image_path(line: &str) -> (r: Option<String>)
    ensures
        opt_view(r) == system_image_of(line@),
{
    AndroidPlatform::parse_system_image(line)
}

/// The report of an attempt to create an emulator, and whether it goes to
/// the error stream: off macOS nothing is attempted; otherwise a run that
/// could not start, a run that failed, and a run that succeeded each have
/// their message.
pub fn create_report(on_macos: bool, result: &CommandResult) -> (r: (bool, String))
    ensures
        !on_macos ==> r.0 && r.1@ == "No support for your OS yet"@,
        on_macos ==> match *result {
            CommandResult::FailedToStart { message } => r.0 && r.1@ == "Failed to execute command: "@
                + message@,
            CommandResult::Completed(out) => if out.success {
                !r.0 && r.1@ == "Android emulator created successfully."@
            } else {
                r.0 && r.1@ == "Failed to create Android emulator: "@ + out.stderr@
            },
        },
{
    if !on_macos {
        return (true, "No support for your OS yet".to_string());
    }
    match result {
        CommandResult::FailedToStart { message } => {
            let mut m = "Failed to execute command: ".to_string();
            m.append(message.as_str());
            (true, m)
        },
        CommandResult::Completed(out) => {
            if out.success {
                (false, "Android emulator created successfully.".to_string())
            } else {
                let mut m = "Failed to create Android emulator: ".to_string();
                m.append(out.stderr.as_str());
                (true, m)
            }
        },
    }
}

} // verus!
