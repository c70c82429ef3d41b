use simls::domain::{DeviceState, Runtime};
use simls::error::Error;
use simls::platform::ios::{
    AvailableRuntime, DeviceGroup, DownloadOutcome, RawDevice, RawRuntime, RawSupportedDeviceType,
    SearchStage, SearchStep, StartStage, StartStep,
};
use simls::platform::{CommandOutput, CommandResult, IosPlatform, Platform, PlatformKind};

#[test]
fn test_extract_version_standard_format() {
    assert_eq!(
        IosPlatform::extract_version("com.apple.CoreSimulator.SimRuntime.iOS-17-0"),
        Some("17.0".to_string())
    );
}

#[test]
fn test_extract_version_double_digit_version() {
    assert_eq!(
        IosPlatform::extract_version("com.apple.CoreSimulator.SimRuntime.iOS-16-4"),
        Some("16.4".to_string())
    );
}

#[test]
fn test_extract_version_ios_15() {
    assert_eq!(
        IosPlatform::extract_version("com.apple.CoreSimulator.SimRuntime.iOS-15-5"),
        Some("15.5".to_string())
    );
}

#[test]
fn test_extract_version_no_ios_prefix() {
    assert_eq!(
        IosPlatform::extract_version("com.apple.CoreSimulator.SimRuntime.watchOS-10-0"),
        None
    );
}

#[test]
fn test_extract_version_empty_string() {
    assert_eq!(IosPlatform::extract_version(""), None);
}

#[test]
fn test_extract_version_invalid_format() {
    assert_eq!(IosPlatform::extract_version("invalid-string"), None);
}

#[test]
fn test_extract_version_incomplete_version() {
    assert_eq!(IosPlatform::extract_version("iOS-17"), None);
}

#[test]
fn test_extract_version_non_numeric_parts() {
    assert_eq!(IosPlatform::extract_version("iOS-abc-def"), None);
}

#[test]
fn test_ios_platform_kind() {
    if let Some(platform) = IosPlatform::try_new(&IosPlatform::check_tools(true, true, true)) {
        assert_eq!(platform.kind(), PlatformKind::Ios);
        assert_eq!(platform.name(), "iOS");
    }
}

#[test]
fn ios_test_check_tools_returns_status() {
    for on_macos in [false, true] {
        for xcrun in [false, true] {
            for simctl in [false, true] {
                let status = IosPlatform::check_tools(on_macos, xcrun, simctl);
                assert!(status.available || status.message.is_some());
            }
        }
    }
}

#[test]
fn test_extract_version_from_line_with_downloading() {
    assert_eq!(
        IosPlatform::extract_version_from_line("Downloading iOS 17.0 simulator runtime..."),
        Some("17.0".to_string())
    );
}

#[test]
fn test_extract_version_from_line_with_download() {
    assert_eq!(
        IosPlatform::extract_version_from_line("Will download iOS 16.4"),
        Some("16.4".to_string())
    );
}

#[test]
fn test_extract_version_from_line_simple() {
    assert_eq!(
        IosPlatform::extract_version_from_line("iOS 15.5 runtime"),
        Some("15.5".to_string())
    );
}

#[test]
fn test_extract_version_from_line_with_trailing_chars() {
    assert_eq!(
        IosPlatform::extract_version_from_line("iOS 17.2, ready to download"),
        Some("17.2".to_string())
    );
}

#[test]
fn test_extract_version_from_line_no_ios() {
    assert_eq!(
        IosPlatform::extract_version_from_line("watchOS 10.0 simulator"),
        None
    );
}

#[test]
fn test_extract_version_from_line_empty() {
    assert_eq!(IosPlatform::extract_version_from_line(""), None);
}

#[test]
fn test_extract_version_from_line_no_version() {
    assert_eq!(
        IosPlatform::extract_version_from_line("iOS simulator is ready"),
        None
    );
}

#[test]
fn test_extract_version_from_line_ios_at_end() {
    assert_eq!(
        IosPlatform::extract_version_from_line("Download the iOS"),
        None
    );
}

#[test]
fn extract_version_normalizes_numbers() {
    assert_eq!(IosPlatform::extract_version("iOS-017-+5"), Some("17.5".to_string()));
    assert_eq!(IosPlatform::extract_version("x.iOS.4294967295.0"), Some("4294967295.0".to_string()));
    assert_eq!(IosPlatform::extract_version("iOS-4294967296-0"), None);
    assert_eq!(IosPlatform::extract_version("iOS-1-x.iOS-2-3"), Some("2.3".to_string()));
    assert_eq!(IosPlatform::extract_version("ios-1-2"), None);
}

#[test]
fn extract_version_from_line_edges() {
    assert_eq!(
        IosPlatform::extract_version_from_line("iOS\t(18.1)\u{3000}beta"),
        Some("18.1".to_string())
    );
    assert_eq!(IosPlatform::extract_version_from_line("iOS v17 iOS 2.x"), Some("2.".to_string()));
    assert_eq!(IosPlatform::extract_version_from_line("iOS iOS 9.3"), Some("9.3".to_string()));
}

fn raw(udid: &str, name: &str, state: &str) -> RawDevice {
    RawDevice { udid: udid.to_string(), name: name.to_string(), state: state.to_string() }
}

#[test]
fn devices_from_groups_carry_versions() {
    let groups = vec![
        DeviceGroup {
            runtime: "com.apple.CoreSimulator.SimRuntime.iOS-17-0".to_string(),
            devices: vec![raw("A", "iPhone 15", "Booted"), raw("B", "iPad", "Shutdown")],
        },
        DeviceGroup {
            runtime: "com.apple.CoreSimulator.SimRuntime.watchOS-10-0".to_string(),
            devices: vec![raw("C", "Watch", "Creating")],
        },
    ];
    let devices = IosPlatform::devices_from_groups(&groups);
    assert_eq!(devices.len(), 3);
    assert_eq!(devices[0].id, "A");
    assert_eq!(devices[0].state, DeviceState::Booted);
    assert_eq!(devices[0].display_name(), "iPhone 15 (17.0)");
    assert_eq!(devices[1].state, DeviceState::Shutdown);
    assert_eq!(devices[2].state, DeviceState::Unknown);
    assert_eq!(devices[2].platform_version, None);
    assert_eq!(devices[2].display_name(), "Watch");
}

fn rt(id: &str, version: &str, types: &[(&str, &str)]) -> RawRuntime {
    RawRuntime {
        identifier: id.to_string(),
        version: version.to_string(),
        supported_device_types: types
            .iter()
            .map(|(i, n)| RawSupportedDeviceType { identifier: i.to_string(), name: n.to_string() })
            .collect(),
    }
}

#[test]
fn runtimes_and_unique_device_types() {
    let raw = vec![
        rt("r17", "17.0", &[("p15", "iPhone 15"), ("ipad", "iPad")]),
        rt("r16", "16.4", &[("p14", "iPhone 14"), ("p15", "iPhone 15 again")]),
        rt("r15", "15.5", &[]),
    ];
    let runtimes = IosPlatform::runtimes_from_raw(&raw);
    assert_eq!(runtimes.len(), 3);
    assert_eq!(runtimes[0].identifier, "r17");
    assert_eq!(runtimes[0].name, "17.0");
    assert_eq!(runtimes[0].supported_device_types.len(), 2);
    assert_eq!(runtimes[0].supported_device_types[1].name, "iPad");
    let types = IosPlatform::device_types_of(&runtimes);
    let ids: Vec<&str> = types.iter().map(|t| t.identifier.as_str()).collect();
    assert_eq!(ids, vec!["p15", "ipad", "p14"]);
    assert_eq!(types[0].name, "iPhone 15");
}

fn out(success: bool, stdout: &str, stderr: &str) -> CommandResult {
    CommandResult::Completed(CommandOutput {
        success,
        stdout: stdout.to_string(),
        stdout_invalid_utf8: None,
        stderr: stderr.to_string(),
    })
}

#[test]
fn dry_run_and_fallback_runtimes() {
    let found = IosPlatform::runtimes_from_dry_run(&out(
        true,
        "Downloading iOS 17.0 simulator runtime...\nnothing\n",
        "Will download iOS 16.4\r\niOS 15.0 is installed",
    ))
    .unwrap();
    let ids: Vec<&str> = found.iter().map(|r| r.identifier.as_str()).collect();
    assert_eq!(ids, vec!["iOS 17.0", "iOS 16.4"]);
    assert_eq!(found[1].name, "16.4");
    assert!(IosPlatform::runtimes_from_dry_run(&out(false, "", "error")).is_none());
    assert!(IosPlatform::runtimes_from_dry_run(&CommandResult::FailedToStart {
        message: "no xcodebuild".to_string()
    })
    .is_none());

    let listed = vec![
        AvailableRuntime {
            identifier: "A".to_string(),
            version: "17.2".to_string(),
            platform: "iOS".to_string(),
        },
        AvailableRuntime {
            identifier: "B".to_string(),
            version: "10.0".to_string(),
            platform: "watchOS".to_string(),
        },
    ];
    let rs = IosPlatform::fallback_runtimes(Some(listed));
    assert_eq!(rs.len(), 1);
    assert_eq!(rs[0].identifier, "A");
    assert_eq!(rs[0].name, "17.2");
    let default = IosPlatform::fallback_runtimes(None);
    assert_eq!(default.len(), 1);
    assert_eq!(default[0].identifier, "iOS");
    assert_eq!(default[0].name, "iOS");
    assert_eq!(IosPlatform::fallback_listing(&out(true, "{}", "")), Some("{}".to_string()));
    assert_eq!(IosPlatform::fallback_listing(&out(false, "{}", "")), None);
}

#[test]
fn boot_accepts_already_booted() {
    assert!(IosPlatform::read_boot(out(false, "", "Unable to boot device in current state: Booted")).is_ok());
    match IosPlatform::read_boot(out(false, "", "No device")) {
        Err(Error::CommandFailed { command, message }) => {
            assert_eq!(command, "xcrun simctl boot");
            assert_eq!(message, "No device");
        }
        other => panic!("unexpected {:?}", other),
    }
    assert!(IosPlatform::read_boot(out(true, "", "")).is_ok());
    let inv = IosPlatform::boot_command("UDID");
    assert_eq!(inv.program, "xcrun");
    assert_eq!(inv.args, vec!["simctl", "boot", "UDID"]);
}

#[test]
fn download_outcomes() {
    assert!(matches!(IosPlatform::read_download("iOS", out(true, "", "")), DownloadOutcome::Installed));
    assert!(matches!(
        IosPlatform::read_download("iOS 17.0", out(false, "", "error: unknown platform")),
        DownloadOutcome::RetryWithSimctl
    ));
    assert!(matches!(
        IosPlatform::read_download("iOS 17.0", out(false, "", "invalid argument")),
        DownloadOutcome::RetryWithSimctl
    ));
    match IosPlatform::read_download("iOS", out(false, "", "network down")) {
        DownloadOutcome::Failed(Error::CommandFailed { command, message }) => {
            assert_eq!(command, "xcodebuild -downloadPlatform iOS");
            assert_eq!(message, "network down");
        }
        _ => panic!("unexpected outcome"),
    }
    match IosPlatform::read_simctl_add("iOS 17.0", out(false, "", "nope")) {
        Err(Error::CommandFailed { command, .. }) => {
            assert_eq!(command, "xcrun simctl runtime add iOS 17.0")
        }
        other => panic!("unexpected {:?}", other),
    }
    let (first, second) = IosPlatform::install_notice("iOS 17.0");
    assert_eq!(first, "Downloading iOS 17.0...");
    assert_eq!(second, "This may take a while and require administrator privileges.");
}

#[test]
fn ios_check_tools_messages() {
    assert_eq!(
        IosPlatform::check_tools(false, true, true).message.as_deref(),
        Some("iOS simulators are only supported on macOS.")
    );
    assert_eq!(
        IosPlatform::check_tools(true, false, true).message.as_deref(),
        Some("Xcode Command Line Tools not found. Install with: xcode-select --install")
    );
    assert_eq!(
        IosPlatform::check_tools(true, true, false).message.as_deref(),
        Some("Xcode Simulator tools not found. Make sure Xcode is installed and run: sudo xcode-select -s /Applications/Xcode.app/Contents/Developer")
    );
    let ok = IosPlatform::check_tools(true, true, true);
    assert!(ok.available);
    assert!(ok.message.is_none());
    assert!(IosPlatform::try_new(&IosPlatform::check_tools(true, false, true)).is_none());
}

#[test]
fn listing_errors() {
    match IosPlatform::read_device_listing(CommandResult::FailedToStart {
        message: "No such file or directory (os error 2)".to_string(),
    }) {
        Err(e) => assert_eq!(e.to_string(), "IO error: No such file or directory (os error 2)"),
        Ok(_) => panic!("listing succeeded"),
    }
    match IosPlatform::read_runtime_listing(out(false, "", "bad")) {
        Err(e) => assert_eq!(e.to_string(), "Command 'xcrun simctl list runtimes' failed: bad"),
        Ok(_) => panic!("listing succeeded"),
    }
    assert_eq!(IosPlatform::read_device_listing(out(true, "{}", "")).unwrap(), "{}");
    let _ = Runtime::new("a", "b");
}

#[test]
fn line_version_needs_a_number() {
    assert_eq!(IosPlatform::extract_version_from_line("Get iOS ..."), None);
    assert_eq!(IosPlatform::extract_version_from_line("Get iOS ... then iOS 17.2 now"), Some("17.2".to_string()));
    assert_eq!(IosPlatform::extract_version_from_line("iOS (.5)"), Some(".5".to_string()));
}

#[test]
fn line_version_splits_on_unicode_white_space() {
    assert_eq!(
        IosPlatform::extract_version_from_line("Downloading\u{A0}iOS\u{2003}17.0\tsimulator"),
        Some("17.0".to_string())
    );
    assert_eq!(IosPlatform::extract_version_from_line("iOS\u{200B}17.0"), None);
}

fn run_of(step: StartStep) -> (String, Vec<String>, StartStage) {
    match step {
        StartStep::Run { invocation, stage } => (invocation.program, invocation.args, stage),
        StartStep::Done(_) => panic!("expected a run"),
    }
}

#[test]
fn start_boots_opens_and_activates() {
    let (program, args, stage) = run_of(IosPlatform::start_begin("UDID-1"));
    assert_eq!(program, "xcrun");
    assert_eq!(args, vec!["simctl", "boot", "UDID-1"]);
    assert_eq!(stage, StartStage::Booting);
    let already = out(false, "", "Unable to boot device in current state: Booted");
    let (program, args, stage) = run_of(IosPlatform::start_next(StartStage::Booting, already));
    assert_eq!(program, "open");
    assert_eq!(args, vec!["-a", "Simulator"]);
    assert_eq!(stage, StartStage::Opening);
    let (program, _, stage) = run_of(IosPlatform::start_next(StartStage::Opening, out(true, "", "")));
    assert_eq!(program, "osascript");
    assert_eq!(stage, StartStage::Activating);
    let failed_script = CommandResult::FailedToStart { message: "gone".to_string() };
    assert!(matches!(IosPlatform::start_next(StartStage::Activating, failed_script), StartStep::Done(Ok(()))));
}

#[test]
fn start_stops_at_a_failed_step() {
    match IosPlatform::start_next(StartStage::Booting, out(false, "", "bad udid")) {
        StartStep::Done(Err(Error::CommandFailed { command, message })) => {
            assert_eq!(command, "xcrun simctl boot");
            assert_eq!(message, "bad udid");
        }
        _ => panic!("expected the boot to fail"),
    }
    match IosPlatform::start_next(StartStage::Opening, out(false, "", "no app")) {
        StartStep::Done(Err(Error::CommandFailed { command, .. })) => {
            assert_eq!(command, "open -a Simulator")
        }
        _ => panic!("expected the open to fail"),
    }
}

#[test]
fn search_prefers_dry_run_then_runtime_list() {
    match IosPlatform::search_begin() {
        SearchStep::Run { invocation, stage } => {
            assert_eq!(invocation.program, "xcodebuild");
            assert_eq!(stage, SearchStage::DryRun);
        }
        _ => panic!("expected the dry run"),
    }
    match IosPlatform::search_next(SearchStage::DryRun, out(true, "Downloading iOS 17.2 Simulator\n", "")) {
        SearchStep::Found(v) => {
            assert_eq!(v.len(), 1);
            assert_eq!(v[0].identifier, "iOS 17.2");
        }
        _ => panic!("expected runtimes"),
    }
    match IosPlatform::search_next(SearchStage::DryRun, out(true, "nothing to do\n", "")) {
        SearchStep::Run { invocation, stage } => {
            assert_eq!(invocation.args, vec!["simctl", "runtime", "list", "-j"]);
            assert_eq!(stage, SearchStage::RuntimeList);
        }
        _ => panic!("expected the runtime list"),
    }
    match IosPlatform::search_next(SearchStage::RuntimeList, out(true, "{}", "")) {
        SearchStep::ReadRuntimeList { listing } => assert_eq!(listing, Some("{}".to_string())),
        _ => panic!("expected the listing"),
    }
    match IosPlatform::search_next(SearchStage::RuntimeList, out(false, "{}", "err")) {
        SearchStep::ReadRuntimeList { listing } => assert_eq!(listing, None),
        _ => panic!("expected no listing"),
    }
}
