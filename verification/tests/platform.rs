use simls::domain::{Device, DeviceState, DeviceType, Runtime};
use simls::error::Error;
use simls::platform::{command_exists, CommandOutput, CommandResult, PlatformKind, PlatformRegistry, ToolStatus};

#[test]
fn test_platform_kind_as_str() {
    assert_eq!(PlatformKind::Ios.as_str(), "iOS");
    assert_eq!(PlatformKind::Android.as_str(), "Android");
}

#[test]
fn test_platform_kind_display() {
    assert_eq!(PlatformKind::Ios.to_string(), "iOS");
    assert_eq!(PlatformKind::Android.to_string(), "Android");
}

#[test]
fn test_platform_kind_equality() {
    assert_eq!(PlatformKind::Ios, PlatformKind::Ios);
    assert_eq!(PlatformKind::Android, PlatformKind::Android);
    assert_ne!(PlatformKind::Ios, PlatformKind::Android);
}

#[test]
fn test_platform_kind_clone() {
    let kind = PlatformKind::Ios;
    let cloned = kind;
    assert_eq!(kind, cloned);
}

#[test]
fn test_tool_status_available() {
    let status = ToolStatus::available();
    assert!(status.available);
    assert!(status.message.is_none());
}

#[test]
fn test_tool_status_unavailable_with_str() {
    let status = ToolStatus::unavailable("Tool not found");
    assert!(!status.available);
    assert_eq!(status.message, Some("Tool not found".to_string()));
}

#[test]
fn test_tool_status_unavailable_with_string() {
    let status = ToolStatus::unavailable(&String::from("Custom error message"));
    assert!(!status.available);
    assert_eq!(status.message, Some("Custom error message".to_string()));
}

#[test]
fn test_command_exists_with_valid_command() {
    // A probe that ran and reported success shows the command present.
    let echoed = CommandResult::Completed(CommandOutput {
        success: true,
        stdout: "test\n".to_string(),
        stdout_invalid_utf8: None,
        stderr: String::new(),
    });
    assert!(command_exists(&echoed));
}

#[test]
fn test_command_exists_with_invalid_command() {
    // A probe that could not be started shows the command absent.
    let missing = CommandResult::FailedToStart {
        message: "No such file or directory (os error 2)".to_string(),
    };
    assert!(!command_exists(&missing));
    let failing = CommandResult::Completed(CommandOutput {
        success: false,
        stdout: String::new(),
        stdout_invalid_utf8: None,
        stderr: "usage".to_string(),
    });
    assert!(!command_exists(&failing));
}

#[test]
fn registry_detection_order_and_lookup() {
    let yes = ToolStatus::available();
    let no = ToolStatus::unavailable("missing");
    let both = PlatformRegistry::detect(&yes, &yes);
    assert_eq!(both.platforms(), &[PlatformKind::Ios, PlatformKind::Android]);
    assert!(both.any_available());
    let android = PlatformRegistry::detect(&no, &yes);
    assert_eq!(android.platforms(), &[PlatformKind::Android]);
    assert_eq!(android.get(PlatformKind::Ios), None);
    assert_eq!(android.get(PlatformKind::Android), Some(PlatformKind::Android));
    let none = PlatformRegistry::detect(&no, &no);
    assert!(!none.any_available());
    assert!(none.platforms().is_empty());
}

#[test]
fn device_builders_and_display_names() {
    let d = Device::new("UDID-1", "iPhone 15");
    assert_eq!(d.state, DeviceState::Unknown);
    assert_eq!(d.display_name(), "iPhone 15");
    let d = d.with_state(DeviceState::Booted).with_platform_version("17.0");
    assert_eq!(d.id, "UDID-1");
    assert_eq!(d.state, DeviceState::Booted);
    assert_eq!(d.display_name(), "iPhone 15 (17.0)");
    assert_eq!(DeviceState::Booted.as_str(), "Booted");
    assert_eq!(DeviceState::Shutdown.as_str(), "Shutdown");
    assert_eq!(DeviceState::Unknown.as_str(), "Unknown");
    assert_eq!(DeviceState::default(), DeviceState::Unknown);
}

#[test]
fn device_state_names_ignore_case() {
    assert_eq!(DeviceState::from("Booted"), DeviceState::Booted);
    assert_eq!(DeviceState::from("BOOTED"), DeviceState::Booted);
    assert_eq!(DeviceState::from("shutdown"), DeviceState::Shutdown);
    assert_eq!(DeviceState::from("Shutting Down"), DeviceState::Unknown);
    assert_eq!(DeviceState::from_name(""), DeviceState::Unknown);
    for s in [DeviceState::Booted, DeviceState::Shutdown, DeviceState::Unknown] {
        assert_eq!(DeviceState::from_name(s.as_str()), s);
    }
}

#[test]
fn runtime_builders() {
    let r = Runtime::new("id", "17.0");
    assert!(r.supported_device_types.is_empty());
    let r = r.with_device_types(vec![DeviceType::new("p15", "iPhone 15")]);
    assert_eq!(r.identifier, "id");
    assert_eq!(r.name, "17.0");
    assert_eq!(r.supported_device_types[0].identifier, "p15");
}

#[test]
fn error_messages() {
    let cases = vec![
        (
            Error::CommandFailed { command: "xcrun simctl boot".to_string(), message: "x".to_string() },
            "Command 'xcrun simctl boot' failed: x",
        ),
        (Error::Parse { message: "bad".to_string() }, "Failed to parse output: bad"),
        (Error::UserCancelled, "Operation cancelled by user"),
        (Error::NoDevicesAvailable { platform: "iOS".to_string() }, "No iOS devices available"),
        (Error::NoPlatformsAvailable, "No platform tools are available"),
        (Error::NotImplemented { feature: "Stop".to_string() }, "Stop is not yet implemented"),
        (Error::Io { message: "denied".to_string() }, "IO error: denied"),
        (Error::Json { message: "eof".to_string() }, "JSON error: eof"),
    ];
    for (e, text) in cases {
        assert_eq!(e.to_string(), text);
    }
}

#[test]
fn unavailable_warnings_off_macos() {
    let w = PlatformRegistry::unavailable_warnings(false, true, true);
    assert_eq!(
        w,
        vec![
            "Warning: iOS simulators are only supported on macOS.\n".to_string(),
            "Warning: Android emulators are currently only supported on macOS.\n".to_string(),
        ]
    );
}

#[test]
fn unavailable_warnings_missing_tools() {
    let w = PlatformRegistry::unavailable_warnings(true, false, false);
    assert_eq!(
        w,
        vec![
            "Warning: iOS support unavailable - Xcode Command Line Tools not found.\nInstall with: xcode-select --install\n".to_string(),
            "Warning: Android support unavailable - Android Emulator not found.\nMake sure Android SDK is installed and ANDROID_HOME is set.\n".to_string(),
        ]
    );
}

#[test]
fn unavailable_warnings_only_for_missing_tool() {
    let w = PlatformRegistry::unavailable_warnings(true, true, false);
    assert_eq!(w.len(), 1);
    assert!(w[0].starts_with("Warning: Android support unavailable"));
    assert!(PlatformRegistry::unavailable_warnings(true, true, true).is_empty());
}
