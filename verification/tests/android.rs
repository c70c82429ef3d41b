use simls::domain::{DeviceState, Runtime};
use simls::error::Error;
use simls::platform::{AndroidPlatform, CommandOutput, CommandResult, Platform, PlatformKind};

#[test]
fn test_parse_system_image_valid() {
    let line = "system-images;android-34;google_apis;arm64-v8a | 14 | Google APIs ARM 64 v8a | system-images/android-34/google_apis/arm64-v8a";
    let result = AndroidPlatform::parse_system_image(line);
    assert_eq!(
        result,
        Some("system-images;android-34;google_apis;arm64-v8a".to_string())
    );
}

#[test]
fn test_parse_system_image_android_33() {
    let line = "system-images;android-33;google_apis_playstore;x86_64 | 33 | Google Play x86_64 | system-images/android-33/google_apis_playstore/x86_64";
    let result = AndroidPlatform::parse_system_image(line);
    assert_eq!(
        result,
        Some("system-images;android-33;google_apis_playstore;x86_64".to_string())
    );
}

#[test]
fn test_parse_system_image_invalid_format() {
    let line = "system-images;android-34";
    let result = AndroidPlatform::parse_system_image(line);
    assert_eq!(result, None);
}

#[test]
fn test_parse_system_image_empty_string() {
    let result = AndroidPlatform::parse_system_image("");
    assert_eq!(result, None);
}

#[test]
fn test_parse_system_image_not_system_image() {
    let line = "platforms;android-34 | 34 | Android API 34";
    let result = AndroidPlatform::parse_system_image(line);
    assert_eq!(result, None);
}

#[test]
fn test_parse_system_image_fewer_than_four_pipes() {
    let line = "system-images;android-34;google_apis;arm64-v8a | 14 | Description";
    let result = AndroidPlatform::parse_system_image(line);
    assert_eq!(result, None);
}

#[test]
fn test_android_platform_kind() {
    if let Some(platform) = AndroidPlatform::try_new(&AndroidPlatform::check_tools(true, true, true)) {
        assert_eq!(platform.kind(), PlatformKind::Android);
        assert_eq!(platform.name(), "Android");
    }
}

#[test]
fn android_test_check_tools_returns_status() {
    for on_macos in [false, true] {
        for emulator in [false, true] {
            for avdmanager in [false, true] {
                let status = AndroidPlatform::check_tools(on_macos, emulator, avdmanager);
                assert!(status.available || status.message.is_some());
            }
        }
    }
}

#[test]
fn test_format_system_image_name_standard() {
    assert_eq!(
        AndroidPlatform::format_system_image_name("system-images;android-34;google_apis;arm64-v8a"),
        "Android 34 (google apis, arm64-v8a)"
    );
}

#[test]
fn test_format_system_image_name_with_playstore() {
    assert_eq!(
        AndroidPlatform::format_system_image_name(
            "system-images;android-33;google_apis_playstore;x86_64"
        ),
        "Android 33 (google apis playstore, x86_64)"
    );
}

#[test]
fn test_format_system_image_name_default_variant() {
    assert_eq!(
        AndroidPlatform::format_system_image_name("system-images;android-30;default;x86"),
        "Android 30 (default, x86)"
    );
}

#[test]
fn test_format_system_image_name_invalid_format() {
    assert_eq!(
        AndroidPlatform::format_system_image_name("invalid-path"),
        "invalid-path"
    );
}

#[test]
fn test_format_system_image_name_too_few_parts() {
    assert_eq!(
        AndroidPlatform::format_system_image_name("system-images;android-34"),
        "system-images;android-34"
    );
}

#[test]
fn test_format_system_image_name_empty() {
    assert_eq!(AndroidPlatform::format_system_image_name(""), "");
}

fn done(stdout: &str) -> CommandResult {
    CommandResult::Completed(CommandOutput {
        success: true,
        stdout: stdout.to_string(),
        stdout_invalid_utf8: None,
        stderr: String::new(),
    })
}

fn failed(stderr: &str) -> CommandResult {
    CommandResult::Completed(CommandOutput {
        success: false,
        stdout: String::new(),
        stdout_invalid_utf8: None,
        stderr: stderr.to_string(),
    })
}

#[test]
fn check_tools_messages() {
    let s = AndroidPlatform::check_tools(false, true, true);
    assert_eq!(
        s.message.as_deref(),
        Some("Android emulators are currently only supported on macOS.")
    );
    let s = AndroidPlatform::check_tools(true, false, true);
    assert_eq!(
        s.message.as_deref(),
        Some("Android Emulator not found. Make sure Android SDK is installed and ANDROID_HOME is set. Add $ANDROID_HOME/emulator to your PATH.")
    );
    let s = AndroidPlatform::check_tools(true, true, false);
    assert_eq!(
        s.message.as_deref(),
        Some("Android AVD Manager not found. Make sure Android SDK is installed and ANDROID_HOME is set. Add $ANDROID_HOME/cmdline-tools/latest/bin to your PATH.")
    );
    assert!(AndroidPlatform::check_tools(true, true, true).available);
}

#[test]
fn avd_listing_keeps_non_empty_lines() {
    let devices = AndroidPlatform::devices_from_listing("Pixel_7\r\n\nNexus_5\n");
    assert_eq!(devices.len(), 2);
    assert_eq!(devices[0].id, "Pixel_7");
    assert_eq!(devices[0].name, "Pixel_7");
    assert_eq!(devices[0].state, DeviceState::Unknown);
    assert_eq!(devices[1].id, "Nexus_5");
    assert!(AndroidPlatform::devices_from_listing("").is_empty());
}

const SDK_LISTING: &str = "Installed packages:\n  Path | Version | Description | Location\n  system-images;android-34;google_apis;arm64-v8a | 14 | Google APIs | system-images/android-34/google_apis/arm64-v8a\n\nAvailable Packages:\n  system-images;android-34;google_apis;arm64-v8a | 14 | Google APIs | system-images/android-34/google_apis/arm64-v8a\n  system-images;android-35;default;x86_64 | 1 | Default | system-images/android-35/default/x86_64\n  platforms;android-34 | 3 | Android SDK Platform 34\n";

#[test]
fn sdk_listing_runtimes() {
    let rs = AndroidPlatform::runtimes_from_listing(SDK_LISTING).unwrap();
    let ids: Vec<&str> = rs.iter().map(|r| r.identifier.as_str()).collect();
    assert_eq!(
        ids,
        vec![
            "system-images;android-34;google_apis;arm64-v8a",
            "system-images;android-34;google_apis;arm64-v8a",
            "system-images;android-35;default;x86_64"
        ]
    );
    assert_eq!(rs[0].name, rs[0].identifier);
    match AndroidPlatform::runtimes_from_listing("nothing here\n") {
        Err(Error::NoDevicesAvailable { platform }) => assert_eq!(platform, "Android system image"),
        other => panic!("unexpected {:?}", other),
    }
    // Every parsed image line counts, whatever section it stands in.
    let only_available = "Available Packages:\n  system-images;android-35;default;x86_64 | 1 | Default | system-images/android-35/default/x86_64\n";
    let rs = AndroidPlatform::runtimes_from_listing(only_available).unwrap();
    assert_eq!(rs.len(), 1);
    assert_eq!(rs[0].identifier, "system-images;android-35;default;x86_64");
}

#[test]
fn sdk_listing_offers_only_missing_images() {
    let rs = AndroidPlatform::available_runtimes_from_listing(SDK_LISTING).unwrap();
    assert_eq!(rs.len(), 1);
    assert_eq!(rs[0].identifier, "system-images;android-35;default;x86_64");
    assert_eq!(rs[0].name, "Android 35 (default, x86_64)");
    // With nothing installed, every listed image is offered.
    let none_installed = "Installed packages:\n  Path | Version | Description | Location\n  platform-tools | 35.0.0 | Android SDK Platform-Tools | platform-tools\n\nAvailable Packages:\n  system-images;android-34;google_apis;arm64-v8a | 14 | Google APIs | system-images/android-34/google_apis/arm64-v8a\n  system-images;android-35;default;x86_64 | 1 | Default | system-images/android-35/default/x86_64\n";
    let all = AndroidPlatform::available_runtimes_from_listing(none_installed).unwrap();
    assert_eq!(all.len(), 2);
    assert_eq!(all[0].name, "Android 34 (google apis, arm64-v8a)");
    // With everything installed, nothing is offered.
    let everything = "Installed packages:\n  system-images;android-34;google_apis;arm64-v8a | 14 | Google APIs | x\n  system-images;android-35;default;x86_64 | 1 | Default | y\nAvailable Packages:\n  system-images;android-35;default;x86_64 | 1 | Default\n  system-images;android-34;google_apis;arm64-v8a | 14 | Google APIs\n";
    assert!(matches!(
        AndroidPlatform::available_runtimes_from_listing(everything),
        Err(Error::NoDevicesAvailable { .. })
    ));
    // Updates are not a second installed section.
    let with_updates = "Installed packages:\n  system-images;android-34;google_apis;arm64-v8a | 13 | Google APIs | x\nAvailable Updates:\n  system-images;android-33;default;x86_64 | 1 | 2 | extra\n";
    let offered = AndroidPlatform::available_runtimes_from_listing(with_updates).unwrap();
    assert_eq!(offered.len(), 1);
    assert_eq!(offered[0].identifier, "system-images;android-33;default;x86_64");
}

#[test]
fn device_profiles_from_listing() {
    let text = "Available devices definitions:\nid: 0 or \"automotive_1024p_landscape\"\n    Name: Automotive\nid: 1 or \"pixel_7\"\n---------\nid: broken\n";
    let types = AndroidPlatform::device_types_from_listing(text).unwrap();
    let names: Vec<&str> = types.iter().map(|t| t.name.as_str()).collect();
    assert_eq!(names, vec!["automotive_1024p_landscape", "pixel_7"]);
    assert_eq!(types[1].identifier, "pixel_7");
    match AndroidPlatform::device_types_from_listing("") {
        Err(Error::NoDevicesAvailable { platform }) => {
            assert_eq!(platform, "Android device profile")
        }
        other => panic!("unexpected {:?}", other),
    }
}

#[test]
fn android_commands_and_outcomes() {
    let inv = AndroidPlatform::create_command("My_AVD", "pixel_7", "system-images;android-34;default;x86_64");
    assert_eq!(inv.program, "avdmanager");
    assert_eq!(
        inv.args,
        vec!["create", "avd", "-n", "My_AVD", "-k", "system-images;android-34;default;x86_64", "-d", "pixel_7"]
    );
    let start = AndroidPlatform::start_command("Pixel_7");
    assert_eq!(start.program, "screen");
    assert_eq!(start.args, vec!["-m", "-d", "emulator", "-avd", "Pixel_7"]);
    match AndroidPlatform::read_start("Pixel_7", failed("boom")) {
        Err(Error::CommandFailed { command, message }) => {
            assert_eq!(command, "emulator -avd Pixel_7");
            assert_eq!(message, "boom");
        }
        other => panic!("unexpected {:?}", other),
    }
    assert!(AndroidPlatform::read_start("Pixel_7", done("")).is_ok());
    match AndroidPlatform::read_install("x", CommandResult::FailedToStart { message: "not found".to_string() }) {
        Err(Error::Io { message }) => assert_eq!(message, "not found"),
        other => panic!("unexpected {:?}", other),
    }
    let platform = AndroidPlatform::try_new(&AndroidPlatform::check_tools(true, true, true)).unwrap();
    match platform.erase_device("Pixel_7") {
        Err(e) => assert_eq!(e.to_string(), "Android emulator erase is not yet implemented"),
        Ok(()) => panic!("erase succeeded"),
    }
    let (first, second) = AndroidPlatform::install_notice("system-images;android-35;default;x86_64");
    assert_eq!(first, "Installing system-images;android-35;default;x86_64...");
    assert_eq!(second, "This may take a while depending on your internet connection.");
    assert_eq!(
        AndroidPlatform::installed_notice("p"),
        "Successfully installed p"
    );
}

#[test]
fn strict_listing_rejects_invalid_utf8() {
    let out = CommandResult::Completed(CommandOutput {
        success: true,
        stdout: "a\u{FFFD}".to_string(),
        stdout_invalid_utf8: Some("invalid utf-8 sequence of 1 bytes from index 1".to_string()),
        stderr: String::new(),
    });
    match AndroidPlatform::read_device_listing(out) {
        Err(Error::Parse { message }) => assert_eq!(
            message,
            "Invalid UTF-8 in command output: invalid utf-8 sequence of 1 bytes from index 1"
        ),
        other => panic!("unexpected {:?}", other),
    }
    match AndroidPlatform::read_sdk_listing(failed("denied")) {
        Err(Error::CommandFailed { command, .. }) => assert_eq!(command, "sdkmanager --list"),
        other => panic!("unexpected {:?}", other),
    }
}
