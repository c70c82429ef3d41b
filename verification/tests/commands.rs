use simls::commands::list::{
    device_line, error_line, header, no_devices_line, platforms_to_list, StatusColor,
};
use simls::commands::{create, delete, device_choices, erase, install, runtime_choices, start};
use simls::domain::{Device, DeviceState, DeviceType, Runtime};
use simls::error::Error;
use simls::platform::{CommandOutput, CommandResult, PlatformKind, PlatformRegistry, ToolStatus};
use simls::ui::{
    chosen_index, finish_platform_selection, resolve_platform, select_device, select_item,
    select_platform, PlatformChoice,
};
use simls::ui::selection::platform_names;
use simls::utils::android::{create_report, emulator_names, format_system_image_path};
use simls::utils::extract_ios_version;

fn registry(ios: bool, android: bool) -> PlatformRegistry {
    let status = |b: bool| if b { ToolStatus::available() } else { ToolStatus::unavailable("no") };
    PlatformRegistry::detect(&status(ios), &status(android))
}

#[test]
fn resolve_platform_by_flags() {
    let both = registry(true, true);
    assert!(matches!(resolve_platform(&both, true, true), Ok(PlatformChoice::Chosen(PlatformKind::Ios))));
    assert!(matches!(
        resolve_platform(&both, false, true),
        Ok(PlatformChoice::Chosen(PlatformKind::Android))
    ));
    match resolve_platform(&both, false, false) {
        Ok(PlatformChoice::Ask(options)) => {
            assert_eq!(options, vec![PlatformKind::Ios, PlatformKind::Android]);
            assert_eq!(platform_names(&options), vec!["iOS", "Android"]);
            assert_eq!(finish_platform_selection(&options, Some(1)).unwrap(), PlatformKind::Android);
            assert!(matches!(finish_platform_selection(&options, None), Err(Error::UserCancelled)));
        }
        _ => panic!("expected a question"),
    }
    let android = registry(false, true);
    match resolve_platform(&android, true, false) {
        Err(Error::CommandFailed { command, message }) => {
            assert_eq!(command, "iOS");
            assert_eq!(message, "iOS platform is not available");
        }
        _ => panic!("expected failure"),
    }
    assert!(matches!(
        resolve_platform(&android, false, false),
        Ok(PlatformChoice::Chosen(PlatformKind::Android))
    ));
    let ios = registry(true, false);
    match resolve_platform(&ios, false, true) {
        Err(e) => assert_eq!(e.to_string(), "Command 'Android' failed: Android platform is not available"),
        _ => panic!("expected failure"),
    }
    assert!(matches!(select_platform(&registry(false, false)), Err(Error::NoPlatformsAvailable)));
}

fn devices() -> Vec<Device> {
    vec![
        Device::new("A", "iPhone 15").with_state(DeviceState::Booted).with_platform_version("17.0"),
        Device::new("B", "Pixel_7").with_state(DeviceState::Shutdown),
        Device::new("C", "Other"),
    ]
}

#[test]
fn device_actions() {
    let ds = devices();
    assert_eq!(
        device_choices(PlatformKind::Ios, &ds).unwrap(),
        vec!["iPhone 15 (17.0)", "Pixel_7", "Other"]
    );
    match device_choices(PlatformKind::Android, &vec![]) {
        Err(Error::NoDevicesAvailable { platform }) => assert_eq!(platform, "Android"),
        _ => panic!("expected no devices"),
    }
    match select_device(&vec![]) {
        Err(Error::NoDevicesAvailable { platform }) => assert_eq!(platform, "device"),
        _ => panic!("expected no devices"),
    }
    assert!(matches!(select_item(0), Err(Error::NoDevicesAvailable { .. })));
    assert!(select_item(3).is_ok());
    assert_eq!(chosen_index(Some(2)).unwrap(), 2);
    assert!(matches!(chosen_index(None), Err(Error::UserCancelled)));
    assert_eq!(delete::done_message(PlatformKind::Ios, "iPhone 15"), "iOS device 'iPhone 15' deleted successfully.");
    assert_eq!(
        erase::done_message(PlatformKind::Android, "Pixel_7"),
        "Android device 'Pixel_7' erased successfully."
    );
    assert_eq!(start::done_message(PlatformKind::Ios, "X"), "iOS device 'X' started successfully.");
    assert_eq!(delete::PROMPT, "Select the device to delete");
    assert_eq!(erase::PROMPT, "Select the device to erase content and settings from");
}

#[test]
fn create_flow_decisions() {
    let runtimes = vec![
        Runtime::new("r17", "17.0").with_device_types(vec![DeviceType::new("p15", "iPhone 15 Pro")]),
        Runtime::new("sys", "system-images;android-34;default;x86_64"),
    ];
    assert_eq!(
        runtime_choices(PlatformKind::Ios, &runtimes).unwrap(),
        vec!["17.0", "system-images;android-34;default;x86_64"]
    );
    match runtime_choices(PlatformKind::Ios, &vec![]) {
        Err(Error::NoDevicesAvailable { platform }) => assert_eq!(platform, "iOS runtime"),
        _ => panic!("expected no runtimes"),
    }
    let known = create::known_device_types(&runtimes[0]).unwrap();
    assert_eq!(known.len(), 1);
    assert_eq!(known[0].identifier, "p15");
    assert!(create::known_device_types(&runtimes[1]).is_none());
    assert_eq!(create::device_type_choices(PlatformKind::Ios, &known).unwrap(), vec!["iPhone_15_Pro"]);
    match create::device_type_choices(PlatformKind::Android, &vec![]) {
        Err(Error::NoDevicesAvailable { platform }) => assert_eq!(platform, "Android device type"),
        _ => panic!("expected no types"),
    }
    assert_eq!(create::default_device_name(&known[0], &runtimes[0]), "iPhone_15_Pro 17.0");
    assert_eq!(
        create::done_message(PlatformKind::Ios, "iPhone_15_Pro 17.0"),
        "iOS device 'iPhone_15_Pro 17.0' created successfully."
    );
    assert_eq!(
        install::done_message(PlatformKind::Android, &Runtime::new("x", "Android 35 (default, x86_64)")),
        "Android runtime 'Android 35 (default, x86_64)' installed successfully."
    );
}

#[test]
fn list_lines() {
    let both = registry(true, true);
    assert_eq!(platforms_to_list(&both, false, false), vec![PlatformKind::Ios, PlatformKind::Android]);
    assert_eq!(platforms_to_list(&both, false, true), vec![PlatformKind::Android]);
    assert_eq!(platforms_to_list(&registry(false, true), true, false), vec![]);
    assert_eq!(header(PlatformKind::Ios), "iOS Devices:");
    assert_eq!(no_devices_line(PlatformKind::Ios), "  No ios devices found.");
    assert_eq!(no_devices_line(PlatformKind::Android), "  No android devices found.");
    let ds = devices();
    let (first, status, color) = device_line(&ds[0]);
    assert_eq!(first, "  iPhone 15 (17.0) - ");
    assert_eq!(status, "Booted");
    assert_eq!(color, StatusColor::Green);
    assert_eq!(device_line(&ds[1]).2, StatusColor::Red);
    assert_eq!(device_line(&ds[2]).2, StatusColor::Plain);
    assert_eq!(error_line(&Error::NoPlatformsAvailable), "  Error listing devices: No platform tools are available");
}

#[test]
fn helper_functions() {
    assert_eq!(extract_ios_version("com.apple.CoreSimulator.SimRuntime.iOS-18-2"), Some("18.2".to_string()));
    assert_eq!(simls::utils::ios::extract_ios_version("iOS-1-2"), Some("1.2".to_string()));
    assert_eq!(emulator_names("A\nB\n"), vec!["A", "B"]);
    assert_eq!(emulator_names("A\n\nB"), vec!["A", ""]);
    assert_eq!(
        format_system_image_path(" system-images ; android-34 ; default ; x86 | 1 | d | p"),
        Some("system-images;android-34;default;x86".to_string())
    );
    let ok = CommandResult::Completed(CommandOutput {
        success: true,
        stdout: String::new(),
        stdout_invalid_utf8: None,
        stderr: String::new(),
    });
    assert_eq!(create_report(true, &ok), (false, "Android emulator created successfully.".to_string()));
    assert_eq!(create_report(false, &ok), (true, "No support for your OS yet".to_string()));
    assert_eq!(
        create_report(true, &CommandResult::FailedToStart { message: "gone".to_string() }),
        (true, "Failed to execute command: gone".to_string())
    );
}
