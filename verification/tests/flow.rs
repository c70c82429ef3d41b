use simls::commands::flow::{
    begin, AvailableRuntimesWanted, Completion, DeviceTask, DeviceTypesWanted, DevicesWanted, Action,
    Naming, Operation, Question, RuntimesWanted, Task,
};
use simls::commands::list::{report, Line, StatusColor};
use simls::domain::{Device, DeviceState, DeviceType, Runtime};
use simls::error::Error;
use simls::platform::{PlatformKind, PlatformRegistry, ToolStatus};

fn both() -> PlatformRegistry {
    PlatformRegistry::detect(&ToolStatus::available(), &ToolStatus::available())
}

fn ios_only() -> PlatformRegistry {
    PlatformRegistry::detect(&ToolStatus::available(), &ToolStatus::unavailable("no"))
}

fn phone() -> Device {
    Device::new("UDID-1", "iPhone 15")
        .with_state(DeviceState::Booted)
        .with_platform_version("17.0")
}

#[test]
fn flow_flag_settles_platform() {
    match begin(Task::OnDevice(DeviceTask::Start), &both(), true, false) {
        Action::ListDevices { platform, then } => {
            assert_eq!(platform, PlatformKind::Ios);
            assert_eq!(then.platform, PlatformKind::Ios);
            assert_eq!(then.task, DeviceTask::Start);
        }
        _ => panic!("expected a device listing"),
    }
}

#[test]
fn flow_single_platform_is_taken() {
    match begin(Task::Create, &ios_only(), false, false) {
        Action::ListRuntimes { platform, .. } => assert_eq!(platform, PlatformKind::Ios),
        _ => panic!("expected a runtime listing"),
    }
}

#[test]
fn flow_missing_flagged_platform_fails() {
    match begin(Task::Install, &ios_only(), false, true) {
        Action::Fail { error: Error::CommandFailed { command, message } } => {
            assert_eq!(command, "Android");
            assert_eq!(message, "Android platform is not available");
        }
        _ => panic!("expected a failure"),
    }
}

#[test]
fn flow_asks_for_platform_and_follows_answer() {
    match begin(Task::Install, &both(), false, false) {
        Action::Choose { prompt, items, then } => {
            assert_eq!(prompt, "Select your platform");
            assert_eq!(items, vec!["iOS".to_string(), "Android".to_string()]);
            assert_eq!(then.count(), 2);
            match then.answered(Ok(Some(1))) {
                Action::ListAvailableRuntimes { platform, .. } => {
                    assert_eq!(platform, PlatformKind::Android)
                }
                _ => panic!("expected the installable runtimes"),
            }
        }
        _ => panic!("expected a platform question"),
    }
}

#[test]
fn flow_dismissed_prompt_cancels() {
    let q = Question::Platform {
        task: Task::Create,
        options: vec![PlatformKind::Ios, PlatformKind::Android],
    };
    assert!(matches!(q.answered(Ok(None)), Action::Fail { error: Error::UserCancelled }));
}

#[test]
fn flow_failed_prompt_fails_with_its_error() {
    let q = Question::Runtime { platform: PlatformKind::Ios, runtimes: vec![Runtime::new("a", "b")] };
    assert!(matches!(q.answered(Err(Error::UserCancelled)), Action::Fail { error: Error::UserCancelled }));
}

#[test]
fn flow_no_devices_fails() {
    let w = DevicesWanted { task: DeviceTask::Delete, platform: PlatformKind::Android };
    match w.listed(Ok(vec![])) {
        Action::Fail { error: Error::NoDevicesAvailable { platform } } => assert_eq!(platform, "Android"),
        _ => panic!("expected a failure"),
    }
}

#[test]
fn flow_listing_error_passes_through() {
    let w = DevicesWanted { task: DeviceTask::Erase, platform: PlatformKind::Ios };
    let e = Error::Io { message: "not found".to_string() };
    match w.listed(Err(e)) {
        Action::Fail { error: Error::Io { message } } => assert_eq!(message, "not found"),
        _ => panic!("expected a failure"),
    }
}

#[test]
fn flow_device_task_acts_on_chosen_device() {
    let other = Device::new("UDID-2", "iPad");
    let w = DevicesWanted { task: DeviceTask::Start, platform: PlatformKind::Ios };
    let q = match w.listed(Ok(vec![other, phone()])) {
        Action::Choose { prompt, items, then } => {
            assert_eq!(prompt, "Select the device to start");
            assert_eq!(items, vec!["iPad".to_string(), "iPhone 15 (17.0)".to_string()]);
            then
        }
        _ => panic!("expected a device question"),
    };
    match q.answered(Ok(Some(1))) {
        Action::Perform { operation: Operation::Start { platform, device_id }, then } => {
            assert_eq!(platform, PlatformKind::Ios);
            assert_eq!(device_id, "UDID-1");
            match then.performed(Ok(())) {
                Action::Finish { message } => {
                    assert_eq!(message, "iOS device 'iPhone 15' started successfully.")
                }
                _ => panic!("expected success"),
            }
        }
        _ => panic!("expected the start operation"),
    }
}

#[test]
fn flow_delete_and_erase_operations() {
    let q = Question::Device {
        task: DeviceTask::Delete,
        platform: PlatformKind::Android,
        devices: vec![Device::new("Pixel_7", "Pixel_7")],
    };
    match q.answered(Ok(Some(0))) {
        Action::Perform { operation: Operation::Delete { device_id, .. }, then } => {
            assert_eq!(device_id, "Pixel_7");
            assert_eq!(then.message, "Android device 'Pixel_7' deleted successfully.");
        }
        _ => panic!("expected the delete operation"),
    }
    let q = Question::Device { task: DeviceTask::Erase, platform: PlatformKind::Ios, devices: vec![phone()] };
    match q.answered(Ok(Some(0))) {
        Action::Perform { operation: Operation::Erase { device_id, .. }, then } => {
            assert_eq!(device_id, "UDID-1");
            assert_eq!(then.message, "iOS device 'iPhone 15' erased successfully.");
        }
        _ => panic!("expected the erase operation"),
    }
}

#[test]
fn flow_create_with_listed_device_types() {
    let runtime = Runtime::new("com.apple.CoreSimulator.SimRuntime.iOS-17-0", "17.0").with_device_types(vec![
        DeviceType::new("com.apple.iPhone-15", "iPhone 15"),
        DeviceType::new("com.apple.iPhone-15-Pro", "iPhone 15 Pro"),
    ]);
    let q = match (RuntimesWanted { platform: PlatformKind::Ios }).listed(Ok(vec![runtime])) {
        Action::Choose { prompt, items, then } => {
            assert_eq!(prompt, "Select your runtime");
            assert_eq!(items, vec!["17.0".to_string()]);
            then
        }
        _ => panic!("expected a runtime question"),
    };
    let q = match q.answered(Ok(Some(0))) {
        Action::Choose { prompt, items, then } => {
            assert_eq!(prompt, "Select your device type");
            assert_eq!(items, vec!["iPhone_15".to_string(), "iPhone_15_Pro".to_string()]);
            then
        }
        _ => panic!("expected a device type question"),
    };
    let naming = match q.answered(Ok(Some(1))) {
        Action::Ask { prompt, default, then } => {
            assert_eq!(prompt, "Enter the device name");
            assert_eq!(default, "iPhone_15_Pro 17.0");
            then
        }
        _ => panic!("expected the name prompt"),
    };
    match naming.typed(Ok("Work phone".to_string())) {
        Action::Perform { operation: Operation::Create { platform, name, device_type, runtime }, then } => {
            assert_eq!(platform, PlatformKind::Ios);
            assert_eq!(name, "Work phone");
            assert_eq!(device_type, "com.apple.iPhone-15-Pro");
            assert_eq!(runtime, "com.apple.CoreSimulator.SimRuntime.iOS-17-0");
            let e = Error::CommandFailed { command: "xcrun simctl create".to_string(), message: "bad".to_string() };
            assert!(matches!(then.performed(Err(e)), Action::Fail { error: Error::CommandFailed { .. } }));
        }
        _ => panic!("expected the create operation"),
    }
}

#[test]
fn flow_create_fetches_device_types_when_runtime_lists_none() {
    let q = Question::Runtime {
        platform: PlatformKind::Android,
        runtimes: vec![Runtime::new("system-images;android-34;google_apis;arm64-v8a", "system-images;android-34;google_apis;arm64-v8a")],
    };
    let wanted = match q.answered(Ok(Some(0))) {
        Action::ListDeviceTypes { platform, then } => {
            assert_eq!(platform, PlatformKind::Android);
            then
        }
        _ => panic!("expected a device type listing"),
    };
    match wanted.listed(Ok(vec![DeviceType::new("pixel_7", "pixel_7")])) {
        Action::Choose { items, .. } => assert_eq!(items, vec!["pixel_7".to_string()]),
        _ => panic!("expected a device type question"),
    }
    let empty = DeviceTypesWanted { platform: PlatformKind::Android, runtime: Runtime::new("x", "x") };
    match empty.listed(Ok(vec![])) {
        Action::Fail { error: Error::NoDevicesAvailable { platform } } => {
            assert_eq!(platform, "Android device type")
        }
        _ => panic!("expected a failure"),
    }
}

#[test]
fn flow_naming_failure_fails() {
    let n = Naming { platform: PlatformKind::Ios, runtime: "r".to_string(), device_type: "t".to_string() };
    assert!(matches!(n.typed(Err(Error::UserCancelled)), Action::Fail { error: Error::UserCancelled }));
}

#[test]
fn flow_install_chosen_runtime() {
    let w = AvailableRuntimesWanted { platform: PlatformKind::Android };
    match (AvailableRuntimesWanted { platform: PlatformKind::Android }).listed(Ok(vec![])) {
        Action::Fail { error: Error::NoDevicesAvailable { platform } } => assert_eq!(platform, "Android runtime"),
        _ => panic!("expected a failure"),
    }
    let q = match w.listed(Ok(vec![Runtime::new("system-images;android-34;google_apis;arm64-v8a", "Android 34 (google apis, arm64-v8a)")])) {
        Action::Choose { prompt, items, then } => {
            assert_eq!(prompt, "Select the runtime to install");
            assert_eq!(items, vec!["Android 34 (google apis, arm64-v8a)".to_string()]);
            then
        }
        _ => panic!("expected a runtime question"),
    };
    match q.answered(Ok(Some(0))) {
        Action::Perform { operation: Operation::Install { platform, runtime }, then } => {
            assert_eq!(platform, PlatformKind::Android);
            assert_eq!(runtime, "system-images;android-34;google_apis;arm64-v8a");
            assert_eq!(then.message, "Android runtime 'Android 34 (google apis, arm64-v8a)' installed successfully.");
        }
        _ => panic!("expected the install operation"),
    }
}

#[test]
fn flow_completion_reports_message() {
    let c = Completion { message: "done".to_string() };
    match c.performed(Ok(())) {
        Action::Finish { message } => assert_eq!(message, "done"),
        _ => panic!("expected success"),
    }
}

#[test]
fn report_lists_devices() {
    let lines = report(PlatformKind::Ios, &Ok(vec![phone(), Device::new("B", "Old")]));
    assert_eq!(lines.len(), 3);
    assert!(matches!(&lines[0], Line::Text(t) if t == "iOS Devices:"));
    match &lines[1] {
        Line::Device { text, state, color } => {
            assert_eq!(text, "  iPhone 15 (17.0) - ");
            assert_eq!(*state, "Booted");
            assert_eq!(*color, StatusColor::Green);
        }
        _ => panic!("expected a device line"),
    }
    match &lines[2] {
        Line::Device { text, state, color } => {
            assert_eq!(text, "  Old - ");
            assert_eq!(*state, "Unknown");
            assert_eq!(*color, StatusColor::Plain);
        }
        _ => panic!("expected a device line"),
    }
}

#[test]
fn report_empty_and_error() {
    let lines = report(PlatformKind::Android, &Ok(vec![]));
    assert_eq!(lines.len(), 2);
    assert!(matches!(&lines[1], Line::Text(t) if t == "  No android devices found."));
    let lines = report(PlatformKind::Ios, &Err(Error::Parse { message: "bad".to_string() }));
    assert_eq!(lines.len(), 2);
    assert!(matches!(&lines[1], Line::Text(t) if t == "  Error listing devices: Failed to parse output: bad"));
}
