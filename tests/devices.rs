use mobile_dispatch::android;
use mobile_dispatch::device::{answer_prompt, device_target, parse_adb_devices, select_device, Choice, Device, SelectError};
use mobile_dispatch::dispatch::ToolError;
use mobile_dispatch::target::Registry;

fn device(name: &str, arch: &str) -> Device {
    Device { name: name.to_string(), arch: arch.to_string() }
}

#[test]
fn empty_device_list_is_success_but_selection_fails() {
    let listed = android::list_devices(Ok("List of devices attached\n\n".to_string())).unwrap();
    assert!(listed.is_empty());
    assert!(matches!(select_device(&Vec::new()), Err(SelectError::NoDevicesDetected)));
    let err = android::Error::from_selection(SelectError::NoDevicesDetected);
    assert_eq!(err.message(), "No connected Android devices detected.");
}

#[test]
fn listing_keeps_reported_order() {
    let out = "List of devices attached\nzz-last\tdevice\nemulator-5554\tdevice\nAB12\tunauthorized\n0042\tdevice";
    let listed = parse_adb_devices(&out.to_string());
    assert_eq!(listed, vec!["zz-last", "emulator-5554", "0042"]);
}

#[test]
fn listing_failure_is_not_empty_success() {
    match android::list_devices(Err(ToolError { detail: "daemon not running".to_string() })) {
        Err(e) => assert_eq!(e.message(), "Failed to list connected Android devices: daemon not running"),
        Ok(_) => panic!("a failed enumeration must be reported"),
    }
}

#[test]
fn heading_only_and_empty_output() {
    assert!(parse_adb_devices(&"".to_string()).is_empty());
    assert!(parse_adb_devices(&"List of devices attached".to_string()).is_empty());
    // the heading line is never a device, even when shaped like one
    assert!(parse_adb_devices(&"x\tdevice".to_string()).is_empty());
    assert!(parse_adb_devices(&"h\n\tdevice\n".to_string()).is_empty());
}

#[test]
fn single_device_is_selected_automatically() {
    assert!(matches!(select_device(&vec![device("a", "arm64")]), Ok(Choice::Device(0))));
    assert!(matches!(
        select_device(&vec![device("a", "arm64"), device("b", "x86_64")]),
        Ok(Choice::AskOperator)
    ));
}

#[test]
fn prompt_answers() {
    let devices = vec![device("a", "arm64"), device("b", "x86_64")];
    assert_eq!(answer_prompt(&devices, Ok(1)).ok(), Some(1));
    match answer_prompt(&devices, Ok(2)) {
        Err(SelectError::PromptFailed(m)) => assert_eq!(m, "the chosen device is not among those listed"),
        _ => panic!("expected a prompt failure"),
    }
    match answer_prompt(&devices, Err("stdin closed".to_string())) {
        Err(SelectError::PromptFailed(m)) => {
            assert_eq!(m, "stdin closed");
            let e = android::Error::from_selection(SelectError::PromptFailed(m));
            assert_eq!(e.message(), "Failed to prompt for device: stdin closed");
        }
        _ => panic!("expected a prompt failure"),
    }
}

#[test]
fn device_maps_to_target_by_arch() {
    let reg = Registry::android();
    assert_eq!(device_target(&reg, &device("pixel", "arm64-v8a")), Some(0));
    assert_eq!(device_target(&reg, &device("emu", "x86")), Some(2));
    assert_eq!(device_target(&reg, &device("odd", "mips")), None);
}
