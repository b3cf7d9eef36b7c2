use mobile_dispatch::dispatch::{OperationFailed, ToolError};
use mobile_dispatch::env::EnvError;
use mobile_dispatch::target::TargetInvalid;
use mobile_dispatch::{android, ios, project};

fn tool(detail: &str) -> ToolError {
    ToolError { detail: detail.to_string() }
}

fn failed(target: &str, detail: &str) -> OperationFailed {
    OperationFailed { target: target.to_string(), cause: tool(detail) }
}

#[test]
fn android_messages_keep_causes() {
    let cases = vec![
        (android::Error::CommandInvalid("frob".to_string()), "Invalid command: \"frob\""),
        (android::Error::EnvInitFailed(EnvError { missing: "NDK_HOME".to_string() }), "Required toolchain component not found: NDK_HOME"),
        (android::Error::DeviceDetectionFailed(tool("adb exited 1")), "Failed to detect connected Android devices: adb exited 1"),
        (android::Error::TargetInvalid(TargetInvalid { name: "mips".to_string() }), "Specified target was invalid: mips"),
        (android::Error::CheckFailed(failed("armv7", "linker missing")), "Failed to check target armv7: linker missing"),
        (android::Error::BuildFailed(failed("i686", "gradle failed")), "Failed to build target i686: gradle failed"),
        (android::Error::RunFailed(failed("aarch64", "install failed")), "Failed to run target aarch64: install failed"),
        (android::Error::StacktraceFailed(tool("no crash log")), "Failed to get stacktrace: no crash log"),
    ];
    for (e, expected) in cases {
        assert_eq!(e.message(), expected);
    }
}

#[test]
fn ios_messages_keep_causes() {
    let cases = vec![
        (ios::Error::DeviceDetectionFailed(tool("ios-deploy crashed")), "Failed to detect connected iOS devices: ios-deploy crashed"),
        (ios::Error::NoDevicesDetected, "No connected iOS devices detected."),
        (ios::Error::ListFailed(tool("bad json")), "Failed to list connected iOS devices: bad json"),
        (ios::Error::DevicePromptFailed("eof".to_string()), "Failed to prompt for device: eof"),
        (ios::Error::CompileLibFailed(failed("macos", "cargo failed")), "Failed to compile library for target macos: cargo failed"),
        (ios::Error::RunFailed(failed("aarch64", "no signing")), "Failed to run target aarch64: no signing"),
    ];
    for (e, expected) in cases {
        assert_eq!(e.message(), expected);
    }
}

#[test]
fn invalid_command_is_escaped() {
    let e = android::Error::CommandInvalid("say \"hi\"\n".to_string());
    assert_eq!(e.message(), format!("Invalid command: {:?}", "say \"hi\"\n"));
    let e = ios::Error::CommandInvalid("a\\b".to_string());
    assert_eq!(e.message(), "Invalid command: \"a\\\\b\"");
}

#[test]
fn decimal_and_quote_helpers() {
    for n in [0usize, 7, 10, 99, 100, 4294967295, usize::MAX] {
        assert_eq!(mobile_dispatch::text::decimal(n), n.to_string());
    }
    for s in ["", "plain", "q\"q", "tab\there", "nul\0"] {
        assert_eq!(mobile_dispatch::text::quote(&s.to_string()), format!("{:?}", s));
    }
}

#[test]
fn project_reports() {
    assert_eq!(project::Error::InitFailed("template missing".to_string()).report(), "template missing");
    assert_eq!(
        project::Error::OpenFailed("no editor".to_string()).report(),
        "Failed to open project in default code editor: no editor"
    );
    assert_eq!(
        project::Error::UpdateFailed("network down".to_string()).report(),
        "Failed to update `cargo-mobile`: network down"
    );
}
