use vstd::prelude::*;
use vstd::string::*;

use crate::command::{fresh, CliInput, Plan};
use crate::device::{adb_serials, parse_adb_devices, SelectError};
use crate::dispatch::{attribute, Dispatch, Operation, OperationFailed, TargetFailure, ToolError};
use crate::env::{Env, EnvError};
use crate::target::{selection_resolution, views, Registry, Selection, TargetInvalid};
use crate::text::{join2, join4, quote, quoted};

verus! {

/// Every way an Android command can fail.
#[derive(Debug)]
pub enum Error {
    CommandInvalid(String),
    EnvInitFailed(EnvError),
    DeviceDetectionFailed(ToolError),
    DevicePromptFailed(String),
    NoDevicesDetected,
    TargetInvalid(TargetInvalid),
    CheckFailed(OperationFailed),
    BuildFailed(OperationFailed),
    RunFailed(OperationFailed),
    StacktraceFailed(ToolError),
    ListFailed(ToolError),
}

pub open spec fn failed_text(verb: Seq<char>, f: OperationFailed) -> Seq<char> {
    verb + f.target@ + ": "@ + f.cause.detail@
}

/// The one-line report of an error, its cause included.
pub open spec fn message_spec(e: Error) -> Seq<char> {
    match e {
        Error::CommandInvalid(c) => "Invalid command: "@ + quoted(c@),
        Error::EnvInitFailed(err) => "Required toolchain component not found: "@ + err.missing@,
        Error::DeviceDetectionFailed(err) => "Failed to detect connected Android devices: "@ + err.detail@,
        Error::DevicePromptFailed(msg) => "Failed to prompt for device: "@ + msg@,
        Error::NoDevicesDetected => "No connected Android devices detected."@,
        Error::TargetInvalid(t) => "Specified target was invalid: "@ + t.name@,
        Error::CheckFailed(f) => failed_text("Failed to check target "@, f),
        Error::BuildFailed(f) => failed_text("Failed to build target "@, f),
        Error::RunFailed(f) => failed_text("Failed to run target "@, f),
        Error::StacktraceFailed(err) => "Failed to get stacktrace: "@ + err.detail@,
        Error::ListFailed(err) => "Failed to list connected Android devices: "@ + err.detail@,
    }
}

/// The error for a failed operation, labelled with its target. Android has
/// no `compile-lib`; callers never pass it.
pub open spec fn operation_error(op: Operation, f: OperationFailed) -> Error {
    match op {
        Operation::Check => Error::CheckFailed(f),
        Operation::Build => Error::BuildFailed(f),
        Operation::Run | Operation::CompileLib => Error::RunFailed(f),
    }
}

fn failed_message(verb: &str, f: &OperationFailed) -> (r: String)
    ensures
        r@ == failed_text(verb@, *f),
{
    join4(verb, &f.target, ": ", &f.cause.detail)
}

impl Error {
    /// The one-line report of this error.
    pub fn message(&self) -> (r: String)
        ensures
            r@ == message_spec(*self),
    {
        match self {
            Error::CommandInvalid(c) => join2("Invalid command: ", &quote(c)),
            Error::EnvInitFailed(err) => join2("Required toolchain component not found: ", &err.missing),
            Error::DeviceDetectionFailed(err) => join2("Failed to detect connected Android devices: ", &err.detail),
            Error::DevicePromptFailed(msg) => join2("Failed to prompt for device: ", msg),
            Error::NoDevicesDetected => String::from_str("No connected Android devices detected."),
            Error::TargetInvalid(t) => join2("Specified target was invalid: ", &t.name),
            Error::CheckFailed(f) => failed_message("Failed to check target ", f),
            Error::BuildFailed(f) => failed_message("Failed to build target ", f),
            Error::RunFailed(f) => failed_message("Failed to run target ", f),
            Error::StacktraceFailed(err) => join2("Failed to get stacktrace: ", &err.detail),
            Error::ListFailed(err) => join2("Failed to list connected Android devices: ", &err.detail),
        }
    }

    /// The error for a device that could not be chosen.
    pub fn from_selection(e: SelectError) -> (r: Error)
        ensures
            match e {
                SelectError::NoDevicesDetected => r matches Error::NoDevicesDetected,
                SelectError::PromptFailed(m) => r == Error::DevicePromptFailed(m),
            },
    {
        match e {
            SelectError::NoDevicesDetected => Error::NoDevicesDetected,
            SelectError::PromptFailed(m) => Error::DevicePromptFailed(m),
        }
    }

    /// The error for an operation that failed on a dispatched target.
    pub fn from_failure(reg: &Registry, op: Operation, f: TargetFailure) -> (r: Error)
        requires
            f.target < reg@.len(),
            op != Operation::CompileLib,
        ensures
            exists|a: OperationFailed| a.target@ == reg@[f.target as int].id@ && a.cause == f.cause
                && r == operation_error(op, a),
    {
        let a = attribute(reg, f);
        let ghost witness = a;
        let r = match op {
            Operation::Check => Error::CheckFailed(a),
            Operation::Build => Error::BuildFailed(a),
            Operation::Run | Operation::CompileLib => Error::RunFailed(a),
        };
        assert(r == operation_error(op, witness));
        r
    }
}

/// Plans a dispatch over the selected targets, or names the first unknown one.
fn plan_targets(reg: &Registry, sel: &Selection) -> (r: Result<Dispatch, Error>)
    requires
        reg.wf(),
    ensures
        match selection_resolution(reg@, *sel) {
            Ok(v) => r matches Ok(d) && fresh(d@, v),
            Err(name) => r matches Err(Error::TargetInvalid(t)) && t.name@ == name,
        },
{
    match reg.resolve_selection(sel) {
        Ok(order) => Ok(Dispatch::new(order)),
        Err(t) => Err(Error::TargetInvalid(t)),
    }
}

/// Decides what an Android command does. Nothing is planned unless the
/// environment was validated; targets are resolved before any operation runs.
pub fn exec(reg: &Registry, env: &Result<Env, EnvError>, input: &CliInput) -> (r: Result<Plan, Error>)
    requires
        reg.wf(),
    ensures
        match env {
            Err(e) => r matches Err(Error::EnvInitFailed(err)) && err.missing@ == e.missing@,
            Ok(_) => if input.command@ == "check"@ {
                match selection_resolution(reg@, input.targets) {
                    Ok(v) => r matches Ok(Plan::Check(d)) && fresh(d@, v),
                    Err(name) => r matches Err(Error::TargetInvalid(t)) && t.name@ == name,
                }
            } else if input.command@ == "build"@ {
                match selection_resolution(reg@, input.targets) {
                    Ok(v) => r matches Ok(Plan::Build(d, p)) && fresh(d@, v) && p == input.profile,
                    Err(name) => r matches Err(Error::TargetInvalid(t)) && t.name@ == name,
                }
            } else if input.command@ == "run"@ {
                if input.targets matches Selection::Named(names) && names@.len() == 0 {
                    r matches Ok(Plan::RunOnDevice(p)) && p == input.profile
                } else {
                    match selection_resolution(reg@, input.targets) {
                        Ok(v) => r matches Ok(Plan::Run(d, p)) && fresh(d@, v) && p == input.profile,
                        Err(name) => r matches Err(Error::TargetInvalid(t)) && t.name@ == name,
                    }
                }
            } else if input.command@ == "list"@ {
                r matches Ok(Plan::List)
            } else if input.command@ == "st"@ {
                r matches Ok(Plan::Stacktrace)
            } else {
                r matches Err(Error::CommandInvalid(c)) && c@ == input.command@
            },
        },
{
    match env {
        Err(e) => {
            return Err(Error::EnvInitFailed(EnvError { missing: e.missing.clone() }));
        },
        Ok(_) => {},
    }
    let command = &input.command;
    if *command == String::from_str("check") {
        let d = plan_targets(reg, &input.targets)?;
        Ok(Plan::Check(d))
    } else if *command == String::from_str("build") {
        let d = plan_targets(reg, &input.targets)?;
        Ok(Plan::Build(d, input.profile))
    } else if *command == String::from_str("run") {
        let on_device = match &input.targets {
            Selection::Named(names) => names.len() == 0,
            Selection::All => false,
        };
        if on_device {
            Ok(Plan::RunOnDevice(input.profile))
        } else {
            let d = plan_targets(reg, &input.targets)?;
            Ok(Plan::Run(d, input.profile))
        }
    } else if *command == String::from_str("list") {
        Ok(Plan::List)
    } else if *command == String::from_str("st") {
        Ok(Plan::Stacktrace)
    } else {
        Err(Error::CommandInvalid(command.clone()))
    }
}

/// The serial numbers of the connected devices, from the output of
/// `adb devices`; a failed enumeration is reported, while no devices is
/// an empty list.
pub fn list_devices(output: Result<String, ToolError>) -> (r: Result<Vec<String>, Error>)
    ensures
        match output {
            Err(e) => r == Err::<Vec<String>, Error>(Error::ListFailed(e)),
            Ok(text) => r matches Ok(v) && views(v@) == adb_serials(text@),
        },
{
    match output {
        Err(e) => Err(Error::ListFailed(e)),
        Ok(text) => Ok(parse_adb_devices(&text)),
    }
}

} // verus!
