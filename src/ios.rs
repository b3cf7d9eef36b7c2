use vstd::prelude::*;
use vstd::string::*;

use crate::command::{fresh, CliInput, LibSelector, LibTarget, Plan};
use crate::device::SelectError;
use crate::dispatch::{attribute, Dispatch, Operation, OperationFailed, TargetFailure, ToolError};
use crate::env::{Env, EnvError};
use crate::target::{selection_resolution, Registry, Selection, TargetInvalid};
use crate::text::{join2, join4, quote, quoted};

verus! {

/// Every way an iOS command can fail.
#[derive(Debug)]
pub enum Error {
    CommandInvalid(String),
    EnvInitFailed(EnvError),
    DeviceDetectionFailed(ToolError),
    DevicePromptFailed(String),
    NoDevicesDetected,
    TargetInvalid(TargetInvalid),
    CheckFailed(OperationFailed),
    BuildFailed(OperationFailed),
    RunFailed(OperationFailed),
    ListFailed(ToolError),
    ArchInvalid { arch: String },
    CompileLibFailed(OperationFailed),
}

pub open spec fn failed_text(verb: Seq<char>, f: OperationFailed) -> Seq<char> {
    verb + f.target@ + ": "@ + f.cause.detail@
}

/// The one-line report of an error, its cause included.
pub open spec fn message_spec(e: Error) -> Seq<char> {
    match e {
        Error::CommandInvalid(c) => "Invalid command: "@ + quoted(c@),
        Error::EnvInitFailed(err) => "Required toolchain component not found: "@ + err.missing@,
        Error::DeviceDetectionFailed(err) => "Failed to detect connected iOS devices: "@ + err.detail@,
        Error::DevicePromptFailed(msg) => "Failed to prompt for device: "@ + msg@,
        Error::NoDevicesDetected => "No connected iOS devices detected."@,
        Error::TargetInvalid(t) => "Specified target was invalid: "@ + t.name@,
        Error::CheckFailed(f) => failed_text("Failed to check target "@, f),
        Error::BuildFailed(f) => failed_text("Failed to build target "@, f),
        Error::RunFailed(f) => failed_text("Failed to run target "@, f),
        Error::ListFailed(err) => "Failed to list connected iOS devices: "@ + err.detail@,
        Error::ArchInvalid { arch } => "Specified arch was invalid: "@ + arch@,
        Error::CompileLibFailed(f) => failed_text("Failed to compile library for target "@, f),
    }
}

/// The error for a failed operation, labelled with its target.
pub open spec fn operation_error(op: Operation, f: OperationFailed) -> Error {
    match op {
        Operation::Check => Error::CheckFailed(f),
        Operation::Build => Error::BuildFailed(f),
        Operation::Run => Error::RunFailed(f),
        Operation::CompileLib => Error::CompileLibFailed(f),
    }
}

fn failed_message(verb: &str, f: &OperationFailed) -> (r: String)
    ensures
        r@ == failed_text(verb@, *f),
{
    join4(verb, &f.target, ": ", &f.cause.detail)
}

impl Error {
    /// The one-line report of this error.
    pub fn message(&self) -> (r: String)
        ensures
            r@ == message_spec(*self),
    {
        match self {
            Error::CommandInvalid(c) => join2("Invalid command: ", &quote(c)),
            Error::EnvInitFailed(err) => join2("Required toolchain component not found: ", &err.missing),
            Error::DeviceDetectionFailed(err) => join2("Failed to detect connected iOS devices: ", &err.detail),
            Error::DevicePromptFailed(msg) => join2("Failed to prompt for device: ", msg),
            Error::NoDevicesDetected => String::from_str("No connected iOS devices detected."),
            Error::TargetInvalid(t) => join2("Specified target was invalid: ", &t.name),
            Error::CheckFailed(f) => failed_message("Failed to check target ", f),
            Error::BuildFailed(f) => failed_message("Failed to build target ", f),
            Error::RunFailed(f) => failed_message("Failed to run target ", f),
            Error::ListFailed(err) => join2("Failed to list connected iOS devices: ", &err.detail),
            Error::ArchInvalid { arch } => join2("Specified arch was invalid: ", arch),
            Error::CompileLibFailed(f) => failed_message("Failed to compile library for target ", f),
        }
    }

    /// The error for a device that could not be chosen.
    pub fn from_selection(e: SelectError) -> (r: Error)
        ensures
            match e {
                SelectError::NoDevicesDetected => r matches Error::NoDevicesDetected,
                SelectError::PromptFailed(m) => r == Error::DevicePromptFailed(m),
            },
    {
        match e {
            SelectError::NoDevicesDetected => Error::NoDevicesDetected,
            SelectError::PromptFailed(m) => Error::DevicePromptFailed(m),
        }
    }

    /// The error for an operation that failed on a dispatched target.
    pub fn from_failure(reg: &Registry, op: Operation, f: TargetFailure) -> (r: Error)
        requires
            f.target < reg@.len(),
        ensures
            exists|a: OperationFailed| a.target@ == reg@[f.target as int].id@ && a.cause == f.cause
                && r == operation_error(op, a),
    {
        let a = attribute(reg, f);
        let ghost witness = a;
        let r = match op {
            Operation::Check => Error::CheckFailed(a),
            Operation::Build => Error::BuildFailed(a),
            Operation::Run => Error::RunFailed(a),
            Operation::CompileLib => Error::CompileLibFailed(a),
        };
        assert(r == operation_error(op, witness));
        r
    }
}

/// Plans a dispatch over the selected targets, or names the first unknown one.
fn plan_targets(reg: &Registry, sel: &Selection) -> (r: Result<Dispatch, Error>)
    requires
        reg.wf(),
    ensures
        match selection_resolution(reg@, *sel) {
            Ok(v) => r matches Ok(d) && fresh(d@, v),
            Err(name) => r matches Err(Error::TargetInvalid(t)) && t.name@ == name,
        },
{
    match reg.resolve_selection(sel) {
        Ok(order) => Ok(Dispatch::new(order)),
        Err(t) => Err(Error::TargetInvalid(t)),
    }
}

/// Decides what an iOS command does. Nothing is planned unless the
/// environment was validated; targets are resolved before any operation runs.
pub fn exec(reg: &Registry, env: &Result<Env, EnvError>, input: &CliInput) -> (r: Result<Plan, Error>)
    requires
        reg.wf(),
    ensures
        match env {
            Err(e) => r matches Err(Error::EnvInitFailed(err)) && err.missing@ == e.missing@,
            Ok(_) => if input.command@ == "check"@ {
                match selection_resolution(reg@, input.targets) {
                    Ok(v) => r matches Ok(Plan::Check(d)) && fresh(d@, v),
                    Err(name) => r matches Err(Error::TargetInvalid(t)) && t.name@ == name,
                }
            } else if input.command@ == "build"@ {
                match selection_resolution(reg@, input.targets) {
                    Ok(v) => r matches Ok(Plan::Build(d, p)) && fresh(d@, v) && p == input.profile,
                    Err(name) => r matches Err(Error::TargetInvalid(t)) && t.name@ == name,
                }
            } else if input.command@ == "run"@ {
                if input.targets matches Selection::Named(names) && names@.len() == 0 {
                    r matches Ok(Plan::RunOnDevice(p)) && p == input.profile
                } else {
                    match selection_resolution(reg@, input.targets) {
                        Ok(v) => r matches Ok(Plan::Run(d, p)) && fresh(d@, v) && p == input.profile,
                        Err(name) => r matches Err(Error::TargetInvalid(t)) && t.name@ == name,
                    }
                }
            } else if input.command@ == "list"@ {
                r matches Ok(Plan::List)
            } else if input.command@ == "compile-lib"@ {
                match input.lib {
                    Some(LibSelector::MacOs) => r matches Ok(Plan::CompileLib(LibTarget::MacOs, p)) && p == input.profile,
                    Some(LibSelector::Arch(a)) => if exists|k: int| 0 <= k < reg@.len() && reg@[k].arch@ == a@ {
                        r matches Ok(Plan::CompileLib(LibTarget::Registered(i), p)) && p == input.profile
                            && i < reg@.len() && reg@[i as int].arch@ == a@
                            && forall|k: int| 0 <= k < i ==> reg@[k].arch@ != a@
                    } else {
                        r matches Err(Error::ArchInvalid { arch }) && arch@ == a@
                    },
                    None => r matches Err(Error::ArchInvalid { arch }) && arch@ == Seq::<char>::empty(),
                }
            } else {
                r matches Err(Error::CommandInvalid(c)) && c@ == input.command@
            },
        },
{
    match env {
        Err(e) => {
            return Err(Error::EnvInitFailed(EnvError { missing: e.missing.clone() }));
        },
        Ok(_) => {},
    }
    let command = &input.command;
    if *command == String::from_str("check") {
        let d = plan_targets(reg, &input.targets)?;
        Ok(Plan::Check(d))
    } else if *command == String::from_str("build") {
        let d = plan_targets(reg, &input.targets)?;
        Ok(Plan::Build(d, input.profile))
    } else if *command == String::from_str("run") {
        let on_device = match &input.targets {
            Selection::Named(names) => names.len() == 0,
            Selection::All => false,
        };
        if on_device {
            Ok(Plan::RunOnDevice(input.profile))
        } else {
            let d = plan_targets(reg, &input.targets)?;
            Ok(Plan::Run(d, input.profile))
        }
    } else if *command == String::from_str("list") {
        Ok(Plan::List)
    } else if *command == String::from_str("compile-lib") {
        match &input.lib {
            Some(LibSelector::MacOs) => Ok(Plan::CompileLib(LibTarget::MacOs, input.profile)),
            Some(LibSelector::Arch(a)) => match reg.for_arch(a) {
                Some(i) => Ok(Plan::CompileLib(LibTarget::Registered(i), input.profile)),
                None => Err(Error::ArchInvalid { arch: a.clone() }),
            },
            None => Err(Error::ArchInvalid { arch: String::new() }),
        }
    } else {
        Err(Error::CommandInvalid(command.clone()))
    }
}

} // verus!
