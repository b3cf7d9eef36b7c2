use vstd::prelude::*;

use crate::dispatch::{Dispatch, DispatchView};
use crate::target::{usize_seq_view, Selection};

verus! {

/// Build configuration.
#[derive(Clone, Copy, Debug, PartialEq, Eq, Structural)]
pub enum Profile {
    Debug,
    Release,
}

/// How `compile-lib` names its single target: by architecture, or the macOS
/// pseudo-target. Being one value, the two selectors exclude each other.
#[derive(Debug)]
pub enum LibSelector {
    Arch(String),
    MacOs,
}

/// A parsed command line for one platform.
#[derive(Debug)]
pub struct CliInput {
    pub command: String,
    pub targets: Selection,
    pub profile: Profile,
    /// The `compile-lib` selector, when one was given.
    pub lib: Option<LibSelector>,
}

/// The library target `compile-lib` builds.
#[derive(Debug)]
pub enum LibTarget {
    MacOs,
    /// Position in the registry.
    Registered(usize),
}

/// The work a validated command leads to. Target operations only ever start
/// from a plan, and a plan only exists once the environment was validated.
#[derive(Debug)]
pub enum Plan {
    Check(Dispatch),
    Build(Dispatch, Profile),
    Run(Dispatch, Profile),
    /// `run` with no target named: pick a connected device and run on the
    /// target its architecture maps to.
    RunOnDevice(Profile),
    List,
    /// Symbolicate a crash from the connected device.
    Stacktrace,
    CompileLib(LibTarget, Profile),
}

/// A fresh dispatch over the targets at positions `order`.
pub open spec fn fresh(d: DispatchView, order: Seq<int>) -> bool {
    usize_seq_view(d.order) == order && d.done == 0 && d.failure is None
}

} // verus!
