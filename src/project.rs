use vstd::prelude::*;

use crate::text::join2;

verus! {

/// The project-level commands.
#[derive(Debug)]
pub enum Command {
    /// Creates a new project in the current working directory.
    Init {
        clobbering: bool,
        open_in_editor: bool,
        only: Option<Vec<String>>,
        skip: Option<Vec<String>>,
    },
    /// Opens the project in the default code editor.
    Open,
    /// Updates the tool itself.
    Update,
}

/// How a project-level command can fail; each carries its cause's report.
#[derive(Debug)]
pub enum Error {
    InitFailed(String),
    OpenFailed(String),
    UpdateFailed(String),
}

pub open spec fn report_spec(e: Error) -> Seq<char> {
    match e {
        Error::InitFailed(cause) => cause@,
        Error::OpenFailed(cause) => "Failed to open project in default code editor: "@ + cause@,
        Error::UpdateFailed(cause) => "Failed to update `cargo-mobile`: "@ + cause@,
    }
}

impl Error {
    /// The one-line report of this error, its cause included.
    pub fn report(&self) -> (r: String)
        ensures
            r@ == report_spec(*self),
    {
        match self {
            Error::InitFailed(cause) => cause.clone(),
            Error::OpenFailed(cause) => join2("Failed to open project in default code editor: ", cause),
            Error::UpdateFailed(cause) => join2("Failed to update `cargo-mobile`: ", cause),
        }
    }
}

} // verus!
