//! Well-known domain errors and the stable exit codes the CLI returns for
//! them, so shell scripts can react.

use vstd::prelude::*;

pub mod exit;

verus! {

/// Well-known domain errors.
#[derive(Debug, Clone)]
pub enum MoltError {
    /// No project could be resolved from the given location or name.
    ProjectNotFound(String),
    /// The requested environment does not exist in the project.
    EnvNotFound(String),
    /// No usable Python interpreter is available on the system.
    NoPython,
    /// The selected backend is not installed / not on PATH.
    BackendUnavailable(String),
    /// Configuration could not be parsed or was invalid.
    Config(String),
}

/// The exit code of each kind of domain error.
pub open spec fn spec_exit_code(e: MoltError) -> i32 {
    match e {
        MoltError::ProjectNotFound(_) | MoltError::EnvNotFound(_) => exit::NOT_FOUND,
        MoltError::NoPython | MoltError::BackendUnavailable(_) => exit::BACKEND,
        MoltError::Config(_) => exit::USAGE,
    }
}

impl MoltError {
    /// Map a domain error to a stable process exit code.
    pub fn exit_code(&self) -> (r: i32)
        ensures
            r == spec_exit_code(*self),
    {
        match self {
            MoltError::ProjectNotFound(_) | MoltError::EnvNotFound(_) => exit::NOT_FOUND,
            MoltError::NoPython | MoltError::BackendUnavailable(_) => exit::BACKEND,
            MoltError::Config(_) => exit::USAGE,
        }
    }

    /// The message shown for the error.
    pub fn message(&self) -> (r: String)
        ensures
            r@ == spec_message(*self),
    {
        let (head, subject, tail): (&str, &str, &str) = match self {
            MoltError::ProjectNotFound(p) => ("no Molt project found for '", p.as_str(), "'"),
            MoltError::EnvNotFound(e) => ("environment '", e.as_str(), "' was not found"),
            MoltError::NoPython => ("no Python interpreter could be found on this system", "", ""),
            MoltError::BackendUnavailable(b) => ("backend '", b.as_str(), "' is not available on this system"),
            MoltError::Config(c) => ("configuration error: ", c.as_str(), ""),
        };
        let mut r = crate::text::owned(head);
        r.append(subject);
        r.append(tail);
        proof {
            reveal_strlit("");
        }
        r
    }
}

/// The message of each kind of domain error.
pub open spec fn spec_message(e: MoltError) -> Seq<char> {
    match e {
        MoltError::ProjectNotFound(p) => "no Molt project found for '"@ + p@ + "'"@,
        MoltError::EnvNotFound(n) => "environment '"@ + n@ + "' was not found"@,
        MoltError::NoPython => "no Python interpreter could be found on this system"@,
        MoltError::BackendUnavailable(b) => "backend '"@ + b@ + "' is not available on this system"@,
        MoltError::Config(c) => "configuration error: "@ + c@,
    }
}

} // verus!
