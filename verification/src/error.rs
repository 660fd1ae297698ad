//! Error model of the supervisor. Every failure is a reported value, never a
//! panic; the embedding application renders these into user-facing strings.

use vstd::prelude::*;
use vstd::string::*;

use crate::text::{spec_udec, u16_dec};

verus! {

/// A configuration problem detected before any process is spawned.
#[derive(Clone, Debug, PartialEq)]
pub enum ConfigIssue {
    /// The descriptor's backend is not enabled.
    BackendDisabled,
    /// The backend language (carried here already lowercased) is not in the
    /// launch table.
    UnsupportedLanguage(String),
    /// The module's root directory (carried here as the module id) does not
    /// exist.
    MissingModuleDir(String),
}

/// A failure of a supervisor operation.
#[derive(Clone, Debug, PartialEq)]
pub enum ModuleError {
    /// The descriptor cannot be launched as configured.
    Configuration(ConfigIssue),
    /// The operating system failed to spawn the process; carries the OS
    /// error text.
    Launch(String),
    /// The health endpoint never answered with success within the retry
    /// budget.
    HealthTimeout { port: u16, path: String, attempts: u8 },
    /// The registry lock could not be acquired.
    Lock,
    /// A stop was requested for a module id with no tracked live process.
    NotFound(String),
    /// The operating system refused to kill a tracked process; carries the
    /// module id and the OS error text. The registry entry is already gone.
    Termination { id: String, detail: String },
    /// The non-blocking liveness check of a tracked process failed; carries
    /// the OS error text.
    StatusCheck(String),
}

/// The user-facing message of an error.
pub open spec fn spec_message(e: ModuleError) -> Seq<char> {
    match e {
        ModuleError::Configuration(issue) => match issue {
            ConfigIssue::BackendDisabled => "module backend is not enabled"@,
            ConfigIssue::UnsupportedLanguage(l) => "unsupported backend language: "@ + l@,
            ConfigIssue::MissingModuleDir(id) => "module directory does not exist: "@ + id@,
        },
        ModuleError::Launch(detail) => "failed to spawn process: "@ + detail@,
        ModuleError::HealthTimeout { port, path, attempts } => "health endpoint still unreachable after "@
            + spec_udec(attempts as nat) + " attempts: http://127.0.0.1:"@ + spec_udec(port as nat)
            + path@,
        ModuleError::Lock => "registry lock could not be acquired"@,
        ModuleError::NotFound(id) => "no running module found: "@ + id@,
        ModuleError::Termination { id, detail } => "failed to stop module "@ + id@ + ": "@
            + detail@,
        ModuleError::StatusCheck(detail) => "failed to check process status: "@ + detail@,
    }
}

impl ModuleError {
    /// Renders the error as [`spec_message`] describes.
    pub fn message(&self) -> (s: String)
        ensures
            s@ == spec_message(*self),
    {
        match self {
            ModuleError::Configuration(issue) => match issue {
                ConfigIssue::BackendDisabled => "module backend is not enabled".to_owned(),
                ConfigIssue::UnsupportedLanguage(l) => {
                    let mut out = "unsupported backend language: ".to_owned();
                    out.append(l.as_str());
                    out
                },
                ConfigIssue::MissingModuleDir(id) => {
                    let mut out = "module directory does not exist: ".to_owned();
                    out.append(id.as_str());
                    out
                },
            },
            ModuleError::Launch(detail) => {
                let mut out = "failed to spawn process: ".to_owned();
                out.append(detail.as_str());
                out
            },
            ModuleError::HealthTimeout { port, path, attempts } => {
                let mut out = "health endpoint still unreachable after ".to_owned();
                let attempts_dec = u16_dec(*attempts as u16);
                out.append(attempts_dec.as_str());
                out.append(" attempts: http://127.0.0.1:");
                let port_dec = u16_dec(*port);
                out.append(port_dec.as_str());
                out.append(path.as_str());
                proof {
                    assert(out@ =~= spec_message(*self));
                }
                out
            },
            ModuleError::Lock => "registry lock could not be acquired".to_owned(),
            ModuleError::NotFound(id) => {
                let mut out = "no running module found: ".to_owned();
                out.append(id.as_str());
                out
            },
            ModuleError::Termination { id, detail } => {
                let mut out = "failed to stop module ".to_owned();
                out.append(id.as_str());
                out.append(": ");
                out.append(detail.as_str());
                proof {
                    assert(out@ =~= spec_message(*self));
                }
                out
            },
            ModuleError::StatusCheck(detail) => {
                let mut out = "failed to check process status: ".to_owned();
                out.append(detail.as_str());
                out
            },
        }
    }
}

} // verus!
