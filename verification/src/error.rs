//! Error taxonomy shared by the whole crate.

use vstd::prelude::*;

verus! {

/// Every failure the core can report. Collaborator failures carry the
/// collaborator's message; the caller turns them into a user-visible line and
/// keeps running.
#[derive(Debug)]
pub enum PmanError {
    /// A required external tool is not installed; fatal at startup.
    MissingPrerequisite(String),
    /// The session manager refused or failed a call.
    SessionManagerError(String),
    /// The version-control tool refused or failed a call.
    VersionControlError(String),
    /// No repository was found upward from the probed path.
    NotARepository,
    /// A worktree holds uncommitted changes, so it may not be removed.
    UncommittedChanges,
    /// The editor bridge refused or failed a call.
    BridgeError(String),
    /// An input/output failure outside any collaborator.
    IOError(String),
    /// The terminal could not be set up or restored.
    TerminalError(String),
    /// The user abandoned an operation.
    Cancelled,
}

impl PmanError {
    /// The user-visible line for this error.
    pub fn message(&self) -> (r: String)
        ensures
            r@ == self.message_spec(),
    {
        match self {
            PmanError::MissingPrerequisite(tool) => {
                String::from_str("Missing prerequisite: ").concat(tool.as_str())
            },
            PmanError::SessionManagerError(msg) => {
                String::from_str("Session manager error: ").concat(msg.as_str())
            },
            PmanError::VersionControlError(msg) => {
                String::from_str("Version control error: ").concat(msg.as_str())
            },
            PmanError::NotARepository => String::from_str("Not in a repository"),
            PmanError::UncommittedChanges => {
                String::from_str("Worktree has uncommitted changes")
            },
            PmanError::BridgeError(msg) => {
                String::from_str("Editor bridge error: ").concat(msg.as_str())
            },
            PmanError::IOError(msg) => String::from_str("IO error: ").concat(msg.as_str()),
            PmanError::TerminalError(msg) => {
                String::from_str("Terminal error: ").concat(msg.as_str())
            },
            PmanError::Cancelled => String::from_str("Operation cancelled"),
        }
    }

    /// What `message` returns, spelled over character sequences.
    pub open spec fn message_spec(&self) -> Seq<char> {
        match self {
            PmanError::MissingPrerequisite(tool) => "Missing prerequisite: "@ + tool@,
            PmanError::SessionManagerError(msg) => "Session manager error: "@ + msg@,
            PmanError::VersionControlError(msg) => "Version control error: "@ + msg@,
            PmanError::NotARepository => "Not in a repository"@,
            PmanError::UncommittedChanges => "Worktree has uncommitted changes"@,
            PmanError::BridgeError(msg) => "Editor bridge error: "@ + msg@,
            PmanError::IOError(msg) => "IO error: "@ + msg@,
            PmanError::TerminalError(msg) => "Terminal error: "@ + msg@,
            PmanError::Cancelled => "Operation cancelled"@,
        }
    }
}

} // verus!
