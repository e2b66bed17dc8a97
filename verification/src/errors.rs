//! The fatal error conditions of the badge generator.

use vstd::prelude::*;
use vstd::string::StringExecFns;

verus! {

/// Why a run cannot produce any badge line.
#[derive(Clone, Copy, Debug, PartialEq, Eq, Structural)]
pub enum BadgeError {
    /// No username could be resolved from any source.
    MissingUsername,
    /// The workflow directory is missing or unreadable.
    WorkflowDirectoryNotFound,
}

impl BadgeError {
    /// The human-readable message printed for this error.
    pub fn message(&self) -> (m: String)
        ensures
            *self is MissingUsername ==> m@ == "Not set GITHUB_USERNAME"@,
            *self is WorkflowDirectoryNotFound ==> m@ == "Not found .github/workflows"@,
    {
        match self {
            BadgeError::MissingUsername => String::from_str("Not set GITHUB_USERNAME"),
            BadgeError::WorkflowDirectoryNotFound => String::from_str(
                "Not found .github/workflows",
            ),
        }
    }
}

} // verus!
