//! Recursive directory removal exposed as a host-callable command.
//!
//! The deletion itself is the operating system's work: an unverified shell
//! performs it and reports what happened. This crate owns the command's own
//! logic around that report: the structured failure record, with a kind a
//! caller can branch on and the operating system's textual description, and
//! the reply handed back across the command boundary, where success is an
//! empty signal and every failure is a single human-readable message.
//!
//! The command keeps no state between invocations: each reply is a function
//! of the reported outcome alone.

use vstd::prelude::*;

verus! {

/// Why the operating system refused the removal, as far as a caller may
/// want to branch on it; every other cause falls under `Other`.
#[derive(Clone, Copy, Debug, PartialEq, Eq, Structural)]
pub enum FailureKind {
    /// The path names nothing.
    NotFound,
    /// The path exists, but the caller lacks permission.
    PermissionDenied,
    /// Any other operating-system failure: a locked or in-use entry, a
    /// read-only medium, a link cycle, a path that is no directory.
    Other,
}

/// A structured removal failure: the kind, and the operating system's own
/// textual description, which is what the command boundary reports.
pub struct RemovalError {
    pub kind: FailureKind,
    pub message: String,
}

/// What one removal attempt came to: the target and everything under it is
/// gone, or the attempt failed and the failure says why.
pub enum RemovalOutcome {
    Removed,
    Failed { error: RemovalError },
}

impl RemovalError {
    /// Record a failure as the shell reports it: the kind it could tell
    /// apart, and the description exactly as the operating system gave it.
    pub fn new(kind: FailureKind, message: String) -> (e: RemovalError)
        ensures
            e.kind == kind,
            e.message@ == message@,
    {
        RemovalError { kind, message }
    }

    /// The text a caller sees: the operating system's description, unchanged.
    pub fn describe(&self) -> (s: String)
        ensures
            s@ == self.message@,
    {
        self.message.clone()
    }
}

/// The reply owed for an outcome: an empty success signal when the target
/// was removed, and otherwise the failure's description, word for word.
pub open spec fn reply_spec(outcome: RemovalOutcome) -> Result<(), Seq<char>> {
    match outcome {
        RemovalOutcome::Removed => Ok(()),
        RemovalOutcome::Failed { error } => Err(error.message@),
    }
}

/// Turn the outcome of one removal attempt into the command's reply: the
/// boundary collapses every failure into its description alone.
pub fn command_reply(outcome: RemovalOutcome) -> (r: Result<(), String>)
    ensures
        r is Ok <==> reply_spec(outcome) is Ok,
        r is Err ==> r->Err_0@ == reply_spec(outcome)->Err_0,
{
    match outcome {
        RemovalOutcome::Removed => Ok(()),
        RemovalOutcome::Failed { error } => Err(error.describe()),
    }
}

/// A failed attempt is answered with the operating system's words: the
/// reply for a failure carries exactly the recorded description, and so is
/// non-empty whenever that description is.
pub proof fn lemma_failure_reply_carries_description(error: RemovalError)
    ensures
        reply_spec((RemovalOutcome::Failed { error })) matches Err(m) && m == error.message@,
        error.message@.len() > 0 ==> reply_spec((RemovalOutcome::Failed { error }))->Err_0.len() > 0,
{
}

} // verus!
