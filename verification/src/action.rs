//! The operations the tool offers, the discrete steps they are made of, and
//! how a step's success or failure is turned into the tool's result.

use crate::text::str_eq;
use vstd::prelude::*;

verus! {

/// One of the tool's operations, selected by the command-line token.
/// Any unrecognized (or absent) token selects the composite `Update`.
#[derive(Clone, Copy, PartialEq, Eq, Structural, Debug)]
pub enum Operation {
    Clean,
    GenerateHash,
    ForceUpdate,
    Copy,
    Update,
}

/// One step of an operation: either an external command or the write of the
/// hash marker file.
#[derive(Clone, Copy, PartialEq, Eq, Structural, Debug)]
pub enum Action {
    /// Recursively and forcibly delete the working clone, the fixture
    /// directory and the hash marker file.
    RemoveArtifacts,
    /// Clone the upstream repository into the working-clone path.
    CloneRepo,
    /// Fetch all remote tags and branches into the working clone, pruning
    /// stale references.
    FetchAll,
    /// Create and check out a local branch at the pinned version tag.
    CheckoutTag,
    /// Query the working clone for the full hash of the checked-out revision,
    /// capturing its standard output.
    QueryHead,
    /// Write the trimmed captured hash to the hash marker file.
    WriteHashFile,
    /// Recursively copy the conformance subdirectory of the working clone to
    /// the fixture destination.
    CopyFixtures,
}

/// The error a failing step aborts the run with.
#[derive(Clone, Copy, PartialEq, Eq, Structural, Debug)]
pub enum SyncError {
    CleanupFailed,
    CloneFailed,
    FetchFailed,
    CheckoutFailed,
    WriteFailed,
    CopyFailed,
}

/// The static message each error surfaces with.
pub open spec fn message_spec(e: SyncError) -> Seq<char> {
    match e {
        SyncError::CleanupFailed => "failed to delete temp directory"@,
        SyncError::CloneFailed => "failed to clone TypeScript repository"@,
        SyncError::FetchFailed => "failed to fetch everything from TypeScript repository"@,
        SyncError::CheckoutFailed => "failed to checkout repository"@,
        SyncError::WriteFailed => "failed to write the current hash file"@,
        SyncError::CopyFailed => "failed to copy conformance test files"@,
    }
}

impl SyncError {
    /// The human-readable failure line that accompanies the error.
    pub fn message(&self) -> (r: &'static str)
        ensures
            r@ == message_spec(*self),
    {
        match self {
            SyncError::CleanupFailed => "failed to delete temp directory",
            SyncError::CloneFailed => "failed to clone TypeScript repository",
            SyncError::FetchFailed => "failed to fetch everything from TypeScript repository",
            SyncError::CheckoutFailed => "failed to checkout repository",
            SyncError::WriteFailed => "failed to write the current hash file",
            SyncError::CopyFailed => "failed to copy conformance test files",
        }
    }
}

/// The error reported when a step fails, or `None` for the one step whose
/// exit status is deliberately not inspected: the revision query's failure is
/// swallowed, so a broken working clone silently yields a marker file holding
/// whatever (possibly empty) output was captured.
pub open spec fn checked_error(a: Action) -> Option<SyncError> {
    match a {
        Action::RemoveArtifacts => Some(SyncError::CleanupFailed),
        Action::CloneRepo => Some(SyncError::CloneFailed),
        Action::FetchAll => Some(SyncError::FetchFailed),
        Action::CheckoutTag => Some(SyncError::CheckoutFailed),
        Action::QueryHead => None,
        Action::WriteHashFile => Some(SyncError::WriteFailed),
        Action::CopyFixtures => Some(SyncError::CopyFailed),
    }
}

/// What a step contributes to the run: `None` to continue with the rest of
/// the plan, `Some(e)` to abort it with `e`.
pub open spec fn step_result(a: Action, success: bool) -> Option<SyncError> {
    if success {
        None
    } else {
        checked_error(a)
    }
}

/// Maps a step's reported success to the run's verdict on it: a failure
/// aborts with the step's error, except for the revision query, whose status
/// is discarded.
pub fn outcome_of_step(a: Action, success: bool) -> (r: Option<SyncError>)
    ensures
        r == step_result(a, success),
{
    if success {
        None
    } else {
        match a {
            Action::RemoveArtifacts => Some(SyncError::CleanupFailed),
            Action::CloneRepo => Some(SyncError::CloneFailed),
            Action::FetchAll => Some(SyncError::FetchFailed),
            Action::CheckoutTag => Some(SyncError::CheckoutFailed),
            Action::QueryHead => None,
            Action::WriteHashFile => Some(SyncError::WriteFailed),
            Action::CopyFixtures => Some(SyncError::CopyFailed),
        }
    }
}

/// The operation a command-line token selects; anything but the four named
/// tokens falls through to the composite update.
pub open spec fn op_of_token(tok: Seq<char>) -> Operation {
    if tok == "clean"@ {
        Operation::Clean
    } else if tok == "generate-hash"@ {
        Operation::GenerateHash
    } else if tok == "force-update"@ {
        Operation::ForceUpdate
    } else if tok == "copy"@ {
        Operation::Copy
    } else {
        Operation::Update
    }
}

/// Dispatches a command-line token (case-sensitive) to the operation it
/// selects.
pub fn parse_operation(tok: &str) -> (op: Operation)
    ensures
        op == op_of_token(tok@),
{
    if str_eq(tok, "clean") {
        Operation::Clean
    } else if str_eq(tok, "generate-hash") {
        Operation::GenerateHash
    } else if str_eq(tok, "force-update") {
        Operation::ForceUpdate
    } else if str_eq(tok, "copy") {
        Operation::Copy
    } else {
        Operation::Update
    }
}

} // verus!
