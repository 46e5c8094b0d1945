use vstd::prelude::*;

verus! {

/// A fatal failure of a lifecycle operation.
///
/// Every runtime call that fails aborts the whole operation immediately; no
/// failure is retried or downgraded, and no rollback of earlier steps is
/// attempted. The three `Missing*`/`Unknown*` variants are defensive checks
/// against a runtime that returns a container summary lacking an id or a
/// status, or reporting a status outside the runtime's own vocabulary.
#[derive(Clone, Debug, PartialEq, Eq)]
pub enum Fault {
    /// Listing containers failed (transport or daemon error).
    ListFailed,
    /// The create call was rejected (for example: name in use, image not found).
    CreateFailed,
    /// The runtime rejected the start transition.
    StartFailed,
    /// The runtime rejected the stop transition.
    StopFailed,
    /// The runtime rejected the remove transition.
    RemoveFailed,
    /// A listed container summary carried no id.
    MissingId,
    /// A listed container summary carried no status.
    MissingStatus,
    /// A listed container summary carried a status label outside the
    /// runtime's status vocabulary.
    UnknownStatus,
}

impl Fault {
    /// The operator-facing description of this failure.
    pub fn message(&self) -> (r: &'static str)
        ensures
            r@ == self.spec_message(),
    {
        match self {
            Fault::ListFailed => "Failed to list containers",
            Fault::CreateFailed => "Failed to create container",
            Fault::StartFailed => "Failed to start container",
            Fault::StopFailed => "Failed to stop container",
            Fault::RemoveFailed => "Failed to remove container",
            Fault::MissingId => "Failed to get container id",
            Fault::MissingStatus => "Failed to get container state",
            Fault::UnknownStatus => "Unrecognized container state",
        }
    }

    /// The characters of the operator-facing description of this failure.
    pub open spec fn spec_message(self) -> Seq<char> {
        match self {
            Fault::ListFailed => "Failed to list containers"@,
            Fault::CreateFailed => "Failed to create container"@,
            Fault::StartFailed => "Failed to start container"@,
            Fault::StopFailed => "Failed to stop container"@,
            Fault::RemoveFailed => "Failed to remove container"@,
            Fault::MissingId => "Failed to get container id"@,
            Fault::MissingStatus => "Failed to get container state"@,
            Fault::UnknownStatus => "Unrecognized container state"@,
        }
    }
}

} // verus!
