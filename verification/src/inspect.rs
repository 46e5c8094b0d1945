use vstd::prelude::*;

use crate::fault::Fault;
use crate::status::ContainerStatus;
use crate::status::status_from_label;
use crate::status::status_of_label;

verus! {

/// What the runtime reports about one listed container: an id and a status
/// label, either of which a misbehaving runtime may leave out.
///
/// This is the plain-value form of a container summary; the driver that
/// performs the actual listing call extracts these two fields and hands them
/// over unchanged.
#[derive(Clone, Debug, PartialEq, Eq)]
pub struct Summary {
    pub id: Option<String>,
    pub status_label: Option<String>,
}

/// A snapshot of the target container's state at the instant it was fetched:
/// its runtime-assigned id, if any container exists, and its status.
///
/// A snapshot is taken fresh on every reconciliation call and discarded as
/// soon as the decision is made; it is never cached across calls.
#[derive(Clone, Debug, PartialEq, Eq)]
pub struct Observed {
    pub id: Option<String>,
    pub status: ContainerStatus,
}

impl Observed {
    /// A snapshot carries an id exactly when a container was found.
    pub open spec fn wf(self) -> bool {
        (self.status is Absent) <==> (self.id is None)
    }

    /// The snapshot for "no container with the target name exists".
    pub fn absent() -> (r: Observed)
        ensures
            r == (Observed { id: None, status: ContainerStatus::Absent }),
    {
        Observed { id: None, status: ContainerStatus::Absent }
    }

    /// The snapshot for a container found with the given id and status.
    pub fn present(id: String, status: ContainerStatus) -> (r: Observed)
        requires
            !(status is Absent),
        ensures
            r == (Observed { id: Some(id), status }),
    {
        Observed { id: Some(id), status }
    }
}

/// The snapshot that a listing result describes: `Absent` when the listing
/// matched nothing, the summary's id and status when it is complete, and a
/// fault when the summary lacks its id or its status or carries a status
/// label outside the runtime's vocabulary.
pub open spec fn observe_spec(found: Option<Summary>) -> Result<Observed, Fault> {
    match found {
        None => Ok(Observed { id: None, status: ContainerStatus::Absent }),
        Some(summary) => match summary.id {
            None => Err(Fault::MissingId),
            Some(id) => match summary.status_label {
                None => Err(Fault::MissingStatus),
                Some(label) => match status_of_label(label@) {
                    None => Err(Fault::UnknownStatus),
                    Some(status) => Ok(Observed { id: Some(id), status }),
                },
            },
        },
    }
}

/// Turns the result of a listing call into a snapshot of the target
/// container, escalating an incomplete or unrecognizable summary to a fault.
pub fn observe(found: Option<Summary>) -> (r: Result<Observed, Fault>)
    ensures
        r == observe_spec(found),
        r matches Ok(o) ==> o.wf(),
{
    match found {
        None => Ok(Observed::absent()),
        Some(summary) => match summary.id {
            None => Err(Fault::MissingId),
            Some(id) => match summary.status_label {
                None => Err(Fault::MissingStatus),
                Some(label) => match status_from_label(label.as_str()) {
                    None => Err(Fault::UnknownStatus),
                    Some(status) => Ok(Observed::present(id, status)),
                },
            },
        },
    }
}

} // verus!
