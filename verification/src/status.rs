use vstd::prelude::*;
use vstd::string::StringExecFns;

verus! {

/// The lifecycle stage of the target container, as the runtime reports it.
///
/// The set of variants mirrors the runtime's own status vocabulary exactly,
/// extended with `Absent` for "no container with the target name exists" and
/// `Empty` for a summary whose status field the runtime left unpopulated.
/// It must not be extended or narrowed.
#[derive(Clone, Copy, Debug, PartialEq, Eq, Structural)]
pub enum ContainerStatus {
    /// No matching container was found.
    Absent,
    /// The runtime did not populate the status field.
    Empty,
    Created,
    Running,
    Restarting,
    Removing,
    Paused,
    Exited,
    Dead,
}

impl ContainerStatus {
    /// A container in one of these statuses may still be active: the runtime
    /// rejects removing it before it has been stopped.
    pub open spec fn spec_is_active(self) -> bool {
        self is Running || self is Restarting
    }

    /// Whether the container must be stopped before it can be removed.
    #[verifier::when_used_as_spec(spec_is_active)]
    pub fn is_active(self) -> (r: bool)
        ensures
            r == self.spec_is_active(),
    {
        match self {
            ContainerStatus::Running | ContainerStatus::Restarting => true,
            _ => false,
        }
    }

    /// The runtime already considers a container in one of these statuses
    /// non-active: it can be removed directly, with no stop first.
    pub open spec fn spec_is_settled(self) -> bool {
        self is Created || self is Paused || self is Exited || self is Dead
    }

    /// Whether the container can be removed directly, with no stop first.
    #[verifier::when_used_as_spec(spec_is_settled)]
    pub fn is_settled(self) -> (r: bool)
        ensures
            r == self.spec_is_settled(),
    {
        match self {
            ContainerStatus::Created
            | ContainerStatus::Paused
            | ContainerStatus::Exited
            | ContainerStatus::Dead => true,
            _ => false,
        }
    }
}

/// The status named by a status label from the runtime, or `None` for a
/// label outside the runtime's vocabulary. An unpopulated (empty) label maps
/// to `Empty`; `Absent` is never named by a label, since it stands for the
/// absence of any container to report on.
pub open spec fn status_of_label(s: Seq<char>) -> Option<ContainerStatus> {
    if s.len() == 0 {
        Some(ContainerStatus::Empty)
    } else if s == "created"@ {
        Some(ContainerStatus::Created)
    } else if s == "running"@ {
        Some(ContainerStatus::Running)
    } else if s == "restarting"@ {
        Some(ContainerStatus::Restarting)
    } else if s == "removing"@ {
        Some(ContainerStatus::Removing)
    } else if s == "paused"@ {
        Some(ContainerStatus::Paused)
    } else if s == "exited"@ {
        Some(ContainerStatus::Exited)
    } else if s == "dead"@ {
        Some(ContainerStatus::Dead)
    } else {
        None
    }
}

/// Whether two character sequences are equal, decided executably.
fn str_eq(a: &str, b: &str) -> (r: bool)
    ensures
        r == (a@ == b@),
{
    let sa: String = String::from_str(a);
    let sb: String = String::from_str(b);
    sa == sb
}

/// Parses a status label from the runtime into the status it names.
pub fn status_from_label(label: &str) -> (r: Option<ContainerStatus>)
    ensures
        r == status_of_label(label@),
{
    if label.unicode_len() == 0 {
        Some(ContainerStatus::Empty)
    } else if str_eq(label, "created") {
        Some(ContainerStatus::Created)
    } else if str_eq(label, "running") {
        Some(ContainerStatus::Running)
    } else if str_eq(label, "restarting") {
        Some(ContainerStatus::Restarting)
    } else if str_eq(label, "removing") {
        Some(ContainerStatus::Removing)
    } else if str_eq(label, "paused") {
        Some(ContainerStatus::Paused)
    } else if str_eq(label, "exited") {
        Some(ContainerStatus::Exited)
    } else if str_eq(label, "dead") {
        Some(ContainerStatus::Dead)
    } else {
        None
    }
}

} // verus!
