use vstd::prelude::*;
use vstd::string::StringExecFns;

use crate::desired::DesiredSpec;
use crate::fault::Fault;
use crate::inspect::Summary;
use crate::inspect::observe;
use crate::inspect::observe_spec;
use crate::plan::Act;
use crate::plan::end_acts_spec;
use crate::plan::run_acts_spec;
use crate::status::ContainerStatus;
use crate::status::status_of_label;

verus! {

/// A runtime call that a session asks its driver to perform next.
///
/// The session itself performs no I/O: an unverified driver makes the call
/// against the container runtime and reports the outcome back as an
/// [`Event`]. Calls must be performed strictly one at a time, in the order
/// the session hands them out, since each depends on the side effect of the
/// previous one.
#[derive(Clone, Debug, PartialEq, Eq)]
pub enum RuntimeCall {
    /// List containers whose name matches the target exactly, including
    /// non-running ones, requesting at most one result.
    List,
    /// Stop the container with this id.
    Stop { id: String },
    /// Remove the container with this id.
    Remove { id: String },
    /// Create a container with the target name from the session's desired
    /// spec.
    Create,
    /// Start the container with this id.
    Start { id: String },
}

/// The driver's report of how the pending runtime call went.
#[derive(Clone, Debug, PartialEq, Eq)]
pub enum Event {
    /// The listing call succeeded; at most one matching summary came back.
    Listed { found: Option<Summary> },
    /// The pending stop call succeeded.
    Stopped,
    /// The pending remove call succeeded.
    Removed,
    /// The pending create call succeeded, yielding the new container's id.
    Created { id: String },
    /// The pending start call succeeded.
    Started,
    /// The pending call failed; the session aborts, with no retry and no
    /// rollback of earlier steps.
    CallFailed,
}

impl RuntimeCall {
    /// The operator-facing progress line to report once this call has
    /// completed, for the calls that address a known container id. The
    /// listing is not reported, and a completed create is reported via
    /// [`created_message`] with the id the runtime assigned.
    pub fn done_message(&self) -> (r: Option<String>)
        ensures
            match self {
                RuntimeCall::Stop { id } => r matches Some(m) && m@ == "Stopped container with id: "@
                    + id@,
                RuntimeCall::Remove { id } => r matches Some(m) && m@
                    == "Removed container with id: "@ + id@,
                RuntimeCall::Start { id } => r matches Some(m) && m@
                    == "Started container with id: "@ + id@,
                RuntimeCall::List => r is None,
                RuntimeCall::Create => r is None,
            },
    {
        match self {
            RuntimeCall::Stop { id } => Some(
                String::from_str("Stopped container with id: ").concat(id.as_str()),
            ),
            RuntimeCall::Remove { id } => Some(
                String::from_str("Removed container with id: ").concat(id.as_str()),
            ),
            RuntimeCall::Start { id } => Some(
                String::from_str("Started container with id: ").concat(id.as_str()),
            ),
            RuntimeCall::List => None,
            RuntimeCall::Create => None,
        }
    }
}

/// The operator-facing progress line for a completed create, with the id
/// the runtime assigned to the new container.
pub fn created_message(id: &str) -> (r: String)
    ensures
        r@ == "Created container with id: "@ + id@,
{
    String::from_str("Created container with id: ").concat(id)
}

/// The operator-facing report for a teardown that found nothing to do: a
/// normal outcome, not a failure.
pub fn nothing_running_message() -> (r: &'static str)
    ensures
        r@ == "No application is running"@,
{
    "No application is running"
}

/// Where a `run` reconciliation stands: which call is in flight, or how the
/// operation ended.
#[derive(Clone, Debug, PartialEq, Eq)]
pub enum RunPhase {
    /// Asking the runtime what currently bears the target name.
    Inspecting,
    /// Stopping the still-active container that was found.
    Stopping { id: String },
    /// Removing the stopped or settled container that was found.
    Removing { id: String },
    /// Creating a fresh container from the desired spec.
    Creating,
    /// Starting the freshly created container.
    Starting { id: String },
    /// The target container was created and started.
    Done { id: String },
    /// A call failed, or the runtime's answer was unusable; the whole
    /// operation aborted at this fault.
    Failed { fault: Fault },
}

/// The phase a `run` moves to when the given event arrives in the given
/// phase.
///
/// An observed snapshot is branched on once, exactly as the decision table
/// in [`crate::plan::run_acts_spec`] prescribes: active targets are stopped
/// first, settled ones removed directly, absent ones (and the `Empty` /
/// `Removing` fall-through) left alone; every surviving path then creates
/// and starts. A failure of any pending call moves to `Failed`. An event
/// that does not answer the pending call leaves the phase unchanged.
pub open spec fn run_step_spec(phase: RunPhase, event: Event) -> RunPhase {
    match (phase, event) {
        (RunPhase::Inspecting, Event::Listed { found }) => match observe_spec(found) {
            Err(fault) => RunPhase::Failed { fault },
            Ok(obs) => if obs.status is Absent {
                RunPhase::Creating
            } else if obs.status.spec_is_active() {
                RunPhase::Stopping { id: obs.id->0 }
            } else if obs.status.spec_is_settled() {
                RunPhase::Removing { id: obs.id->0 }
            } else {
                RunPhase::Creating
            },
        },
        (RunPhase::Inspecting, Event::CallFailed) => RunPhase::Failed { fault: Fault::ListFailed },
        (RunPhase::Stopping { id }, Event::Stopped) => RunPhase::Removing { id },
        (RunPhase::Stopping { .. }, Event::CallFailed) => RunPhase::Failed {
            fault: Fault::StopFailed,
        },
        (RunPhase::Removing { .. }, Event::Removed) => RunPhase::Creating,
        (RunPhase::Removing { .. }, Event::CallFailed) => RunPhase::Failed {
            fault: Fault::RemoveFailed,
        },
        (RunPhase::Creating, Event::Created { id }) => RunPhase::Starting { id },
        (RunPhase::Creating, Event::CallFailed) => RunPhase::Failed {
            fault: Fault::CreateFailed,
        },
        (RunPhase::Starting { id }, Event::Started) => RunPhase::Done { id },
        (RunPhase::Starting { .. }, Event::CallFailed) => RunPhase::Failed {
            fault: Fault::StartFailed,
        },
        (other, _) => other,
    }
}

/// The call a `run` session wants performed in the given phase, if any.
pub open spec fn run_call_spec(phase: RunPhase) -> Option<RuntimeCall> {
    match phase {
        RunPhase::Inspecting => Some(RuntimeCall::List),
        RunPhase::Stopping { id } => Some(RuntimeCall::Stop { id }),
        RunPhase::Removing { id } => Some(RuntimeCall::Remove { id }),
        RunPhase::Creating => Some(RuntimeCall::Create),
        RunPhase::Starting { id } => Some(RuntimeCall::Start { id }),
        RunPhase::Done { .. } => None,
        RunPhase::Failed { .. } => None,
    }
}

/// One `run` reconciliation: converge the target name onto a container
/// freshly created from `desired` and started.
///
/// The session owns no persistent state beyond this single call; drive it by
/// performing each [`RuntimeCall`] from [`RunSession::pending_call`] and
/// feeding the outcome to [`RunSession::step`] until no call is pending.
pub struct RunSession {
    /// The spec the target is converged onto; fixed for the whole session.
    pub desired: DesiredSpec,
    /// Where the reconciliation stands.
    pub phase: RunPhase,
}

impl RunSession {
    /// Opens a `run` reconciliation toward the given desired spec, starting
    /// with an inspection of the current state.
    pub fn begin(desired: DesiredSpec) -> (r: RunSession)
        ensures
            r.desired == desired,
            r.phase == RunPhase::Inspecting,
    {
        RunSession { desired, phase: RunPhase::Inspecting }
    }

    /// The runtime call to perform next, or `None` once the session is done
    /// or has failed.
    pub fn pending_call(&self) -> (r: Option<RuntimeCall>)
        ensures
            r == run_call_spec(self.phase),
    {
        match &self.phase {
            RunPhase::Inspecting => Some(RuntimeCall::List),
            RunPhase::Stopping { id } => Some(RuntimeCall::Stop { id: id.clone() }),
            RunPhase::Removing { id } => Some(RuntimeCall::Remove { id: id.clone() }),
            RunPhase::Creating => Some(RuntimeCall::Create),
            RunPhase::Starting { id } => Some(RuntimeCall::Start { id: id.clone() }),
            RunPhase::Done { .. } => None,
            RunPhase::Failed { .. } => None,
        }
    }

    /// Advances the session by the outcome of the pending call.
    pub fn step(self, event: Event) -> (r: RunSession)
        ensures
            r.desired == self.desired,
            r.phase == run_step_spec(self.phase, event),
    {
        let RunSession { desired, phase } = self;
        let next: RunPhase = match (phase, event) {
            (RunPhase::Inspecting, Event::Listed { found }) => match observe(found) {
                Err(fault) => RunPhase::Failed { fault },
                Ok(obs) => {
                    if obs.status == ContainerStatus::Absent {
                        RunPhase::Creating
                    } else if obs.status.is_active() {
                        match obs.id {
                            Some(id) => RunPhase::Stopping { id },
                            None => vstd::pervasive::unreached(),
                        }
                    } else if obs.status.is_settled() {
                        match obs.id {
                            Some(id) => RunPhase::Removing { id },
                            None => vstd::pervasive::unreached(),
                        }
                    } else {
                        RunPhase::Creating
                    }
                },
            },
            (RunPhase::Inspecting, Event::CallFailed) => RunPhase::Failed {
                fault: Fault::ListFailed,
            },
            (RunPhase::Stopping { id }, Event::Stopped) => RunPhase::Removing { id },
            (RunPhase::Stopping { .. }, Event::CallFailed) => RunPhase::Failed {
                fault: Fault::StopFailed,
            },
            (RunPhase::Removing { .. }, Event::Removed) => RunPhase::Creating,
            (RunPhase::Removing { .. }, Event::CallFailed) => RunPhase::Failed {
                fault: Fault::RemoveFailed,
            },
            (RunPhase::Creating, Event::Created { id }) => RunPhase::Starting { id },
            (RunPhase::Creating, Event::CallFailed) => RunPhase::Failed {
                fault: Fault::CreateFailed,
            },
            (RunPhase::Starting { id }, Event::Started) => RunPhase::Done { id },
            (RunPhase::Starting { .. }, Event::CallFailed) => RunPhase::Failed {
                fault: Fault::StartFailed,
            },
            (other, _) => other,
        };
        RunSession { desired, phase: next }
    }
}

/// Whenever a call is pending and the driver reports that it failed, the
/// `run` session moves to `Failed` and requests nothing further — in
/// particular, a failed create is never followed by a start, and the fault
/// names the call that failed.
pub proof fn lemma_run_failure_short_circuits(phase: RunPhase)
    requires
        run_call_spec(phase) is Some,
    ensures
        run_step_spec(phase, Event::CallFailed) is Failed,
        run_call_spec(run_step_spec(phase, Event::CallFailed)) is None,
        phase is Creating ==> run_step_spec(phase, Event::CallFailed) == (RunPhase::Failed {
            fault: Fault::CreateFailed,
        }),
{
}

/// Once a `run` session is done or failed, it stays exactly where it is:
/// no event moves it again and no further call is requested.
pub proof fn lemma_run_terminal_is_final(phase: RunPhase, event: Event)
    requires
        phase is Done || phase is Failed,
    ensures
        run_step_spec(phase, event) == phase,
        run_call_spec(phase) is None,
{
}

/// Where an `end` teardown stands: which call is in flight, or how the
/// operation ended.
#[derive(Clone, Debug, PartialEq, Eq)]
pub enum EndPhase {
    /// Asking the runtime what currently bears the target name.
    Inspecting,
    /// Stopping the container that was found, whatever its status: issuing
    /// a stop against an already-stopped container is left to the runtime
    /// to tolerate.
    Stopping { id: String },
    /// Removing the stopped container.
    Removing { id: String },
    /// The target container was stopped and removed.
    Removed { id: String },
    /// No container bore the target name: a normal, reportable outcome, not
    /// a failure.
    NothingRunning,
    /// A call failed, or the runtime's answer was unusable; the whole
    /// operation aborted at this fault.
    Failed { fault: Fault },
}

/// The phase an `end` moves to when the given event arrives in the given
/// phase.
///
/// Unlike a `run`, an `end` does not branch on the observed status: any
/// present container is stopped and then removed, and an absent target ends
/// the teardown at `NothingRunning`. A failure of any pending call moves to
/// `Failed`; an event that does not answer the pending call leaves the
/// phase unchanged.
pub open spec fn end_step_spec(phase: EndPhase, event: Event) -> EndPhase {
    match (phase, event) {
        (EndPhase::Inspecting, Event::Listed { found }) => match observe_spec(found) {
            Err(fault) => EndPhase::Failed { fault },
            Ok(obs) => if obs.status is Absent {
                EndPhase::NothingRunning
            } else {
                EndPhase::Stopping { id: obs.id->0 }
            },
        },
        (EndPhase::Inspecting, Event::CallFailed) => EndPhase::Failed { fault: Fault::ListFailed },
        (EndPhase::Stopping { id }, Event::Stopped) => EndPhase::Removing { id },
        (EndPhase::Stopping { .. }, Event::CallFailed) => EndPhase::Failed {
            fault: Fault::StopFailed,
        },
        (EndPhase::Removing { id }, Event::Removed) => EndPhase::Removed { id },
        (EndPhase::Removing { .. }, Event::CallFailed) => EndPhase::Failed {
            fault: Fault::RemoveFailed,
        },
        (other, _) => other,
    }
}

/// The call an `end` session wants performed in the given phase, if any.
pub open spec fn end_call_spec(phase: EndPhase) -> Option<RuntimeCall> {
    match phase {
        EndPhase::Inspecting => Some(RuntimeCall::List),
        EndPhase::Stopping { id } => Some(RuntimeCall::Stop { id }),
        EndPhase::Removing { id } => Some(RuntimeCall::Remove { id }),
        EndPhase::Removed { .. } => None,
        EndPhase::NothingRunning => None,
        EndPhase::Failed { .. } => None,
    }
}

/// One `end` teardown: leave no container with the target name.
///
/// Drive it like a [`RunSession`]: perform each call from
/// [`EndSession::pending_call`] and feed the outcome to
/// [`EndSession::step`] until no call is pending.
pub struct EndSession {
    /// Where the teardown stands.
    pub phase: EndPhase,
}

impl EndSession {
    /// Opens an `end` teardown, starting with an inspection of the current
    /// state.
    pub fn begin() -> (r: EndSession)
        ensures
            r.phase == EndPhase::Inspecting,
    {
        EndSession { phase: EndPhase::Inspecting }
    }

    /// The runtime call to perform next, or `None` once the session has
    /// reached an outcome.
    pub fn pending_call(&self) -> (r: Option<RuntimeCall>)
        ensures
            r == end_call_spec(self.phase),
    {
        match &self.phase {
            EndPhase::Inspecting => Some(RuntimeCall::List),
            EndPhase::Stopping { id } => Some(RuntimeCall::Stop { id: id.clone() }),
            EndPhase::Removing { id } => Some(RuntimeCall::Remove { id: id.clone() }),
            EndPhase::Removed { .. } => None,
            EndPhase::NothingRunning => None,
            EndPhase::Failed { .. } => None,
        }
    }

    /// Advances the session by the outcome of the pending call.
    pub fn step(self, event: Event) -> (r: EndSession)
        ensures
            r.phase == end_step_spec(self.phase, event),
    {
        let EndSession { phase } = self;
        let next: EndPhase = match (phase, event) {
            (EndPhase::Inspecting, Event::Listed { found }) => match observe(found) {
                Err(fault) => EndPhase::Failed { fault },
                Ok(obs) => {
                    if obs.status == ContainerStatus::Absent {
                        EndPhase::NothingRunning
                    } else {
                        match obs.id {
                            Some(id) => EndPhase::Stopping { id },
                            None => vstd::pervasive::unreached(),
                        }
                    }
                },
            },
            (EndPhase::Inspecting, Event::CallFailed) => EndPhase::Failed {
                fault: Fault::ListFailed,
            },
            (EndPhase::Stopping { id }, Event::Stopped) => EndPhase::Removing { id },
            (EndPhase::Stopping { .. }, Event::CallFailed) => EndPhase::Failed {
                fault: Fault::StopFailed,
            },
            (EndPhase::Removing { id }, Event::Removed) => EndPhase::Removed { id },
            (EndPhase::Removing { .. }, Event::CallFailed) => EndPhase::Failed {
                fault: Fault::RemoveFailed,
            },
            (other, _) => other,
        };
        EndSession { phase: next }
    }
}

/// An `end` session never asks for a create or a start, in any phase.
pub proof fn lemma_end_never_creates(phase: EndPhase)
    ensures
        !(end_call_spec(phase) matches Some(c) && c is Create),
        !(end_call_spec(phase) matches Some(c) && c is Start),
{
}

/// Whenever a call is pending and the driver reports that it failed, the
/// `end` session moves to `Failed` and requests nothing further.
pub proof fn lemma_end_failure_short_circuits(phase: EndPhase)
    requires
        end_call_spec(phase) is Some,
    ensures
        end_step_spec(phase, Event::CallFailed) is Failed,
        end_call_spec(end_step_spec(phase, Event::CallFailed)) is None,
{
}

/// The phase a `run` session reaches when the driver answers with the given
/// events, one by one.
pub open spec fn run_fold(phase: RunPhase, events: Seq<Event>) -> RunPhase
    decreases events.len(),
{
    if events.len() == 0 {
        phase
    } else {
        run_fold(run_step_spec(phase, events[0]), events.drop_first())
    }
}

/// The calls a `run` session asks its driver to perform, in order, when the
/// driver answers with the given events, one by one.
pub open spec fn run_trace(phase: RunPhase, events: Seq<Event>) -> Seq<RuntimeCall>
    decreases events.len(),
{
    if events.len() == 0 || run_call_spec(phase) is None {
        Seq::<RuntimeCall>::empty()
    } else {
        seq![run_call_spec(phase)->0] + run_trace(
            run_step_spec(phase, events[0]),
            events.drop_first(),
        )
    }
}

/// The phase an `end` session reaches when the driver answers with the
/// given events, one by one.
pub open spec fn end_fold(phase: EndPhase, events: Seq<Event>) -> EndPhase
    decreases events.len(),
{
    if events.len() == 0 {
        phase
    } else {
        end_fold(end_step_spec(phase, events[0]), events.drop_first())
    }
}

/// The calls an `end` session asks its driver to perform, in order, when
/// the driver answers with the given events, one by one.
pub open spec fn end_trace(phase: EndPhase, events: Seq<Event>) -> Seq<RuntimeCall>
    decreases events.len(),
{
    if events.len() == 0 || end_call_spec(phase) is None {
        Seq::<RuntimeCall>::empty()
    } else {
        seq![end_call_spec(phase)->0] + end_trace(
            end_step_spec(phase, events[0]),
            events.drop_first(),
        )
    }
}

/// Absent-container fast path: when the runtime reports no matching
/// container and every call succeeds, a `run` performs only a listing, a
/// create and a start — no stop, no remove — and finishes `Done` with the
/// new container's id.
pub proof fn lemma_run_trace_absent(events: Seq<Event>, new_id: String)
    requires
        events =~= seq![
            (Event::Listed { found: None }),
            (Event::Created { id: new_id }),
            Event::Started,
        ],
    ensures
        run_trace(RunPhase::Inspecting, events) =~= seq![
            RuntimeCall::List,
            RuntimeCall::Create,
            (RuntimeCall::Start { id: new_id }),
        ],
        run_fold(RunPhase::Inspecting, events) == (RunPhase::Done { id: new_id }),
        run_acts_spec(ContainerStatus::Absent) =~= seq![Act::Create, Act::Start],
{
    reveal_with_fuel(run_trace, 5);
    reveal_with_fuel(run_fold, 5);
    let p1 = run_step_spec(RunPhase::Inspecting, events[0]);
    assert(p1 == RunPhase::Creating);
    let e1 = events.drop_first();
    assert(e1 =~= seq![(Event::Created { id: new_id }), Event::Started]);
    let p2 = run_step_spec(p1, e1[0]);
    assert(p2 == (RunPhase::Starting { id: new_id }));
    let e2 = e1.drop_first();
    assert(e2 =~= seq![Event::Started]);
    let p3 = run_step_spec(p2, e2[0]);
    assert(p3 == (RunPhase::Done { id: new_id }));
    assert(e2.drop_first() =~= Seq::<Event>::empty());
}

/// Against a still-active target — in particular one running an older image
/// than the desired one — a `run` performs exactly list, stop, remove,
/// create, start, in that order, addressing the stop and the remove to the
/// observed container and the start to the freshly created one.
pub proof fn lemma_run_trace_active(
    events: Seq<Event>,
    cur_id: String,
    label: String,
    status: ContainerStatus,
    new_id: String,
)
    requires
        status_of_label(label@) == Some(status),
        status.spec_is_active(),
        events =~= seq![
            (Event::Listed {
                found: Some(Summary { id: Some(cur_id), status_label: Some(label) }),
            }),
            Event::Stopped,
            Event::Removed,
            (Event::Created { id: new_id }),
            Event::Started,
        ],
    ensures
        run_trace(RunPhase::Inspecting, events) =~= seq![
            RuntimeCall::List,
            (RuntimeCall::Stop { id: cur_id }),
            (RuntimeCall::Remove { id: cur_id }),
            RuntimeCall::Create,
            (RuntimeCall::Start { id: new_id }),
        ],
        run_fold(RunPhase::Inspecting, events) == (RunPhase::Done { id: new_id }),
        run_acts_spec(status) =~= seq![Act::Stop, Act::Remove, Act::Create, Act::Start],
{
    reveal_with_fuel(run_trace, 7);
    reveal_with_fuel(run_fold, 7);
    let p1 = run_step_spec(RunPhase::Inspecting, events[0]);
    assert(p1 == (RunPhase::Stopping { id: cur_id }));
    let e1 = events.drop_first();
    assert(e1 =~= seq![
        Event::Stopped,
        Event::Removed,
        (Event::Created { id: new_id }),
        Event::Started,
    ]);
    let p2 = run_step_spec(p1, e1[0]);
    assert(p2 == (RunPhase::Removing { id: cur_id }));
    let e2 = e1.drop_first();
    assert(e2 =~= seq![Event::Removed, (Event::Created { id: new_id }), Event::Started]);
    let p3 = run_step_spec(p2, e2[0]);
    assert(p3 == RunPhase::Creating);
    let e3 = e2.drop_first();
    assert(e3 =~= seq![(Event::Created { id: new_id }), Event::Started]);
    let p4 = run_step_spec(p3, e3[0]);
    assert(p4 == (RunPhase::Starting { id: new_id }));
    let e4 = e3.drop_first();
    assert(e4 =~= seq![Event::Started]);
    let p5 = run_step_spec(p4, e4[0]);
    assert(p5 == (RunPhase::Done { id: new_id }));
    assert(e4.drop_first() =~= Seq::<Event>::empty());
}

/// Against a settled (already non-active) target, a `run` performs exactly
/// list, remove, create, start: the remove is not preceded by a stop.
pub proof fn lemma_run_trace_settled(
    events: Seq<Event>,
    cur_id: String,
    label: String,
    status: ContainerStatus,
    new_id: String,
)
    requires
        status_of_label(label@) == Some(status),
        status.spec_is_settled(),
        events =~= seq![
            (Event::Listed {
                found: Some(Summary { id: Some(cur_id), status_label: Some(label) }),
            }),
            Event::Removed,
            (Event::Created { id: new_id }),
            Event::Started,
        ],
    ensures
        run_trace(RunPhase::Inspecting, events) =~= seq![
            RuntimeCall::List,
            (RuntimeCall::Remove { id: cur_id }),
            RuntimeCall::Create,
            (RuntimeCall::Start { id: new_id }),
        ],
        run_fold(RunPhase::Inspecting, events) == (RunPhase::Done { id: new_id }),
        run_acts_spec(status) =~= seq![Act::Remove, Act::Create, Act::Start],
{
    reveal_with_fuel(run_trace, 6);
    reveal_with_fuel(run_fold, 6);
    let p1 = run_step_spec(RunPhase::Inspecting, events[0]);
    assert(p1 == (RunPhase::Removing { id: cur_id }));
    let e1 = events.drop_first();
    assert(e1 =~= seq![Event::Removed, (Event::Created { id: new_id }), Event::Started]);
    let p2 = run_step_spec(p1, e1[0]);
    assert(p2 == RunPhase::Creating);
    let e2 = e1.drop_first();
    assert(e2 =~= seq![(Event::Created { id: new_id }), Event::Started]);
    let p3 = run_step_spec(p2, e2[0]);
    assert(p3 == (RunPhase::Starting { id: new_id }));
    let e3 = e2.drop_first();
    assert(e3 =~= seq![Event::Started]);
    let p4 = run_step_spec(p3, e3[0]);
    assert(p4 == (RunPhase::Done { id: new_id }));
    assert(e3.drop_first() =~= Seq::<Event>::empty());
}

/// The `Empty`/`Removing` fall-through: a container is still present, yet a
/// `run` performs create and start with zero prior corrective calls. This
/// states the documented name-conflict hazard of the fall-through, not a
/// fast path; see `crate::converge::lemma_fall_through_create_conflicts`.
pub proof fn lemma_run_trace_fall_through(
    events: Seq<Event>,
    cur_id: String,
    label: String,
    status: ContainerStatus,
    new_id: String,
)
    requires
        status_of_label(label@) == Some(status),
        status is Empty || status is Removing,
        events =~= seq![
            (Event::Listed {
                found: Some(Summary { id: Some(cur_id), status_label: Some(label) }),
            }),
            (Event::Created { id: new_id }),
            Event::Started,
        ],
    ensures
        run_trace(RunPhase::Inspecting, events) =~= seq![
            RuntimeCall::List,
            RuntimeCall::Create,
            (RuntimeCall::Start { id: new_id }),
        ],
        run_fold(RunPhase::Inspecting, events) == (RunPhase::Done { id: new_id }),
        run_acts_spec(status) =~= seq![Act::Create, Act::Start],
{
    reveal_with_fuel(run_trace, 5);
    reveal_with_fuel(run_fold, 5);
    let p1 = run_step_spec(RunPhase::Inspecting, events[0]);
    assert(p1 == RunPhase::Creating);
    let e1 = events.drop_first();
    assert(e1 =~= seq![(Event::Created { id: new_id }), Event::Started]);
    let p2 = run_step_spec(p1, e1[0]);
    assert(p2 == (RunPhase::Starting { id: new_id }));
    let e2 = e1.drop_first();
    assert(e2 =~= seq![Event::Started]);
    let p3 = run_step_spec(p2, e2[0]);
    assert(p3 == (RunPhase::Done { id: new_id }));
    assert(e2.drop_first() =~= Seq::<Event>::empty());
}

/// Failure short-circuits: when the create call fails, the session aborts
/// at `CreateFailed` and a start is never requested in the same `run`.
pub proof fn lemma_run_trace_create_failure(events: Seq<Event>)
    requires
        events =~= seq![(Event::Listed { found: None }), Event::CallFailed],
    ensures
        run_trace(RunPhase::Inspecting, events) =~= seq![RuntimeCall::List, RuntimeCall::Create],
        run_fold(RunPhase::Inspecting, events) == (RunPhase::Failed {
            fault: Fault::CreateFailed,
        }),
        forall|i: int|
            0 <= i < run_trace(RunPhase::Inspecting, events).len() ==> !(run_trace(
                RunPhase::Inspecting,
                events,
            )[i] is Start),
{
    reveal_with_fuel(run_trace, 4);
    reveal_with_fuel(run_fold, 4);
    let p1 = run_step_spec(RunPhase::Inspecting, events[0]);
    assert(p1 == RunPhase::Creating);
    let e1 = events.drop_first();
    assert(e1 =~= seq![Event::CallFailed]);
    let p2 = run_step_spec(p1, e1[0]);
    assert(p2 == (RunPhase::Failed { fault: Fault::CreateFailed }));
    assert(e1.drop_first() =~= Seq::<Event>::empty());
    assert(run_trace(RunPhase::Inspecting, events) =~= seq![
        RuntimeCall::List,
        RuntimeCall::Create,
    ]);
}

/// Teardown on an absent target: the only call is the listing, and the
/// session ends at the normal `NothingRunning` outcome, not at a failure.
pub proof fn lemma_end_trace_absent(events: Seq<Event>)
    requires
        events =~= seq![(Event::Listed { found: None })],
    ensures
        end_trace(EndPhase::Inspecting, events) =~= seq![RuntimeCall::List],
        end_fold(EndPhase::Inspecting, events) == EndPhase::NothingRunning,
        !(end_fold(EndPhase::Inspecting, events) is Failed),
        end_acts_spec(ContainerStatus::Absent) =~= Seq::<Act>::empty(),
{
    reveal_with_fuel(end_trace, 3);
    reveal_with_fuel(end_fold, 3);
    let p1 = end_step_spec(EndPhase::Inspecting, events[0]);
    assert(p1 == EndPhase::NothingRunning);
    assert(events.drop_first() =~= Seq::<Event>::empty());
}

/// Teardown on a present target: whatever its reported status, an `end`
/// performs exactly list, stop, remove, in that order — never a create or
/// a start — and finishes at `Removed`.
pub proof fn lemma_end_trace_present(
    events: Seq<Event>,
    cur_id: String,
    label: String,
    status: ContainerStatus,
)
    requires
        status_of_label(label@) == Some(status),
        events =~= seq![
            (Event::Listed {
                found: Some(Summary { id: Some(cur_id), status_label: Some(label) }),
            }),
            Event::Stopped,
            Event::Removed,
        ],
    ensures
        end_trace(EndPhase::Inspecting, events) =~= seq![
            RuntimeCall::List,
            (RuntimeCall::Stop { id: cur_id }),
            (RuntimeCall::Remove { id: cur_id }),
        ],
        end_fold(EndPhase::Inspecting, events) == (EndPhase::Removed { id: cur_id }),
        end_acts_spec(status) =~= seq![Act::Stop, Act::Remove],
{
    reveal_with_fuel(end_trace, 5);
    reveal_with_fuel(end_fold, 5);
    assert(!(status is Absent));
    let p1 = end_step_spec(EndPhase::Inspecting, events[0]);
    assert(p1 == (EndPhase::Stopping { id: cur_id }));
    let e1 = events.drop_first();
    assert(e1 =~= seq![Event::Stopped, Event::Removed]);
    let p2 = end_step_spec(p1, e1[0]);
    assert(p2 == (EndPhase::Removing { id: cur_id }));
    let e2 = e1.drop_first();
    assert(e2 =~= seq![Event::Removed]);
    let p3 = end_step_spec(p2, e2[0]);
    assert(p3 == (EndPhase::Removed { id: cur_id }));
    assert(e2.drop_first() =~= Seq::<Event>::empty());
}

} // verus!
