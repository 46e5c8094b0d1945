use vstd::prelude::*;

use crate::status::ContainerStatus;

verus! {

/// One corrective lifecycle action, in the abstract: the reconciler's
/// decision table speaks of these, with the identities (which container to
/// stop, which image to create from) supplied at execution time.
#[derive(Clone, Copy, Debug, PartialEq, Eq, Structural)]
pub enum Act {
    Stop,
    Remove,
    Create,
    Start,
}

/// The action sequence a `run` performs against a target observed in the
/// given status.
///
/// A still-active container must be stopped before it can be removed; a
/// settled one is removed directly; an absent one needs no corrective
/// action. Every sequence ends by creating a container from the desired
/// spec and starting it: the desired image version may have changed since
/// the container was last created, and the runtime binds a container's
/// image at creation time, so convergence always re-creates rather than
/// reuses.
///
/// For `Empty` and `Removing` no corrective action is taken either, although
/// a container is still present: the subsequent create then conflicts with
/// the occupied name unless the runtime finishes removing it first. That gap
/// is deliberate behavioral parity, documented rather than masked.
pub open spec fn run_acts_spec(status: ContainerStatus) -> Seq<Act> {
    if status.spec_is_active() {
        seq![Act::Stop, Act::Remove, Act::Create, Act::Start]
    } else if status.spec_is_settled() {
        seq![Act::Remove, Act::Create, Act::Start]
    } else {
        seq![Act::Create, Act::Start]
    }
}

/// The corrective actions and the create/start sequence a `run` performs
/// for a target observed in the given status.
pub fn run_acts(status: ContainerStatus) -> (r: Vec<Act>)
    ensures
        r@ == run_acts_spec(status),
{
    let mut acts: Vec<Act> = Vec::new();
    if status.is_active() {
        acts.push(Act::Stop);
        acts.push(Act::Remove);
    } else if status.is_settled() {
        acts.push(Act::Remove);
    }
    acts.push(Act::Create);
    acts.push(Act::Start);
    proof {
        assert(acts@ =~= run_acts_spec(status));
    }
    acts
}

/// The action sequence an `end` performs against a target observed in the
/// given status: stop then remove whenever any container is present, with
/// no status branching, and nothing at all when none is.
pub open spec fn end_acts_spec(status: ContainerStatus) -> Seq<Act> {
    if status is Absent {
        Seq::<Act>::empty()
    } else {
        seq![Act::Stop, Act::Remove]
    }
}

/// The actions an `end` performs for a target observed in the given status.
pub fn end_acts(status: ContainerStatus) -> (r: Vec<Act>)
    ensures
        r@ == end_acts_spec(status),
{
    let mut acts: Vec<Act> = Vec::new();
    if !(status == ContainerStatus::Absent) {
        acts.push(Act::Stop);
        acts.push(Act::Remove);
    }
    proof {
        assert(acts@ =~= end_acts_spec(status));
    }
    acts
}

/// A `run` stops the target exactly when it was observed still active, and
/// never without removing and re-creating it afterwards.
pub proof fn lemma_stop_only_when_active(status: ContainerStatus)
    ensures
        run_acts_spec(status).contains(Act::Stop) <==> status.spec_is_active(),
        status.spec_is_active() ==> run_acts_spec(status) =~= seq![
            Act::Stop,
            Act::Remove,
            Act::Create,
            Act::Start,
        ],
{
    if status.spec_is_active() {
        assert(run_acts_spec(status)[0] == Act::Stop);
    } else if status.spec_is_settled() {
        assert(forall|i: int|
            0 <= i < run_acts_spec(status).len() ==> run_acts_spec(status)[i] != Act::Stop);
    } else {
        assert(forall|i: int|
            0 <= i < run_acts_spec(status).len() ==> run_acts_spec(status)[i] != Act::Stop);
    }
}

/// Against a settled (already non-active) target, a `run` removes without
/// stopping, then creates and starts.
pub proof fn lemma_settled_skips_stop(status: ContainerStatus)
    requires
        status.spec_is_settled(),
    ensures
        run_acts_spec(status) =~= seq![Act::Remove, Act::Create, Act::Start],
        !run_acts_spec(status).contains(Act::Stop),
{
    assert(forall|i: int|
        0 <= i < run_acts_spec(status).len() ==> run_acts_spec(status)[i] != Act::Stop);
}

/// Against an absent target, a `run` only creates and starts: no stop, no
/// remove. The same fall-through holds for `Empty` and `Removing`, where it
/// is the documented name-conflict hazard rather than a fast path.
pub proof fn lemma_absent_fast_path(status: ContainerStatus)
    requires
        !status.spec_is_active(),
        !status.spec_is_settled(),
    ensures
        run_acts_spec(status) =~= seq![Act::Create, Act::Start],
        !run_acts_spec(status).contains(Act::Stop),
        !run_acts_spec(status).contains(Act::Remove),
{
    assert(forall|i: int|
        0 <= i < run_acts_spec(status).len() ==> run_acts_spec(status)[i] != Act::Stop
            && run_acts_spec(status)[i] != Act::Remove);
}

/// An `end` never creates or starts anything: it performs exactly stop then
/// remove against a present target, and nothing against an absent one.
pub proof fn lemma_end_only_tears_down(status: ContainerStatus)
    ensures
        !end_acts_spec(status).contains(Act::Create),
        !end_acts_spec(status).contains(Act::Start),
        status is Absent ==> end_acts_spec(status) =~= Seq::<Act>::empty(),
        !(status is Absent) ==> end_acts_spec(status) =~= seq![Act::Stop, Act::Remove],
{
    assert(forall|i: int|
        0 <= i < end_acts_spec(status).len() ==> end_acts_spec(status)[i] != Act::Create
            && end_acts_spec(status)[i] != Act::Start);
}

} // verus!
