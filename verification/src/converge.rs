use vstd::prelude::*;

use crate::plan::Act;
use crate::plan::end_acts_spec;
use crate::plan::run_acts_spec;
use crate::status::ContainerStatus;

verus! {

/// The one container the runtime may hold under the target name.
pub struct EntryModel {
    /// The image the container was created from.
    pub image: Seq<char>,
    /// The container's current status.
    pub status: ContainerStatus,
}

/// A model of everything the runtime holds under the target name: either no
/// container bears the name, or exactly one does.
///
/// The runtime enforces name uniqueness out of process, so one optional
/// entry models every reachable runtime state for this name; in particular,
/// two simultaneous containers of the same name cannot be represented, and
/// the laws below show the reconciler never needs them to be.
pub struct SlotModel {
    pub entry: Option<EntryModel>,
}

impl SlotModel {
    /// A present container has a real status, never the `Absent` marker.
    pub open spec fn wf(self) -> bool {
        self.entry matches Some(e) ==> !(e.status is Absent)
    }
}

/// The status the state inspector observes for a slot.
pub open spec fn observed_status(m: SlotModel) -> ContainerStatus {
    match m.entry {
        None => ContainerStatus::Absent,
        Some(e) => e.status,
    }
}

/// Whether the runtime accepts an action in a state: stopping or starting
/// needs a container to address (a stop against an already-stopped one is
/// tolerated), removing needs a container that is not still active, and
/// creating needs the name to be free.
pub open spec fn act_allowed(m: SlotModel, a: Act) -> bool {
    match a {
        Act::Stop => m.entry is Some,
        Act::Remove => m.entry matches Some(e) && !e.status.spec_is_active(),
        Act::Create => m.entry is None,
        Act::Start => m.entry is Some,
    }
}

/// The state a successful action leaves behind: a stop settles the
/// container at `Exited`, a remove frees the name, a create binds a fresh
/// `Created` container to the desired image, and a start moves the
/// container to `Running`.
pub open spec fn apply_act(m: SlotModel, a: Act, desired_image: Seq<char>) -> SlotModel {
    match a {
        Act::Stop => match m.entry {
            Some(e) => SlotModel {
                entry: Some(EntryModel { image: e.image, status: ContainerStatus::Exited }),
            },
            None => m,
        },
        Act::Remove => SlotModel { entry: None },
        Act::Create => SlotModel {
            entry: Some(EntryModel { image: desired_image, status: ContainerStatus::Created }),
        },
        Act::Start => match m.entry {
            Some(e) => SlotModel {
                entry: Some(EntryModel { image: e.image, status: ContainerStatus::Running }),
            },
            None => m,
        },
    }
}

/// Whether the runtime accepts every action of a sequence, each in the
/// state the previous ones left behind.
pub open spec fn acts_allowed(m: SlotModel, acts: Seq<Act>, desired_image: Seq<char>) -> bool
    decreases acts.len(),
{
    acts.len() == 0 || (act_allowed(m, acts[0]) && acts_allowed(
        apply_act(m, acts[0], desired_image),
        acts.drop_first(),
        desired_image,
    ))
}

/// The state a sequence of successful actions leaves behind.
pub open spec fn apply_acts(m: SlotModel, acts: Seq<Act>, desired_image: Seq<char>) -> SlotModel
    decreases acts.len(),
{
    if acts.len() == 0 {
        m
    } else {
        apply_acts(apply_act(m, acts[0], desired_image), acts.drop_first(), desired_image)
    }
}

/// The state a successful `run` owes its caller: exactly one container with
/// the target name, running the desired image.
pub open spec fn converged(desired_image: Seq<char>) -> SlotModel {
    SlotModel {
        entry: Some(EntryModel { image: desired_image, status: ContainerStatus::Running }),
    }
}

/// Convergence: from any well-formed runtime state whose observed status is
/// neither `Empty` nor `Removing`, the `run` plan for that status is
/// accepted by the runtime step by step and leaves exactly one container
/// with the target name, running the desired image — whatever image, if
/// any, was there before.
pub proof fn lemma_run_converges(m: SlotModel, desired_image: Seq<char>)
    requires
        m.wf(),
        !(observed_status(m) is Empty),
        !(observed_status(m) is Removing),
    ensures
        acts_allowed(m, run_acts_spec(observed_status(m)), desired_image),
        apply_acts(m, run_acts_spec(observed_status(m)), desired_image) == converged(
            desired_image,
        ),
{
    reveal_with_fuel(acts_allowed, 5);
    reveal_with_fuel(apply_acts, 5);
    let status = observed_status(m);
    let acts = run_acts_spec(status);
    if status.spec_is_active() {
        let m1 = apply_act(m, Act::Stop, desired_image);
        let m2 = apply_act(m1, Act::Remove, desired_image);
        let m3 = apply_act(m2, Act::Create, desired_image);
        let m4 = apply_act(m3, Act::Start, desired_image);
        assert(acts.drop_first() =~= seq![Act::Remove, Act::Create, Act::Start]);
        assert(acts.drop_first().drop_first() =~= seq![Act::Create, Act::Start]);
        assert(acts.drop_first().drop_first().drop_first() =~= seq![Act::Start]);
        assert(acts.drop_first().drop_first().drop_first().drop_first() =~= Seq::<Act>::empty());
        assert(m4 == converged(desired_image));
    } else if status.spec_is_settled() {
        let m1 = apply_act(m, Act::Remove, desired_image);
        let m2 = apply_act(m1, Act::Create, desired_image);
        let m3 = apply_act(m2, Act::Start, desired_image);
        assert(acts.drop_first() =~= seq![Act::Create, Act::Start]);
        assert(acts.drop_first().drop_first() =~= seq![Act::Start]);
        assert(acts.drop_first().drop_first().drop_first() =~= Seq::<Act>::empty());
        assert(m3 == converged(desired_image));
    } else {
        let m1 = apply_act(m, Act::Create, desired_image);
        let m2 = apply_act(m1, Act::Start, desired_image);
        assert(status is Absent);
        assert(acts.drop_first() =~= seq![Act::Start]);
        assert(acts.drop_first().drop_first() =~= Seq::<Act>::empty());
        assert(m2 == converged(desired_image));
    }
}

/// Idempotent convergence: a first `run` leaves exactly one container
/// present, running the desired image; a second `run` with the same spec
/// then observes `Running`, performs exactly stop, remove, create, start —
/// and leaves that same single converged container again. At no point does
/// the name need to hold two containers at once.
pub proof fn lemma_run_idempotent(m: SlotModel, desired_image: Seq<char>)
    requires
        m.wf(),
        !(observed_status(m) is Empty),
        !(observed_status(m) is Removing),
    ensures
        apply_acts(m, run_acts_spec(observed_status(m)), desired_image) == converged(
            desired_image,
        ),
        converged(desired_image).entry is Some,
        observed_status(converged(desired_image)) is Running,
        run_acts_spec(observed_status(converged(desired_image))) =~= seq![
            Act::Stop,
            Act::Remove,
            Act::Create,
            Act::Start,
        ],
        acts_allowed(
            converged(desired_image),
            run_acts_spec(observed_status(converged(desired_image))),
            desired_image,
        ),
        apply_acts(
            converged(desired_image),
            run_acts_spec(observed_status(converged(desired_image))),
            desired_image,
        ) == converged(desired_image),
{
    lemma_run_converges(m, desired_image);
    lemma_run_converges(converged(desired_image), desired_image);
}

/// Version change triggers recreation: against a running container — in
/// particular one created from a different image than the desired one — a
/// `run` performs exactly stop, remove, create, start, in that order, and
/// the single container left behind runs the desired image.
pub proof fn lemma_version_change_recreates(m: SlotModel, desired_image: Seq<char>)
    requires
        m.entry matches Some(e) && e.status is Running,
    ensures
        run_acts_spec(observed_status(m)) =~= seq![Act::Stop, Act::Remove, Act::Create, Act::Start],
        acts_allowed(m, run_acts_spec(observed_status(m)), desired_image),
        apply_acts(m, run_acts_spec(observed_status(m)), desired_image) == converged(
            desired_image,
        ),
{
    lemma_run_converges(m, desired_image);
}

/// Teardown: from any well-formed runtime state, the `end` plan for the
/// observed status is accepted by the runtime step by step and leaves no
/// container with the target name — stop then remove when one was present,
/// nothing at all when none was.
pub proof fn lemma_end_clears(m: SlotModel, desired_image: Seq<char>)
    requires
        m.wf(),
    ensures
        acts_allowed(m, end_acts_spec(observed_status(m)), desired_image),
        apply_acts(m, end_acts_spec(observed_status(m)), desired_image) == (SlotModel {
            entry: None,
        }),
{
    reveal_with_fuel(acts_allowed, 3);
    reveal_with_fuel(apply_acts, 3);
    let status = observed_status(m);
    let acts = end_acts_spec(status);
    if status is Absent {
        assert(m == (SlotModel { entry: None }));
    } else {
        let m1 = apply_act(m, Act::Stop, desired_image);
        let m2 = apply_act(m1, Act::Remove, desired_image);
        assert(acts.drop_first() =~= seq![Act::Remove]);
        assert(acts.drop_first().drop_first() =~= Seq::<Act>::empty());
        assert(m2 == (SlotModel { entry: None }));
    }
}

/// The documented gap of the `Empty`/`Removing` fall-through: a container
/// is still present, the plan takes no corrective action, and its create is
/// therefore rejected — the target name is still occupied.
pub proof fn lemma_fall_through_create_conflicts(m: SlotModel, desired_image: Seq<char>)
    requires
        m.entry is Some,
        observed_status(m) is Empty || observed_status(m) is Removing,
    ensures
        run_acts_spec(observed_status(m))[0] == Act::Create,
        !acts_allowed(m, run_acts_spec(observed_status(m)), desired_image),
{
}

} // verus!
