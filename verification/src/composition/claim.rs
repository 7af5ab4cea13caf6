//! Claim of the caller-owned storage, together with the tasks of the profile.
//!
//! Every reservation that was taken is released again when a later step fails.

use crate::composition::InitError;
use crate::error::{RuntimeError, TaskAdmissionError};
use core::num::{NonZeroU32, NonZeroUsize};
use hisi_rf_rtos_driver::{
    TaskResourceGroupRequirements, TaskResourceOwner, TaskResourcePlan, TaskResourceRequirements,
};
use vstd::prelude::*;

verus! {

/// The tasks that one owner needs.
#[derive(Clone, Copy, Debug, PartialEq, Eq, Structural)]
pub struct TaskGroupPlan {
    pub owner: u32,
    pub task_slots: usize,
    pub stack_bytes_per_task: usize,
}

/// `hisi_rf_rtos_driver::TaskResourceRequirements::new`: a request is accepted if
/// and only if its total stack can be counted.
#[verifier::external_body]
pub(crate) fn requirements_fit(task_slots: usize, stack_bytes_per_task: usize) -> (fit: bool)
    requires
        task_slots > 0,
        stack_bytes_per_task > 0,
    ensures
        fit == (task_slots * stack_bytes_per_task <= usize::MAX),
{
    match (NonZeroUsize::new(task_slots), NonZeroUsize::new(stack_bytes_per_task)) {
        (Some(slots), Some(stack)) => TaskResourceRequirements::new(slots, stack).is_some(),
        _ => false,
    }
}

impl TaskGroupPlan {
    /// The group can be requested: nothing in it is zero, and its total stack can
    /// be counted.
    pub open spec fn valid(self) -> bool {
        self.owner != 0 && self.task_slots > 0 && self.stack_bytes_per_task > 0 && self.task_slots
            * self.stack_bytes_per_task <= usize::MAX
    }

    /// The stack of all tasks of the group.
    pub open spec fn total_stack(self) -> int {
        self.task_slots * self.stack_bytes_per_task
    }

    /// Why a group cannot be requested, if it cannot.
    pub open spec fn refusal(self) -> Option<TaskAdmissionError> {
        if self.owner == 0 || self.task_slots == 0 || self.stack_bytes_per_task == 0 {
            Some(TaskAdmissionError::Runtime(RuntimeError::Runtime))
        } else if self.task_slots * self.stack_bytes_per_task > usize::MAX {
            Some(TaskAdmissionError::Runtime(RuntimeError::ResourceExhausted))
        } else {
            None
        }
    }
}

/// Check one group of tasks.
pub fn task_resource_group(group: TaskGroupPlan) -> (result: Result<TaskGroupPlan, InitError>)
    ensures
        match group.refusal() {
            None => result == Ok::<TaskGroupPlan, InitError>(group) && group.valid(),
            Some(error) => result == Err::<TaskGroupPlan, InitError>(
                crate::composition::admission_init_error(error),
            ),
        },
{
    if group.owner == 0 || group.task_slots == 0 || group.stack_bytes_per_task == 0 {
        return Err(
            InitError::task_admission(TaskAdmissionError::Runtime(RuntimeError::Runtime)),
        );
    }
    if requirements_fit(group.task_slots, group.stack_bytes_per_task) {
        Ok(group)
    } else {
        Err(
            InitError::task_admission(
                TaskAdmissionError::Runtime(RuntimeError::ResourceExhausted),
            ),
        )
    }
}

/// The tasks of all groups.
pub open spec fn all_slots(groups: Seq<TaskGroupPlan>) -> int
    decreases groups.len(),
{
    if groups.len() == 0 {
        0
    } else {
        all_slots(groups.drop_last()) + groups.last().task_slots
    }
}

/// The stack of the tasks of all groups.
pub open spec fn all_stacks(groups: Seq<TaskGroupPlan>) -> int
    decreases groups.len(),
{
    if groups.len() == 0 {
        0
    } else {
        all_stacks(groups.drop_last()) + groups.last().total_stack()
    }
}

/// The groups can be reserved together: there are one to eight of them, their
/// owners differ, and their totals can be counted.
pub open spec fn plannable(groups: Seq<TaskGroupPlan>) -> bool {
    &&& 1 <= groups.len() <= 8
    &&& forall|i: int, j: int|
        0 <= i < j < groups.len() ==> #[trigger] groups[i].owner != #[trigger] groups[j].owner
    &&& all_slots(groups) <= usize::MAX
    &&& all_stacks(groups) <= usize::MAX
}

/// `hisi_rf_rtos_driver::TaskResourcePlan::new`: a plan is made if and only if
/// there are one to eight groups, no two of them have the same owner, and neither
/// the tasks nor the stacks overflow when they are added up.
#[verifier::external_body]
pub(crate) fn plan_accepted(groups: &[TaskGroupPlan]) -> (accepted: bool)
    requires
        forall|i: int| 0 <= i < groups@.len() ==> (#[trigger] groups@[i]).valid(),
    ensures
        accepted == plannable(groups@),
{
    let requested: Option<Vec<TaskResourceGroupRequirements>> = groups.iter().map(
        |group|
            Some(
                TaskResourceGroupRequirements::new(
                    TaskResourceOwner::new(NonZeroU32::new(group.owner)?),
                    TaskResourceRequirements::new(
                        NonZeroUsize::new(group.task_slots)?,
                        NonZeroUsize::new(group.stack_bytes_per_task)?,
                    )?,
                ),
            ),
    ).collect();
    requested.is_some_and(|groups| TaskResourcePlan::new(&groups).is_some())
}

/// The groups of a request, in the order in which they are reserved.
pub open spec fn requested(vendor: TaskGroupPlan, worker: Option<TaskGroupPlan>) -> Seq<
    TaskGroupPlan,
> {
    match worker {
        None => seq![vendor],
        Some(group) => seq![vendor, group],
    }
}

/// What a claim asks for next.
#[derive(Clone, Copy, Debug, PartialEq, Eq)]
pub enum ClaimAction {
    RequireRuntime,
    ReadCurrentTask,
    /// Reserve every group, or none.
    Reserve { vendor: TaskGroupPlan, worker: Option<TaskGroupPlan> },
    TakeVendor,
    TakeWorker,
    ClaimStorage,
    InstallVendor,
    ReleaseVendor,
    ReleaseWorker,
    Done(Result<(), InitError>),
}

/// The answer to what a claim asked for.
#[derive(Clone, Copy, Debug, PartialEq, Eq)]
pub enum ClaimReply {
    Runtime(Result<(), RuntimeError>),
    Reserved(Result<(), TaskAdmissionError>),
    /// Whether a reservation or the storage was there.
    Taken(bool),
}

/// What a claim waits for.
#[derive(Clone, Copy, Debug, PartialEq, Eq, Structural)]
pub enum ClaimPhase {
    Runtime,
    CurrentTask,
    Reserving,
    TakingVendor,
    TakingWorker,
    Claiming,
    Installing,
    /// Give the vendor's tasks back, then possibly the worker's.
    ReleasingVendor { worker: bool, failure: InitError },
    ReleasingWorker { failure: InitError },
    Finished,
}

/// One claim in progress.
#[derive(Clone, Copy, Debug)]
pub struct ProfileClaim {
    pub phase: ClaimPhase,
    pub vendor: TaskGroupPlan,
    /// The composition runs a worker.
    pub with_worker: bool,
    pub worker: Option<TaskGroupPlan>,
}

pub open spec fn missing_reservation() -> InitError {
    crate::composition::admission_init_error(TaskAdmissionError::Runtime(RuntimeError::Runtime))
}

impl ProfileClaim {
    pub open spec fn awaits(self, reply: ClaimReply) -> bool {
        match self.phase {
            ClaimPhase::Runtime | ClaimPhase::CurrentTask | ClaimPhase::Installing
            | ClaimPhase::ReleasingVendor { .. }
            | ClaimPhase::ReleasingWorker { .. } => reply is Runtime,
            ClaimPhase::Reserving => reply is Reserved,
            ClaimPhase::TakingVendor | ClaimPhase::TakingWorker
            | ClaimPhase::Claiming => reply is Taken,
            ClaimPhase::Finished => false,
        }
    }

    pub open spec fn at(self, phase: ClaimPhase) -> ProfileClaim {
        ProfileClaim { phase, ..self }
    }

    pub open spec fn failed(self, failure: InitError) -> (ProfileClaim, ClaimAction) {
        (self.at(ClaimPhase::Finished), ClaimAction::Done(Err(failure)))
    }

    /// Give back what was taken, then report the failure.
    pub open spec fn releasing(self, failure: InitError) -> (ProfileClaim, ClaimAction) {
        (
            self.at(ClaimPhase::ReleasingVendor { worker: self.with_worker, failure }),
            ClaimAction::ReleaseVendor,
        )
    }

    /// The request for the tasks of the profile, or why there is none.
    pub open spec fn planned(self) -> Result<(TaskGroupPlan, Option<TaskGroupPlan>), InitError> {
        if let Some(error) = self.vendor.refusal() {
            Err(crate::composition::admission_init_error(error))
        } else if self.with_worker {
            match self.worker {
                None => Err(missing_reservation()),
                Some(group) => if let Some(error) = group.refusal() {
                    Err(crate::composition::admission_init_error(error))
                } else if !plannable(requested(self.vendor, Some(group))) {
                    Err(
                        crate::composition::admission_init_error(
                            TaskAdmissionError::Runtime(RuntimeError::ResourceExhausted),
                        ),
                    )
                } else {
                    Ok((self.vendor, Some(group)))
                },
            }
        } else if !plannable(requested(self.vendor, None)) {
            Err(
                crate::composition::admission_init_error(
                    TaskAdmissionError::Runtime(RuntimeError::ResourceExhausted),
                ),
            )
        } else {
            Ok((self.vendor, None))
        }
    }

    /// The claim after a reply, and what it asks for next.
    pub open spec fn next(self, reply: ClaimReply) -> (ProfileClaim, ClaimAction) {
        match (self.phase, reply) {
            (ClaimPhase::Runtime, ClaimReply::Runtime(result)) => match result {
                Err(error) => self.failed(crate::composition::runtime_init_error(error)),
                Ok(_) => (self.at(ClaimPhase::CurrentTask), ClaimAction::ReadCurrentTask),
            },
            (ClaimPhase::CurrentTask, ClaimReply::Runtime(result)) => match result {
                Err(error) => self.failed(crate::composition::runtime_init_error(error)),
                Ok(_) => match self.planned() {
                    Err(failure) => self.failed(failure),
                    Ok((vendor, worker)) => (
                        self.at(ClaimPhase::Reserving),
                        ClaimAction::Reserve { vendor, worker },
                    ),
                },
            },
            (ClaimPhase::Reserving, ClaimReply::Reserved(result)) => match result {
                Err(error) => self.failed(crate::composition::admission_init_error(error)),
                Ok(_) => (self.at(ClaimPhase::TakingVendor), ClaimAction::TakeVendor),
            },
            (ClaimPhase::TakingVendor, ClaimReply::Taken(taken)) => if !taken {
                self.failed(missing_reservation())
            } else if self.with_worker {
                (self.at(ClaimPhase::TakingWorker), ClaimAction::TakeWorker)
            } else {
                (self.at(ClaimPhase::Claiming), ClaimAction::ClaimStorage)
            },
            (ClaimPhase::TakingWorker, ClaimReply::Taken(taken)) => if taken {
                (self.at(ClaimPhase::Claiming), ClaimAction::ClaimStorage)
            } else {
                (
                    self.at(
                        ClaimPhase::ReleasingVendor {
                            worker: false,
                            failure: missing_reservation(),
                        },
                    ),
                    ClaimAction::ReleaseVendor,
                )
            },
            (ClaimPhase::Claiming, ClaimReply::Taken(claimed)) => if claimed {
                (self.at(ClaimPhase::Installing), ClaimAction::InstallVendor)
            } else {
                self.releasing(crate::composition::claimed_init_error())
            },
            (ClaimPhase::Installing, ClaimReply::Runtime(result)) => match result {
                Ok(_) => (self.at(ClaimPhase::Finished), ClaimAction::Done(Ok(()))),
                Err(error) => self.releasing(crate::composition::runtime_init_error(error)),
            },
            (ClaimPhase::ReleasingVendor { worker, failure }, ClaimReply::Runtime(result)) => {
                match result {
                    Err(error) => self.failed(crate::composition::runtime_init_error(error)),
                    Ok(_) => if worker {
                        (
                            self.at(ClaimPhase::ReleasingWorker { failure }),
                            ClaimAction::ReleaseWorker,
                        )
                    } else {
                        self.failed(failure)
                    },
                }
            },
            (ClaimPhase::ReleasingWorker { failure }, ClaimReply::Runtime(result)) => match result {
                Err(error) => self.failed(crate::composition::runtime_init_error(error)),
                Ok(_) => self.failed(failure),
            },
            _ => self.failed(missing_reservation()),
        }
    }

    /// A claim starts by requiring the runtime.
    pub fn new(vendor: TaskGroupPlan, with_worker: bool, worker: Option<TaskGroupPlan>) -> (claim:
        Self)
        ensures
            claim == (ProfileClaim { phase: ClaimPhase::Runtime, vendor, with_worker, worker }),
    {
        ProfileClaim { phase: ClaimPhase::Runtime, vendor, with_worker, worker }
    }

    fn finish(&mut self, failure: InitError) -> (action: ClaimAction)
        ensures
            (*final(self), action) == old(self).failed(failure),
    {
        self.phase = ClaimPhase::Finished;
        ClaimAction::Done(Err(failure))
    }

    fn plan(&self) -> (result: Result<(TaskGroupPlan, Option<TaskGroupPlan>), InitError>)
        ensures
            result == self.planned(),
    {
        let vendor = match task_resource_group(self.vendor) {
            Ok(group) => group,
            Err(failure) => {
                return Err(failure);
            },
        };
        if !self.with_worker {
            let groups: [TaskGroupPlan; 1] = [vendor];
            assert(groups@ =~= requested(vendor, None));
            if plan_accepted(groups.as_slice()) {
                return Ok((vendor, None));
            }
            return Err(
                InitError::task_admission(
                    TaskAdmissionError::Runtime(RuntimeError::ResourceExhausted),
                ),
            );
        }
        let worker = match self.worker {
            Some(group) => match task_resource_group(group) {
                Ok(group) => group,
                Err(failure) => {
                    return Err(failure);
                },
            },
            None => {
                return Err(
                    InitError::task_admission(TaskAdmissionError::Runtime(RuntimeError::Runtime)),
                );
            },
        };
        let groups: [TaskGroupPlan; 2] = [vendor, worker];
        assert(groups@ =~= requested(vendor, Some(worker)));
        if plan_accepted(groups.as_slice()) {
            Ok((vendor, Some(worker)))
        } else {
            Err(
                InitError::task_admission(
                    TaskAdmissionError::Runtime(RuntimeError::ResourceExhausted),
                ),
            )
        }
    }

    pub fn resume(&mut self, reply: ClaimReply) -> (action: ClaimAction)
        requires
            old(self).awaits(reply),
        ensures
            (*final(self), action) == old(self).next(reply),
    {
        match (self.phase, reply) {
            (ClaimPhase::Runtime, ClaimReply::Runtime(result)) => match result {
                Err(error) => self.finish(InitError::runtime(error)),
                Ok(_) => {
                    self.phase = ClaimPhase::CurrentTask;
                    ClaimAction::ReadCurrentTask
                },
            },
            (ClaimPhase::CurrentTask, ClaimReply::Runtime(result)) => match result {
                Err(error) => self.finish(InitError::runtime(error)),
                Ok(_) => match self.plan() {
                    Err(failure) => self.finish(failure),
                    Ok((vendor, worker)) => {
                        self.phase = ClaimPhase::Reserving;
                        ClaimAction::Reserve { vendor, worker }
                    },
                },
            },
            (ClaimPhase::Reserving, ClaimReply::Reserved(result)) => match result {
                Err(error) => self.finish(InitError::task_admission(error)),
                Ok(_) => {
                    self.phase = ClaimPhase::TakingVendor;
                    ClaimAction::TakeVendor
                },
            },
            (ClaimPhase::TakingVendor, ClaimReply::Taken(taken)) => {
                if !taken {
                    self.finish(
                        InitError::task_admission(
                            TaskAdmissionError::Runtime(RuntimeError::Runtime),
                        ),
                    )
                } else if self.with_worker {
                    self.phase = ClaimPhase::TakingWorker;
                    ClaimAction::TakeWorker
                } else {
                    self.phase = ClaimPhase::Claiming;
                    ClaimAction::ClaimStorage
                }
            },
            (ClaimPhase::TakingWorker, ClaimReply::Taken(taken)) => {
                if taken {
                    self.phase = ClaimPhase::Claiming;
                    ClaimAction::ClaimStorage
                } else {
                    let failure = InitError::task_admission(
                        TaskAdmissionError::Runtime(RuntimeError::Runtime),
                    );
                    self.phase = ClaimPhase::ReleasingVendor { worker: false, failure };
                    ClaimAction::ReleaseVendor
                }
            },
            (ClaimPhase::Claiming, ClaimReply::Taken(claimed)) => {
                if claimed {
                    self.phase = ClaimPhase::Installing;
                    ClaimAction::InstallVendor
                } else {
                    let failure = InitError::storage_already_claimed();
                    self.phase = ClaimPhase::ReleasingVendor { worker: self.with_worker, failure };
                    ClaimAction::ReleaseVendor
                }
            },
            (ClaimPhase::Installing, ClaimReply::Runtime(result)) => match result {
                Ok(_) => {
                    self.phase = ClaimPhase::Finished;
                    ClaimAction::Done(Ok(()))
                },
                Err(error) => {
                    let failure = InitError::runtime(error);
                    self.phase = ClaimPhase::ReleasingVendor { worker: self.with_worker, failure };
                    ClaimAction::ReleaseVendor
                },
            },
            (ClaimPhase::ReleasingVendor { worker, failure }, ClaimReply::Runtime(result)) => {
                match result {
                    Err(error) => self.finish(InitError::runtime(error)),
                    Ok(_) => {
                        if worker {
                            self.phase = ClaimPhase::ReleasingWorker { failure };
                            ClaimAction::ReleaseWorker
                        } else {
                            self.finish(failure)
                        }
                    },
                }
            },
            (ClaimPhase::ReleasingWorker { failure }, ClaimReply::Runtime(result)) => match result {
                Err(error) => self.finish(InitError::runtime(error)),
                Ok(_) => self.finish(failure),
            },
            _ => self.finish(
                InitError::task_admission(TaskAdmissionError::Runtime(RuntimeError::Runtime)),
            ),
        }
    }

    /// The reservations that the claim holds: of the vendor and of the worker.
    pub open spec fn holds(self) -> (bool, bool) {
        match self.phase {
            ClaimPhase::TakingWorker => (true, false),
            ClaimPhase::Claiming | ClaimPhase::Installing => (true, self.with_worker),
            ClaimPhase::ReleasingVendor { worker, .. } => (true, worker),
            ClaimPhase::ReleasingWorker { .. } => (false, true),
            _ => (false, false),
        }
    }
}

/// A failed claim keeps no reservation: when a step fails, what is held is given
/// back first, in order, unless giving back itself fails.
pub proof fn law_failed_claim_keeps_no_reservation(claim: ProfileClaim, reply: ClaimReply)
    requires
        claim.awaits(reply),
    ensures
        ({
            let (after, action) = claim.next(reply);
            &&& action matches ClaimAction::Done(Err(_)) ==> claim.holds() == (false, false) || (
            claim.phase is ReleasingVendor && reply matches ClaimReply::Runtime(Err(_))) || (
            claim.phase matches ClaimPhase::ReleasingVendor { worker, .. } && !worker)
                || claim.phase is ReleasingWorker
            &&& action is ReleaseVendor ==> after.holds().0
            &&& action is ReleaseWorker ==> claim.holds() == (true, true) && after.holds() == (
                false,
                true,
            )
            &&& action matches ClaimAction::Done(Ok(_)) ==> claim.holds() == (
                true,
                claim.with_worker,
            )
        }),
{
}

/// A single group that can be requested can always be planned, and so can two of
/// different owners whose totals can be counted.
pub proof fn law_valid_groups_are_planned(vendor: TaskGroupPlan, worker: TaskGroupPlan)
    requires
        vendor.valid(),
        worker.valid(),
    ensures
        plannable(requested(vendor, None)),
        plannable(requested(vendor, Some(worker))) <==> vendor.owner != worker.owner
            && vendor.task_slots + worker.task_slots <= usize::MAX && vendor.total_stack()
            + worker.total_stack() <= usize::MAX,
{
    reveal_with_fuel(all_slots, 3);
    reveal_with_fuel(all_stacks, 3);
    let one = requested(vendor, None);
    let two = requested(vendor, Some(worker));
    assert(two.drop_last() =~= one);
    assert(one.drop_last() =~= Seq::<TaskGroupPlan>::empty());
    assert(two[0].owner == vendor.owner && two[1].owner == worker.owner);
}

/// Tasks are reserved before the storage is claimed, and the storage is claimed
/// only with every reservation in hand.
pub proof fn law_storage_is_claimed_last(claim: ProfileClaim, reply: ClaimReply)
    requires
        claim.awaits(reply),
    ensures
        claim.next(reply).1 is ClaimStorage ==> claim.next(reply).0.holds() == (
            true,
            claim.with_worker,
        ),
        claim.next(reply).1 matches ClaimAction::Reserve { vendor, worker } ==> vendor.valid() && (
        worker matches Some(group) ==> group.valid()) && plannable(requested(vendor, worker)),
{
}

/// A group of tasks can be asked for exactly when it has an owner, a task and a stack,
/// and its stacks can be counted; it is then asked for as it is.
pub proof fn law_group_is_asked_for_as_planned(
    group: TaskGroupPlan,
    result: Result<TaskGroupPlan, InitError>,
)
    requires
        call_ensures(task_resource_group, (group,), result),
    ensures
        result is Ok <==> group.owner > 0 && group.task_slots > 0 && group.stack_bytes_per_task > 0
            && group.task_slots * group.stack_bytes_per_task <= usize::MAX,
        result matches Ok(planned) ==> planned == group,
        result matches Err(error) ==> error.kind is TaskAdmission,
        result is Err && group.owner > 0 && group.task_slots > 0 && group.stack_bytes_per_task > 0
            ==> result->Err_0 == crate::composition::admission_init_error(
            TaskAdmissionError::Runtime(RuntimeError::ResourceExhausted),
        ),
{
}

/// A claim that meets no obstacle takes every step once, in this order: the runtime and
/// the current task are checked, the groups of the profile are reserved, with that of the
/// worker where there is one, and taken, the storage is claimed, and the vendor's tasks
/// are installed.
pub proof fn law_claim_takes_every_step_in_order(claim: ProfileClaim)
    ensures
        ({
            let ready = claim.next(ClaimReply::Runtime(Ok(())));
            let reserved = claim.next(ClaimReply::Reserved(Ok(())));
            let taken = claim.next(ClaimReply::Taken(true));
            &&& claim.phase is Runtime ==> ready.1 is ReadCurrentTask && ready.0.phase is CurrentTask
            &&& claim.phase is CurrentTask && claim.vendor.valid() && !claim.with_worker
                ==> ready.1 == (ClaimAction::Reserve { vendor: claim.vendor, worker: None })
                && ready.0.phase is Reserving
            &&& claim.phase is CurrentTask && claim.vendor.valid() && claim.with_worker
                && claim.worker is Some && claim.worker->0.valid() && plannable(
                seq![claim.vendor, claim.worker->0],
            ) ==> ready.1 == (ClaimAction::Reserve { vendor: claim.vendor, worker: claim.worker })
                && ready.0.phase is Reserving
            &&& claim.phase is Reserving ==> reserved.1 is TakeVendor
                && reserved.0.phase is TakingVendor
            &&& claim.phase is TakingVendor ==> (taken.1 is TakeWorker <==> claim.with_worker) && (
            taken.1 is ClaimStorage <==> !claim.with_worker)
            &&& claim.phase is TakingWorker ==> taken.1 is ClaimStorage && taken.0.phase is Claiming
            &&& claim.phase is Claiming ==> taken.1 is InstallVendor && taken.0.phase is Installing
            &&& claim.phase is Installing ==> ready.1 == ClaimAction::Done(Ok::<(), InitError>(()))
        }),
{
    if claim.vendor.valid() {
        law_valid_groups_are_planned(claim.vendor, claim.vendor);
    }
}

/// A step that fails ends the claim with the failure of that step, once everything that
/// was taken was given back: first the vendor's tasks, then the worker's.
pub proof fn law_failed_step_is_what_a_claim_ends_with(
    claim: ProfileClaim,
    runtime: RuntimeError,
    admission: TaskAdmissionError,
)
    ensures
        ({
            let failed = claim.next(ClaimReply::Runtime(Err(runtime)));
            let released = claim.next(ClaimReply::Runtime(Ok(())));
            let refused = claim.next(ClaimReply::Reserved(Err(admission)));
            let missing = claim.next(ClaimReply::Taken(false));
            let of_runtime = crate::composition::runtime_init_error(runtime);
            &&& claim.phase is Runtime || claim.phase is CurrentTask ==> failed.1
                == ClaimAction::Done(Err::<(), InitError>(of_runtime))
            &&& claim.phase is Reserving ==> refused.1 == ClaimAction::Done(
                Err::<(), InitError>(crate::composition::admission_init_error(admission)),
            )
            &&& claim.phase is TakingVendor ==> missing.1 is Done && missing.1->Done_0 is Err
            &&& claim.phase is TakingWorker ==> missing.1 is ReleaseVendor
                && missing.0.phase is ReleasingVendor && !missing.0.phase->worker
            &&& claim.phase is Claiming ==> missing.1 is ReleaseVendor && missing.0.phase
                == (ClaimPhase::ReleasingVendor {
                worker: claim.with_worker,
                failure: crate::composition::claimed_init_error(),
            })
            &&& claim.phase is Installing ==> failed.1 is ReleaseVendor && failed.0.phase
                == (ClaimPhase::ReleasingVendor { worker: claim.with_worker, failure: of_runtime })
            &&& claim.phase matches ClaimPhase::ReleasingVendor { worker, failure } ==> (worker
                ==> released.1 is ReleaseWorker && released.0.phase == (
            ClaimPhase::ReleasingWorker { failure })) && (!worker ==> released.1
                == ClaimAction::Done(Err::<(), InitError>(failure))) && failed.1
                == ClaimAction::Done(Err::<(), InitError>(of_runtime))
            &&& claim.phase matches ClaimPhase::ReleasingWorker { failure } ==> released.1
                == ClaimAction::Done(Err::<(), InitError>(failure)) && failed.1
                == ClaimAction::Done(Err::<(), InitError>(of_runtime))
        }),
{
}

} // verus!
