//! Initialization of a radio instance, after its storage was claimed.

use crate::composition::InitError;
use crate::error::{RuntimeError, TaskAdmissionError};
use crate::radio::{BackendError, RadioError};
use vstd::prelude::*;

verus! {

/// What an initialization asks for next.
#[derive(Clone, Copy, Debug, PartialEq, Eq)]
pub enum InitAction {
    RequireRuntime,
    ClaimStorage,
    InitializeBackend,
    ConvertBackend,
    StartWorker,
    CreateController,
    ReleaseVendor,
    ReleaseWorker,
    Done(Result<(), InitError>),
}

/// The answer to what an initialization asked for.
#[derive(Clone, Copy, Debug, PartialEq, Eq)]
pub enum InitReply {
    Runtime(Result<(), RuntimeError>),
    /// Whether the claim came with a reservation for the worker.
    Claimed(Result<bool, InitError>),
    Backend(Result<(), BackendError>),
    Controller(Result<(), RadioError>),
}

/// What an initialization waits for.
#[derive(Clone, Copy, Debug, PartialEq, Eq, Structural)]
pub enum InitPhase {
    Runtime,
    Claiming,
    Initializing,
    Converting,
    Starting,
    Creating,
    ReleasingVendor { failure: InitError },
    ReleasingWorker { failure: InitError },
    Finished,
}

/// The blocking initialization.
#[derive(Clone, Copy, Debug)]
pub struct BlockingInit {
    pub phase: InitPhase,
    pub worker: bool,
}

/// The initialization for the bounded incremental runner.
#[derive(Clone, Copy, Debug)]
pub struct IncrementalInit {
    pub phase: InitPhase,
    /// The composition runs a worker.
    pub with_worker: bool,
    /// A worker reservation is held.
    pub worker: bool,
}

impl BlockingInit {
    pub open spec fn awaits(self, reply: InitReply) -> bool {
        match self.phase {
            InitPhase::Claiming => reply is Claimed,
            InitPhase::Creating => reply is Controller,
            InitPhase::ReleasingVendor { .. } | InitPhase::ReleasingWorker { .. } => reply
                is Runtime,
            _ => false,
        }
    }

    pub open spec fn done(self, result: Result<(), InitError>) -> (BlockingInit, InitAction) {
        (BlockingInit { phase: InitPhase::Finished, ..self }, InitAction::Done(result))
    }

    /// The initialization after a reply, and what it asks for next. A rejected
    /// controller gives both reservations back.
    pub open spec fn next(self, reply: InitReply) -> (BlockingInit, InitAction) {
        match (self.phase, reply) {
            (InitPhase::Claiming, InitReply::Claimed(result)) => match result {
                Err(failure) => self.done(Err(failure)),
                Ok(worker) => (
                    BlockingInit { phase: InitPhase::Creating, worker },
                    InitAction::CreateController,
                ),
            },
            (InitPhase::Creating, InitReply::Controller(result)) => match result {
                Ok(_) => self.done(Ok(())),
                Err(error) => (
                    BlockingInit {
                        phase: InitPhase::ReleasingVendor {
                            failure: crate::composition::core_init_error(error),
                        },
                        ..self
                    },
                    InitAction::ReleaseVendor,
                ),
            },
            (InitPhase::ReleasingVendor { failure }, InitReply::Runtime(result)) => match result {
                Err(error) => self.done(Err(crate::composition::runtime_init_error(error))),
                Ok(_) => if self.worker {
                    (
                        BlockingInit { phase: InitPhase::ReleasingWorker { failure }, ..self },
                        InitAction::ReleaseWorker,
                    )
                } else {
                    self.done(Err(failure))
                },
            },
            (InitPhase::ReleasingWorker { failure }, InitReply::Runtime(result)) => match result {
                Err(error) => self.done(Err(crate::composition::runtime_init_error(error))),
                Ok(_) => self.done(Err(failure)),
            },
            _ => self.done(Err(crate::composition::core_init_error(RadioError::Protocol))),
        }
    }

    /// An initialization starts by claiming the storage.
    pub fn new() -> (init: Self)
        ensures
            init.phase is Claiming,
            !init.worker,
    {
        BlockingInit { phase: InitPhase::Claiming, worker: false }
    }

    fn finish(&mut self, result: Result<(), InitError>) -> (action: InitAction)
        ensures
            (*final(self), action) == old(self).done(result),
    {
        self.phase = InitPhase::Finished;
        InitAction::Done(result)
    }

    pub fn resume(&mut self, reply: InitReply) -> (action: InitAction)
        requires
            old(self).awaits(reply),
        ensures
            (*final(self), action) == old(self).next(reply),
    {
        match (self.phase, reply) {
            (InitPhase::Claiming, InitReply::Claimed(result)) => match result {
                Err(failure) => self.finish(Err(failure)),
                Ok(worker) => {
                    self.worker = worker;
                    self.phase = InitPhase::Creating;
                    InitAction::CreateController
                },
            },
            (InitPhase::Creating, InitReply::Controller(result)) => match result {
                Ok(unit) => self.finish(Ok(unit)),
                Err(error) => {
                    self.phase = InitPhase::ReleasingVendor { failure: InitError::controller(error) };
                    InitAction::ReleaseVendor
                },
            },
            (InitPhase::ReleasingVendor { failure }, InitReply::Runtime(result)) => match result {
                Err(error) => self.finish(Err(InitError::runtime(error))),
                Ok(_) => {
                    if self.worker {
                        self.phase = InitPhase::ReleasingWorker { failure };
                        InitAction::ReleaseWorker
                    } else {
                        self.finish(Err(failure))
                    }
                },
            },
            (InitPhase::ReleasingWorker { failure }, InitReply::Runtime(result)) => match result {
                Err(error) => self.finish(Err(InitError::runtime(error))),
                Ok(_) => self.finish(Err(failure)),
            },
            _ => self.finish(Err(InitError::controller(RadioError::Protocol))),
        }
    }
}

impl IncrementalInit {
    pub open spec fn awaits(self, reply: InitReply) -> bool {
        match self.phase {
            InitPhase::Runtime | InitPhase::Starting
            | InitPhase::ReleasingWorker { .. } => reply is Runtime,
            InitPhase::Claiming => reply is Claimed,
            InitPhase::Initializing | InitPhase::Converting => reply is Backend,
            InitPhase::Creating => reply is Controller,
            _ => false,
        }
    }

    pub open spec fn at(self, phase: InitPhase) -> IncrementalInit {
        IncrementalInit { phase, ..self }
    }

    pub open spec fn done(self, result: Result<(), InitError>) -> (IncrementalInit, InitAction) {
        (self.at(InitPhase::Finished), InitAction::Done(result))
    }

    /// Give the worker's reservation back, if there is one, and report the
    /// failure. The vendor's tasks may already run and stay claimed.
    pub open spec fn abandoned(self, failure: InitError) -> (IncrementalInit, InitAction) {
        if self.with_worker && self.worker {
            (self.at(InitPhase::ReleasingWorker { failure }), InitAction::ReleaseWorker)
        } else {
            self.done(Err(failure))
        }
    }

    /// The initialization after a reply, and what it asks for next.
    pub open spec fn next(self, reply: InitReply) -> (IncrementalInit, InitAction) {
        match (self.phase, reply) {
            (InitPhase::Runtime, InitReply::Runtime(result)) => match result {
                Err(error) => self.done(Err(crate::composition::runtime_init_error(error))),
                Ok(_) => (self.at(InitPhase::Claiming), InitAction::ClaimStorage),
            },
            (InitPhase::Claiming, InitReply::Claimed(result)) => match result {
                Err(failure) => self.done(Err(failure)),
                Ok(worker) => (
                    IncrementalInit { phase: InitPhase::Initializing, worker, ..self },
                    InitAction::InitializeBackend,
                ),
            },
            (InitPhase::Initializing, InitReply::Backend(result)) => match result {
                Err(error) => self.abandoned(crate::composition::core_init_error(RadioError::Backend(error))),
                Ok(_) => (self.at(InitPhase::Converting), InitAction::ConvertBackend),
            },
            (InitPhase::Converting, InitReply::Backend(result)) => match result {
                Err(error) => self.abandoned(crate::composition::core_init_error(RadioError::Backend(error))),
                Ok(_) => if !self.with_worker {
                    (self.at(InitPhase::Creating), InitAction::CreateController)
                } else if !self.worker {
                    self.done(
                        Err(
                            crate::composition::admission_init_error(
                                TaskAdmissionError::Runtime(RuntimeError::Runtime),
                            ),
                        ),
                    )
                } else {
                    (self.at(InitPhase::Starting), InitAction::StartWorker)
                },
            },
            (InitPhase::Starting, InitReply::Runtime(result)) => match result {
                Err(error) => (
                    self.at(
                        InitPhase::ReleasingWorker {
                            failure: crate::composition::runtime_init_error(error),
                        },
                    ),
                    InitAction::ReleaseWorker,
                ),
                Ok(_) => (self.at(InitPhase::Creating), InitAction::CreateController),
            },
            (InitPhase::Creating, InitReply::Controller(result)) => match result {
                Ok(_) => self.done(Ok(())),
                Err(error) => self.done(Err(crate::composition::core_init_error(error))),
            },
            (InitPhase::ReleasingWorker { failure }, InitReply::Runtime(result)) => match result {
                Err(error) => self.done(Err(crate::composition::runtime_init_error(error))),
                Ok(_) => self.done(Err(failure)),
            },
            _ => self.done(Err(crate::composition::core_init_error(RadioError::Protocol))),
        }
    }

    /// With a worker, the budgeted runtime is required before anything is
    /// claimed.
    pub fn new(with_worker: bool) -> (init: Self)
        ensures
            init == (IncrementalInit {
                phase: if with_worker {
                    InitPhase::Runtime
                } else {
                    InitPhase::Claiming
                },
                with_worker,
                worker: false,
            }),
    {
        IncrementalInit {
            phase: if with_worker {
                InitPhase::Runtime
            } else {
                InitPhase::Claiming
            },
            with_worker,
            worker: false,
        }
    }

    fn finish(&mut self, result: Result<(), InitError>) -> (action: InitAction)
        ensures
            (*final(self), action) == old(self).done(result),
    {
        self.phase = InitPhase::Finished;
        InitAction::Done(result)
    }

    fn abandon(&mut self, failure: InitError) -> (action: InitAction)
        ensures
            (*final(self), action) == old(self).abandoned(failure),
    {
        if self.with_worker && self.worker {
            self.phase = InitPhase::ReleasingWorker { failure };
            InitAction::ReleaseWorker
        } else {
            self.finish(Err(failure))
        }
    }

    pub fn resume(&mut self, reply: InitReply) -> (action: InitAction)
        requires
            old(self).awaits(reply),
        ensures
            (*final(self), action) == old(self).next(reply),
    {
        match (self.phase, reply) {
            (InitPhase::Runtime, InitReply::Runtime(result)) => match result {
                Err(error) => self.finish(Err(InitError::runtime(error))),
                Ok(_) => {
                    self.phase = InitPhase::Claiming;
                    InitAction::ClaimStorage
                },
            },
            (InitPhase::Claiming, InitReply::Claimed(result)) => match result {
                Err(failure) => self.finish(Err(failure)),
                Ok(worker) => {
                    self.worker = worker;
                    self.phase = InitPhase::Initializing;
                    InitAction::InitializeBackend
                },
            },
            (InitPhase::Initializing, InitReply::Backend(result)) => match result {
                Err(error) => self.abandon(InitError::controller(RadioError::Backend(error))),
                Ok(_) => {
                    self.phase = InitPhase::Converting;
                    InitAction::ConvertBackend
                },
            },
            (InitPhase::Converting, InitReply::Backend(result)) => match result {
                Err(error) => self.abandon(InitError::controller(RadioError::Backend(error))),
                Ok(_) => {
                    if !self.with_worker {
                        self.phase = InitPhase::Creating;
                        InitAction::CreateController
                    } else if !self.worker {
                        self.finish(
                            Err(
                                InitError::task_admission(
                                    TaskAdmissionError::Runtime(RuntimeError::Runtime),
                                ),
                            ),
                        )
                    } else {
                        self.phase = InitPhase::Starting;
                        InitAction::StartWorker
                    }
                },
            },
            (InitPhase::Starting, InitReply::Runtime(result)) => match result {
                Err(error) => {
                    self.phase = InitPhase::ReleasingWorker { failure: InitError::runtime(error) };
                    InitAction::ReleaseWorker
                },
                Ok(_) => {
                    self.phase = InitPhase::Creating;
                    InitAction::CreateController
                },
            },
            (InitPhase::Creating, InitReply::Controller(result)) => match result {
                Ok(unit) => self.finish(Ok(unit)),
                Err(error) => self.finish(Err(InitError::controller(error))),
            },
            (InitPhase::ReleasingWorker { failure }, InitReply::Runtime(result)) => match result {
                Err(error) => self.finish(Err(InitError::runtime(error))),
                Ok(_) => self.finish(Err(failure)),
            },
            _ => self.finish(Err(InitError::controller(RadioError::Protocol))),
        }
    }
}

/// A blocking initialization succeeds only with a controller.
pub proof fn law_blocking_success_needs_a_controller(init: BlockingInit, reply: InitReply)
    requires
        init.awaits(reply),
        init.next(reply).1 == InitAction::Done(Ok(())),
    ensures
        init.phase is Creating,
        reply matches InitReply::Controller(result) && result is Ok,
{
}

/// An incremental initialization succeeds only with a controller, and never gives
/// the vendor's tasks back: they may already run.
pub proof fn law_incremental_success_needs_a_controller(init: IncrementalInit, reply: InitReply)
    requires
        init.awaits(reply),
    ensures
        init.next(reply).1 == InitAction::Done(Ok(())) ==> init.phase is Creating && (
        reply matches InitReply::Controller(result) && result is Ok),
        !(init.next(reply).1 is ReleaseVendor),
{
}

/// A blocking initialization claims its storage, and then creates its controller. A
/// refused controller gives the vendor's tasks back, and then the worker's where there
/// are any, and ends with the refusal; a claim that failed ends with its own failure.
pub proof fn law_blocking_initialization_goes_in_order(
    init: BlockingInit,
    worker: bool,
    failure: InitError,
    refusal: RadioError,
    runtime: RuntimeError,
)
    ensures
        ({
            let claimed = init.next(InitReply::Claimed(Ok(worker)));
            let unclaimed = init.next(InitReply::Claimed(Err(failure)));
            let created = init.next(InitReply::Controller(Ok(())));
            let refused = init.next(InitReply::Controller(Err(refusal)));
            let released = init.next(InitReply::Runtime(Ok(())));
            let kept = init.next(InitReply::Runtime(Err(runtime)));
            let told = crate::composition::core_init_error(refusal);
            let stuck = InitAction::Done(
                Err::<(), InitError>(crate::composition::runtime_init_error(runtime)),
            );
            &&& init.phase is Claiming ==> claimed.1 is CreateController && claimed.0.worker
                == worker && claimed.0.phase is Creating
            &&& init.phase is Claiming ==> unclaimed.1 == InitAction::Done(
                Err::<(), InitError>(failure),
            )
            &&& init.phase is Creating ==> created.1 == InitAction::Done(Ok::<(), InitError>(()))
            &&& init.phase is Creating ==> refused.1 is ReleaseVendor && refused.0.phase == (
            InitPhase::ReleasingVendor { failure: told }) && refused.0.worker == init.worker
            &&& init.phase == (InitPhase::ReleasingVendor { failure }) ==> (init.worker
                ==> released.1 is ReleaseWorker && released.0.phase == (
            InitPhase::ReleasingWorker { failure })) && (!init.worker ==> released.1
                == InitAction::Done(Err::<(), InitError>(failure))) && kept.1 == stuck
            &&& init.phase == (InitPhase::ReleasingWorker { failure }) ==> released.1
                == InitAction::Done(Err::<(), InitError>(failure)) && kept.1 == stuck
        }),
{
}

/// An incremental initialization requires its runtime where it has a worker, claims its
/// storage, initializes and converts its backend, starts its worker where it has one, and
/// creates its controller.
pub proof fn law_incremental_initialization_goes_in_order(
    with_worker: bool,
    start: IncrementalInit,
    init: IncrementalInit,
    worker: bool,
)
    requires
        call_ensures(IncrementalInit::new, (with_worker,), start),
    ensures
        start.phase is Runtime <==> with_worker,
        start.phase is Claiming <==> !with_worker,
        start.with_worker == with_worker && !start.worker,
        ({
            let ready = init.next(InitReply::Runtime(Ok(())));
            let claimed = init.next(InitReply::Claimed(Ok(worker)));
            let done = init.next(InitReply::Backend(Ok(())));
            let created = init.next(InitReply::Controller(Ok(())));
            &&& init.phase is Runtime ==> ready.1 is ClaimStorage && ready.0.phase is Claiming
            &&& init.phase is Claiming ==> claimed.1 is InitializeBackend && claimed.0.worker
                == worker && claimed.0.phase is Initializing
            &&& init.phase is Initializing ==> done.1 is ConvertBackend
                && done.0.phase is Converting
            &&& init.phase is Converting ==> (done.1 is CreateController <==> !init.with_worker) && (
            done.1 is StartWorker <==> init.with_worker && init.worker) && (
            done.1 is Done && done.1->Done_0 is Err <==> init.with_worker && !init.worker)
            &&& init.phase is Starting ==> ready.1 is CreateController && ready.0.phase is Creating
            &&& init.phase is Creating ==> created.1 == InitAction::Done(Ok::<(), InitError>(()))
            &&& ready.0.with_worker == init.with_worker && done.0.worker == init.worker
        }),
{
}

/// A step that fails ends an incremental initialization with the failure of that step,
/// once the worker's reservation was given back where one is held.
pub proof fn law_failed_step_is_what_an_initialization_ends_with(
    init: IncrementalInit,
    failure: InitError,
    runtime: RuntimeError,
    backend: BackendError,
    refusal: RadioError,
)
    ensures
        ({
            let unready = init.next(InitReply::Runtime(Err(runtime)));
            let released = init.next(InitReply::Runtime(Ok(())));
            let unclaimed = init.next(InitReply::Claimed(Err(failure)));
            let broken = init.next(InitReply::Backend(Err(backend)));
            let refused = init.next(InitReply::Controller(Err(refusal)));
            let of_runtime = crate::composition::runtime_init_error(runtime);
            let of_backend = crate::composition::core_init_error(RadioError::Backend(backend));
            let held = init.with_worker && init.worker;
            &&& init.phase is Runtime ==> unready.1 == InitAction::Done(
                Err::<(), InitError>(of_runtime),
            )
            &&& init.phase is Claiming ==> unclaimed.1 == InitAction::Done(
                Err::<(), InitError>(failure),
            )
            &&& init.phase is Initializing || init.phase is Converting ==> (held
                ==> broken.1 is ReleaseWorker && broken.0.phase == (InitPhase::ReleasingWorker {
                failure: of_backend,
            })) && (!held ==> broken.1 == InitAction::Done(Err::<(), InitError>(of_backend)))
            &&& init.phase is Starting ==> unready.1 is ReleaseWorker && unready.0.phase == (
            InitPhase::ReleasingWorker { failure: of_runtime })
            &&& init.phase is Creating ==> refused.1 == InitAction::Done(
                Err::<(), InitError>(crate::composition::core_init_error(refusal)),
            )
            &&& init.phase == (InitPhase::ReleasingWorker { failure }) ==> released.1
                == InitAction::Done(Err::<(), InitError>(failure)) && unready.1 == InitAction::Done(
                Err::<(), InitError>(of_runtime),
            )
        }),
{
}

} // verus!
