//! Initialization of the controller and host.
//!
//! The steps are taken one by one. Each names what is to be done, and its status
//! decides what is done next.

use crate::ble::controller::BleB1Controller;
use crate::ble::storage::InstalledBleB1Storage;
use crate::ble::{
    BleB1InitError, Platform, OWNER_BT, OWNER_BTH_SDK, OWNER_BT_SDK, OWNER_BT_SERVICE, PRIORITY_BT,
    PRIORITY_BTH_SDK, PRIORITY_BT_SDK, PRIORITY_BT_SERVICE, STACK_BT, STACK_BTH_SDK, STACK_BT_SDK,
    STACK_BT_SERVICE,
};
use crate::composition::claim::{plan_accepted, requirements_fit, TaskGroupPlan};
use vstd::prelude::*;

verus! {

/// The group of one task, for an owner.
pub fn task_group(owner: u32, stack_bytes: usize) -> (result: Result<TaskGroupPlan, BleB1InitError>)
    ensures
        result == (if owner == 0 || stack_bytes == 0 {
            Err::<TaskGroupPlan, BleB1InitError>(BleB1InitError::TaskPlan)
        } else {
            Ok(TaskGroupPlan { owner, task_slots: 1, stack_bytes_per_task: stack_bytes })
        }),
{
    if owner == 0 || stack_bytes == 0 {
        return Err(BleB1InitError::TaskPlan);
    }
    if requirements_fit(1, stack_bytes) {
        Ok(TaskGroupPlan { owner, task_slots: 1, stack_bytes_per_task: stack_bytes })
    } else {
        Err(BleB1InitError::TaskPlan)
    }
}

/// The groups of the four vendor tasks, in the order in which they are spawned.
pub open spec fn b1_groups() -> Seq<TaskGroupPlan> {
    seq![
        TaskGroupPlan { owner: OWNER_BT, task_slots: 1, stack_bytes_per_task: STACK_BT },
        TaskGroupPlan { owner: OWNER_BT_SDK, task_slots: 1, stack_bytes_per_task: STACK_BT_SDK },
        TaskGroupPlan { owner: OWNER_BTH_SDK, task_slots: 1, stack_bytes_per_task: STACK_BTH_SDK },
        TaskGroupPlan {
            owner: OWNER_BT_SERVICE,
            task_slots: 1,
            stack_bytes_per_task: STACK_BT_SERVICE,
        },
    ]
}

pub fn b1_task_groups() -> (result: Result<[TaskGroupPlan; 4], BleB1InitError>)
    ensures
        result matches Ok(groups) && groups@ == b1_groups(),
{
    match (
        task_group(OWNER_BT, STACK_BT),
        task_group(OWNER_BT_SDK, STACK_BT_SDK),
        task_group(OWNER_BTH_SDK, STACK_BTH_SDK),
        task_group(OWNER_BT_SERVICE, STACK_BT_SERVICE),
    ) {
        (Ok(bt), Ok(bt_sdk), Ok(bth_sdk), Ok(bt_service)) => {
            let groups: [TaskGroupPlan; 4] = [bt, bt_sdk, bth_sdk, bt_service];
            assert(groups@ =~= b1_groups());
            Ok(groups)
        },
        _ => Err(BleB1InitError::TaskPlan),
    }
}

/// The groups of the four vendor tasks, which can be reserved as one plan.
pub fn b1_task_plan() -> (result: Result<[TaskGroupPlan; 4], BleB1InitError>)
    ensures
        result matches Ok(groups) && groups@ == b1_groups(),
{
    let groups = match b1_task_groups() {
        Ok(groups) => groups,
        Err(error) => {
            return Err(error);
        },
    };
    proof {
        law_task_groups_form_one_plan();
    }
    if plan_accepted(groups.as_slice()) {
        Ok(groups)
    } else {
        Err(BleB1InitError::TaskPlan)
    }
}

/// One of the four vendor tasks.
#[derive(Clone, Copy, Debug, PartialEq, Eq, Structural)]
pub enum BleTask {
    Bt,
    BtSdk,
    BthSdk,
    BtService,
}

impl BleTask {
    /// The place of the task in the plan.
    pub open spec fn place(self) -> int {
        match self {
            BleTask::Bt => 0,
            BleTask::BtSdk => 1,
            BleTask::BthSdk => 2,
            BleTask::BtService => 3,
        }
    }

    pub fn index(self) -> (index: usize)
        ensures
            index == self.place(),
    {
        match self {
            BleTask::Bt => 0,
            BleTask::BtSdk => 1,
            BleTask::BthSdk => 2,
            BleTask::BtService => 3,
        }
    }

    /// The stack that the task is spawned with, which its group reserved.
    pub fn stack_bytes(self) -> (bytes: usize)
        ensures
            bytes == b1_groups()[self.place()].stack_bytes_per_task,
    {
        match self {
            BleTask::Bt => STACK_BT,
            BleTask::BtSdk => STACK_BT_SDK,
            BleTask::BthSdk => STACK_BTH_SDK,
            BleTask::BtService => STACK_BT_SERVICE,
        }
    }

    /// The priority that the task is spawned with.
    pub fn priority(self) -> (priority: u8)
        ensures
            priority == (match self {
                BleTask::Bt => PRIORITY_BT,
                BleTask::BtSdk => PRIORITY_BT_SDK,
                BleTask::BthSdk => PRIORITY_BTH_SDK,
                BleTask::BtService => PRIORITY_BT_SERVICE,
            }),
    {
        match self {
            BleTask::Bt => PRIORITY_BT,
            BleTask::BtSdk => PRIORITY_BT_SDK,
            BleTask::BthSdk => PRIORITY_BTH_SDK,
            BleTask::BtService => PRIORITY_BT_SERVICE,
        }
    }
}

/// A line that reports how far initialization came.
#[derive(Clone, Copy, Debug, PartialEq, Eq, Structural)]
pub enum BleInitMarker {
    LinkContract,
    VendorMemory,
    Timebase,
    Efuse,
    Crypto,
    CryptoCompatible,
    CryptoIncompatible,
    GapCallbacks,
    GattCallbacks,
    Admission,
    SpawnBatch,
    SchedulerUnlocked,
    TasksPrimed,
    EnableBegin,
}

impl BleInitMarker {
    /// The text of the line.
    pub open spec fn spec_text(self) -> &'static str {
        match self {
            BleInitMarker::LinkContract => "RFDBG_BLE_B1_LINK_CONTRACT_OK\r\n",
            BleInitMarker::VendorMemory => "RFDBG_BLE_B1_VENDOR_MEMORY_OK\r\n",
            BleInitMarker::Timebase => "RFDBG_BLE_B1_TIMEBASE_OK\r\n",
            BleInitMarker::Efuse => "RFDBG_BLE_B1_EFUSE_OK\r\n",
            BleInitMarker::Crypto => "RFDBG_BLE_B1_CRYPTO_OK\r\n",
            BleInitMarker::CryptoCompatible => "RFDBG_BLE_U5B_CRYPTO_COMPAT_OK\r\n",
            BleInitMarker::CryptoIncompatible => "RFDBG_BLE_U5B_CRYPTO_COMPAT_ERR\r\n",
            BleInitMarker::GapCallbacks => "RFDBG_BLE_B2_CALLBACKS_OK\r\n",
            BleInitMarker::GattCallbacks => "RFDBG_BLE_B3_CALLBACKS_OK\r\n",
            BleInitMarker::Admission => "RFDBG_BLE_B1_ADMISSION_OK\r\n",
            BleInitMarker::SpawnBatch => "RFDBG_BLE_B1_SPAWN_BATCH_DONE\r\n",
            BleInitMarker::SchedulerUnlocked => "RFDBG_BLE_B1_SCHEDULER_UNLOCKED\r\n",
            BleInitMarker::TasksPrimed => "RFDBG_BLE_B1_TASKS_PRIMED\r\n",
            BleInitMarker::EnableBegin => "RFDBG_BLE_B1_ENABLE_BEGIN\r\n",
        }
    }

    pub fn text(self) -> (text: &'static str)
        ensures
            text == self.spec_text(),
    {
        match self {
            BleInitMarker::LinkContract => "RFDBG_BLE_B1_LINK_CONTRACT_OK\r\n",
            BleInitMarker::VendorMemory => "RFDBG_BLE_B1_VENDOR_MEMORY_OK\r\n",
            BleInitMarker::Timebase => "RFDBG_BLE_B1_TIMEBASE_OK\r\n",
            BleInitMarker::Efuse => "RFDBG_BLE_B1_EFUSE_OK\r\n",
            BleInitMarker::Crypto => "RFDBG_BLE_B1_CRYPTO_OK\r\n",
            BleInitMarker::CryptoCompatible => "RFDBG_BLE_U5B_CRYPTO_COMPAT_OK\r\n",
            BleInitMarker::CryptoIncompatible => "RFDBG_BLE_U5B_CRYPTO_COMPAT_ERR\r\n",
            BleInitMarker::GapCallbacks => "RFDBG_BLE_B2_CALLBACKS_OK\r\n",
            BleInitMarker::GattCallbacks => "RFDBG_BLE_B3_CALLBACKS_OK\r\n",
            BleInitMarker::Admission => "RFDBG_BLE_B1_ADMISSION_OK\r\n",
            BleInitMarker::SpawnBatch => "RFDBG_BLE_B1_SPAWN_BATCH_DONE\r\n",
            BleInitMarker::SchedulerUnlocked => "RFDBG_BLE_B1_SCHEDULER_UNLOCKED\r\n",
            BleInitMarker::TasksPrimed => "RFDBG_BLE_B1_TASKS_PRIMED\r\n",
            BleInitMarker::EnableBegin => "RFDBG_BLE_B1_ENABLE_BEGIN\r\n",
        }
    }
}

/// What initialization asks for.
#[derive(Clone, Copy, Debug, PartialEq, Eq)]
pub enum BleInitAction {
    EnsureLinkContract,
    PrepareVendorMemory,
    /// Its status is not used.
    InitializeTimebases,
    EnableEfuseReads,
    InstallCrypto,
    /// Compare the crypto services with known answers.
    CryptoSelfTest,
    /// Publish the event queue, which is done once in a process.
    PublishEvents,
    RegisterGapCallbacks,
    RegisterGattServerCallbacks,
    RegisterGattClientCallbacks,
    /// Make one plan of the groups.
    PlanTasks,
    /// Reserve every task of the plan, or none.
    ReserveTasks,
    LockScheduler,
    Spawn(BleTask),
    UnlockScheduler,
    /// Let the newly ready tasks run.
    YieldNow,
    EnableBle,
    Log(BleInitMarker),
    Done(Result<(), BleB1InitError>),
}

/// Initialization under way.
#[derive(Clone, Copy, Debug, PartialEq, Eq)]
pub struct BleInit {
    /// Whether the crypto services are tested.
    pub self_test: bool,
    pub action: BleInitAction,
    /// The task that could not be spawned, until the scheduler is unlocked.
    pub spawn_failure: Option<BleB1InitError>,
}

impl BleInit {
    /// What follows once the action was done.
    pub open spec fn following(self) -> BleInitAction {
        match self.action {
            BleInitAction::EnsureLinkContract => BleInitAction::Log(BleInitMarker::LinkContract),
            BleInitAction::PrepareVendorMemory => BleInitAction::Log(BleInitMarker::VendorMemory),
            BleInitAction::InitializeTimebases => BleInitAction::Log(BleInitMarker::Timebase),
            BleInitAction::EnableEfuseReads => BleInitAction::Log(BleInitMarker::Efuse),
            BleInitAction::InstallCrypto => BleInitAction::Log(BleInitMarker::Crypto),
            BleInitAction::CryptoSelfTest => BleInitAction::Log(BleInitMarker::CryptoCompatible),
            BleInitAction::PublishEvents => BleInitAction::RegisterGapCallbacks,
            BleInitAction::RegisterGapCallbacks => BleInitAction::Log(BleInitMarker::GapCallbacks),
            BleInitAction::RegisterGattServerCallbacks => {
                BleInitAction::RegisterGattClientCallbacks
            },
            BleInitAction::RegisterGattClientCallbacks => BleInitAction::Log(
                BleInitMarker::GattCallbacks,
            ),
            BleInitAction::PlanTasks => BleInitAction::ReserveTasks,
            BleInitAction::ReserveTasks => BleInitAction::Log(BleInitMarker::Admission),
            BleInitAction::LockScheduler => BleInitAction::Spawn(BleTask::Bt),
            BleInitAction::Spawn(BleTask::Bt) => BleInitAction::Spawn(BleTask::BtSdk),
            BleInitAction::Spawn(BleTask::BtSdk) => BleInitAction::Spawn(BleTask::BthSdk),
            BleInitAction::Spawn(BleTask::BthSdk) => BleInitAction::Spawn(BleTask::BtService),
            BleInitAction::Spawn(BleTask::BtService) => BleInitAction::Log(
                BleInitMarker::SpawnBatch,
            ),
            BleInitAction::UnlockScheduler => match self.spawn_failure {
                Some(error) => BleInitAction::Done(Err(error)),
                None => BleInitAction::Log(BleInitMarker::SchedulerUnlocked),
            },
            BleInitAction::YieldNow => BleInitAction::Log(BleInitMarker::TasksPrimed),
            BleInitAction::EnableBle => BleInitAction::Done(Ok(())),
            BleInitAction::Log(BleInitMarker::LinkContract) => BleInitAction::PrepareVendorMemory,
            BleInitAction::Log(BleInitMarker::VendorMemory) => BleInitAction::InitializeTimebases,
            BleInitAction::Log(BleInitMarker::Timebase) => BleInitAction::EnableEfuseReads,
            BleInitAction::Log(BleInitMarker::Efuse) => BleInitAction::InstallCrypto,
            BleInitAction::Log(BleInitMarker::Crypto) => if self.self_test {
                BleInitAction::CryptoSelfTest
            } else {
                BleInitAction::PublishEvents
            },
            BleInitAction::Log(BleInitMarker::CryptoCompatible) => BleInitAction::PublishEvents,
            BleInitAction::Log(BleInitMarker::CryptoIncompatible) => BleInitAction::Done(
                Err(BleB1InitError::Crypto),
            ),
            BleInitAction::Log(BleInitMarker::GapCallbacks) => {
                BleInitAction::RegisterGattServerCallbacks
            },
            BleInitAction::Log(BleInitMarker::GattCallbacks) => BleInitAction::PlanTasks,
            BleInitAction::Log(BleInitMarker::Admission) => BleInitAction::LockScheduler,
            BleInitAction::Log(BleInitMarker::SpawnBatch) => BleInitAction::UnlockScheduler,
            BleInitAction::Log(BleInitMarker::SchedulerUnlocked) => BleInitAction::YieldNow,
            BleInitAction::Log(BleInitMarker::TasksPrimed) => BleInitAction::Log(
                BleInitMarker::EnableBegin,
            ),
            BleInitAction::Log(BleInitMarker::EnableBegin) => BleInitAction::EnableBle,
            BleInitAction::Done(result) => BleInitAction::Done(result),
        }
    }

    /// The action can fail: the others have nothing to report.
    pub open spec fn fallible(self) -> bool {
        match self.action {
            BleInitAction::InstallCrypto | BleInitAction::CryptoSelfTest
            | BleInitAction::PublishEvents | BleInitAction::RegisterGapCallbacks
            | BleInitAction::RegisterGattServerCallbacks
            | BleInitAction::RegisterGattClientCallbacks | BleInitAction::PlanTasks
            | BleInitAction::ReserveTasks | BleInitAction::LockScheduler | BleInitAction::Spawn(_)
            | BleInitAction::UnlockScheduler | BleInitAction::YieldNow
            | BleInitAction::EnableBle => true,
            _ => false,
        }
    }

    /// Where initialization stands after the action failed.
    pub open spec fn failed(self, status: u32) -> Self {
        match self.action {
            BleInitAction::CryptoSelfTest => Self {
                action: BleInitAction::Log(BleInitMarker::CryptoIncompatible),
                ..self
            },
            BleInitAction::Spawn(task) => Self {
                action: BleInitAction::Log(BleInitMarker::SpawnBatch),
                spawn_failure: Some(BleB1InitError::TaskSpawn { index: task.place() as usize }),
                ..self
            },
            BleInitAction::UnlockScheduler => Self {
                action: BleInitAction::Done(
                    Err(
                        match self.spawn_failure {
                            Some(error) => error,
                            None => BleB1InitError::SchedulerUnlock,
                        },
                    ),
                ),
                ..self
            },
            BleInitAction::InstallCrypto => self.ended(BleB1InitError::Crypto),
            BleInitAction::PublishEvents => self.ended(BleB1InitError::EventSinkAlreadyInstalled),
            BleInitAction::RegisterGapCallbacks => self.ended(
                BleB1InitError::RegisterCallbacks(status),
            ),
            BleInitAction::RegisterGattServerCallbacks => self.ended(
                BleB1InitError::RegisterGattServerCallbacks(status),
            ),
            BleInitAction::RegisterGattClientCallbacks => self.ended(
                BleB1InitError::RegisterGattClientCallbacks(status),
            ),
            BleInitAction::PlanTasks => self.ended(BleB1InitError::TaskPlan),
            BleInitAction::ReserveTasks => self.ended(BleB1InitError::TaskAdmission),
            BleInitAction::LockScheduler => self.ended(BleB1InitError::SchedulerLock),
            BleInitAction::YieldNow => self.ended(BleB1InitError::TaskHandoff),
            _ => self.ended(BleB1InitError::Enable(status)),
        }
    }

    pub open spec fn ended(self, error: BleB1InitError) -> Self {
        Self { action: BleInitAction::Done(Err(error)), ..self }
    }

    /// Where initialization stands after the action reported a status. Zero is
    /// success.
    pub open spec fn next(self, status: u32) -> Self {
        if status != 0 && self.fallible() {
            self.failed(status)
        } else {
            Self { action: self.following(), ..self }
        }
    }

    /// Where initialization stands after a number of statuses.
    pub open spec fn after(self, statuses: Seq<u32>) -> Self
        decreases statuses.len(),
    {
        if statuses.len() == 0 {
            self
        } else {
            self.after(statuses.drop_last()).next(statuses.last())
        }
    }

    /// Begin initialization. Only target firmware can carry it out.
    pub fn new(platform: Platform, self_test: bool) -> (init: Self)
        ensures
            init == Self::initial(platform, self_test),
    {
        let action = match platform {
            Platform::Host => BleInitAction::Done(Err(BleB1InitError::UnsupportedTarget)),
            Platform::Firmware => BleInitAction::EnsureLinkContract,
        };
        Self { self_test, action, spawn_failure: None }
    }

    pub open spec fn initial(platform: Platform, self_test: bool) -> Self {
        Self {
            self_test,
            action: match platform {
                Platform::Host => BleInitAction::Done(Err(BleB1InitError::UnsupportedTarget)),
                Platform::Firmware => BleInitAction::EnsureLinkContract,
            },
            spawn_failure: None,
        }
    }

    fn end(&mut self, error: BleB1InitError)
        ensures
            *final(self) == old(self).ended(error),
    {
        self.action = BleInitAction::Done(Err(error));
    }

    fn advance(&mut self)
        ensures
            *final(self) == (Self { action: old(self).following(), ..*old(self) }),
    {
        self.action = match self.action {
            BleInitAction::EnsureLinkContract => BleInitAction::Log(BleInitMarker::LinkContract),
            BleInitAction::PrepareVendorMemory => BleInitAction::Log(BleInitMarker::VendorMemory),
            BleInitAction::InitializeTimebases => BleInitAction::Log(BleInitMarker::Timebase),
            BleInitAction::EnableEfuseReads => BleInitAction::Log(BleInitMarker::Efuse),
            BleInitAction::InstallCrypto => BleInitAction::Log(BleInitMarker::Crypto),
            BleInitAction::CryptoSelfTest => BleInitAction::Log(BleInitMarker::CryptoCompatible),
            BleInitAction::PublishEvents => BleInitAction::RegisterGapCallbacks,
            BleInitAction::RegisterGapCallbacks => BleInitAction::Log(BleInitMarker::GapCallbacks),
            BleInitAction::RegisterGattServerCallbacks => {
                BleInitAction::RegisterGattClientCallbacks
            },
            BleInitAction::RegisterGattClientCallbacks => BleInitAction::Log(
                BleInitMarker::GattCallbacks,
            ),
            BleInitAction::PlanTasks => BleInitAction::ReserveTasks,
            BleInitAction::ReserveTasks => BleInitAction::Log(BleInitMarker::Admission),
            BleInitAction::LockScheduler => BleInitAction::Spawn(BleTask::Bt),
            BleInitAction::Spawn(task) => match task {
                BleTask::Bt => BleInitAction::Spawn(BleTask::BtSdk),
                BleTask::BtSdk => BleInitAction::Spawn(BleTask::BthSdk),
                BleTask::BthSdk => BleInitAction::Spawn(BleTask::BtService),
                BleTask::BtService => BleInitAction::Log(BleInitMarker::SpawnBatch),
            },
            BleInitAction::UnlockScheduler => match self.spawn_failure {
                Some(error) => BleInitAction::Done(Err(error)),
                None => BleInitAction::Log(BleInitMarker::SchedulerUnlocked),
            },
            BleInitAction::YieldNow => BleInitAction::Log(BleInitMarker::TasksPrimed),
            BleInitAction::EnableBle => BleInitAction::Done(Ok(())),
            BleInitAction::Log(marker) => match marker {
                BleInitMarker::LinkContract => BleInitAction::PrepareVendorMemory,
                BleInitMarker::VendorMemory => BleInitAction::InitializeTimebases,
                BleInitMarker::Timebase => BleInitAction::EnableEfuseReads,
                BleInitMarker::Efuse => BleInitAction::InstallCrypto,
                BleInitMarker::Crypto => if self.self_test {
                    BleInitAction::CryptoSelfTest
                } else {
                    BleInitAction::PublishEvents
                },
                BleInitMarker::CryptoCompatible => BleInitAction::PublishEvents,
                BleInitMarker::CryptoIncompatible => BleInitAction::Done(
                    Err(BleB1InitError::Crypto),
                ),
                BleInitMarker::GapCallbacks => BleInitAction::RegisterGattServerCallbacks,
                BleInitMarker::GattCallbacks => BleInitAction::PlanTasks,
                BleInitMarker::Admission => BleInitAction::LockScheduler,
                BleInitMarker::SpawnBatch => BleInitAction::UnlockScheduler,
                BleInitMarker::SchedulerUnlocked => BleInitAction::YieldNow,
                BleInitMarker::TasksPrimed => BleInitAction::Log(BleInitMarker::EnableBegin),
                BleInitMarker::EnableBegin => BleInitAction::EnableBle,
            },
            BleInitAction::Done(result) => BleInitAction::Done(result),
        };
    }

    /// Take the status of the action. Zero is success; an action that cannot fail
    /// goes on whatever it reports.
    pub fn resume(&mut self, status: u32)
        ensures
            *final(self) == old(self).next(status),
    {
        if status == 0 {
            self.advance();
            return ;
        }
        match self.action {
            BleInitAction::CryptoSelfTest => {
                self.action = BleInitAction::Log(BleInitMarker::CryptoIncompatible);
            },
            BleInitAction::Spawn(task) => {
                self.spawn_failure = Some(BleB1InitError::TaskSpawn { index: task.index() });
                self.action = BleInitAction::Log(BleInitMarker::SpawnBatch);
            },
            BleInitAction::UnlockScheduler => {
                let error = match self.spawn_failure {
                    Some(error) => error,
                    None => BleB1InitError::SchedulerUnlock,
                };
                self.end(error);
            },
            BleInitAction::InstallCrypto => self.end(BleB1InitError::Crypto),
            BleInitAction::PublishEvents => self.end(BleB1InitError::EventSinkAlreadyInstalled),
            BleInitAction::RegisterGapCallbacks => self.end(
                BleB1InitError::RegisterCallbacks(status),
            ),
            BleInitAction::RegisterGattServerCallbacks => self.end(
                BleB1InitError::RegisterGattServerCallbacks(status),
            ),
            BleInitAction::RegisterGattClientCallbacks => self.end(
                BleB1InitError::RegisterGattClientCallbacks(status),
            ),
            BleInitAction::PlanTasks => self.end(BleB1InitError::TaskPlan),
            BleInitAction::ReserveTasks => self.end(BleB1InitError::TaskAdmission),
            BleInitAction::LockScheduler => self.end(BleB1InitError::SchedulerLock),
            BleInitAction::YieldNow => self.end(BleB1InitError::TaskHandoff),
            BleInitAction::EnableBle => self.end(BleB1InitError::Enable(status)),
            _ => self.advance(),
        }
    }

    /// The controller, once initialization has succeeded.
    pub fn finish(&self, storage: InstalledBleB1Storage) -> (result: Option<
        Result<BleB1Controller, BleB1InitError>,
    >)
        ensures
            match self.action {
                BleInitAction::Done(Ok(())) => result == Some(
                    Ok::<BleB1Controller, BleB1InitError>(
                        BleB1Controller {
                            platform: Platform::Firmware,
                            events: storage.events,
                            operations: storage.operations,
                        },
                    ),
                ),
                BleInitAction::Done(Err(error)) => result == Some(
                    Err::<BleB1Controller, BleB1InitError>(error),
                ),
                _ => result is None,
            },
    {
        match self.action {
            BleInitAction::Done(Ok(())) => Some(
                Ok(
                    BleB1Controller {
                        platform: Platform::Firmware,
                        events: storage.events,
                        operations: storage.operations,
                    },
                ),
            ),
            BleInitAction::Done(Err(error)) => Some(Err(error)),
            _ => None,
        }
    }

    /// The scheduler is locked at this point.
    pub open spec fn scheduler_locked(self) -> bool {
        self.action is Spawn || self.action == BleInitAction::Log(BleInitMarker::SpawnBatch)
            || self.action is UnlockScheduler
    }

    /// A failed spawn is remembered only while the scheduler is locked, or in the
    /// error that it became.
    pub open spec fn consistent(self) -> bool {
        self.spawn_failure is Some ==> (self.action == BleInitAction::Log(BleInitMarker::SpawnBatch)
            || self.action is UnlockScheduler || self.action matches BleInitAction::Done(Err(_)))
    }
}

/// Once the scheduler is locked, initialization does not end before it has asked
/// for the scheduler to be unlocked, whatever fails in between.
pub proof fn law_locked_scheduler_is_unlocked(init: BleInit, status: u32)
    requires
        init.scheduler_locked(),
        !(init.action is UnlockScheduler),
    ensures
        init.next(status).scheduler_locked(),
{
}

/// Every step keeps what is remembered of a failed spawn in order.
pub proof fn law_spawn_failure_is_kept_until_unlocked(
    platform: Platform,
    self_test: bool,
    statuses: Seq<u32>,
)
    ensures
        BleInit::initial(platform, self_test).after(statuses).consistent(),
    decreases statuses.len(),
{
    if statuses.len() > 0 {
        law_spawn_failure_is_kept_until_unlocked(platform, self_test, statuses.drop_last());
    }
}

/// A task that could not be spawned is what initialization ends with, even where
/// the scheduler cannot be unlocked either.
pub proof fn law_spawn_failure_is_reported(init: BleInit, status: u32, unlock: u32)
    requires
        init.action matches BleInitAction::Spawn(_),
        status != 0,
    ensures
        init.action matches BleInitAction::Spawn(task) && init.next(status).next(0).next(
            unlock,
        ).action == BleInitAction::Done(
            Err::<(), BleB1InitError>(BleB1InitError::TaskSpawn { index: task.place() as usize }),
        ),
{
}

/// Initialization that has succeeded saw no failure: every status that an action
/// could fail with was zero.
pub proof fn law_success_saw_no_failure(platform: Platform, self_test: bool, statuses: Seq<u32>)
    requires
        BleInit::initial(platform, self_test).after(statuses).action == BleInitAction::Done(
            Ok::<(), BleB1InitError>(()),
        ),
    ensures
        platform is Firmware,
        forall|k: int|
            0 <= k < statuses.len() && #[trigger] BleInit::initial(platform, self_test).after(
                statuses.take(k),
            ).fallible() ==> statuses[k] == 0,
{
    lemma_success_saw_no_failure(platform, self_test, statuses);
}

/// The error of a run that failed can still be reached; success cannot.
pub open spec fn doomed(init: BleInit) -> bool {
    init.spawn_failure is Some || init.action matches BleInitAction::Done(Err(_)) || init.action
        == BleInitAction::Log(BleInitMarker::CryptoIncompatible)
}

proof fn lemma_success_saw_no_failure(platform: Platform, self_test: bool, statuses: Seq<u32>)
    ensures
        !doomed(BleInit::initial(platform, self_test).after(statuses)) ==> platform is Firmware
            && forall|k: int|
            0 <= k < statuses.len() && #[trigger] BleInit::initial(platform, self_test).after(
                statuses.take(k),
            ).fallible() ==> statuses[k] == 0,
        BleInit::initial(platform, self_test).after(statuses).consistent(),
    decreases statuses.len(),
{
    let start = BleInit::initial(platform, self_test);
    if statuses.len() > 0 {
        let before = statuses.drop_last();
        lemma_success_saw_no_failure(platform, self_test, before);
        if !doomed(start.after(statuses)) {
            assert(!doomed(start.after(before)));
            assert forall|k: int|
                0 <= k < statuses.len() && #[trigger] start.after(
                    statuses.take(k),
                ).fallible() implies statuses[k] == 0 by {
                if k < before.len() {
                    assert(statuses.take(k) =~= before.take(k));
                } else {
                    assert(statuses.take(k) =~= before);
                }
            }
        }
    }
}

/// How many actions are left until success, where nothing fails.
pub open spec fn left(init: BleInit) -> int {
    match init.action {
        BleInitAction::EnsureLinkContract => 32,
        BleInitAction::Log(BleInitMarker::LinkContract) => 31,
        BleInitAction::PrepareVendorMemory => 30,
        BleInitAction::Log(BleInitMarker::VendorMemory) => 29,
        BleInitAction::InitializeTimebases => 28,
        BleInitAction::Log(BleInitMarker::Timebase) => 27,
        BleInitAction::EnableEfuseReads => 26,
        BleInitAction::Log(BleInitMarker::Efuse) => 25,
        BleInitAction::InstallCrypto => 24,
        BleInitAction::Log(BleInitMarker::Crypto) => 23,
        BleInitAction::CryptoSelfTest => 22,
        BleInitAction::Log(BleInitMarker::CryptoCompatible) => 21,
        BleInitAction::PublishEvents => 20,
        BleInitAction::RegisterGapCallbacks => 19,
        BleInitAction::Log(BleInitMarker::GapCallbacks) => 18,
        BleInitAction::RegisterGattServerCallbacks => 17,
        BleInitAction::RegisterGattClientCallbacks => 16,
        BleInitAction::Log(BleInitMarker::GattCallbacks) => 15,
        BleInitAction::PlanTasks => 14,
        BleInitAction::ReserveTasks => 13,
        BleInitAction::Log(BleInitMarker::Admission) => 12,
        BleInitAction::LockScheduler => 11,
        BleInitAction::Spawn(task) => 10 - task.place(),
        BleInitAction::Log(BleInitMarker::SpawnBatch) => 6,
        BleInitAction::UnlockScheduler => 5,
        BleInitAction::Log(BleInitMarker::SchedulerUnlocked) => 4,
        BleInitAction::YieldNow => 3,
        BleInitAction::Log(BleInitMarker::TasksPrimed) => 2,
        BleInitAction::Log(BleInitMarker::EnableBegin) => 1,
        _ => 0,
    }
}

/// Initialization on target firmware succeeds once every action reported success,
/// after at most 33 of them.
pub proof fn law_accepted_initialization_succeeds(self_test: bool, statuses: Seq<u32>)
    requires
        forall|i: int| 0 <= i < statuses.len() ==> statuses[i] == 0,
        statuses.len() >= 33,
    ensures
        BleInit::initial(Platform::Firmware, self_test).after(statuses).action
            == BleInitAction::Done(Ok::<(), BleB1InitError>(())),
{
    lemma_accepted_progress(self_test, statuses);
}

proof fn lemma_accepted_progress(self_test: bool, statuses: Seq<u32>)
    requires
        forall|i: int| 0 <= i < statuses.len() ==> statuses[i] == 0,
    ensures
        ({
            let now = BleInit::initial(Platform::Firmware, self_test).after(statuses);
            &&& !doomed(now)
            &&& now.action == BleInitAction::Done(Ok::<(), BleB1InitError>(())) || left(now)
                + statuses.len() <= 32
        }),
    decreases statuses.len(),
{
    if statuses.len() > 0 {
        lemma_accepted_progress(self_test, statuses.drop_last());
        assert(statuses.last() == 0);
        lemma_accepted_step(
            BleInit::initial(Platform::Firmware, self_test).after(statuses.drop_last()),
        );
    }
}

proof fn lemma_accepted_step(init: BleInit)
    requires
        !doomed(init),
    ensures
        !doomed(init.next(0)),
        init.next(0).action == BleInitAction::Done(Ok::<(), BleB1InitError>(())) || left(
            init.next(0),
        ) < left(init),
{
    match init.action {
        BleInitAction::Spawn(task) => match task {
            BleTask::Bt => {
                assert(init.following() == BleInitAction::Spawn(BleTask::BtSdk));
            },
            BleTask::BtSdk => {
                assert(init.following() == BleInitAction::Spawn(BleTask::BthSdk));
            },
            BleTask::BthSdk => {
                assert(init.following() == BleInitAction::Spawn(BleTask::BtService));
            },
            BleTask::BtService => {},
        },
        BleInitAction::Log(marker) => {},
        BleInitAction::Done(Ok(unit)) => {
            assert(unit == ());
        },
        _ => {},
    }
}

/// The task plan can be requested as a whole: its owners differ, and its tasks
/// and stacks add up to four and to 10240 bytes.
pub proof fn law_task_groups_form_one_plan()
    ensures
        b1_groups().len() == crate::ble::TASK_COUNT,
        forall|i: int| 0 <= i < 4 ==> (#[trigger] b1_groups()[i]).valid(),
        crate::composition::claim::plannable(b1_groups()),
        crate::composition::claim::all_slots(b1_groups()) == 4,
        crate::composition::claim::all_stacks(b1_groups()) == 10_240,
        forall|i: int|
            0 <= i < 4 ==> (#[trigger] b1_groups()[i]).stack_bytes_per_task
                >= crate::ble::BLE_B1_MINIMUM_TASK_STACK_BYTES,
{
    let groups = b1_groups();
    assert(groups[0].owner == OWNER_BT && groups[1].owner == OWNER_BT_SDK && groups[2].owner
        == OWNER_BTH_SDK && groups[3].owner == OWNER_BT_SERVICE);
    reveal_with_fuel(crate::composition::claim::all_slots, 5);
    reveal_with_fuel(crate::composition::claim::all_stacks, 5);
    let three = groups.drop_last();
    let two = three.drop_last();
    let one = two.drop_last();
    assert(one.drop_last().len() == 0);
    assert(three.last() == groups[2] && two.last() == groups[1] && one.last() == groups[0]);
}

/// Initialization without a failure takes every step once, in this order: the
/// link contract, the memory, the timebases, the efuse, the crypto service and its
/// test where one is wanted, the event queue, the three sets of callbacks, the
/// plan and the reservation of the tasks, the four tasks under a locked scheduler,
/// their first run, and the enable call. Between the steps there are only lines of
/// the log.
pub proof fn law_initialization_takes_every_step_in_order(init: BleInit, line: u32)
    requires
        init.spawn_failure is None,
    ensures
        ({
            let after = init.next(0).action;
            let then = init.next(0).next(line).action;
            &&& init.action is EnsureLinkContract ==> after is Log && then is PrepareVendorMemory
            &&& init.action is PrepareVendorMemory ==> after is Log && then is InitializeTimebases
            &&& init.action is InitializeTimebases ==> after is Log && then is EnableEfuseReads
            &&& init.action is EnableEfuseReads ==> after is Log && then is InstallCrypto
            &&& init.action is InstallCrypto ==> after is Log && (then is CryptoSelfTest
                <==> init.self_test) && (then is PublishEvents <==> !init.self_test)
            &&& init.action is CryptoSelfTest ==> after is Log && then is PublishEvents
            &&& init.action is PublishEvents ==> after is RegisterGapCallbacks
            &&& init.action is RegisterGapCallbacks ==> after is Log
                && then is RegisterGattServerCallbacks
            &&& init.action is RegisterGattServerCallbacks ==> after is RegisterGattClientCallbacks
            &&& init.action is RegisterGattClientCallbacks ==> after is Log && then is PlanTasks
            &&& init.action is PlanTasks ==> after is ReserveTasks
            &&& init.action is ReserveTasks ==> after is Log && then is LockScheduler
            &&& init.action is LockScheduler ==> after == BleInitAction::Spawn(BleTask::Bt)
            &&& init.action == BleInitAction::Spawn(BleTask::Bt) ==> after == BleInitAction::Spawn(
                BleTask::BtSdk,
            )
            &&& init.action == BleInitAction::Spawn(BleTask::BtSdk) ==> after
                == BleInitAction::Spawn(BleTask::BthSdk)
            &&& init.action == BleInitAction::Spawn(BleTask::BthSdk) ==> after
                == BleInitAction::Spawn(BleTask::BtService)
            &&& init.action == BleInitAction::Spawn(BleTask::BtService) ==> after is Log
                && then is UnlockScheduler
            &&& init.action is UnlockScheduler ==> after is Log && then is YieldNow
            &&& init.action is YieldNow ==> after is Log && then is Log && init.next(0).next(
                line,
            ).next(line).action is EnableBle
            &&& init.action is EnableBle ==> after is Done && after->Done_0 is Ok
            &&& init.next(0).self_test == init.self_test && init.next(0).spawn_failure is None
        }),
{
    match init.action {
        BleInitAction::Spawn(BleTask::Bt) => {},
        BleInitAction::Spawn(BleTask::BtSdk) => {},
        BleInitAction::Spawn(BleTask::BthSdk) => {},
        BleInitAction::Spawn(BleTask::BtService) => {},
        _ => {},
    }
}

/// A step that fails ends initialization with the error of that step, which
/// carries the status of the vendor where the vendor gave one.
pub proof fn law_initialization_error_names_its_step(init: BleInit, status: u32)
    requires
        status != 0,
    ensures
        ({
            let after = init.next(status).action;
            let failed = |error: BleB1InitError| BleInitAction::Done(Err::<(), BleB1InitError>(error));
            &&& init.action is InstallCrypto ==> after == failed(BleB1InitError::Crypto)
            &&& init.action is CryptoSelfTest ==> after is Log && init.next(status).next(0).action
                == failed(BleB1InitError::Crypto)
            &&& init.action is PublishEvents ==> after == failed(
                BleB1InitError::EventSinkAlreadyInstalled,
            )
            &&& init.action is RegisterGapCallbacks ==> after == failed(
                BleB1InitError::RegisterCallbacks(status),
            )
            &&& init.action is RegisterGattServerCallbacks ==> after == failed(
                BleB1InitError::RegisterGattServerCallbacks(status),
            )
            &&& init.action is RegisterGattClientCallbacks ==> after == failed(
                BleB1InitError::RegisterGattClientCallbacks(status),
            )
            &&& init.action is PlanTasks ==> after == failed(BleB1InitError::TaskPlan)
            &&& init.action is ReserveTasks ==> after == failed(BleB1InitError::TaskAdmission)
            &&& init.action is LockScheduler ==> after == failed(BleB1InitError::SchedulerLock)
            &&& init.action is UnlockScheduler && init.spawn_failure is None ==> after == failed(
                BleB1InitError::SchedulerUnlock,
            )
            &&& init.action is YieldNow ==> after == failed(BleB1InitError::TaskHandoff)
            &&& init.action is EnableBle ==> after == failed(BleB1InitError::Enable(status))
            &&& init.action is EnsureLinkContract || init.action is PrepareVendorMemory
                || init.action is InitializeTimebases || init.action is EnableEfuseReads
                || init.action is Log ==> init.next(status) == init.next(0)
        }),
{
}

/// Each vendor task has its own place in the plan, and the stack and the priority
/// that its archive was built for.
pub proof fn law_tasks_have_their_own_resources(
    task: BleTask,
    index: usize,
    stack: usize,
    priority: u8,
)
    requires
        call_ensures(BleTask::index, (task,), index),
        call_ensures(BleTask::stack_bytes, (task,), stack),
        call_ensures(BleTask::priority, (task,), priority),
    ensures
        task is Bt ==> index == 0 && stack == 3584 && priority == 1,
        task is BtSdk ==> index == 1 && stack == 2048 && priority == 12,
        task is BthSdk ==> index == 2 && stack == 512 && priority == 13,
        task is BtService ==> index == 3 && stack == 4096 && priority == 12,
        b1_groups()[index as int].task_slots == 1,
        b1_groups()[index as int].owner == 0x424c_4501 + index,
{
}

/// Initialization ends with a controller exactly when it succeeded; the controller
/// can make vendor calls and has the event queue and the buffers that were
/// installed.
pub proof fn law_controller_needs_a_finished_initialization(
    init: BleInit,
    storage: InstalledBleB1Storage,
    result: Option<Result<BleB1Controller, BleB1InitError>>,
)
    requires
        call_ensures(BleInit::finish, (&init, storage), result),
    ensures
        result is Some <==> init.action is Done,
        result matches Some(Ok(controller)) ==> init.action->Done_0 is Ok && controller.platform
            is Firmware && controller.events == storage.events && controller.operations
            == storage.operations,
        result matches Some(Err(error)) ==> init.action->Done_0 == Err::<(), BleB1InitError>(error),
{
}

/// A host build does not begin to initialize, and firmware begins with the link
/// contract.
pub proof fn law_only_firmware_initializes(platform: Platform, self_test: bool, init: BleInit)
    requires
        call_ensures(BleInit::new, (platform, self_test), init),
    ensures
        platform is Host ==> init.action == BleInitAction::Done(
            Err::<(), BleB1InitError>(BleB1InitError::UnsupportedTarget),
        ),
        platform is Firmware ==> init.action is EnsureLinkContract,
        init.self_test == self_test && init.spawn_failure is None,
{
}

/// The line behind each step tells what was done: it names that step and no other.
pub proof fn law_progress_line_tells_the_step(init: BleInit, text: &'static str)
    requires
        init.spawn_failure is None,
        init.next(0).action is Log,
        call_ensures(BleInitMarker::text, (init.next(0).action->Log_0,), text),
    ensures
        init.action is EnsureLinkContract ==> text@ == "RFDBG_BLE_B1_LINK_CONTRACT_OK\r\n"@,
        init.action is PrepareVendorMemory ==> text@ == "RFDBG_BLE_B1_VENDOR_MEMORY_OK\r\n"@,
        init.action is InitializeTimebases ==> text@ == "RFDBG_BLE_B1_TIMEBASE_OK\r\n"@,
        init.action is EnableEfuseReads ==> text@ == "RFDBG_BLE_B1_EFUSE_OK\r\n"@,
        init.action is InstallCrypto ==> text@ == "RFDBG_BLE_B1_CRYPTO_OK\r\n"@,
        init.action is CryptoSelfTest ==> text@ == "RFDBG_BLE_U5B_CRYPTO_COMPAT_OK\r\n"@,
        init.action is RegisterGapCallbacks ==> text@ == "RFDBG_BLE_B2_CALLBACKS_OK\r\n"@,
        init.action is RegisterGattClientCallbacks ==> text@ == "RFDBG_BLE_B3_CALLBACKS_OK\r\n"@,
        init.action is ReserveTasks ==> text@ == "RFDBG_BLE_B1_ADMISSION_OK\r\n"@,
        init.action == BleInitAction::Spawn(BleTask::BtService) ==> text@
            == "RFDBG_BLE_B1_SPAWN_BATCH_DONE\r\n"@,
        init.action is UnlockScheduler ==> text@ == "RFDBG_BLE_B1_SCHEDULER_UNLOCKED\r\n"@,
        init.action is YieldNow ==> text@ == "RFDBG_BLE_B1_TASKS_PRIMED\r\n"@,
        init.action == BleInitAction::Log(BleInitMarker::TasksPrimed) ==> text@
            == "RFDBG_BLE_B1_ENABLE_BEGIN\r\n"@,
{
}

/// The plan has one group of one task for each of the four tasks, at its place, and a
/// group can be made of any owner and stack that are not zero.
pub proof fn law_plan_has_a_group_for_each_task(
    owner: u32,
    stack_bytes: usize,
    group: Result<TaskGroupPlan, BleB1InitError>,
    plan: Result<[TaskGroupPlan; 4], BleB1InitError>,
    task: BleTask,
    index: usize,
    stack: usize,
)
    requires
        call_ensures(task_group, (owner, stack_bytes), group),
        call_ensures(b1_task_plan, (), plan),
        call_ensures(BleTask::index, (task,), index),
        call_ensures(BleTask::stack_bytes, (task,), stack),
    ensures
        group is Ok <==> owner > 0 && stack_bytes > 0,
        group matches Ok(made) ==> made.owner == owner && made.task_slots == 1
            && made.stack_bytes_per_task == stack_bytes,
        group matches Err(error) ==> error is TaskPlan,
        plan is Ok,
        plan->Ok_0@[index as int].stack_bytes_per_task == stack,
        plan->Ok_0@[index as int].task_slots == 1,
        plan->Ok_0@[index as int].owner == 0x424c_4501 + index,
{
}

} // verus!
