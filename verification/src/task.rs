//! Tasks of the time-based automation pallet: what a task does (its
//! action), when (its schedule), the missed-task record, and the list of
//! tasks that one time slot holds, bounded in count and in weight.
use vstd::prelude::*;

use crate::schedule::{is_fixed_schedule_result, Schedule};
use crate::time_slots::{Config, Error, UnixTime};
use crate::weight::{saturating_sum, Weight};
use crate::xcm::{ancestor_location, default_location, AssetPayment, InstructionSequence};

verus! {

/// What a task does when it runs.
#[derive(Clone, Debug)]
pub enum Action<AccountId> {
    /// Sends a call to another chain.
    XCMP {
        destination: staging_xcm::latest::Location,
        schedule_fee: staging_xcm::latest::Location,
        execution_fee: Box<AssetPayment>,
        encoded_call: Vec<u8>,
        encoded_call_weight: Weight,
        overall_weight: Weight,
        schedule_as: Option<AccountId>,
        instruction_sequence: InstructionSequence,
    },
    /// Dispatches an encoded call of this chain.
    DynamicDispatch { encoded_call: Vec<u8> },
}

/// The weight (computation time) of running `action`. `call_weight` is the
/// weight of the decoded call of a dynamic dispatch action, `None` where it
/// does not decode; an XCMP action does not read it.
pub open spec fn action_weight<AccountId>(
    action: Action<AccountId>,
    config: Config,
    call_weight: Option<Weight>,
) -> Result<u64, Error> {
    match action {
        Action::XCMP { .. } => Ok(config.run_xcmp_task_weight.ref_time),
        Action::DynamicDispatch { .. } => match call_weight {
            None => Err(Error::CallCannotBeDecoded),
            Some(w) => Ok(saturating_sum(config.run_dynamic_dispatch_action_weight.ref_time, w.ref_time)),
        },
    }
}

impl<AccountId> Action<AccountId> {
    /// The computation time of running the action. `call_weight` is the
    /// weight of the decoded call of a dynamic dispatch action (`None` where
    /// it does not decode), which only the runtime can compute.
    pub fn execution_weight(&self, config: &Config, call_weight: Option<Weight>) -> (r: Result<u64, Error>)
        ensures
            r == action_weight(*self, *config, call_weight),
            self is XCMP ==> r == Ok::<u64, Error>(config.run_xcmp_task_weight.ref_time),
            self is DynamicDispatch && call_weight is None ==> r == Err::<u64, Error>(Error::CallCannotBeDecoded),
            self is DynamicDispatch && call_weight is Some ==> r is Ok && r->Ok_0 == if config.run_dynamic_dispatch_action_weight.ref_time
                + call_weight->Some_0.ref_time <= u64::MAX {
                config.run_dynamic_dispatch_action_weight.ref_time + call_weight->Some_0.ref_time
            } else {
                u64::MAX + 0
            },
    {
        let weight = match self {
            Action::XCMP { .. } => config.run_xcmp_task_weight,
            Action::DynamicDispatch { .. } => match call_weight {
                None => {
                    return Err(Error::CallCannotBeDecoded);
                },
                Some(w) => config.run_dynamic_dispatch_action_weight.saturating_add(w),
            },
        };
        Ok(weight.ref_time())
    }

    /// The location in which the schedule fee is paid: that of an XCMP
    /// action, and the default location for a dynamic dispatch.
    pub fn schedule_fee_location(&self) -> (r: staging_xcm::latest::Location)
        ensures
            self matches Action::XCMP { schedule_fee, .. } ==> r == schedule_fee,
            self is DynamicDispatch ==> r == ancestor_location(0),
    {
        match self {
            Action::XCMP { schedule_fee, .. } => schedule_fee.clone(),
            _ => default_location(),
        }
    }
}

/// All that is stored of a task.
#[derive(Clone, Debug)]
pub struct Task<AccountId> {
    pub owner_id: AccountId,
    pub task_id: Vec<u8>,
    pub schedule: Schedule,
    pub action: Action<AccountId>,
    pub abort_errors: Vec<Vec<u8>>,
}

/// The schedule of `r` where it is `Ok`, else its error.
pub open spec fn schedule_of<AccountId>(r: Result<Task<AccountId>, Error>) -> Result<Schedule, Error> {
    match r {
        Ok(t) => Ok(t.schedule),
        Err(e) => Err(e),
    }
}

/// The execution times that a schedule names next.
pub open spec fn schedule_times(schedule: Schedule) -> Seq<UnixTime> {
    match schedule {
        Schedule::Fixed { execution_times, .. } => execution_times@,
        Schedule::Recurring { next_execution_time, .. } => seq![next_execution_time],
    }
}

impl<AccountId> Task<AccountId> {
    /// A task made of the given parts.
    pub fn new(
        owner_id: AccountId,
        task_id: Vec<u8>,
        schedule: Schedule,
        action: Action<AccountId>,
        abort_errors: Vec<Vec<u8>>,
    ) -> (r: Self)
        ensures
            r.owner_id == owner_id,
            r.task_id == task_id,
            r.schedule == schedule,
            r.action == action,
            r.abort_errors == abort_errors,
    {
        Task { owner_id, task_id, schedule, action, abort_errors }
    }

    /// A task that dispatches `encoded_call` (the runtime's encoding of a
    /// `remark_with_event` call with the task's message) at the given times.
    pub fn create_event_task(
        owner_id: AccountId,
        task_id: Vec<u8>,
        execution_times: Vec<UnixTime>,
        encoded_call: Vec<u8>,
        abort_errors: Vec<Vec<u8>>,
        config: &Config,
        now_ms: u64,
    ) -> (r: Result<Self, Error>)
        ensures
            is_fixed_schedule_result(execution_times@, *config, now_ms, schedule_of(r)),
            r matches Ok(t) ==> {
                &&& t.owner_id == owner_id
                &&& t.task_id == task_id
                &&& t.action == Action::<AccountId>::DynamicDispatch { encoded_call }
                &&& t.abort_errors == abort_errors
            },
    {
        let action = Action::DynamicDispatch { encoded_call };
        let schedule = match Schedule::new_fixed_schedule(execution_times, config, now_ms) {
            Ok(s) => s,
            Err(e) => {
                return Err(e);
            },
        };
        Ok(Self::new(owner_id, task_id, schedule, action, abort_errors))
    }

    /// A task that sends `encoded_call` to `destination` at the given times.
    pub fn create_xcmp_task(
        owner_id: AccountId,
        task_id: Vec<u8>,
        execution_times: Vec<UnixTime>,
        destination: staging_xcm::latest::Location,
        schedule_fee: staging_xcm::latest::Location,
        execution_fee: AssetPayment,
        encoded_call: Vec<u8>,
        encoded_call_weight: Weight,
        overall_weight: Weight,
        schedule_as: Option<AccountId>,
        instruction_sequence: InstructionSequence,
        abort_errors: Vec<Vec<u8>>,
        config: &Config,
        now_ms: u64,
    ) -> (r: Result<Self, Error>)
        ensures
            is_fixed_schedule_result(execution_times@, *config, now_ms, schedule_of(r)),
            r matches Ok(t) ==> {
                &&& t.owner_id == owner_id
                &&& t.task_id == task_id
                &&& t.action == Action::<AccountId>::XCMP {
                    destination,
                    schedule_fee,
                    execution_fee: Box::new(execution_fee),
                    encoded_call,
                    encoded_call_weight,
                    overall_weight,
                    schedule_as,
                    instruction_sequence,
                }
                &&& t.abort_errors == abort_errors
            },
    {
        let action = Action::XCMP {
            destination,
            schedule_fee,
            execution_fee: Box::new(execution_fee),
            encoded_call,
            encoded_call_weight,
            overall_weight,
            schedule_as,
            instruction_sequence,
        };
        let schedule = match Schedule::new_fixed_schedule(execution_times, config, now_ms) {
            Ok(s) => s,
            Err(e) => {
                return Err(e);
            },
        };
        Ok(Self::new(owner_id, task_id, schedule, action, abort_errors))
    }

    /// The execution times that the task's schedule names: all times of a
    /// fixed schedule, the next one of a recurring schedule.
    pub fn execution_times(&self) -> (r: Vec<UnixTime>)
        ensures
            r@ == schedule_times(self.schedule),
            self.schedule matches Schedule::Fixed { execution_times, .. } ==> r@ == execution_times@,
            self.schedule matches Schedule::Recurring { next_execution_time, .. } ==> r@ == seq![
                next_execution_time,
            ],
    {
        match &self.schedule {
            Schedule::Fixed { execution_times, .. } => {
                let mut out: Vec<UnixTime> = Vec::new();
                let mut i: usize = 0;
                while i < execution_times.len()
                    invariant
                        i <= execution_times.len(),
                        out@ == execution_times@.take(i as int),
                    decreases execution_times.len() - i,
                {
                    out.push(execution_times[i]);
                    i = i + 1;
                    assert(out@ =~= execution_times@.take(i as int));
                }
                assert(execution_times@.take(i as int) =~= execution_times@);
                out
            },
            Schedule::Recurring { next_execution_time, .. } => {
                let mut out: Vec<UnixTime> = Vec::new();
                out.push(*next_execution_time);
                assert(out@ =~= seq![*next_execution_time]);
                out
            },
        }
    }
}

/// A task execution that was missed.
#[derive(Debug, PartialEq, Eq)]
pub struct MissedTaskV2<AccountId, TaskId> {
    pub owner_id: AccountId,
    pub task_id: TaskId,
    pub execution_time: UnixTime,
}

impl<AccountId, TaskId> MissedTaskV2<AccountId, TaskId> {
    /// The record of a missed execution.
    pub fn new(owner_id: AccountId, task_id: TaskId, execution_time: UnixTime) -> (r: Self)
        ensures
            r.owner_id == owner_id,
            r.task_id == task_id,
            r.execution_time == execution_time,
    {
        MissedTaskV2 { owner_id, task_id, execution_time }
    }
}

/// The tasks that one time slot holds, with their total weight.
#[derive(Debug, PartialEq, Eq)]
pub struct ScheduledTasks<AccountId, TaskId> {
    pub tasks: Vec<(AccountId, TaskId)>,
    pub weight: u128,
}

/// The slot holds no more tasks and no more weight than `config` allows.
pub open spec fn within_slot_limits<AccountId, TaskId>(
    slot: ScheduledTasks<AccountId, TaskId>,
    config: Config,
) -> bool {
    &&& slot.tasks@.len() <= config.max_tasks_per_slot
    &&& slot.weight <= config.max_weight_per_slot
}

/// Whether a slot with `len` tasks and weight `weight` refuses a task of
/// weight `task_weight`: it is full in count or the weight would pass the limit.
pub open spec fn slot_refuses(len: nat, weight: u128, task_weight: u64, config: Config) -> bool {
    ||| weight + task_weight > u128::MAX
    ||| (len as u32) >= config.max_tasks_per_slot
    ||| weight + task_weight > config.max_weight_per_slot
}

impl<A, B> Default for ScheduledTasks<A, B> {
    fn default() -> (r: Self)
        ensures
            r.tasks@.len() == 0,
            r.weight == 0,
    {
        ScheduledTasks { tasks: Vec::new(), weight: 0 }
    }
}

impl<AccountId: Clone, TaskId> ScheduledTasks<AccountId, TaskId> {
    /// Adds the task to the slot, if the slot has room for one more task and
    /// for its weight; else the slot stays as it was. `call_weight` is the
    /// weight of the decoded call of a dynamic dispatch action (see
    /// `Action::execution_weight`).
    pub fn try_push(
        &mut self,
        task_id: TaskId,
        task: &Task<AccountId>,
        config: &Config,
        call_weight: Option<Weight>,
    ) -> (r: Result<&mut Self, Error>)
        ensures
            match action_weight(task.action, *config, call_weight) {
                Err(e) => r is Err && r->Err_0 == e,
                Ok(w) => if slot_refuses(old(self).tasks@.len(), old(self).weight, w, *config) {
                    r is Err && r->Err_0 == Error::TimeSlotFull
                } else {
                    &&& r is Ok
                    &&& (*r->Ok_0).weight == old(self).weight + w
                    &&& (*r->Ok_0).tasks@ == old(self).tasks@.push(((*r->Ok_0).tasks@.last().0, task_id))
                    &&& cloned(task.owner_id, (*r->Ok_0).tasks@.last().0)
                    &&& (within_slot_limits(*old(self), *config) ==> within_slot_limits(*r->Ok_0, *config))
                },
            },
            r is Ok ==> *final(self) == *final(r->Ok_0),
            r is Err ==> *final(self) == *old(self),
    {
        let action_weight = match task.action.execution_weight(config, call_weight) {
            Ok(w) => w,
            Err(e) => {
                return Err(e);
            },
        };
        let weight = match self.weight.checked_add(action_weight as u128) {
            Some(w) => w,
            None => {
                return Err(Error::TimeSlotFull);
            },
        };
        if self.tasks.len() as u32 >= config.max_tasks_per_slot || weight > config.max_weight_per_slot {
            return Err(Error::TimeSlotFull);
        }
        self.weight = weight;
        let owner = task.owner_id.clone();
        self.tasks.push((owner, task_id));
        Ok(self)
    }
}

/// A slot that was just made holds no task and no weight, within any limits.
pub proof fn lemma_default_slot_within_limits<AccountId, TaskId>(
    slot: ScheduledTasks<AccountId, TaskId>,
    config: Config,
)
    requires
        slot.tasks@.len() == 0,
        slot.weight == 0,
    ensures
        within_slot_limits(slot, config),
{
}

} // verus!
