//! Laws that say what the scheduling operations are for, over all inputs:
//! the weight an action is charged, what equal tasks share, which times a
//! task lists, which times are valid, and when a recurrence is accepted.
use vstd::prelude::*;

use crate::equality::{schedule_eq, task_eq};
use crate::schedule::{
    is_recurring_schedule_result, known_executions, schedule_check, Schedule,
};
use crate::task::{action_weight, schedule_times, Action, Task};
use crate::time_slots::{time_check, Config, Error, Seconds, UnixTime};
use crate::weight::Weight;
use vstd::std_specs::cmp::PartialEqSpec;

verus! {

/// An XCMP action is charged the weight of running an XCMP task, whatever the
/// dynamic dispatch weight and the call weight are; a dynamic dispatch is
/// charged its own weight plus the call's (saturating), or refused where the
/// call does not decode.
pub proof fn lemma_action_weight<AccountId>(
    action: Action<AccountId>,
    config: Config,
    call_weight: Option<Weight>,
)
    ensures
        action is XCMP ==> action_weight(action, config, call_weight) == Ok::<u64, Error>(
            config.run_xcmp_task_weight.ref_time,
        ),
        action is DynamicDispatch && call_weight is None ==> action_weight(action, config, call_weight)
            == Err::<u64, Error>(Error::CallCannotBeDecoded),
        action is DynamicDispatch && call_weight is Some ==> {
            let d = config.run_dynamic_dispatch_action_weight.ref_time;
            let c = call_weight->Some_0.ref_time;
            &&& action_weight(action, config, call_weight) is Ok
            &&& d + c <= u64::MAX ==> action_weight(action, config, call_weight)->Ok_0 == d + c
            &&& d + c > u64::MAX ==> action_weight(action, config, call_weight)->Ok_0 == u64::MAX
        },
{
}

/// Equal schedules name the same times and know of the same number of
/// executions, and are of the same kind.
pub proof fn lemma_schedule_eq_agrees(a: Schedule, b: Schedule)
    ensures
        schedule_eq(a, b) ==> {
            &&& schedule_times(a) == schedule_times(b)
            &&& known_executions(a) == known_executions(b)
            &&& (a is Fixed <==> b is Fixed)
            &&& (a matches Schedule::Recurring { next_execution_time: n1, frequency: f1 } ==> b matches Schedule::Recurring {
                next_execution_time: n2,
                frequency: f2,
            } && n1 == n2 && f1 == f2)
        },
{
}

/// Equal tasks have equal owners, equal task ids, schedules that name the
/// same times and executions, and actions that are charged the same weight.
pub proof fn lemma_equal_tasks_agree<AccountId: PartialEq>(a: Task<AccountId>, b: Task<AccountId>)
    ensures
        task_eq(a, b) ==> {
            &&& a.owner_id.eq_spec(&b.owner_id)
            &&& a.task_id@ == b.task_id@
            &&& schedule_times(a.schedule) == schedule_times(b.schedule)
            &&& known_executions(a.schedule) == known_executions(b.schedule)
            &&& (a.action is XCMP <==> b.action is XCMP)
            &&& forall|config: Config, w: Option<Weight>|
                #[trigger] action_weight(a.action, config, w) == action_weight(b.action, config, w)
        },
        a.task_id@ != b.task_id@ ==> !task_eq(a, b),
{
}

/// The times a task lists: every time of a fixed schedule, whatever is left
/// of it, and the next time of a recurring one.
pub proof fn lemma_schedule_times(schedule: Schedule)
    ensures
        schedule matches Schedule::Fixed { execution_times, .. } ==> schedule_times(schedule)
            == execution_times@,
        schedule matches Schedule::Recurring { next_execution_time, .. } ==> schedule_times(schedule)
            == seq![next_execution_time],
{
}

/// Which times are valid: a time off a slot boundary is refused as invalid;
/// one on a boundary is refused as past up to the start of the current slot,
/// accepted up to `max_schedule_seconds` after it, and refused as too far out
/// beyond that.
pub proof fn lemma_valid_times(time: UnixTime, config: Config, now_ms: u64)
    requires
        config.slot_size_seconds != 0,
        now_ms != 0,
    ensures
        ({
            let slot = config.slot_size_seconds;
            let now = now_ms / 1000;
            let current = now - now % slot;
            &&& time % slot != 0 ==> time_check(time, config, now_ms) == Err::<(), Error>(Error::InvalidTime)
            &&& time % slot == 0 && time <= current ==> time_check(time, config, now_ms) == Err::<(), Error>(
                Error::PastTime,
            )
            &&& time % slot == 0 && current < time && time <= current + config.max_schedule_seconds
                ==> time_check(time, config, now_ms) == Ok::<(), Error>(())
            &&& time % slot == 0 && time > current + config.max_schedule_seconds ==> time_check(
                time,
                config,
                now_ms,
            ) == Err::<(), Error>(Error::TimeTooFarOut)
        }),
{
}

/// Whether a time is valid depends on the block time only through the slot
/// that holds it.
pub proof fn lemma_valid_time_depends_on_slot_only(time: UnixTime, config: Config, now1: u64, now2: u64)
    requires
        config.slot_size_seconds != 0,
        now1 != 0,
        now2 != 0,
        now1 / 1000 - (now1 / 1000) % config.slot_size_seconds == now2 / 1000 - (now2 / 1000)
            % config.slot_size_seconds,
    ensures
        time_check(time, config, now1) == time_check(time, config, now2),
{
}

/// A recurring schedule is accepted exactly when its next execution time and
/// the one a frequency later are valid times and the frequency is not zero;
/// it is then built as requested.
pub proof fn lemma_recurring_accepted(
    next_execution_time: UnixTime,
    frequency: Seconds,
    config: Config,
    now_ms: u64,
    r: Result<Schedule, Error>,
)
    ensures
        schedule_check(Schedule::Recurring { next_execution_time, frequency }, config, now_ms) is Ok <==> {
            &&& time_check(next_execution_time, config, now_ms) is Ok
            &&& frequency > 0
            &&& next_execution_time + frequency <= u64::MAX
            &&& time_check((next_execution_time + frequency) as u64, config, now_ms) is Ok
        },
        is_recurring_schedule_result(next_execution_time, frequency, config, now_ms, r) && time_check(
            next_execution_time,
            config,
            now_ms,
        ) is Ok && frequency > 0 && next_execution_time + frequency <= u64::MAX && time_check(
            (next_execution_time + frequency) as u64,
            config,
            now_ms,
        ) is Ok ==> r == Ok::<Schedule, Error>(Schedule::Recurring { next_execution_time, frequency }),
{
}

} // verus!
