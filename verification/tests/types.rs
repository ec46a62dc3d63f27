use automation_types::schedule::{Schedule, ScheduleParam};
use automation_types::task::{Action, ScheduledTasks, Task};
use automation_types::time_slots::{Config, Error};
use automation_types::weight::Weight;

pub const START_BLOCK_TIME: u64 = 33198768000 * 1_000;
pub const SCHEDULED_TIME: u64 = START_BLOCK_TIME / 1_000 + 7200;
pub const SLOT_SIZE_SECONDS: u64 = 600;

const ALICE: [u8; 32] = [1u8; 32];
const MAX_TASKS_PER_SLOT: u32 = 2;
const MAX_EXECUTION_TIMES: u32 = 3;
const MAX_WEIGHT_PER_SLOT: u128 = 700_000_000;

/// The constants of the pallet's test runtime.
fn test_config() -> Config {
    Config {
        max_tasks_per_slot: MAX_TASKS_PER_SLOT,
        max_execution_times: MAX_EXECUTION_TIMES,
        max_schedule_seconds: 86_400,
        slot_size_seconds: SLOT_SIZE_SECONDS,
        max_weight_per_slot: MAX_WEIGHT_PER_SLOT,
        run_xcmp_task_weight: Weight::from_parts(20_000, 0),
        run_dynamic_dispatch_action_weight: Weight::from_parts(20_000, 0),
    }
}

/// The test runtime's encoding of `System::remark_with_event { remark }`.
fn remark_with_event_call(remark: Vec<u8>) -> Vec<u8> {
    let mut call = vec![0u8, 7u8, (remark.len() as u8) << 2];
    call.extend(remark);
    call
}

/// The dispatch weight of the remark call in these tests.
fn remark_call_weight() -> Weight {
    Weight::from_parts(9_000_000, 0)
}

fn event_task(now_ms: u64) -> Task<[u8; 32]> {
    Task::create_event_task(
        ALICE,
        vec![0],
        vec![SCHEDULED_TIME],
        remark_with_event_call(vec![0]),
        vec![],
        &test_config(),
        now_ms,
    )
    .unwrap()
}

#[test]
fn try_push_errors_when_slot_is_full_by_weight() {
    let task = event_task(START_BLOCK_TIME);
    let task_id = vec![48, 45, 48, 45, 48];
    let mut slot = ScheduledTasks::<[u8; 32], Vec<u8>> { tasks: vec![], weight: MAX_WEIGHT_PER_SLOT };
    assert_eq!(
        slot.try_push(task_id, &task, &test_config(), Some(remark_call_weight())),
        Err(Error::TimeSlotFull)
    );
}

#[test]
fn try_push_errors_when_slot_is_full_by_task_count() {
    let alice = ALICE;
    let id = (alice, vec![49, 45, 48, 45, 42]);
    let task = event_task(START_BLOCK_TIME);
    let tasks = (0..MAX_TASKS_PER_SLOT).fold::<Vec<([u8; 32], Vec<u8>)>, _>(vec![], |mut tasks, _| {
        tasks.push(id.clone());
        tasks
    });
    let task_id = vec![48, 45, 48, 45, 48];
    let mut slot = ScheduledTasks::<[u8; 32], Vec<u8>> { tasks, weight: 0 };
    assert_eq!(
        slot.try_push(task_id, &task, &test_config(), Some(remark_call_weight())),
        Err(Error::TimeSlotFull)
    );
}

#[test]
fn try_push_works_when_slot_is_not_full() {
    let task = event_task(START_BLOCK_TIME);
    let task_id = "0-1-0".as_bytes().to_vec();
    let mut scheduled_tasks = ScheduledTasks::<[u8; 32], Vec<u8>>::default();
    scheduled_tasks
        .try_push(task_id.clone(), &task, &test_config(), Some(remark_call_weight()))
        .expect("slot is not full");

    assert_eq!(scheduled_tasks.tasks, vec![(task.owner_id, task_id)]);
    assert_eq!(scheduled_tasks.weight, 20_000 + remark_call_weight().ref_time() as u128);
}

#[test]
fn sets_executions_left() {
    let t1 = SCHEDULED_TIME + SLOT_SIZE_SECONDS;
    let t2 = SCHEDULED_TIME + SLOT_SIZE_SECONDS * 2;
    let t3 = SCHEDULED_TIME + SLOT_SIZE_SECONDS * 3;
    let s = ScheduleParam::Fixed { execution_times: vec![t1, t2, t3] }
        .validated_into(&test_config(), START_BLOCK_TIME)
        .expect("valid");
    if let Schedule::Fixed { executions_left, .. } = s {
        assert_eq!(executions_left, 3);
    } else {
        panic!("Exepected Schedule::Fixed");
    }
}

#[test]
fn validates_fixed_schedule() {
    let t1 = SCHEDULED_TIME + SLOT_SIZE_SECONDS / 2;
    let s = ScheduleParam::Fixed { execution_times: vec![t1] }.validated_into(&test_config(), START_BLOCK_TIME);
    assert_eq!(s, Err(Error::InvalidTime));
}

#[test]
fn validates_recurring_schedule() {
    let s = ScheduleParam::Recurring { next_execution_time: SCHEDULED_TIME, frequency: SLOT_SIZE_SECONDS }
        .validated_into(&test_config(), START_BLOCK_TIME)
        .expect("valid");
    if let Schedule::Recurring { next_execution_time, .. } = s {
        assert_eq!(next_execution_time, SCHEDULED_TIME);
    } else {
        panic!("Exepected Schedule::Recurring");
    }

    let s = ScheduleParam::Recurring { next_execution_time: SCHEDULED_TIME, frequency: SLOT_SIZE_SECONDS + 1 }
        .validated_into(&test_config(), START_BLOCK_TIME);
    assert_eq!(s, Err(Error::InvalidTime));
}

#[test]
fn counts_executions() {
    let t1 = SCHEDULED_TIME + SLOT_SIZE_SECONDS;
    let t2 = SCHEDULED_TIME + SLOT_SIZE_SECONDS * 2;
    let t3 = SCHEDULED_TIME + SLOT_SIZE_SECONDS * 3;

    let s = ScheduleParam::Fixed { execution_times: vec![t1, t2, t3] };
    assert_eq!(s.number_of_executions(), 3);

    let s = ScheduleParam::Recurring { next_execution_time: SCHEDULED_TIME, frequency: SLOT_SIZE_SECONDS };
    assert_eq!(s.number_of_executions(), 1);
}

#[test]
fn new_fixed_schedule_sets_executions_left() {
    let t1 = SCHEDULED_TIME + SLOT_SIZE_SECONDS;
    let t2 = SCHEDULED_TIME + SLOT_SIZE_SECONDS * 2;
    let t3 = SCHEDULED_TIME + SLOT_SIZE_SECONDS * 3;
    let s = Schedule::new_fixed_schedule(vec![t1, t2, t3], &test_config(), START_BLOCK_TIME).unwrap();
    if let Schedule::Fixed { executions_left, .. } = s {
        assert_eq!(executions_left, 3);
    } else {
        panic!("Exepected Schedule::Fixed");
    }
}

#[test]
fn new_fixed_schedule_errors_with_too_many_executions() {
    let s = Schedule::new_fixed_schedule(
        (0u64..=MAX_EXECUTION_TIMES as u64).collect(),
        &test_config(),
        0,
    );
    assert_eq!(s, Err(Error::TooManyExecutionsTimes));
}

#[test]
fn new_fixed_schedule_cleans_execution_times() {
    let t1 = SCHEDULED_TIME + SLOT_SIZE_SECONDS;
    let t2 = SCHEDULED_TIME + SLOT_SIZE_SECONDS * 2;
    let t3 = SCHEDULED_TIME + SLOT_SIZE_SECONDS * 3;
    let s = Schedule::new_fixed_schedule(vec![t1, t3, t2, t3, t3], &test_config(), START_BLOCK_TIME);
    if let Schedule::Fixed { execution_times, .. } = s.unwrap() {
        assert_eq!(execution_times, vec![t1, t2, t3]);
    } else {
        panic!("Exepected Schedule::Fixed");
    }
}

#[test]
fn checks_for_fixed_schedule_validity() {
    assert!(Schedule::new_fixed_schedule(
        vec![SCHEDULED_TIME + SLOT_SIZE_SECONDS],
        &test_config(),
        START_BLOCK_TIME
    )
    .is_ok());
    // Execution time does not end in whole hour
    assert_eq!(
        Schedule::new_fixed_schedule(
            vec![SCHEDULED_TIME + SLOT_SIZE_SECONDS, SCHEDULED_TIME + SLOT_SIZE_SECONDS + SLOT_SIZE_SECONDS / 2],
            &test_config(),
            START_BLOCK_TIME
        ),
        Err(Error::InvalidTime)
    );
    // No execution times
    assert_eq!(
        Schedule::new_fixed_schedule(vec![], &test_config(), START_BLOCK_TIME),
        Err(Error::InvalidTime)
    );
}

#[test]
fn checks_for_recurring_schedule_validity() {
    let start_time = 1_663_225_200;
    let now = start_time * 1_000;
    let config = test_config();
    assert!(Schedule::Recurring {
        next_execution_time: start_time + SLOT_SIZE_SECONDS,
        frequency: SLOT_SIZE_SECONDS
    }
    .valid(&config, now)
    .is_ok());
    // Next execution time not at hour granuality
    assert_eq!(
        Schedule::Recurring {
            next_execution_time: start_time + SLOT_SIZE_SECONDS + SLOT_SIZE_SECONDS / 2,
            frequency: SLOT_SIZE_SECONDS
        }
        .valid(&config, now),
        Err(Error::InvalidTime)
    );
    // Frequency not at hour granularity
    assert_eq!(
        Schedule::Recurring {
            next_execution_time: start_time + SLOT_SIZE_SECONDS + SLOT_SIZE_SECONDS / 2,
            frequency: SLOT_SIZE_SECONDS + SLOT_SIZE_SECONDS / 2
        }
        .valid(&config, now),
        Err(Error::InvalidTime)
    );
    // Frequency of 0
    assert_eq!(
        Schedule::Recurring { next_execution_time: start_time + SLOT_SIZE_SECONDS, frequency: 0 }
            .valid(&config, now),
        Err(Error::InvalidTime)
    );
    // Frequency too far out
    assert_eq!(
        Schedule::Recurring {
            next_execution_time: start_time + SLOT_SIZE_SECONDS,
            frequency: start_time + SLOT_SIZE_SECONDS
        }
        .valid(&config, now),
        Err(Error::TimeTooFarOut)
    );
}

#[test]
fn number_of_known_executions_for_fixed() {
    let s = Schedule::Fixed { execution_times: vec![], executions_left: 5 };
    assert_eq!(s.known_executions_left(), 5);
}

#[test]
fn number_of_known_executions_for_recurring() {
    let s = Schedule::Recurring { next_execution_time: 0, frequency: 0 };
    assert_eq!(s.known_executions_left(), 1);
}

// Further checks: errors, limits, equality and the laws on concrete values.

#[test]
fn dynamic_dispatch_weight_needs_a_decodable_call() {
    let action: Action<[u8; 32]> = Action::DynamicDispatch { encoded_call: vec![9, 9, 9] };
    assert_eq!(action.execution_weight(&test_config(), None), Err(Error::CallCannotBeDecoded));
    assert_eq!(
        action.execution_weight(&test_config(), Some(Weight::from_parts(5, 7))),
        Ok(20_005)
    );
    assert_eq!(
        action.execution_weight(&test_config(), Some(Weight::from_parts(u64::MAX, 0))),
        Ok(u64::MAX)
    );
}

#[test]
fn try_push_refuses_an_undecodable_call_and_keeps_the_slot() {
    let task = event_task(START_BLOCK_TIME);
    let mut slot = ScheduledTasks::<[u8; 32], Vec<u8>>::default();
    assert_eq!(slot.try_push(vec![1], &task, &test_config(), None), Err(Error::CallCannotBeDecoded));
    assert!(slot.tasks.is_empty());
    assert_eq!(slot.weight, 0);
}

#[test]
fn try_push_fills_a_slot_to_its_task_limit() {
    let task = event_task(START_BLOCK_TIME);
    let config = test_config();
    let mut slot = ScheduledTasks::<[u8; 32], Vec<u8>>::default();
    let pushed = slot.try_push(vec![1], &task, &config, Some(remark_call_weight())).unwrap();
    assert_eq!(pushed.tasks.len(), 1);
    assert_eq!(slot.try_push(vec![2], &task, &config, Some(remark_call_weight())).map(|_| ()), Ok(()));
    assert_eq!(slot.try_push(vec![3], &task, &config, Some(remark_call_weight())), Err(Error::TimeSlotFull));
    assert_eq!(slot.tasks, vec![(ALICE, vec![1]), (ALICE, vec![2])]);
    assert_eq!(slot.weight, 2 * (20_000 + 9_000_000));
}

#[test]
fn try_push_refuses_weight_past_the_limit_only() {
    let task = event_task(START_BLOCK_TIME);
    let config = test_config();
    let w = 20_000 + 9_000_000;
    let mut slot = ScheduledTasks::<[u8; 32], Vec<u8>> { tasks: vec![], weight: MAX_WEIGHT_PER_SLOT - w };
    assert_eq!(slot.try_push(vec![1], &task, &config, Some(remark_call_weight())).map(|_| ()), Ok(()));
    assert_eq!(slot.weight, MAX_WEIGHT_PER_SLOT);
    let mut slot = ScheduledTasks::<[u8; 32], Vec<u8>> { tasks: vec![], weight: MAX_WEIGHT_PER_SLOT - w + 1 };
    assert_eq!(slot.try_push(vec![1], &task, &config, Some(remark_call_weight())), Err(Error::TimeSlotFull));
    let mut slot = ScheduledTasks::<[u8; 32], Vec<u8>> { tasks: vec![], weight: u128::MAX };
    assert_eq!(slot.try_push(vec![1], &task, &config, Some(remark_call_weight())), Err(Error::TimeSlotFull));
}

#[test]
fn event_task_carries_the_call_and_the_cleaned_schedule() {
    let t1 = SCHEDULED_TIME + SLOT_SIZE_SECONDS;
    let call = remark_with_event_call(vec![0]);
    let task = Task::create_event_task(
        ALICE,
        vec![7],
        vec![t1, SCHEDULED_TIME, t1],
        call.clone(),
        vec![b"Error".to_vec()],
        &test_config(),
        START_BLOCK_TIME,
    )
    .unwrap();
    assert_eq!(task.owner_id, ALICE);
    assert_eq!(task.task_id, vec![7]);
    assert_eq!(task.action, Action::DynamicDispatch { encoded_call: call });
    assert_eq!(task.abort_errors, vec![b"Error".to_vec()]);
    assert_eq!(task.execution_times(), vec![SCHEDULED_TIME, t1]);
    assert_eq!(task.schedule.known_executions_left(), 2);
}

#[test]
fn event_task_refuses_a_bad_schedule() {
    let r = Task::create_event_task(
        ALICE,
        vec![7],
        vec![SCHEDULED_TIME + 1],
        remark_with_event_call(vec![0]),
        vec![],
        &test_config(),
        START_BLOCK_TIME,
    );
    assert_eq!(r.err(), Some(Error::InvalidTime));
}

#[test]
fn execution_times_of_a_recurring_task_is_the_next_one() {
    let schedule = Schedule::new_recurring_schedule(SCHEDULED_TIME, SLOT_SIZE_SECONDS, &test_config(), START_BLOCK_TIME)
        .unwrap();
    let task = Task::new(ALICE, vec![1], schedule, Action::DynamicDispatch { encoded_call: vec![] }, vec![]);
    assert_eq!(task.execution_times(), vec![SCHEDULED_TIME]);
}

#[test]
fn tasks_equal_regardless_of_abort_errors() {
    let a = Task::new(
        ALICE,
        vec![1],
        Schedule::Recurring { next_execution_time: 600, frequency: 600 },
        Action::<[u8; 32]>::DynamicDispatch { encoded_call: vec![1, 2] },
        vec![b"A".to_vec()],
    );
    let b = Task::new(
        ALICE,
        vec![1],
        Schedule::Recurring { next_execution_time: 600, frequency: 600 },
        Action::<[u8; 32]>::DynamicDispatch { encoded_call: vec![1, 2] },
        vec![],
    );
    assert!(a == b);
    let c = Task::new(
        [2u8; 32],
        vec![1],
        Schedule::Recurring { next_execution_time: 600, frequency: 600 },
        Action::<[u8; 32]>::DynamicDispatch { encoded_call: vec![1, 2] },
        vec![],
    );
    assert!(a != c);
    let d = Task::new(
        ALICE,
        vec![1],
        Schedule::Fixed { execution_times: vec![600], executions_left: 1 },
        Action::<[u8; 32]>::DynamicDispatch { encoded_call: vec![1, 2] },
        vec![],
    );
    assert!(a != d);
}

#[test]
fn past_and_far_times_are_refused() {
    let config = test_config();
    let current_slot = START_BLOCK_TIME / 1_000;
    assert_eq!(Schedule::new_fixed_schedule(vec![current_slot], &config, START_BLOCK_TIME), Err(Error::PastTime));
    assert!(Schedule::new_fixed_schedule(vec![current_slot + 86_400], &config, START_BLOCK_TIME).is_ok());
    assert_eq!(
        Schedule::new_fixed_schedule(vec![current_slot + 86_400 + 600], &config, START_BLOCK_TIME),
        Err(Error::TimeTooFarOut)
    );
}

#[test]
fn block_time_must_be_set() {
    assert_eq!(
        Schedule::new_fixed_schedule(vec![SCHEDULED_TIME], &test_config(), 0),
        Err(Error::BlockTimeNotSet)
    );
}

#[test]
fn a_zero_slot_size_overflows() {
    let mut config = test_config();
    config.slot_size_seconds = 0;
    assert_eq!(
        Schedule::new_fixed_schedule(vec![SCHEDULED_TIME], &config, START_BLOCK_TIME),
        Err(Error::ArithmeticOverflow)
    );
}

#[test]
fn recurrence_past_the_end_of_time_is_too_far_out() {
    assert_eq!(
        Schedule::new_recurring_schedule(SCHEDULED_TIME, u64::MAX, &test_config(), START_BLOCK_TIME),
        Err(Error::TimeTooFarOut)
    );
}

#[test]
fn validated_executions_do_not_exceed_requested() {
    let t1 = SCHEDULED_TIME + SLOT_SIZE_SECONDS;
    let param = ScheduleParam::Fixed { execution_times: vec![t1, t1, t1] };
    let requested = param.number_of_executions();
    let s = param.validated_into(&test_config(), START_BLOCK_TIME).unwrap();
    assert_eq!(requested, 3);
    assert_eq!(s.known_executions_left(), 1);
}

