//! Schedules of tasks: a fixed list of execution times, or a recurrence
//! with a next execution time and a frequency; how a requested schedule is
//! validated and turned into a stored one.
use vstd::prelude::*;

use crate::time_slots::{
    clean_execution_times_vector, cleaned, is_cleaned_of, is_valid_time, lemma_clean_same_times,
    lemma_cleaned, check_times, same_times, strictly_increasing, time_check, times_check, Config, Error,
    Seconds, UnixTime,
};

verus! {

/// A schedule as a user requests it.
#[derive(Clone, Debug, PartialEq)]
pub enum ScheduleParam {
    Fixed { execution_times: Vec<UnixTime> },
    Recurring { next_execution_time: UnixTime, frequency: Seconds },
}

/// A schedule as the pallet stores it.
#[derive(Clone, Debug)]
pub enum Schedule {
    Fixed { execution_times: Vec<UnixTime>, executions_left: u32 },
    Recurring { next_execution_time: UnixTime, frequency: Seconds },
}

/// What validating a fixed list of (cleaned) execution times gives.
pub open spec fn fixed_times_check(times: Seq<UnixTime>, config: Config, now_ms: u64) -> Result<(), Error> {
    if times.len() > u32::MAX {
        Err(Error::TooManyExecutionsTimes)
    } else if times.len() == 0 {
        Err(Error::InvalidTime)
    } else if times.len() > config.max_execution_times {
        Err(Error::TooManyExecutionsTimes)
    } else {
        times_check(times, config, now_ms)
    }
}

/// What validating a recurrence gives: the next execution time and the one
/// after it must both be valid times, and the frequency must not be zero.
pub open spec fn recurring_check(
    next_execution_time: UnixTime,
    frequency: Seconds,
    config: Config,
    now_ms: u64,
) -> Result<(), Error> {
    match time_check(next_execution_time, config, now_ms) {
        Err(e) => Err(e),
        Ok(()) => if next_execution_time + frequency > u64::MAX {
            Err(Error::TimeTooFarOut)
        } else if next_execution_time == next_execution_time + frequency {
            Err(Error::InvalidTime)
        } else {
            time_check((next_execution_time + frequency) as u64, config, now_ms)
        },
    }
}

/// What `Schedule::valid` gives for `schedule`.
pub open spec fn schedule_check(schedule: Schedule, config: Config, now_ms: u64) -> Result<(), Error> {
    match schedule {
        Schedule::Fixed { execution_times, .. } => fixed_times_check(execution_times@, config, now_ms),
        Schedule::Recurring { next_execution_time, frequency } => recurring_check(
            next_execution_time,
            frequency,
            config,
            now_ms,
        ),
    }
}

/// `r` is what `Schedule::new_fixed_schedule` gives for `times`: the cleaned
/// times with their count, if they pass validation, else the first refusal.
pub open spec fn is_fixed_schedule_result(
    times: Seq<UnixTime>,
    config: Config,
    now_ms: u64,
    r: Result<Schedule, Error>,
) -> bool {
    let c = cleaned(times);
    match fixed_times_check(c, config, now_ms) {
        Ok(()) => match r {
            Ok(Schedule::Fixed { execution_times, executions_left }) => execution_times@ == c
                && executions_left == c.len(),
            _ => false,
        },
        Err(e) => r == Err::<Schedule, Error>(e),
    }
}

/// `r` is what `Schedule::new_recurring_schedule` gives.
pub open spec fn is_recurring_schedule_result(
    next_execution_time: UnixTime,
    frequency: Seconds,
    config: Config,
    now_ms: u64,
    r: Result<Schedule, Error>,
) -> bool {
    match recurring_check(next_execution_time, frequency, config, now_ms) {
        Ok(()) => r == Ok::<Schedule, Error>(Schedule::Recurring { next_execution_time, frequency }),
        Err(e) => r == Err::<Schedule, Error>(e),
    }
}

/// The number of executions that a schedule still knows of.
pub open spec fn known_executions(schedule: Schedule) -> u32 {
    match schedule {
        Schedule::Fixed { executions_left, .. } => executions_left,
        Schedule::Recurring { .. } => 1,
    }
}

/// The number of executions that a requested schedule names.
pub open spec fn requested_executions(param: ScheduleParam) -> int {
    match param {
        ScheduleParam::Fixed { execution_times } => execution_times@.len() as int,
        ScheduleParam::Recurring { .. } => 1,
    }
}

impl ScheduleParam {
    /// Validates the requested schedule and turns it into a stored one.
    pub fn validated_into(self, config: &Config, now_ms: u64) -> (r: Result<Schedule, Error>)
        ensures
            match self {
                ScheduleParam::Fixed { execution_times } => is_fixed_schedule_result(
                    execution_times@,
                    *config,
                    now_ms,
                    r,
                ),
                ScheduleParam::Recurring { next_execution_time, frequency } => is_recurring_schedule_result(
                    next_execution_time,
                    frequency,
                    *config,
                    now_ms,
                    r,
                ),
            },
    {
        match self {
            ScheduleParam::Fixed { execution_times } => Schedule::new_fixed_schedule(
                execution_times,
                config,
                now_ms,
            ),
            ScheduleParam::Recurring { next_execution_time, frequency } => Schedule::new_recurring_schedule(
                next_execution_time,
                frequency,
                config,
                now_ms,
            ),
        }
    }

    /// The number of executions known when the task is scheduled.
    pub fn number_of_executions(&self) -> (r: u32)
        requires
            requested_executions(*self) <= u32::MAX,
        ensures
            r == requested_executions(*self),
    {
        match self {
            ScheduleParam::Fixed { execution_times } => execution_times.len() as u32,
            ScheduleParam::Recurring { .. } => 1,
        }
    }
}

impl Schedule {
    /// A fixed schedule of the given times, cleaned and validated.
    pub fn new_fixed_schedule(execution_times: Vec<UnixTime>, config: &Config, now_ms: u64) -> (r: Result<
        Self,
        Error,
    >)
        ensures
            is_fixed_schedule_result(execution_times@, *config, now_ms, r),
    {
        let mut execution_times = execution_times;
        clean_execution_times_vector(&mut execution_times);
        let executions_left = execution_times.len() as u32;
        let schedule = Schedule::Fixed { execution_times, executions_left };
        match schedule.valid(config, now_ms) {
            Err(e) => Err(e),
            Ok(()) => Ok(schedule),
        }
    }

    /// A recurring schedule, validated.
    pub fn new_recurring_schedule(
        next_execution_time: UnixTime,
        frequency: Seconds,
        config: &Config,
        now_ms: u64,
    ) -> (r: Result<Self, Error>)
        ensures
            is_recurring_schedule_result(next_execution_time, frequency, *config, now_ms, r),
    {
        let schedule = Schedule::Recurring { next_execution_time, frequency };
        match schedule.valid(config, now_ms) {
            Err(e) => Err(e),
            Ok(()) => Ok(schedule),
        }
    }

    /// The number of executions that the schedule still knows of: what is left
    /// of a fixed schedule, and one for a recurring one.
    pub fn known_executions_left(&self) -> (r: u32)
        ensures
            r == known_executions(*self),
    {
        match self {
            Schedule::Fixed { executions_left, .. } => *executions_left,
            Schedule::Recurring { .. } => 1,
        }
    }

    /// Checks the schedule against the pallet's rules.
    pub fn valid(&self, config: &Config, now_ms: u64) -> (r: Result<(), Error>)
        ensures
            r == schedule_check(*self, *config, now_ms),
    {
        match self {
            Schedule::Fixed { execution_times, .. } => {
                if execution_times.len() > u32::MAX as usize {
                    return Err(Error::TooManyExecutionsTimes);
                }
                let number_of_executions = execution_times.len() as u32;
                if number_of_executions == 0 {
                    return Err(Error::InvalidTime);
                }
                if number_of_executions > config.max_execution_times {
                    return Err(Error::TooManyExecutionsTimes);
                }
                check_times(execution_times, config, now_ms)
            },
            Schedule::Recurring { next_execution_time, frequency } => {
                match is_valid_time(*next_execution_time, config, now_ms) {
                    Err(e) => {
                        return Err(e);
                    },
                    Ok(()) => {},
                }
                let next_recurrence = match next_execution_time.checked_add(*frequency) {
                    Some(t) => t,
                    None => {
                        return Err(Error::TimeTooFarOut);
                    },
                };
                if *next_execution_time == next_recurrence {
                    return Err(Error::InvalidTime);
                }
                is_valid_time(next_recurrence, config, now_ms)
            },
        }
    }
}

/// Each time that passes `times_check` is a valid time.
proof fn lemma_times_check_each(times: Seq<UnixTime>, config: Config, now_ms: u64)
    requires
        times_check(times, config, now_ms) is Ok,
    ensures
        forall|i: int| 0 <= i < times.len() ==> time_check(#[trigger] times[i], config, now_ms) is Ok,
    decreases times.len(),
{
    if times.len() > 0 {
        lemma_times_check_each(times.drop_first(), config, now_ms);
        assert forall|i: int| 0 <= i < times.len() implies time_check(#[trigger] times[i], config, now_ms) is Ok by {
            if i > 0 {
                assert(times[i] == times.drop_first()[i - 1]);
            }
        }
    }
}

/// A fixed schedule built from a list of times passes validation, lists its
/// times in increasing order, each once and each a valid time, names from
/// one up to `max_execution_times` of them, all from the list it was built
/// from, and knows of as many executions as it lists.
pub proof fn lemma_fixed_schedule_is_valid(
    times: Seq<UnixTime>,
    config: Config,
    now_ms: u64,
    r: Result<Schedule, Error>,
)
    requires
        is_fixed_schedule_result(times, config, now_ms, r),
        r is Ok,
    ensures
        schedule_check(r->Ok_0, config, now_ms) is Ok,
        r->Ok_0 matches Schedule::Fixed { execution_times, executions_left } && {
            &&& strictly_increasing(execution_times@)
            &&& same_times(execution_times@, times)
            &&& 1 <= execution_times@.len() <= config.max_execution_times
            &&& executions_left == execution_times@.len()
            &&& forall|i: int|
                0 <= i < execution_times@.len() ==> time_check(
                    #[trigger] execution_times@[i],
                    config,
                    now_ms,
                ) is Ok
        },
{
    lemma_cleaned(times, cleaned(times));
    let c = cleaned(times);
    lemma_times_check_each(c, config, now_ms);
}

/// A recurring schedule that is built passes validation, and both its next
/// execution time and the one a frequency later are valid times, the later
/// one strictly later.
pub proof fn lemma_recurring_schedule_is_valid(
    next_execution_time: UnixTime,
    frequency: Seconds,
    config: Config,
    now_ms: u64,
    r: Result<Schedule, Error>,
)
    requires
        is_recurring_schedule_result(next_execution_time, frequency, config, now_ms, r),
        r is Ok,
    ensures
        schedule_check(r->Ok_0, config, now_ms) is Ok,
        time_check(next_execution_time, config, now_ms) is Ok,
        frequency > 0,
        next_execution_time + frequency <= u64::MAX,
        time_check((next_execution_time + frequency) as u64, config, now_ms) is Ok,
{
}

/// A schedule that is validated knows of no more executions than were
/// requested: repeated times of a fixed request count once.
pub proof fn lemma_validated_executions_at_most_requested(
    param: ScheduleParam,
    config: Config,
    now_ms: u64,
    r: Result<Schedule, Error>,
)
    requires
        match param {
            ScheduleParam::Fixed { execution_times } => is_fixed_schedule_result(
                execution_times@,
                config,
                now_ms,
                r,
            ),
            ScheduleParam::Recurring { next_execution_time, frequency } => is_recurring_schedule_result(
                next_execution_time,
                frequency,
                config,
                now_ms,
                r,
            ),
        },
        r is Ok,
    ensures
        known_executions(r->Ok_0) <= requested_executions(param),
        param is Recurring ==> known_executions(r->Ok_0) == 1,
{
    match param {
        ScheduleParam::Fixed { execution_times } => {
            let s = execution_times@;
            let c = cleaned(s);
            lemma_cleaned(s, c);
            lemma_cleaned_at_most(s, c);
        },
        ScheduleParam::Recurring { .. } => {},
    }
}

/// A fixed schedule depends only on which times are requested, not on their
/// order or on how often each is repeated.
pub proof fn lemma_fixed_schedule_ignores_order_and_repeats(
    a: Seq<UnixTime>,
    b: Seq<UnixTime>,
    config: Config,
    now_ms: u64,
    r: Result<Schedule, Error>,
)
    requires
        same_times(a, b),
    ensures
        is_fixed_schedule_result(a, config, now_ms, r) <==> is_fixed_schedule_result(b, config, now_ms, r),
{
    lemma_clean_same_times(a, b);
}

/// A list of distinct times drawn from `s` is no longer than `s`.
pub proof fn lemma_cleaned_at_most(s: Seq<UnixTime>, c: Seq<UnixTime>)
    requires
        is_cleaned_of(c, s),
    ensures
        c.len() <= s.len(),
        s.len() > 0 ==> c.len() > 0,
{
    broadcast use vstd::seq_lib::seq_to_set_is_finite;

    assert(c.no_duplicates()) by {
        assert forall|i: int, j: int| 0 <= i < c.len() && 0 <= j < c.len() && i != j implies c[i] != c[j] by {
            if i < j {
                assert(c[i] < c[j]);
            } else {
                assert(c[j] < c[i]);
            }
        }
    }
    c.unique_seq_to_set();
    s.lemma_cardinality_of_set();
    assert(c.to_set().subset_of(s.to_set())) by {
        assert forall|t: UnixTime| c.to_set().contains(t) implies s.to_set().contains(t) by {
            assert(c.contains(t));
        }
    }
    vstd::set_lib::lemma_len_subset(c.to_set(), s.to_set());
    if s.len() > 0 {
        assert(s.contains(s[0]));
        assert(c.contains(s[0]));
    }
}

} // verus!
