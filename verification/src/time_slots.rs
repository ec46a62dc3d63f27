//! Time slots: the rules that decide whether a Unix time may carry a
//! scheduled execution, and the normal form of a list of execution times.
//!
//! A slot is a window of `slot_size_seconds` seconds; executions happen only
//! at slot boundaries, strictly after the slot that holds the current block
//! time, and no further than `max_schedule_seconds` past that slot.
use vstd::prelude::*;

use crate::weight::Weight;

verus! {

/// Seconds since the Unix epoch.
pub type UnixTime = u64;

/// A duration in seconds.
pub type Seconds = u64;

/// Why a request of the automation pallet is refused.
#[derive(Clone, Copy, Debug, PartialEq, Eq, Structural)]
pub enum Error {
    /// A time is not at a slot boundary, or a schedule names no time at all.
    InvalidTime,
    /// A time lies in the current slot or before it.
    PastTime,
    /// A time lies further out than the pallet schedules.
    TimeTooFarOut,
    /// A fixed schedule holds more execution times than allowed.
    TooManyExecutionsTimes,
    /// A time slot holds as many tasks, or as much weight, as it may.
    TimeSlotFull,
    /// The call of a dynamic dispatch action does not decode.
    CallCannotBeDecoded,
    /// The block time has not been set yet.
    BlockTimeNotSet,
    /// An arithmetic operation overflowed (or divided by zero).
    ArithmeticOverflow,
}

/// The configuration constants of the pallet that its scheduling rules read.
#[derive(Clone, Copy, Debug)]
pub struct Config {
    /// The most tasks that one time slot holds.
    pub max_tasks_per_slot: u32,
    /// The most execution times that a fixed schedule holds.
    pub max_execution_times: u32,
    /// How far past the current slot a task may be scheduled, in seconds.
    pub max_schedule_seconds: Seconds,
    /// The length of a time slot, in seconds.
    pub slot_size_seconds: Seconds,
    /// The most weight that one time slot holds.
    pub max_weight_per_slot: u128,
    /// The weight of running an XCMP task.
    pub run_xcmp_task_weight: Weight,
    /// The weight of running a dynamic dispatch action, without the call itself.
    pub run_dynamic_dispatch_action_weight: Weight,
}

/// The start of the slot that holds the block time `now_ms` (milliseconds).
pub open spec fn slot_start(now_ms: u64, slot_size: u64) -> int
    recommends
        slot_size != 0,
{
    let now = now_ms / 1000;
    now - now % slot_size
}

/// The slot start lies between zero and the block time in seconds.
pub proof fn lemma_slot_start_bounds(now_ms: u64, slot_size: u64)
    requires
        slot_size != 0,
    ensures
        0 <= slot_start(now_ms, slot_size) <= now_ms / 1000,
{
    let now = now_ms / 1000;
    assert(now % slot_size <= now) by (nonlinear_arith)
        requires
            slot_size > 0,
            now >= 0,
    ;
}

/// What `get_current_time_slot` gives for the block time `now_ms`.
pub open spec fn current_time_slot_result(now_ms: u64, slot_size: u64) -> Result<UnixTime, Error> {
    if now_ms == 0 {
        Err(Error::BlockTimeNotSet)
    } else if slot_size == 0 {
        Err(Error::ArithmeticOverflow)
    } else {
        Ok(slot_start(now_ms, slot_size) as u64)
    }
}

/// What `is_valid_time` gives for `time`, under `config`, at block time `now_ms`.
pub open spec fn time_check(time: UnixTime, config: Config, now_ms: u64) -> Result<(), Error> {
    let slot_size = config.slot_size_seconds;
    if slot_size == 0 {
        Err(Error::ArithmeticOverflow)
    } else if time % slot_size != 0 {
        Err(Error::InvalidTime)
    } else if now_ms == 0 {
        Err(Error::BlockTimeNotSet)
    } else {
        let current = slot_start(now_ms, slot_size);
        let horizon = if current + config.max_schedule_seconds > u64::MAX {
            u64::MAX as int
        } else {
            current + config.max_schedule_seconds
        };
        if time <= current {
            Err(Error::PastTime)
        } else if time > horizon {
            Err(Error::TimeTooFarOut)
        } else {
            Ok(())
        }
    }
}

/// The first refusal among the times of `times`, taken in order, or `Ok`.
pub open spec fn times_check(times: Seq<UnixTime>, config: Config, now_ms: u64) -> Result<(), Error>
    decreases times.len(),
{
    if times.len() == 0 {
        Ok(())
    } else {
        match time_check(times[0], config, now_ms) {
            Err(e) => Err(e),
            Ok(()) => times_check(times.drop_first(), config, now_ms),
        }
    }
}

/// Each time of `s` is smaller than the next one.
pub open spec fn strictly_increasing(s: Seq<UnixTime>) -> bool {
    forall|i: int, j: int| 0 <= i < j < s.len() ==> s[i] < s[j]
}

/// `a` and `b` hold the same times.
pub open spec fn same_times(a: Seq<UnixTime>, b: Seq<UnixTime>) -> bool {
    forall|t: UnixTime| a.contains(t) <==> b.contains(t)
}

/// `r` lists the times of `s` in increasing order, each once.
pub open spec fn is_cleaned_of(r: Seq<UnixTime>, s: Seq<UnixTime>) -> bool {
    strictly_increasing(r) && same_times(r, s)
}

/// The times of `s` in increasing order, each once.
pub open spec fn cleaned(s: Seq<UnixTime>) -> Seq<UnixTime> {
    choose|r: Seq<UnixTime>| is_cleaned_of(r, s)
}

/// A strictly increasing sequence with `x` added, as a witness.
proof fn lemma_insert_time(r: Seq<UnixTime>, x: UnixTime) -> (r2: Seq<UnixTime>)
    requires
        strictly_increasing(r),
    ensures
        strictly_increasing(r2),
        forall|t: UnixTime| r2.contains(t) <==> (r.contains(t) || t == x),
    decreases r.len(),
{
    if r.contains(x) {
        r
    } else if r.len() == 0 {
        let r2 = seq![x];
        assert(forall|t: UnixTime| r2.contains(t) ==> t == x) by {
            assert forall|t: UnixTime| r2.contains(t) implies t == x by {
                let k = choose|k: int| 0 <= k < r2.len() && r2[k] == t;
            }
        }
        assert(r2[0] == x);
        r2
    } else if x < r[0] {
        let r2 = seq![x] + r;
        assert forall|t: UnixTime| r2.contains(t) <==> (r.contains(t) || t == x) by {
            if r2.contains(t) {
                let k = choose|k: int| 0 <= k < r2.len() && r2[k] == t;
                if k > 0 {
                    assert(r[k - 1] == t);
                }
            }
            if r.contains(t) {
                let k = choose|k: int| 0 <= k < r.len() && r[k] == t;
                assert(r2[k + 1] == t);
            }
            if t == x {
                assert(r2[0] == t);
            }
        }
        assert forall|i: int, j: int| 0 <= i < j < r2.len() implies r2[i] < r2[j] by {
            if i > 0 {
                assert(r[i - 1] < r[j - 1]);
            } else if j > 1 {
                assert(r[0] < r[j - 1]);
            }
        }
        r2
    } else {
        let head = r[0];
        let tail = r.drop_first();
        assert(strictly_increasing(tail)) by {
            assert forall|i: int, j: int| 0 <= i < j < tail.len() implies tail[i] < tail[j] by {
                assert(r[i + 1] < r[j + 1]);
            }
        }
        assert(!tail.contains(x)) by {
            if tail.contains(x) {
                let k = choose|k: int| 0 <= k < tail.len() && tail[k] == x;
                assert(r[k + 1] == x);
            }
        }
        assert(x != head) by {
            assert(r[0] == head);
        }
        let t2 = lemma_insert_time(tail, x);
        let r2 = seq![head] + t2;
        assert forall|t: UnixTime| r2.contains(t) <==> (r.contains(t) || t == x) by {
            if r2.contains(t) {
                let k = choose|k: int| 0 <= k < r2.len() && r2[k] == t;
                if k > 0 {
                    assert(t2[k - 1] == t);
                    assert(t2.contains(t));
                    if tail.contains(t) {
                        let m = choose|m: int| 0 <= m < tail.len() && tail[m] == t;
                        assert(r[m + 1] == t);
                    }
                } else {
                    assert(r[0] == t);
                }
            }
            if r.contains(t) {
                let k = choose|k: int| 0 <= k < r.len() && r[k] == t;
                if k > 0 {
                    assert(tail[k - 1] == t);
                    assert(t2.contains(t));
                    let m = choose|m: int| 0 <= m < t2.len() && t2[m] == t;
                    assert(r2[m + 1] == t);
                } else {
                    assert(r2[0] == t);
                }
            }
            if t == x {
                assert(t2.contains(t));
                let m = choose|m: int| 0 <= m < t2.len() && t2[m] == t;
                assert(r2[m + 1] == t);
            }
        }
        assert forall|i: int, j: int| 0 <= i < j < r2.len() implies r2[i] < r2[j] by {
            if i > 0 {
                assert(t2[i - 1] < t2[j - 1]);
            } else {
                let y = t2[j - 1];
                assert(t2.contains(y));
                if y != x {
                    assert(tail.contains(y));
                    let m = choose|m: int| 0 <= m < tail.len() && tail[m] == y;
                    assert(r[0] < r[m + 1]);
                }
            }
        }
        r2
    }
}

/// Every list of times has a cleaned form.
proof fn lemma_cleaned_exists(s: Seq<UnixTime>) -> (r: Seq<UnixTime>)
    ensures
        is_cleaned_of(r, s),
    decreases s.len(),
{
    if s.len() == 0 {
        let r = Seq::<UnixTime>::empty();
        assert forall|t: UnixTime| r.contains(t) <==> s.contains(t) by {
            if s.contains(t) {
                let k = choose|k: int| 0 <= k < s.len() && s[k] == t;
            }
        }
        r
    } else {
        let init = s.drop_last();
        let r0 = lemma_cleaned_exists(init);
        let r = lemma_insert_time(r0, s.last());
        assert forall|t: UnixTime| r.contains(t) <==> s.contains(t) by {
            if s.contains(t) {
                let k = choose|k: int| 0 <= k < s.len() && s[k] == t;
                if k < s.len() - 1 {
                    assert(init[k] == t);
                }
            }
            if init.contains(t) {
                let k = choose|k: int| 0 <= k < init.len() && init[k] == t;
                assert(s[k] == t);
            }
        }
        r
    }
}

/// Two strictly increasing sequences with the same times are equal.
pub proof fn lemma_strictly_increasing_unique(a: Seq<UnixTime>, b: Seq<UnixTime>)
    requires
        strictly_increasing(a),
        strictly_increasing(b),
        same_times(a, b),
    ensures
        a == b,
    decreases a.len(),
{
    if a.len() == 0 {
        if b.len() > 0 {
            assert(b.contains(b[0]));
        }
        assert(a =~= b);
    } else {
        assert(a.contains(a[0]));
        assert(b.len() > 0);
        assert(b.contains(b[0]));
        let ka = choose|k: int| 0 <= k < a.len() && a[k] == b[0];
        let kb = choose|k: int| 0 <= k < b.len() && b[k] == a[0];
        assert(a[0] <= a[ka]);
        assert(b[0] <= b[kb]);
        assert(a[0] == b[0]);
        let ta = a.drop_first();
        let tb = b.drop_first();
        assert(strictly_increasing(ta)) by {
            assert forall|i: int, j: int| 0 <= i < j < ta.len() implies ta[i] < ta[j] by {
                assert(a[i + 1] < a[j + 1]);
            }
        }
        assert(strictly_increasing(tb)) by {
            assert forall|i: int, j: int| 0 <= i < j < tb.len() implies tb[i] < tb[j] by {
                assert(b[i + 1] < b[j + 1]);
            }
        }
        assert forall|t: UnixTime| ta.contains(t) <==> tb.contains(t) by {
            if ta.contains(t) {
                let k = choose|k: int| 0 <= k < ta.len() && ta[k] == t;
                assert(a[k + 1] == t);
                assert(a[0] < a[k + 1]);
                assert(b.contains(t));
                let m = choose|m: int| 0 <= m < b.len() && b[m] == t;
                assert(m != 0);
                assert(tb[m - 1] == t);
            }
            if tb.contains(t) {
                let k = choose|k: int| 0 <= k < tb.len() && tb[k] == t;
                assert(b[k + 1] == t);
                assert(b[0] < b[k + 1]);
                assert(a.contains(t));
                let m = choose|m: int| 0 <= m < a.len() && a[m] == t;
                assert(m != 0);
                assert(ta[m - 1] == t);
            }
        }
        lemma_strictly_increasing_unique(ta, tb);
        assert(a =~= seq![a[0]] + ta);
        assert(b =~= seq![b[0]] + tb);
    }
}

/// The cleaned form of a list of times is the one strictly increasing list
/// that holds the same times.
pub proof fn lemma_cleaned(s: Seq<UnixTime>, r: Seq<UnixTime>)
    ensures
        is_cleaned_of(cleaned(s), s),
        is_cleaned_of(r, s) ==> r == cleaned(s),
{
    let w = lemma_cleaned_exists(s);
    assert(is_cleaned_of(w, s));
    let c = cleaned(s);
    assert(is_cleaned_of(c, s));
    if is_cleaned_of(r, s) {
        lemma_strictly_increasing_unique(r, c);
    }
}

/// Cleaning a list of times twice gives what cleaning it once gives.
pub proof fn lemma_clean_idempotent(s: Seq<UnixTime>)
    ensures
        cleaned(cleaned(s)) == cleaned(s),
{
    let c = cleaned(s);
    lemma_cleaned(s, c);
    lemma_cleaned(c, c);
}

/// Cleaning depends only on which times a list holds.
pub proof fn lemma_clean_same_times(a: Seq<UnixTime>, b: Seq<UnixTime>)
    requires
        same_times(a, b),
    ensures
        cleaned(a) == cleaned(b),
{
    lemma_cleaned(a, cleaned(b));
    lemma_cleaned(b, cleaned(b));
}

/// The start of the time slot that holds the block time `now_ms` (in
/// milliseconds), in seconds.
pub fn get_current_time_slot(now_ms: u64, slot_size_seconds: Seconds) -> (r: Result<UnixTime, Error>)
    ensures
        r == current_time_slot_result(now_ms, slot_size_seconds),
{
    if now_ms == 0 {
        return Err(Error::BlockTimeNotSet);
    }
    let now = now_ms / 1000;
    if slot_size_seconds == 0 {
        return Err(Error::ArithmeticOverflow);
    }
    let diff_to_slot = now % slot_size_seconds;
    proof {
        lemma_slot_start_bounds(now_ms, slot_size_seconds);
    }
    Ok(now - diff_to_slot)
}

/// Whether `scheduled_time` may carry an execution: it must lie at a slot
/// boundary, after the current slot, and at most `max_schedule_seconds` past it.
pub fn is_valid_time(scheduled_time: UnixTime, config: &Config, now_ms: u64) -> (r: Result<(), Error>)
    ensures
        r == time_check(scheduled_time, *config, now_ms),
        config.slot_size_seconds != 0 && scheduled_time % config.slot_size_seconds != 0 ==> r == Err::<(), Error>(
            Error::InvalidTime,
        ),
        ({
            let now = now_ms / 1000;
            let current = now - now % config.slot_size_seconds;
            config.slot_size_seconds != 0 && now_ms != 0 && scheduled_time % config.slot_size_seconds == 0
                && current < scheduled_time && scheduled_time <= current + config.max_schedule_seconds
                ==> r == Ok::<(), Error>(())
        }),
{
    if config.slot_size_seconds == 0 {
        return Err(Error::ArithmeticOverflow);
    }
    let remainder = scheduled_time % config.slot_size_seconds;
    if remainder != 0 {
        return Err(Error::InvalidTime);
    }
    let current_time_slot = match get_current_time_slot(now_ms, config.slot_size_seconds) {
        Ok(slot) => slot,
        Err(e) => {
            return Err(e);
        },
    };
    proof {
        lemma_slot_start_bounds(now_ms, config.slot_size_seconds);
        assert(current_time_slot == slot_start(now_ms, config.slot_size_seconds));
    }
    if scheduled_time <= current_time_slot {
        return Err(Error::PastTime);
    }
    let horizon = current_time_slot.saturating_add(config.max_schedule_seconds);
    if scheduled_time > horizon {
        return Err(Error::TimeTooFarOut);
    }
    Ok(())
}

/// Checks each time of `times` in order and gives the first refusal.
pub fn check_times(times: &Vec<UnixTime>, config: &Config, now_ms: u64) -> (r: Result<(), Error>)
    ensures
        r == times_check(times@, *config, now_ms),
{
    let mut i: usize = 0;
    assert(times@.skip(0) =~= times@);
    while i < times.len()
        invariant
            i <= times.len(),
            times_check(times@, *config, now_ms) == times_check(times@.skip(i as int), *config, now_ms),
        decreases times.len() - i,
    {
        proof {
            let rest = times@.skip(i as int);
            assert(rest[0] == times@[i as int]);
            assert(rest.drop_first() =~= times@.skip(i + 1));
        }
        match is_valid_time(times[i], config, now_ms) {
            Err(e) => {
                return Err(e);
            },
            Ok(()) => {},
        }
        i = i + 1;
    }
    assert(times@.skip(i as int).len() == 0);
    Ok(())
}

/// Puts the times of `execution_times` in increasing order and drops the
/// repeated ones.
pub fn clean_execution_times_vector(execution_times: &mut Vec<UnixTime>)
    ensures
        final(execution_times)@ == cleaned(old(execution_times)@),
        is_cleaned_of(final(execution_times)@, old(execution_times)@),
{
    let ghost input = execution_times@;
    let mut result: Vec<UnixTime> = Vec::new();
    let mut k: usize = 0;
    while k < execution_times.len()
        invariant
            execution_times@ == input,
            k <= input.len(),
            strictly_increasing(result@),
            forall|t: UnixTime| result@.contains(t) <==> input.take(k as int).contains(t),
        decreases input.len() - k,
    {
        let x = execution_times[k];
        let mut j: usize = 0;
        while j < result.len() && result[j] < x
            invariant
                j <= result.len(),
                forall|m: int| 0 <= m < j ==> result@[m] < x,
            decreases result.len() - j,
        {
            j = j + 1;
        }
        let ghost before = result@;
        if j < result.len() && result[j] == x {
            assert(before[j as int] == x);
            assert(before.contains(x));
            assert(result@ == before);
            assert forall|t: UnixTime| result@.contains(t) <==> (before.contains(t) || t == x) by {}
        } else {
            assert(!before.contains(x)) by {
                if before.contains(x) {
                    let m = choose|m: int| 0 <= m < before.len() && before[m] == x;
                    if m >= j {
                        assert(before[j as int] <= before[m]);
                    }
                }
            }
            result.insert(j, x);
            assert forall|a: int, b: int| 0 <= a < b < result@.len() implies result@[a] < result@[b] by {
                if b < j {
                    assert(before[a] < before[b]);
                } else if b == j {
                } else if a < j {
                    assert(before[b - 1] >= before[j as int]);
                    assert(before[j as int] > x);
                } else if a == j {
                    assert(before[b - 1] >= before[j as int]);
                } else {
                    assert(before[a - 1] < before[b - 1]);
                }
            }
            assert forall|t: UnixTime| result@.contains(t) <==> (before.contains(t) || t == x) by {
                if result@.contains(t) {
                    let m = choose|m: int| 0 <= m < result@.len() && result@[m] == t;
                    if m < j {
                        assert(before[m] == t);
                    } else if m > j {
                        assert(before[m - 1] == t);
                    }
                }
                if before.contains(t) {
                    let m = choose|m: int| 0 <= m < before.len() && before[m] == t;
                    if m < j {
                        assert(result@[m] == t);
                    } else {
                        assert(result@[m + 1] == t);
                    }
                }
                if t == x {
                    assert(result@[j as int] == x);
                }
            }
        }
        assert forall|t: UnixTime|
            input.take(k + 1).contains(t) <==> (input.take(k as int).contains(t) || t == x) by {
            let p = input.take(k as int);
            let q = input.take(k + 1);
            if q.contains(t) {
                let m = choose|m: int| 0 <= m < q.len() && q[m] == t;
                if m < k {
                    assert(p[m] == t);
                }
            }
            if p.contains(t) {
                let m = choose|m: int| 0 <= m < p.len() && p[m] == t;
                assert(q[m] == t);
            }
            if t == x {
                assert(q[k as int] == x);
            }
        }
        assert forall|t: UnixTime| result@.contains(t) <==> input.take(k + 1).contains(t) by {
            assert(result@.contains(t) <==> (before.contains(t) || t == x));
            assert(before.contains(t) <==> input.take(k as int).contains(t));
            assert(input.take(k + 1).contains(t) <==> (input.take(k as int).contains(t) || t == x));
        }
        k = k + 1;
    }
    assert(input.take(input.len() as int) =~= input);
    proof {
        lemma_cleaned(input, result@);
    }
    *execution_times = result;
}

} // verus!
