//! Equality of schedules, actions and tasks. Two tasks are equal when their
//! owners, ids, actions and schedules are; their abort errors do not count.
use vstd::prelude::*;

use crate::schedule::Schedule;
use crate::task::{Action, Task};
use crate::xcm::location_eq;
use vstd::std_specs::cmp::{PartialEqSpec, PartialEqSpecImpl};

verus! {

/// Compares two lists element by element, for an element type whose `==`
/// is equality of values.
pub fn elements_eq<T: PartialEq + Copy>(a: &Vec<T>, b: &Vec<T>) -> (r: bool)
    requires
        vstd::laws_eq::obeys_concrete_eq::<T>(),
    ensures
        r == (a@ == b@),
{
    proof {
        reveal(vstd::laws_eq::obeys_concrete_eq);
    }
    if a.len() != b.len() {
        return false;
    }
    let mut i: usize = 0;
    while i < a.len()
        invariant
            a.len() == b.len(),
            i <= a.len(),
            vstd::laws_eq::obeys_concrete_eq::<T>(),
            T::obeys_eq_spec(),
            forall|x: T, y: T| x.eq_spec(&y) <==> x == y,
            forall|k: int| 0 <= k < i ==> a@[k] == b@[k],
        decreases a.len() - i,
    {
        if !(a[i] == b[i]) {
            return false;
        }
        i = i + 1;
    }
    assert(a@ =~= b@);
    true
}

/// Compares two byte strings.
pub fn bytes_eq(a: &Vec<u8>, b: &Vec<u8>) -> (r: bool)
    ensures
        r == (a@ == b@),
{
    broadcast use vstd::laws_eq::group_laws_eq;

    elements_eq(a, b)
}

/// Compares two lists of times.
pub fn times_eq(a: &Vec<u64>, b: &Vec<u64>) -> (r: bool)
    ensures
        r == (a@ == b@),
{
    broadcast use vstd::laws_eq::group_laws_eq;

    elements_eq(a, b)
}

/// Two schedules are equal: the same kind with equal parts.
pub open spec fn schedule_eq(a: Schedule, b: Schedule) -> bool {
    match (a, b) {
        (
            Schedule::Fixed { execution_times: t1, executions_left: l1 },
            Schedule::Fixed { execution_times: t2, executions_left: l2 },
        ) => t1@ == t2@ && l1 == l2,
        (
            Schedule::Recurring { next_execution_time: n1, frequency: f1 },
            Schedule::Recurring { next_execution_time: n2, frequency: f2 },
        ) => n1 == n2 && f1 == f2,
        _ => false,
    }
}

impl PartialEq for Schedule {
    fn eq(&self, other: &Self) -> (r: bool) {
        match (self, other) {
            (
                Schedule::Fixed { execution_times: t1, executions_left: l1 },
                Schedule::Fixed { execution_times: t2, executions_left: l2 },
            ) => times_eq(t1, t2) && *l1 == *l2,
            (
                Schedule::Recurring { next_execution_time: n1, frequency: f1 },
                Schedule::Recurring { next_execution_time: n2, frequency: f2 },
            ) => *n1 == *n2 && *f1 == *f2,
            _ => false,
        }
    }
}

impl PartialEqSpecImpl for Schedule {
    open spec fn obeys_eq_spec() -> bool {
        true
    }

    open spec fn eq_spec(&self, other: &Self) -> bool {
        schedule_eq(*self, *other)
    }
}

impl Eq for Schedule {}

/// Two optional accounts are equal: both absent, or both present and equal.
pub open spec fn option_account_eq<AccountId: PartialEq>(a: Option<AccountId>, b: Option<AccountId>) -> bool {
    match (a, b) {
        (None, None) => true,
        (Some(x), Some(y)) => x.eq_spec(&y),
        _ => false,
    }
}

/// Two actions are equal: the same kind with equal parts.
pub open spec fn action_eq<AccountId: PartialEq>(a: Action<AccountId>, b: Action<AccountId>) -> bool {
    match (a, b) {
        (
            Action::XCMP {
                destination: d1,
                schedule_fee: s1,
                execution_fee: e1,
                encoded_call: c1,
                encoded_call_weight: w1,
                overall_weight: o1,
                schedule_as: a1,
                instruction_sequence: i1,
            },
            Action::XCMP {
                destination: d2,
                schedule_fee: s2,
                execution_fee: e2,
                encoded_call: c2,
                encoded_call_weight: w2,
                overall_weight: o2,
                schedule_as: a2,
                instruction_sequence: i2,
            },
        ) => {
            &&& d1 == d2
            &&& s1 == s2
            &&& *e1 == *e2
            &&& c1@ == c2@
            &&& w1 == w2
            &&& o1 == o2
            &&& option_account_eq(a1, a2)
            &&& i1 == i2
        },
        (Action::DynamicDispatch { encoded_call: c1 }, Action::DynamicDispatch { encoded_call: c2 }) => c1@
            == c2@,
        _ => false,
    }
}

fn option_account_equal<AccountId: PartialEq>(a: &Option<AccountId>, b: &Option<AccountId>) -> (r: bool)
    ensures
        AccountId::obeys_eq_spec() ==> r == option_account_eq(*a, *b),
{
    match (a, b) {
        (None, None) => true,
        (Some(x), Some(y)) => x == y,
        _ => false,
    }
}

impl<AccountId: PartialEq> PartialEq for Action<AccountId> {
    fn eq(&self, other: &Self) -> (r: bool) {
        match (self, other) {
            (
                Action::XCMP {
                    destination: d1,
                    schedule_fee: s1,
                    execution_fee: e1,
                    encoded_call: c1,
                    encoded_call_weight: w1,
                    overall_weight: o1,
                    schedule_as: a1,
                    instruction_sequence: i1,
                },
                Action::XCMP {
                    destination: d2,
                    schedule_fee: s2,
                    execution_fee: e2,
                    encoded_call: c2,
                    encoded_call_weight: w2,
                    overall_weight: o2,
                    schedule_as: a2,
                    instruction_sequence: i2,
                },
            ) => {
                location_eq(d1, d2) && location_eq(s1, s2) && (**e1).eq(&**e2) && bytes_eq(c1, c2)
                    && *w1 == *w2 && *o1 == *o2 && option_account_equal(a1, a2) && *i1 == *i2
            },
            (
                Action::DynamicDispatch { encoded_call: c1 },
                Action::DynamicDispatch { encoded_call: c2 },
            ) => bytes_eq(c1, c2),
            _ => false,
        }
    }
}

impl<AccountId: PartialEq> PartialEqSpecImpl for Action<AccountId> {
    open spec fn obeys_eq_spec() -> bool {
        <AccountId as PartialEqSpec>::obeys_eq_spec()
    }

    open spec fn eq_spec(&self, other: &Self) -> bool {
        action_eq(*self, *other)
    }
}

impl<AccountId: Eq> Eq for Action<AccountId> {}

/// Two tasks are equal: the same owner, id, action and schedule. Their
/// abort errors are not compared.
pub open spec fn task_eq<AccountId: PartialEq>(a: Task<AccountId>, b: Task<AccountId>) -> bool {
    &&& a.owner_id.eq_spec(&b.owner_id)
    &&& a.task_id@ == b.task_id@
    &&& action_eq(a.action, b.action)
    &&& schedule_eq(a.schedule, b.schedule)
}

impl<AccountId: PartialEq> PartialEq for Task<AccountId> {
    fn eq(&self, other: &Self) -> (r: bool)
        ensures
            r ==> self.task_id@ == other.task_id@,
            r ==> schedule_eq(self.schedule, other.schedule),
    {
        self.owner_id == other.owner_id && bytes_eq(&self.task_id, &other.task_id) && self.action.eq(
            &other.action,
        ) && self.schedule.eq(&other.schedule)
    }
}

impl<AccountId: PartialEq> PartialEqSpecImpl for Task<AccountId> {
    open spec fn obeys_eq_spec() -> bool {
        <AccountId as PartialEqSpec>::obeys_eq_spec()
    }

    open spec fn eq_spec(&self, other: &Self) -> bool {
        task_eq(*self, *other)
    }
}

impl<AccountId: Eq> Eq for Task<AccountId> {}

/// Task equality is an equivalence wherever account equality is one, and it
/// does not look at abort errors.
pub proof fn lemma_task_eq_is_equivalence<AccountId: PartialEq>(
    a: Task<AccountId>,
    b: Task<AccountId>,
    c: Task<AccountId>,
)
    requires
        forall|x: AccountId| #[trigger] x.eq_spec(&x),
        forall|x: AccountId, y: AccountId| #[trigger] x.eq_spec(&y) ==> y.eq_spec(&x),
        forall|x: AccountId, y: AccountId, z: AccountId|
            #[trigger] x.eq_spec(&y) && #[trigger] y.eq_spec(&z) ==> x.eq_spec(&z),
    ensures
        task_eq(a, a),
        task_eq(a, b) ==> task_eq(b, a),
        task_eq(a, b) && task_eq(b, c) ==> task_eq(a, c),
        a.owner_id == b.owner_id && a.task_id@ == b.task_id@ && a.action == b.action && a.schedule
            == b.schedule ==> task_eq(a, b),
{
}

} // verus!
