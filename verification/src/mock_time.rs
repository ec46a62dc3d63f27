//! The test configuration of the time-based automation pallet: its
//! constants, the currency/location conversion and proxy check that the test
//! runtime plugs in, and the balances that the test helpers fund accounts with.
use vstd::prelude::*;

use crate::convert::Convert;
use crate::task::Action;
use crate::time_slots::{Config, Error};
use crate::weight::{saturating_sum, Weight};
use crate::xcm::{
    ancestor_location, location_eq, new_ancestor_location, new_parachain_location, parachain_location,
};

verus! {

/// The byte that each of the 32 bytes of the delegator's account id is.
pub const DELEGATOR_ACCOUNT_BYTE: u8 = 3;
/// The byte that each of the 32 bytes of the proxy's account id is.
pub const PROXY_ACCOUNT_BYTE: u8 = 4;

pub const PARA_ID: u32 = 2000;
pub const NATIVE: u32 = 0;
pub const NATIVE_EXECUTION_WEIGHT_FEE: u128 = 12;
pub const FOREIGN_CURRENCY_ID: u32 = 1;

pub const MAX_TASKS_PER_SLOT: u32 = 2;
pub const MAX_EXECUTION_TIMES: u32 = 3;
pub const MAX_SCHEDULE_SECONDS: u64 = 86_400;
pub const SLOT_SIZE_SECONDS: u64 = 600;
pub const MAX_WEIGHT_PER_SLOT: u128 = 700_000_000;
pub const XMP_FEE: u128 = 1_000_000;
pub const EXISTENTIAL_DEPOSIT: u64 = 1;

/// The computation time of running an XCMP task in the test runtime.
pub const RUN_XCMP_TASK_REF_TIME: u64 = 20_000;
/// The computation time of running a dynamic dispatch action in the test runtime.
pub const RUN_DYNAMIC_DISPATCH_ACTION_REF_TIME: u64 = 20_000;

/// The pallet configuration of the test runtime.
pub fn test_config() -> (c: Config)
    ensures
        c.max_tasks_per_slot == MAX_TASKS_PER_SLOT,
        c.max_execution_times == MAX_EXECUTION_TIMES,
        c.max_schedule_seconds == MAX_SCHEDULE_SECONDS,
        c.slot_size_seconds == SLOT_SIZE_SECONDS,
        c.max_weight_per_slot == MAX_WEIGHT_PER_SLOT,
        c.run_xcmp_task_weight == (Weight { ref_time: RUN_XCMP_TASK_REF_TIME, proof_size: 0 }),
        c.run_dynamic_dispatch_action_weight == (Weight { ref_time: RUN_DYNAMIC_DISPATCH_ACTION_REF_TIME, proof_size: 0 }),
{
    Config {
        max_tasks_per_slot: MAX_TASKS_PER_SLOT,
        max_execution_times: MAX_EXECUTION_TIMES,
        max_schedule_seconds: MAX_SCHEDULE_SECONDS,
        slot_size_seconds: SLOT_SIZE_SECONDS,
        max_weight_per_slot: MAX_WEIGHT_PER_SLOT,
        run_xcmp_task_weight: Weight::from_parts(RUN_XCMP_TASK_REF_TIME, 0),
        run_dynamic_dispatch_action_weight: Weight::from_parts(RUN_DYNAMIC_DISPATCH_ACTION_REF_TIME, 0),
    }
}

/// The location of a currency of the test runtime.
pub open spec fn currency_location(id: u32) -> Option<staging_xcm::latest::Location> {
    if id == NATIVE {
        Some(ancestor_location(0))
    } else if id == FOREIGN_CURRENCY_ID {
        Some(parachain_location(1, PARA_ID))
    } else {
        None
    }
}

/// The currency of the test runtime at a location.
pub open spec fn location_currency(location: staging_xcm::latest::Location) -> Option<u32> {
    if location == ancestor_location(0) {
        Some(NATIVE)
    } else if location == parachain_location(1, PARA_ID) {
        Some(FOREIGN_CURRENCY_ID)
    } else {
        None
    }
}

/// Converts between the currencies of the test runtime and their locations:
/// the native currency is here, the foreign one is the parachain `PARA_ID`.
pub struct MockTokenIdConvert;

impl Convert<u32, Option<staging_xcm::latest::Location>> for MockTokenIdConvert {
    /// The location of the currency `id`; converting it back gives `id`.
    fn convert(id: u32) -> (r: Option<staging_xcm::latest::Location>)
        ensures
            r == currency_location(id),
            r matches Some(l) ==> location_currency(l) == Some(id),
    {
        if id == NATIVE {
            let here = new_ancestor_location(0);
            Some(here)
        } else if id == FOREIGN_CURRENCY_ID {
            let sibling = new_parachain_location(1, PARA_ID);
            Some(sibling)
        } else {
            None
        }
    }
}

impl Convert<staging_xcm::latest::Location, Option<u32>> for MockTokenIdConvert {
    /// The currency at `location`; converting it back gives `location`.
    fn convert(location: staging_xcm::latest::Location) -> (r: Option<u32>)
        ensures
            r == location_currency(location),
            r matches Some(id) ==> currency_location(id) == Some(location),
    {
        let here = new_ancestor_location(0);
        if location_eq(&location, &here) {
            return Some(NATIVE);
        }
        let sibling = new_parachain_location(1, PARA_ID);
        if location_eq(&location, &sibling) {
            Some(FOREIGN_CURRENCY_ID)
        } else {
            None
        }
    }
}

/// The account id made of 32 copies of `byte`.
pub open spec fn filled_bytes(byte: u8) -> Seq<u8> {
    Seq::new(32, |_i: int| byte)
}

/// Whether the account id `a` is 32 copies of `byte`.
pub fn is_filled_bytes(a: &[u8; 32], byte: u8) -> (r: bool)
    ensures
        r == (a@ == filled_bytes(byte)),
{
    let mut i: usize = 0;
    while i < 32
        invariant
            i <= 32,
            a@.len() == 32,
            forall|k: int| 0 <= k < i ==> a@[k] == byte,
        decreases 32 - i,
    {
        if a[i] != byte {
            assert(a@[i as int] != filled_bytes(byte)[i as int]);
            return false;
        }
        i = i + 1;
    }
    assert(a@ =~= filled_bytes(byte));
    true
}

/// Accepts exactly the delegation of the delegator's account (all bytes
/// `DELEGATOR_ACCOUNT_BYTE`) to the proxy's (all bytes `PROXY_ACCOUNT_BYTE`).
pub struct MockEnsureProxy;

impl MockEnsureProxy {
    /// `Ok` when `delegatee` may act for `delegator`.
    pub fn ensure_ok(delegator: [u8; 32], delegatee: [u8; 32]) -> (r: Result<(), &'static str>)
        ensures
            r is Ok <==> (delegator@ == filled_bytes(DELEGATOR_ACCOUNT_BYTE) && delegatee@ == filled_bytes(
                PROXY_ACCOUNT_BYTE,
            )),
            r is Err ==> r == Err::<(), &'static str>("proxy error: expected `ProxyType::Any`"),
    {
        if is_filled_bytes(&delegator, DELEGATOR_ACCOUNT_BYTE) && is_filled_bytes(&delegatee, PROXY_ACCOUNT_BYTE) {
            Ok(())
        } else {
            Err("proxy error: expected `ProxyType::Any`")
        }
    }
}

/// `x` as a `u128`.
pub fn widen(x: u64) -> (r: u128)
    ensures
        r == x,
{
    x as u128
}

/// A balance as an amount of the foreign currency.
fn foreign_amount(x: u128) -> (r: i64)
    requires
        x <= i64::MAX,
    ensures
        r == x,
{
    x as i64
}

/// The balance that `get_funds` gives an account: the fee of twice a dynamic
/// dispatch action's weight, for the most executions a schedule holds.
pub fn get_funds_amount() -> (r: u128)
    ensures
        r == NATIVE_EXECUTION_WEIGHT_FEE * (2 * 20_000) * MAX_EXECUTION_TIMES,
{
    let double_action_weight: u64 = 20_000 * 2;
    let action_fee = NATIVE_EXECUTION_WEIGHT_FEE * (double_action_weight as u128);
    assert(action_fee == 480_000);
    action_fee * (MAX_EXECUTION_TIMES as u128)
}

/// The balance that `get_minimum_funds` gives an account for `executions`
/// executions.
pub fn get_minimum_funds_amount(executions: u32) -> (r: u128)
    ensures
        r == NATIVE_EXECUTION_WEIGHT_FEE * (2 * 20_000) * executions,
{
    let double_action_weight: u64 = 20_000 * 2;
    let action_fee = NATIVE_EXECUTION_WEIGHT_FEE * (double_action_weight as u128);
    let n = executions as u128;
    assert(action_fee * n <= 480_000 * 0xffff_ffff) by (nonlinear_arith)
        requires
            action_fee == 480_000,
            n <= 0xffff_ffff,
    ;
    action_fee * n
}

/// The balance that `get_xcmp_funds` gives an account: the fee of twice an
/// XCMP task's weight for the most executions, and the XCM fee.
pub fn get_xcmp_funds_amount() -> (r: u128)
    ensures
        r == NATIVE_EXECUTION_WEIGHT_FEE * (2 * RUN_XCMP_TASK_REF_TIME) * MAX_EXECUTION_TIMES + XMP_FEE,
{
    let double_action_weight: u64 = RUN_XCMP_TASK_REF_TIME * 2;
    let action_fee = NATIVE_EXECUTION_WEIGHT_FEE * widen(double_action_weight);
    let max_execution_fee = action_fee * widen(3);
    max_execution_fee + XMP_FEE
}

/// The native and foreign balances that `get_multi_xcmp_funds` gives an
/// account: the native fee of twice an XCMP task's weight for the most
/// executions, and the XCM fee in the foreign currency.
pub fn get_multi_xcmp_funds_amounts() -> (r: (u128, i64))
    ensures
        r.0 == NATIVE_EXECUTION_WEIGHT_FEE * (2 * RUN_XCMP_TASK_REF_TIME) * MAX_EXECUTION_TIMES,
        r.1 == XMP_FEE,
{
    let double_action_weight: u64 = RUN_XCMP_TASK_REF_TIME * 2;
    let action_fee = NATIVE_EXECUTION_WEIGHT_FEE * widen(double_action_weight);
    let max_execution_fee = action_fee * widen(3);
    (max_execution_fee, foreign_amount(XMP_FEE))
}

/// What `fund_account` deposits: the fee of `execution_count` runs of an
/// action of weight `action_weight`, an additional amount, and the
/// existential deposit.
pub open spec fn fund_amount(action_weight: u64, execution_count: usize, additional_amount: Option<u128>) -> int {
    action_weight * NATIVE_EXECUTION_WEIGHT_FEE * execution_count + match additional_amount {
        Some(a) => a as int,
        None => 0,
    } + EXISTENTIAL_DEPOSIT
}

/// The balance that `fund_account` deposits into an account.
pub fn fund_account_amount(action_weight: u64, execution_count: usize, additional_amount: Option<u128>) -> (r:
    u128)
    requires
        fund_amount(action_weight, execution_count, additional_amount) <= u128::MAX,
    ensures
        r == fund_amount(action_weight, execution_count, additional_amount),
{
    let per_run = (action_weight as u128) * NATIVE_EXECUTION_WEIGHT_FEE;
    assert(per_run * execution_count <= u128::MAX) by (nonlinear_arith)
        requires
            per_run * execution_count + EXISTENTIAL_DEPOSIT <= u128::MAX + 0,
            per_run >= 0,
            execution_count >= 0,
    {
    }
    let additional = match additional_amount {
        Some(a) => a,
        None => 0,
    };
    per_run * (execution_count as u128) + additional + (EXISTENTIAL_DEPOSIT as u128)
}

/// The balance that `fund_account_dynamic_dispatch` deposits for a dynamic
/// dispatch of `encoded_call` run `execution_count` times; `call_weight` is
/// the weight of the decoded call (`None` where it does not decode).
pub fn fund_account_dynamic_dispatch_amount(
    execution_count: usize,
    encoded_call: Vec<u8>,
    call_weight: Option<Weight>,
) -> (r: Result<u128, Error>)
    requires
        call_weight matches Some(w) ==> fund_amount(
            saturating_sum(RUN_DYNAMIC_DISPATCH_ACTION_REF_TIME, w.ref_time),
            execution_count,
            None,
        ) <= u128::MAX,
    ensures
        match call_weight {
            None => r == Err::<u128, Error>(Error::CallCannotBeDecoded),
            Some(w) => r == Ok::<u128, Error>(
                fund_amount(saturating_sum(RUN_DYNAMIC_DISPATCH_ACTION_REF_TIME, w.ref_time), execution_count, None)
                    as u128,
            ),
        },
{
    let action: Action<[u8; 32]> = Action::DynamicDispatch { encoded_call };
    let config = test_config();
    let action_weight = match action.execution_weight(&config, call_weight) {
        Ok(w) => w,
        Err(e) => {
            return Err(e);
        },
    };
    Ok(fund_account_amount(action_weight, execution_count, None))
}

} // verus!
