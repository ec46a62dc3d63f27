//! The test configuration of the price-triggered automation pallet: the
//! table of execution fees per second of the assets it accepts, the lookup
//! in it, and the balance that the test helper funds accounts with.
use vstd::prelude::*;

use crate::mock_time::{filled_bytes, widen};
use crate::xcm::{
    location_eq, new_parachain_general_key_location, new_parachain_location,
    new_parachain_pallet_location, parachain_general_key_location, parachain_location,
    parachain_pallet_location, reanchored, reanchored_location,
};

pub use crate::mock_time::{MockEnsureProxy, MockTokenIdConvert};

verus! {

pub const PARA_ID: u32 = 2000;
pub const NATIVE: u32 = 0;
pub const NATIVE_EXECUTION_WEIGHT_FEE: u128 = 12;
pub const FOREIGN_CURRENCY_ID: u32 = 1;
pub const MOCK_XCMP_FEE: u128 = 10_000_000;
pub const XMP_FEE: u128 = 1_000_000;
pub const MAX_TASKS_PER_SLOT: u32 = 2;
pub const MAX_TASKS_OVERALL: u32 = 1024;
pub const MAX_TASKS_PER_ACCOUNT: u32 = 16;

/// The computation time of running an XCMP task in the test runtime.
pub const RUN_XCMP_TASK_REF_TIME: u64 = 200_000_000;

/// The location of the Moonbase asset: parachain 1000, pallet instance 3.
pub fn get_moonbase_asset_location() -> (r: staging_xcm::latest::Location)
    ensures
        r == parachain_pallet_location(1, 1000, 3),
        fee_in(asset_fee_table(), r) == Some(10_000_000_000_000_000_000u128),
{
    let r = new_parachain_pallet_location(1, 1000, 3);
    assert(filled_bytes(0).len() == 32);
    proof {
        reveal_with_fuel(fee_in, 4);
    }
    r
}

/// The execution fee per second of the asset at a location.
#[derive(Clone)]
pub struct MockAssetFeePerSecond {
    pub asset_location: staging_xcm::latest::Location,
    pub fee_per_second: u128,
}

/// The assets that the test runtime accepts, with their fees per second.
pub open spec fn asset_fee_table() -> Seq<MockAssetFeePerSecond> {
    seq![
        MockAssetFeePerSecond { asset_location: parachain_location(1, 2000), fee_per_second: 416_000_000_000 },
        MockAssetFeePerSecond {
            asset_location: parachain_general_key_location(1, 2110, 4, filled_bytes(0)),
            fee_per_second: 416_000_000_000,
        },
        MockAssetFeePerSecond {
            asset_location: parachain_pallet_location(1, 1000, 3),
            fee_per_second: 10_000_000_000_000_000_000,
        },
    ]
}

/// The fee per second of the first entry of `table` at `location`.
pub open spec fn fee_in(table: Seq<MockAssetFeePerSecond>, location: staging_xcm::latest::Location) -> Option<
    u128,
>
    decreases table.len(),
{
    if table.len() == 0 {
        None
    } else if table[0].asset_location == location {
        Some(table[0].fee_per_second)
    } else {
        fee_in(table.drop_first(), location)
    }
}

/// The table of accepted assets and their fees per second.
pub fn get_asset_fee_per_second_config() -> (r: Vec<MockAssetFeePerSecond>)
    ensures
        r@ == asset_fee_table(),
        forall|i: int, j: int| 0 <= i < j < 3 ==> r@[i].asset_location != r@[j].asset_location,
        forall|i: int| 0 <= i < 3 ==> fee_in(r@, #[trigger] r@[i].asset_location) == Some(r@[i].fee_per_second),
{
    let data = [0u8; 32];
    assert(data@ =~= filled_bytes(0));
    let mut table: Vec<MockAssetFeePerSecond> = Vec::new();
    table.push(
        MockAssetFeePerSecond { asset_location: new_parachain_location(1, 2000), fee_per_second: 416_000_000_000 },
    );
    table.push(
        MockAssetFeePerSecond {
            asset_location: new_parachain_general_key_location(1, 2110, 4, data),
            fee_per_second: 416_000_000_000,
        },
    );
    table.push(
        MockAssetFeePerSecond {
            asset_location: new_parachain_pallet_location(1, 1000, 3),
            fee_per_second: 10_000_000_000_000_000_000,
        },
    );
    assert(table@ =~= asset_fee_table());
    assert(filled_bytes(0).len() == 32);
    proof {
        reveal_with_fuel(fee_in, 4);
        assert(table@.drop_first()[0] == table@[1]);
        assert(table@.drop_first().drop_first()[0] == table@[2]);
    }
    table
}

/// The fee per second that `table` names first for `location`, if any.
pub fn fee_of(table: &Vec<MockAssetFeePerSecond>, location: &staging_xcm::latest::Location) -> (r: Option<u128>)
    ensures
        r == fee_in(table@, *location),
{
    let mut i: usize = 0;
    assert(table@.skip(0) =~= table@);
    while i < table.len()
        invariant
            i <= table.len(),
            fee_in(table@, *location) == fee_in(table@.skip(i as int), *location),
        decreases table.len() - i,
    {
        proof {
            let rest = table@.skip(i as int);
            assert(rest[0] == table@[i as int]);
            assert(rest.drop_first() =~= table@.skip(i + 1));
        }
        if location_eq(&table[i].asset_location, location) {
            return Some(table[i].fee_per_second);
        }
        i = i + 1;
    }
    assert(table@.skip(i as int).len() == 0);
    None
}

/// The location of this chain's parachain `self_para_id` as its siblings
/// see it, which is where `get_fee_per_second` re-anchors to.
pub open spec fn self_location(self_para_id: u32) -> staging_xcm::latest::Location {
    parachain_location(1, self_para_id)
}

/// The fee per second of the asset at `location`: the location is first
/// re-anchored to the view of this chain (parachain `self_para_id` inside
/// `universal_location`), then looked up in the table of accepted assets.
/// Re-anchoring must succeed (the test helper panics where it does not);
/// `try_get_fee_per_second` tests that first.
pub fn get_fee_per_second(
    location: &staging_xcm::latest::Location,
    self_para_id: u32,
    universal_location: &staging_xcm::latest::Junctions,
) -> (r: Option<u128>)
    requires
        reanchored_location(*location, self_location(self_para_id), *universal_location) is Ok,
    ensures
        r == fee_in(
            asset_fee_table(),
            reanchored_location(*location, self_location(self_para_id), *universal_location)->Ok_0,
        ),
{
    let target = new_parachain_location(1, self_para_id);
    match reanchored(location.clone(), &target, universal_location) {
        Ok(l) => {
            let table = get_asset_fee_per_second_config();
            fee_of(&table, &l)
        },
        Err(_) => None,
    }
}

/// Re-anchors `location` as `get_fee_per_second` does and, where that
/// succeeds, gives its fee per second; where it fails, gives the location
/// back as the error.
pub fn try_get_fee_per_second(
    location: &staging_xcm::latest::Location,
    self_para_id: u32,
    universal_location: &staging_xcm::latest::Junctions,
) -> (r: Result<Option<u128>, staging_xcm::latest::Location>)
    ensures
        r == match reanchored_location(*location, self_location(self_para_id), *universal_location) {
            Ok(l) => Ok::<Option<u128>, staging_xcm::latest::Location>(fee_in(asset_fee_table(), l)),
            Err(l) => Err::<Option<u128>, staging_xcm::latest::Location>(l),
        },
        r matches Err(l) ==> l == *location,
{
    let target = new_parachain_location(1, self_para_id);
    match reanchored(location.clone(), &target, universal_location) {
        Err(l) => Err(l),
        Ok(_) => Ok(get_fee_per_second(location, self_para_id, universal_location)),
    }
}

/// The balance that `get_xcmp_funds` gives an account: the fee of twice an
/// XCMP task's weight for one execution, and the XCM fee.
pub fn get_xcmp_funds_amount() -> (r: u128)
    ensures
        r == NATIVE_EXECUTION_WEIGHT_FEE * (2 * RUN_XCMP_TASK_REF_TIME) * 1 + XMP_FEE,
{
    let double_action_weight: u64 = RUN_XCMP_TASK_REF_TIME * 2;
    let action_fee = NATIVE_EXECUTION_WEIGHT_FEE * widen(double_action_weight);
    let max_execution_fee = action_fee * widen(1);
    max_execution_fee + XMP_FEE
}

} // verus!
