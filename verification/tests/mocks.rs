use automation_types::convert::Convert;
use automation_types::mock_price;
use automation_types::mock_time::{
    fund_account_amount, fund_account_dynamic_dispatch_amount, get_funds_amount, get_minimum_funds_amount,
    get_multi_xcmp_funds_amounts, get_xcmp_funds_amount, test_config, MockEnsureProxy, MockTokenIdConvert,
};
use automation_types::mock_xcmp_handler::{AccountIdToLocation, TokenIdConvert};
use automation_types::price;
use automation_types::task::Action;
use automation_types::time_slots::Error;
use automation_types::weight::Weight;
use automation_types::xcm::{AssetPayment, InstructionSequence};
use staging_xcm::latest::{Junction, Junctions, Location, NetworkId};
use staging_xcm::VersionedLocation;

fn sibling(para_id: u32) -> Location {
    Location::new(1, [Junction::Parachain(para_id)])
}

#[test]
fn token_ids_convert_both_ways() {
    assert_eq!(MockTokenIdConvert::convert(0u32), Some(Location::new(0, Junctions::Here)));
    assert_eq!(MockTokenIdConvert::convert(1u32), Some(sibling(2000)));
    assert_eq!(MockTokenIdConvert::convert(2u32), None);
    assert_eq!(MockTokenIdConvert::convert(Location::here()), Some(0));
    assert_eq!(MockTokenIdConvert::convert(sibling(2000)), Some(1));
    assert_eq!(MockTokenIdConvert::convert(sibling(2001)), None);
    assert_eq!(MockTokenIdConvert::convert(Location::parent()), None);
}

#[test]
fn only_the_delegator_and_its_proxy_pass() {
    assert_eq!(MockEnsureProxy::ensure_ok([3u8; 32], [4u8; 32]), Ok(()));
    assert_eq!(
        MockEnsureProxy::ensure_ok([4u8; 32], [3u8; 32]),
        Err("proxy error: expected `ProxyType::Any`")
    );
    let mut almost = [3u8; 32];
    almost[31] = 0;
    assert!(MockEnsureProxy::ensure_ok(almost, [4u8; 32]).is_err());
}

#[test]
fn funding_amounts() {
    assert_eq!(get_funds_amount(), 12 * 40_000 * 3);
    assert_eq!(get_minimum_funds_amount(2), 12 * 40_000 * 2);
    assert_eq!(get_xcmp_funds_amount(), 12 * 40_000 * 3 + 1_000_000);
    assert_eq!(get_multi_xcmp_funds_amounts(), (12 * 40_000 * 3, 1_000_000));
    assert_eq!(fund_account_amount(20_000, 2, Some(5)), 20_000 * 12 * 2 + 5 + 1);
    assert_eq!(fund_account_amount(20_000, 2, None), 20_000 * 12 * 2 + 1);
    assert_eq!(
        fund_account_dynamic_dispatch_amount(1, vec![0, 7, 4, 0], Some(Weight::from_parts(9_000_000, 0))),
        Ok(9_020_000 * 12 + 1)
    );
    assert_eq!(
        fund_account_dynamic_dispatch_amount(2, vec![0, 7, 4, 0], Some(Weight::from_parts(u64::MAX, 0))),
        Ok(u64::MAX as u128 * 12 * 2 + 1)
    );
    assert_eq!(
        fund_account_dynamic_dispatch_amount(1, vec![9], None),
        Err(Error::CallCannotBeDecoded)
    );
    assert_eq!(mock_price::get_xcmp_funds_amount(), 12 * 400_000_000 + 1_000_000);
}

#[test]
fn asset_fee_table_and_lookup() {
    let table = mock_price::get_asset_fee_per_second_config();
    assert_eq!(table.len(), 3);
    assert_eq!(table[0].asset_location, sibling(2000));
    assert_eq!(table[0].fee_per_second, 416_000_000_000);
    assert_eq!(
        table[1].asset_location,
        Location::new(1, [Junction::Parachain(2110), Junction::GeneralKey { length: 4, data: [0; 32] }])
    );
    assert_eq!(mock_price::get_moonbase_asset_location(), Location::new(1, [Junction::Parachain(1000), Junction::PalletInstance(3)]));
    assert_eq!(table[2].asset_location, mock_price::get_moonbase_asset_location());
    assert_eq!(table[2].fee_per_second, 10_000_000_000_000_000_000);
    assert_eq!(mock_price::fee_of(&table, &sibling(2000)), Some(416_000_000_000));
    assert_eq!(mock_price::fee_of(&table, &mock_price::get_moonbase_asset_location()), Some(10_000_000_000_000_000_000));
    assert_eq!(mock_price::fee_of(&table, &sibling(3000)), None);
    assert_eq!(
        mock_price::fee_of(&table, &Location::new(1, [Junction::Parachain(2110), Junction::GeneralKey { length: 4, data: [1; 32] }])),
        None
    );
}

#[test]
fn fee_per_second_after_reanchoring() {
    let self_para_id = 100;
    let universal: Junctions = [Junction::GlobalConsensus(NetworkId::Kusama), Junction::Parachain(self_para_id)].into();
    assert_eq!(mock_price::get_fee_per_second(&sibling(2000), self_para_id, &universal), Some(416_000_000_000));
    assert_eq!(mock_price::try_get_fee_per_second(&sibling(2000), self_para_id, &universal), Ok(Some(416_000_000_000)));
    assert_eq!(mock_price::get_fee_per_second(&sibling(3000), self_para_id, &universal), None);
    assert_eq!(mock_price::try_get_fee_per_second(&sibling(3000), self_para_id, &universal), Ok(None));
    assert_eq!(
        mock_price::get_fee_per_second(&mock_price::get_moonbase_asset_location(), self_para_id, &universal),
        Some(10_000_000_000_000_000_000)
    );
    let too_deep = Location::new(0, [Junction::PalletInstance(1); 8]);
    assert_eq!(mock_price::try_get_fee_per_second(&too_deep, self_para_id, &universal), Err(too_deep.clone()));
}

#[test]
fn xcmp_handler_conversions() {
    assert_eq!(
        AccountIdToLocation::convert([7u8; 32]),
        Location::new(0, [Junction::AccountId32 { network: None, id: [7u8; 32] }])
    );
    assert_eq!(TokenIdConvert::convert(42u32), Some(Location::parent()));
    assert!(AccountIdToLocation::convert([7u8; 32]) != AccountIdToLocation::convert([8u8; 32]));
}

fn payment() -> AssetPayment {
    AssetPayment { asset_location: VersionedLocation::from(sibling(2000)), amount: 5 }
}

#[test]
fn schedule_fee_location_of_each_action() {
    let xcmp: Action<[u8; 32]> = Action::XCMP {
        destination: sibling(1000),
        schedule_fee: sibling(2000),
        execution_fee: Box::new(payment()),
        encoded_call: vec![3, 4],
        encoded_call_weight: Weight::from_parts(100, 0),
        overall_weight: Weight::from_parts(200, 0),
        schedule_as: Some([9u8; 32]),
        instruction_sequence: InstructionSequence::PayThroughSovereignAccount,
    };
    assert_eq!(xcmp.schedule_fee_location(), sibling(2000));
    assert_eq!(xcmp.execution_weight(&test_config(), None), Ok(20_000));
    let dd: Action<[u8; 32]> = Action::DynamicDispatch { encoded_call: vec![] };
    assert_eq!(dd.schedule_fee_location(), Location::here());
    assert_eq!(dd.schedule_fee_location(), Location::default());
    assert!(xcmp != dd);
    assert!(xcmp == xcmp.clone());
}

#[test]
fn price_action_weight_and_fee_location() {
    let action: price::Action<[u8; 32]> = price::Action::XCMP {
        destination: sibling(1000),
        schedule_fee: sibling(2110),
        execution_fee: payment(),
        encoded_call: vec![1],
        encoded_call_weight: Weight::from_parts(1, 0),
        overall_weight: Weight::from_parts(2, 0),
        schedule_as: None,
        instruction_sequence: InstructionSequence::PayThroughRemoteDerivativeAccount,
    };
    assert_eq!(action.execution_weight(Weight::from_parts(mock_price::RUN_XCMP_TASK_REF_TIME, 0)), Ok(200_000_000));
    assert_eq!(action.schedule_fee_location(), sibling(2110));
}

#[test]
fn asset_payments_compare_by_location_and_amount() {
    assert!(payment() == payment());
    let other = AssetPayment { asset_location: VersionedLocation::from(sibling(2000)), amount: 6 };
    assert!(payment() != other);
    let elsewhere = AssetPayment { asset_location: VersionedLocation::from(sibling(2001)), amount: 5 };
    assert!(payment() != elsewhere);
}
