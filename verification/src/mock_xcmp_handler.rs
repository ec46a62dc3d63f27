//! The location conversions that the test runtime of the XCMP handler plugs in.
use vstd::prelude::*;

use crate::convert::Convert;
use crate::xcm::{account_location, ancestor_location, new_account_location, new_ancestor_location};

verus! {

pub const LOCAL_PARA_ID: u32 = 2114;
pub const NATIVE: u32 = 0;

/// Converts an account id into the location of that account on this chain.
pub struct AccountIdToLocation;

impl Convert<[u8; 32], staging_xcm::latest::Location> for AccountIdToLocation {
    /// The location of `account`: an `AccountId32` junction with no network.
    fn convert(account: [u8; 32]) -> (r: staging_xcm::latest::Location)
        ensures
            r == account_location(account@),
            forall|other: Seq<u8>| other.len() == 32 && #[trigger] account_location(other) == r ==> other == account@,
    {
        new_account_location(account)
    }
}

/// Converts every currency into the relay chain's location.
pub struct TokenIdConvert;

impl Convert<u32, Option<staging_xcm::latest::Location>> for TokenIdConvert {
    /// The location of any currency: the parent chain.
    fn convert(_id: u32) -> (r: Option<staging_xcm::latest::Location>)
        ensures
            r == Some(ancestor_location(1)),
    {
        Some(new_ancestor_location(1))
    }
}

} // verus!
