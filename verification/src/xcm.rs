//! Cross-chain locations, carried through the task types as opaque values,
//! and the payment and instruction-sequence data of XCMP actions.
use staging_xcm::latest::Reanchorable;
use vstd::prelude::*;

verus! {

/// `staging_xcm::latest::Location`, a relative location in the consensus
/// universe; the library carries it and never looks inside.
#[verifier::external_type_specification]
#[verifier::external_body]
pub struct ExLocation(staging_xcm::latest::Location);

/// `staging_xcm::VersionedLocation`, a location together with its version.
#[verifier::external_type_specification]
#[verifier::external_body]
pub struct ExVersionedLocation(staging_xcm::VersionedLocation);

/// `staging_xcm::latest::Junctions`, the interior part of a location.
#[verifier::external_type_specification]
#[verifier::external_body]
pub struct ExJunctions(staging_xcm::latest::Junctions);

/// `Location::new(parents, Here)`: the ancestor `parents` levels up.
pub uninterp spec fn ancestor_location(parents: u8) -> staging_xcm::latest::Location;

/// `Location::new(parents, [Parachain(para_id)])`.
pub uninterp spec fn parachain_location(parents: u8, para_id: u32) -> staging_xcm::latest::Location;

/// `Location::new(parents, [Parachain(para_id), PalletInstance(pallet)])`.
pub uninterp spec fn parachain_pallet_location(parents: u8, para_id: u32, pallet: u8) -> staging_xcm::latest::Location;

/// `Location::new(parents, [Parachain(para_id), GeneralKey { length, data }])`.
pub uninterp spec fn parachain_general_key_location(
    parents: u8,
    para_id: u32,
    length: u8,
    data: Seq<u8>,
) -> staging_xcm::latest::Location;

/// `Junction::AccountId32 { network: None, id }` as a location (no parents).
pub uninterp spec fn account_location(id: Seq<u8>) -> staging_xcm::latest::Location;

/// `Location::new(parents, Junctions::Here)`. Locations compare field by field,
/// so this one is the ancestor of its own parents only, and differs from each
/// location whose interior holds junctions.
#[verifier::external_body]
pub(crate) fn new_ancestor_location(parents: u8) -> (r: staging_xcm::latest::Location)
    ensures
        r == ancestor_location(parents),
        forall|p: u8| #[trigger] ancestor_location(p) == r ==> p == parents,
        forall|p: u8, q: u32| #[trigger] parachain_location(p, q) != r,
        forall|p: u8, q: u32, k: u8| #[trigger] parachain_pallet_location(p, q, k) != r,
        forall|p: u8, q: u32, n: u8, d: Seq<u8>|
            d.len() == 32 ==> #[trigger] parachain_general_key_location(p, q, n, d) != r,
        forall|id: Seq<u8>| id.len() == 32 ==> #[trigger] account_location(id) != r,
{
    staging_xcm::latest::Location::new(parents, staging_xcm::latest::Junctions::Here)
}

/// `Location::new(parents, [Junction::Parachain(para_id)])`. Its interior is
/// one `Parachain` junction, so it determines its parts and differs from
/// every location of another shape.
#[verifier::external_body]
pub(crate) fn new_parachain_location(parents: u8, para_id: u32) -> (r: staging_xcm::latest::Location)
    ensures
        r == parachain_location(parents, para_id),
        forall|p: u8| #[trigger] ancestor_location(p) != r,
        forall|p: u8, q: u32| #[trigger] parachain_location(p, q) == r ==> p == parents && q == para_id,
        forall|p: u8, q: u32, k: u8| #[trigger] parachain_pallet_location(p, q, k) != r,
        forall|p: u8, q: u32, n: u8, d: Seq<u8>|
            d.len() == 32 ==> #[trigger] parachain_general_key_location(p, q, n, d) != r,
        forall|id: Seq<u8>| id.len() == 32 ==> #[trigger] account_location(id) != r,
{
    staging_xcm::latest::Location::new(parents, [staging_xcm::latest::Junction::Parachain(para_id)])
}

/// `Location::new(parents, [Parachain(para_id), PalletInstance(pallet)])`: it
/// determines its parts and differs from every location of another shape.
#[verifier::external_body]
pub(crate) fn new_parachain_pallet_location(parents: u8, para_id: u32, pallet: u8) -> (r:
    staging_xcm::latest::Location)
    ensures
        r == parachain_pallet_location(parents, para_id, pallet),
        forall|p: u8| #[trigger] ancestor_location(p) != r,
        forall|p: u8, q: u32| #[trigger] parachain_location(p, q) != r,
        forall|p: u8, q: u32, k: u8|
            #[trigger] parachain_pallet_location(p, q, k) == r ==> p == parents && q == para_id && k == pallet,
        forall|p: u8, q: u32, n: u8, d: Seq<u8>|
            d.len() == 32 ==> #[trigger] parachain_general_key_location(p, q, n, d) != r,
        forall|id: Seq<u8>| id.len() == 32 ==> #[trigger] account_location(id) != r,
{
    staging_xcm::latest::Location::new(
        parents,
        [staging_xcm::latest::Junction::Parachain(para_id), staging_xcm::latest::Junction::PalletInstance(pallet)],
    )
}

/// `Location::new(parents, [Parachain(para_id), GeneralKey { length, data }])`:
/// it determines its parts and differs from every location of another shape.
#[verifier::external_body]
pub(crate) fn new_parachain_general_key_location(parents: u8, para_id: u32, length: u8, data: [u8; 32]) -> (r:
    staging_xcm::latest::Location)
    ensures
        r == parachain_general_key_location(parents, para_id, length, data@),
        forall|p: u8| #[trigger] ancestor_location(p) != r,
        forall|p: u8, q: u32| #[trigger] parachain_location(p, q) != r,
        forall|p: u8, q: u32, k: u8| #[trigger] parachain_pallet_location(p, q, k) != r,
        forall|p: u8, q: u32, n: u8, d: Seq<u8>|
            d.len() == 32 && #[trigger] parachain_general_key_location(p, q, n, d) == r ==> p == parents
                && q == para_id && n == length && d == data@,
        forall|id: Seq<u8>| id.len() == 32 ==> #[trigger] account_location(id) != r,
{
    staging_xcm::latest::Location::new(
        parents,
        [
            staging_xcm::latest::Junction::Parachain(para_id),
            staging_xcm::latest::Junction::GeneralKey { length, data },
        ],
    )
}

/// `Junction::AccountId32 { network: None, id }.into()`: the location of an
/// account of this chain. It determines the account id and differs from
/// every location of another shape.
#[verifier::external_body]
pub(crate) fn new_account_location(id: [u8; 32]) -> (r: staging_xcm::latest::Location)
    ensures
        r == account_location(id@),
        forall|p: u8| #[trigger] ancestor_location(p) != r,
        forall|p: u8, q: u32| #[trigger] parachain_location(p, q) != r,
        forall|p: u8, q: u32, k: u8| #[trigger] parachain_pallet_location(p, q, k) != r,
        forall|p: u8, q: u32, n: u8, d: Seq<u8>|
            d.len() == 32 ==> #[trigger] parachain_general_key_location(p, q, n, d) != r,
        forall|other: Seq<u8>| other.len() == 32 && #[trigger] account_location(other) == r ==> other == id@,
{
    staging_xcm::latest::Junction::AccountId32 { network: None, id }.into()
}

/// What `Location::reanchored` gives: the location as seen from `target`,
/// where `context` is the universal location of the chain that `location` is
/// relative to, or the location itself where that overflows.
pub uninterp spec fn reanchored_location(
    location: staging_xcm::latest::Location,
    target: staging_xcm::latest::Location,
    context: staging_xcm::latest::Junctions,
) -> Result<staging_xcm::latest::Location, staging_xcm::latest::Location>;

/// `Location::reanchored`: a function of its three arguments. On failure (an
/// overflow of junctions or parents) the crate gives back `location` unchanged.
#[verifier::external_body]
pub(crate) fn reanchored(
    location: staging_xcm::latest::Location,
    target: &staging_xcm::latest::Location,
    context: &staging_xcm::latest::Junctions,
) -> (r: Result<staging_xcm::latest::Location, staging_xcm::latest::Location>)
    ensures
        r == reanchored_location(location, *target, *context),
        r matches Err(l) ==> l == location,
{
    location.reanchored(target, context)
}

/// `Location::clone` (derived): the clone is the same location.
pub assume_specification[ <staging_xcm::latest::Location as Clone>::clone ](
    location: &staging_xcm::latest::Location,
) -> (r: staging_xcm::latest::Location)
    ensures
        r == *location,
;

/// `Location::default`, which the crate defines as `Location::here()`: no
/// parents and a `Here` interior, the same location as `Location::new(0, Here)`.
#[verifier::external_body]
pub(crate) fn default_location() -> (r: staging_xcm::latest::Location)
    ensures
        r == ancestor_location(0),
{
    staging_xcm::latest::Location::default()
}

/// `Location == Location` (derived, field by field): true exactly for the
/// same location.
#[verifier::external_body]
pub(crate) fn location_eq(a: &staging_xcm::latest::Location, b: &staging_xcm::latest::Location) -> (r: bool)
    ensures
        r == (*a == *b),
{
    a == b
}

/// `VersionedLocation::clone` (derived): the clone is the same value.
pub assume_specification[ <staging_xcm::VersionedLocation as Clone>::clone ](
    location: &staging_xcm::VersionedLocation,
) -> (r: staging_xcm::VersionedLocation)
    ensures
        r == *location,
;

/// `VersionedLocation == VersionedLocation` (derived, variant and field by
/// field): true exactly for the same value.
#[verifier::external_body]
pub(crate) fn versioned_location_eq(a: &staging_xcm::VersionedLocation, b: &staging_xcm::VersionedLocation) -> (r: bool)
    ensures
        r == (*a == *b),
{
    a == b
}

/// How the fees of an XCMP task are paid on the destination chain.
#[derive(Clone, Copy, Debug, PartialEq, Eq, Structural)]
pub enum InstructionSequence {
    PayThroughSovereignAccount,
    PayThroughRemoteDerivativeAccount,
}

/// The execution payment of a task.
#[derive(Debug)]
pub struct AssetPayment {
    pub asset_location: staging_xcm::VersionedLocation,
    pub amount: u128,
}

impl Clone for AssetPayment {
    fn clone(&self) -> (r: Self)
        ensures
            r == *self,
    {
        AssetPayment { asset_location: self.asset_location.clone(), amount: self.amount }
    }
}

impl PartialEq for AssetPayment {
    fn eq(&self, other: &Self) -> (r: bool) {
        versioned_location_eq(&self.asset_location, &other.asset_location) && self.amount == other.amount
    }
}

impl vstd::std_specs::cmp::PartialEqSpecImpl for AssetPayment {
    open spec fn obeys_eq_spec() -> bool {
        true
    }

    open spec fn eq_spec(&self, other: &Self) -> bool {
        *self == *other
    }
}

impl Eq for AssetPayment {}

} // verus!
