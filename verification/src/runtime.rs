//! The runtime types that an instruction context carries, declared for Verus,
//! and the outside calls that the conversions make on them.
use vstd::prelude::*;

verus! {

/// `solana_pubkey::Pubkey`, an account address (32 bytes).
#[verifier::external_type_specification]
#[verifier::external_body]
pub struct ExPubkey(solana_pubkey::Pubkey);

/// `solana_account::Account`, carried through unchanged.
#[verifier::external_type_specification]
#[verifier::external_body]
pub struct ExAccount(solana_account::Account);

/// `solana_compute_budget::compute_budget::ComputeBudget`, carried through
/// unchanged.
#[verifier::external_type_specification]
#[verifier::external_body]
pub struct ExComputeBudget(solana_compute_budget::compute_budget::ComputeBudget);

/// `agave_feature_set::FeatureSet`, a collection of activated features.
#[verifier::external_type_specification]
#[verifier::external_body]
pub struct ExFeatureSet(agave_feature_set::FeatureSet);

/// The 32 bytes an address holds.
pub uninterp spec fn pubkey_bytes(key: solana_pubkey::Pubkey) -> Seq<u8>;

/// The addresses (as their bytes) of the features that a feature set holds
/// as active: the keys of its `active` map.
pub uninterp spec fn active_features(features: agave_feature_set::FeatureSet) -> Set<Seq<u8>>;

/// What `ComputeBudget::new_with_defaults` returns for the two feature flags
/// it takes.
pub uninterp spec fn default_compute_budget(
    simd_0268_active: bool,
    simd_0339_active: bool,
) -> solana_compute_budget::compute_budget::ComputeBudget;

/// The address of the feature that raises the CPI nesting limit to 8
/// (SIMD-0268), `6TkHkRmP7JZy1fdM6fg5uXn76wChQBWGokHBJzrLB3mj`, as bytes.
pub open spec fn raise_cpi_nesting_limit_to_8_bytes() -> Seq<u8> {
    seq![
        81u8, 36, 123, 129, 7, 118, 113, 123, 50, 122, 58, 57, 82, 59, 85, 144,
        121, 54, 80, 89, 76, 251, 168, 82, 90, 82, 231, 181, 60, 128, 146, 138,
    ]
}

/// Calls `Pubkey::new_from_array`, which wraps the array: the address holds
/// exactly these bytes, and it is the only address that does.
#[verifier::external_body]
pub(crate) fn pubkey_new_from_array(bytes: [u8; 32]) -> (key: solana_pubkey::Pubkey)
    ensures
        pubkey_bytes(key) == bytes@,
        forall|other: solana_pubkey::Pubkey| pubkey_bytes(other) == bytes@ ==> other == key,
{
    solana_pubkey::Pubkey::new_from_array(bytes)
}

/// Calls `Pubkey::to_bytes`, which returns the address's bytes.
#[verifier::external_body]
pub(crate) fn pubkey_to_bytes(key: &solana_pubkey::Pubkey) -> (bytes: [u8; 32])
    ensures
        bytes@ == pubkey_bytes(*key),
{
    key.to_bytes()
}

/// Calls `Pubkey`'s derived `PartialEq::eq`, which compares the two byte
/// arrays.
#[verifier::external_body]
pub(crate) fn pubkey_eq(a: &solana_pubkey::Pubkey, b: &solana_pubkey::Pubkey) -> (r: bool)
    ensures
        r == (pubkey_bytes(*a) == pubkey_bytes(*b)),
{
    a == b
}

/// Calls `agave_feature_set::raise_cpi_nesting_limit_to_8::id`, which
/// returns the feature's declared address.
#[verifier::external_body]
pub(crate) fn raise_cpi_nesting_limit_to_8_id() -> (id: solana_pubkey::Pubkey)
    ensures
        pubkey_bytes(id) == raise_cpi_nesting_limit_to_8_bytes(),
{
    agave_feature_set::raise_cpi_nesting_limit_to_8::id()
}

/// Calls `FeatureSet::default`, which holds no feature as active: its
/// `active` map is empty. That it lists every known feature as inactive is
/// left unsaid.
#[verifier::external_body]
pub(crate) fn feature_set_default() -> (features: agave_feature_set::FeatureSet)
    ensures
        active_features(features) == Set::<Seq<u8>>::empty(),
{
    agave_feature_set::FeatureSet::default()
}

/// Calls `FeatureSet::is_active`, which tells whether the feature's address
/// is a key of the `active` map.
#[verifier::external_body]
pub(crate) fn feature_set_is_active(
    features: &agave_feature_set::FeatureSet,
    feature_id: &solana_pubkey::Pubkey,
) -> (active: bool)
    ensures
        active == active_features(*features).contains(pubkey_bytes(*feature_id)),
{
    features.is_active(feature_id)
}

/// Calls `ComputeBudget::new_with_defaults`, the runtime's default budget
/// for the two feature flags.
#[verifier::external_body]
pub(crate) fn compute_budget_new_with_defaults(
    simd_0268_active: bool,
    simd_0339_active: bool,
) -> (budget: solana_compute_budget::compute_budget::ComputeBudget)
    ensures
        budget == default_compute_budget(simd_0268_active, simd_0339_active),
{
    solana_compute_budget::compute_budget::ComputeBudget::new_with_defaults(
        simd_0268_active,
        simd_0339_active,
    )
}

} // verus!
