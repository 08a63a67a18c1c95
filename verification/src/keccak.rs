//! The Keccak-256 hasher that fingerprints fixtures, seen as the stream of
//! bytes it has absorbed.
use vstd::prelude::*;

verus! {

/// `solana_keccak_hasher::Hasher`, carried as an opaque value.
#[verifier::external_type_specification]
#[verifier::external_body]
pub struct ExHasher(solana_keccak_hasher::Hasher);

/// The bytes that `hasher` has absorbed so far, in the order in which they
/// were handed to `Hasher::hash`. The digest that `Hasher::result` returns is
/// the Keccak-256 digest of this stream.
pub uninterp spec fn keccak_absorbed(hasher: solana_keccak_hasher::Hasher) -> Seq<u8>;

/// Calls `Hasher::hash`, which feeds `val` to the underlying Keccak-256
/// sponge (`Keccak256::update`): the absorbed stream grows by `val`, and
/// nothing else changes.
#[verifier::external_body]
pub(crate) fn keccak_hash(hasher: &mut solana_keccak_hasher::Hasher, val: &[u8])
    ensures
        keccak_absorbed(*final(hasher)) == keccak_absorbed(*old(hasher)) + val@,
{
    hasher.hash(val);
}

} // verus!
