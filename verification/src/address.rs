//! Derived addresses: the address of a record as a function of the identity
//! that controls it and of the program that owns it.

use vstd::prelude::*;
use crate::key::Key;

verus! {

/// What `Pubkey::try_find_program_address` returns for the single seed
/// `authority` under the program `program`: the canonical address with its
/// bump, or `None` where no bump gives an address.
pub uninterp spec fn derived_address(authority: Seq<u8>, program: Seq<u8>) -> Option<(Seq<u8>, u8)>;

/// Calls `anchor_lang::prelude::Pubkey::try_find_program_address` with the
/// bytes of `authority` as the only seed.
///
/// Trusted: the search is a function of the seed and the program alone (a
/// SHA-256 digest per bump, from 255 down, and a test that the digest is off
/// the ed25519 curve), so its result has the name `derived_address`. Nothing
/// is claimed of which address comes out, nor that one does.
#[verifier::external_body]
fn find_address(authority: &Key, program: &Key) -> (found: Option<(Key, u8)>)
    ensures
        found is None ==> derived_address(authority@, program@) is None,
        found matches Some((address, bump)) ==> derived_address(authority@, program@) == Some(
            (address@, bump),
        ),
{
    let program_id = anchor_lang::prelude::Pubkey::new_from_array(program.bytes);
    let seed: &[u8] = &authority.bytes;
    match anchor_lang::prelude::Pubkey::try_find_program_address(&[seed], &program_id) {
        Some((address, bump)) => Some((Key { bytes: address.to_bytes() }, bump)),
        None => None,
    }
}

/// Whether `address` is the address derived from `authority` under `program`.
pub open spec fn is_derived_from(address: Seq<u8>, authority: Seq<u8>, program: Seq<u8>) -> bool {
    derived_address(authority, program) matches Some((derived, _)) && derived == address
}

/// Whether a derivation found `address`: `found` is what the derivation
/// returned, the address with its bump, or `None` where it found none.
pub fn found_address_is(found: &Option<(Key, u8)>, address: &Key) -> (yes: bool)
    ensures
        yes == (found matches Some((derived, _)) && derived@ == address@),
{
    match found {
        Some((derived, _)) => derived.same(address),
        None => false,
    }
}

/// Derives the address of `authority` under `program` and says whether it is
/// `address`.
pub fn is_address_of(address: &Key, authority: &Key, program: &Key) -> (yes: bool)
    ensures
        yes == is_derived_from(address@, authority@, program@),
{
    let found = find_address(authority, program);
    found_address_is(&found, address)
}

} // verus!
