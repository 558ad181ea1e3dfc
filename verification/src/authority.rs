//! Derived authorities: control identities that no private key stands behind.
//!
//! An authority is computed from a namespace tag and the identity of a
//! record. The search for it also yields a nonce; whoever presents the tag,
//! the record's identity and that nonce is vouched for as the authority.
//! The authority over a holding account is the one derived, under the tag
//! `escrow`, from the rental record that the account belongs to.

use vstd::prelude::*;

use crate::identity::{id, Pubkey, ID};

verus! {

/// The namespace tag of every holding account: the bytes of `escrow`.
pub const ESCROW_SEED: [u8; 6] = [101, 115, 99, 114, 111, 119];

/// The address and the nonce that the search for a program address ends
/// with, for the seeds and under the program identity given; `None` where
/// no nonce yields an address.
///
/// Nothing is said of which address or nonce it is: only that equal
/// arguments have one answer.
pub uninterp spec fn program_address(seeds: Seq<Seq<u8>>, program_id: [u8; 32]) -> Option<
    ([u8; 32], u8),
>;

/// The most seeds that a search takes, the nonce counted in.
pub const MAX_SEEDS: usize = 16;

/// The most bytes that one seed may have.
pub const MAX_SEED_LEN: usize = 32;

/// Whether the seeds are beyond what a search takes: with the nonce they
/// would be more than `MAX_SEEDS`, or one of them is longer than
/// `MAX_SEED_LEN`.
pub open spec fn beyond_limits(seeds: Seq<Seq<u8>>) -> bool {
    seeds.len() >= MAX_SEEDS || exists|i: int|
        0 <= i < seeds.len() && (#[trigger] seeds[i]).len() > MAX_SEED_LEN
}

/// A control identity together with the nonce it was found with.
#[derive(Clone, Copy, Debug, PartialEq, Eq)]
pub struct DerivedAuthority {
    /// The identity that authorizes.
    pub address: Pubkey,
    /// The nonce that, with the tag and the record, yields `address`.
    pub bump: u8,
}

/// The authority derived under the tag `namespace` from the record
/// `record`, where the search finds one. The seeds are the tag, then the
/// record's identity; the program is this one.
pub open spec fn derived_authority(namespace: Seq<u8>, record: Pubkey) -> Option<DerivedAuthority> {
    match program_address(seq![namespace, record@], ID) {
        Some((address, bump)) => Some(DerivedAuthority { address: Pubkey { bytes: address }, bump }),
        None => None,
    }
}

/// The authority over the holding account of the record `rental_key`, where
/// the search finds one.
pub open spec fn escrow_authority(rental_key: Pubkey) -> Option<DerivedAuthority> {
    derived_authority(ESCROW_SEED@, rental_key)
}

/// Calls `anchor_lang::prelude::Pubkey::try_find_program_address`: the
/// search, from nonce 255 downwards, for an address that lies off the curve.
///
/// Trusted: the answer is a function of the seeds and the program identity
/// alone, which `program_address` names; and the search finds nothing for
/// seeds beyond its limits. Nothing else is claimed of it.
#[verifier::external_body]
fn try_find_program_address(seeds: &[&[u8]], program_id: &Pubkey) -> (found: Option<([u8; 32], u8)>)
    ensures
        found == program_address(seeds@.map_values(|seed: &[u8]| seed@), program_id.bytes),
        beyond_limits(seeds@.map_values(|seed: &[u8]| seed@)) ==> found is None,
{
    let program = anchor_lang::prelude::Pubkey::new_from_array(program_id.bytes);
    match anchor_lang::prelude::Pubkey::try_find_program_address(seeds, &program) {
        Some((address, bump)) => Some((address.to_bytes(), bump)),
        None => None,
    }
}

/// Searches for the authority under the tag `namespace` over the record
/// `record`. A tag of more than `MAX_SEED_LEN` bytes has no authority.
pub fn derive_authority(namespace: &[u8], record: &Pubkey) -> (found: Option<DerivedAuthority>)
    ensures
        found == derived_authority(namespace@, *record),
        namespace@.len() > MAX_SEED_LEN ==> found is None,
{
    let seeds: [&[u8]; 2] = [namespace, record.bytes.as_slice()];
    let program = id();
    assert(seeds@.map_values(|seed: &[u8]| seed@) =~= seq![namespace@, record@]);
    assert(namespace@.len() > MAX_SEED_LEN ==> beyond_limits(seq![namespace@, record@])) by {
        if namespace@.len() > MAX_SEED_LEN {
            assert(seq![namespace@, record@][0].len() > MAX_SEED_LEN);
        }
    }
    match try_find_program_address(seeds.as_slice(), &program) {
        Some((address, bump)) => Some(DerivedAuthority { address: Pubkey { bytes: address }, bump }),
        None => None,
    }
}

/// Searches for the authority over the holding account of the record
/// `rental_key`.
pub fn find_escrow_authority(rental_key: &Pubkey) -> (found: Option<DerivedAuthority>)
    ensures
        found == escrow_authority(*rental_key),
{
    derive_authority(ESCROW_SEED.as_slice(), rental_key)
}

} // verus!
