//! Program-derived addresses: the checks that an account's address is the one
//! its seeds derive.
use crate::address::Address;
use crate::seeds::seeds_view;
use anchor_lang::prelude::Pubkey;
use vstd::prelude::*;

verus! {

/// The address that `Pubkey::create_program_address` derives from `seeds` for
/// `program_id`, or `None` where it refuses them.
pub uninterp spec fn created_program_address(seeds: Seq<Seq<u8>>, program_id: Seq<u8>) -> Option<
    Seq<u8>,
>;

/// The address and bump seed that `Pubkey::try_find_program_address` finds from
/// `seeds` for `program_id`, or `None` where it finds none.
pub uninterp spec fn found_program_address(seeds: Seq<Seq<u8>>, program_id: Seq<u8>) -> Option<
    (Seq<u8>, u8),
>;

pub open spec fn address_option_view(r: Option<Address>) -> Option<Seq<u8>> {
    match r {
        Some(a) => Some(a@),
        None => None,
    }
}

pub open spec fn found_option_view(r: Option<(Address, u8)>) -> Option<(Seq<u8>, u8)> {
    match r {
        Some((a, b)) => Some((a@, b)),
        None => None,
    }
}

/// Calls `Pubkey::create_program_address` (solana-pubkey, reached through
/// anchor_lang). Claimed: the result is the named address of the seeds and the
/// program id, `None` exactly where the call returns an error.
#[verifier::external_body]
fn create_program_address(seeds: &Vec<Vec<u8>>, program_id: &Address) -> (r: Option<Address>)
    ensures
        address_option_view(r) == created_program_address(seeds_view(seeds), program_id@),
{
    let refs: Vec<&[u8]> = seeds.iter().map(|s| s.as_slice()).collect();
    let id = Pubkey::new_from_array(program_id.bytes);
    Pubkey::create_program_address(&refs, &id).ok().map(|k| Address { bytes: k.to_bytes() })
}

/// Calls `Pubkey::try_find_program_address` (solana-pubkey, reached through
/// anchor_lang). Claimed: the result is the named address and bump of the seeds
/// and the program id; and, as its source shows (it returns the first `Ok` of
/// `create_program_address` on the seeds followed by the one-byte bump seed),
/// a found address is what `create_program_address` derives from the seeds
/// with the found bump appended.
#[verifier::external_body]
fn try_find_program_address(seeds: &Vec<Vec<u8>>, program_id: &Address) -> (r: Option<
    (Address, u8),
>)
    ensures
        found_option_view(r) == found_program_address(seeds_view(seeds), program_id@),
        r matches Some((a, b)) ==> created_program_address(
            seeds_view(seeds).push(seq![b]),
            program_id@,
        ) == Some(a@),
{
    let refs: Vec<&[u8]> = seeds.iter().map(|s| s.as_slice()).collect();
    let id = Pubkey::new_from_array(program_id.bytes);
    Pubkey::try_find_program_address(&refs, &id).map(|(k, b)| (Address { bytes: k.to_bytes() }, b))
}

/// `key` is the address derived from `seeds` followed by the one-byte `bump`.
pub open spec fn derives_with_bump(
    seeds: Seq<Seq<u8>>,
    bump: u8,
    key: Seq<u8>,
    program_id: Seq<u8>,
) -> bool {
    created_program_address(seeds.push(seq![bump]), program_id) == Some(key)
}

/// `key` is the canonical address found from `seeds`.
pub open spec fn is_canonical_address(seeds: Seq<Seq<u8>>, key: Seq<u8>, program_id: Seq<u8>) -> bool {
    match found_program_address(seeds, program_id) {
        Some((a, _)) => a == key,
        None => false,
    }
}

/// The canonical bump found from `seeds` (meaningful where one is found).
pub open spec fn canonical_bump(seeds: Seq<Seq<u8>>, program_id: Seq<u8>) -> u8 {
    match found_program_address(seeds, program_id) {
        Some((_, b)) => b,
        None => 0,
    }
}

/// Checks the constraint `seeds = .., bump = stored`: the address derived from
/// the seeds and the stored bump is `key`.
pub fn check_seeds_with_bump(seeds: Vec<Vec<u8>>, bump: u8, key: &Address, program_id: &Address) -> (ok:
    bool)
    ensures
        ok == derives_with_bump(seeds_view(&seeds), bump, key@, program_id@),
{
    let ghost base = seeds_view(&seeds);
    let mut with_bump = seeds;
    let mut b: Vec<u8> = Vec::new();
    b.push(bump);
    with_bump.push(b);
    assert(seeds_view(&with_bump) =~= base.push(seq![bump]));
    match create_program_address(&with_bump, program_id) {
        Some(derived) => derived.same_as(key),
        None => false,
    }
}

/// Checks the constraint `init, seeds = .., bump`: the canonical address found
/// from the seeds is `key`. Returns the canonical bump where it is.
pub fn find_canonical_bump(seeds: &Vec<Vec<u8>>, key: &Address, program_id: &Address) -> (r: Option<
    u8,
>)
    ensures
        r is Some <==> is_canonical_address(seeds_view(seeds), key@, program_id@),
        r matches Some(b) ==> b == canonical_bump(seeds_view(seeds), program_id@),
        r matches Some(b) ==> derives_with_bump(seeds_view(seeds), b, key@, program_id@),
{
    match try_find_program_address(seeds, program_id) {
        Some((derived, bump)) => {
            if derived.same_as(key) {
                Some(bump)
            } else {
                None
            }
        },
        None => None,
    }
}

} // verus!
