use vstd::prelude::*;

use crate::key::Key;
use anchor_lang::prelude::Pubkey;

verus! {

/// The address that program-address derivation gives for `seeds` under
/// `program_id`, or `None` where the seeds are rejected or the hash falls on
/// the ed25519 curve.
pub uninterp spec fn program_address(seeds: Seq<Seq<u8>>, program_id: Seq<u8>) -> Option<Seq<u8>>;

/// The byte sequences held by a vector of seeds.
pub open spec fn seeds_view(seeds: Seq<Vec<u8>>) -> Seq<Seq<u8>> {
    seeds.map_values(|s: Vec<u8>| s@)
}

/// More seeds than derivation accepts, or a seed longer than it accepts.
pub open spec fn seeds_exceed_limits(seeds: Seq<Seq<u8>>) -> bool {
    ||| seeds.len() > 16
    ||| exists|i: int| 0 <= i < seeds.len() && #[trigger] seeds[i].len() > 32
}

/// `seeds` followed by the one-byte bump seed `bump`.
pub open spec fn with_bump(seeds: Seq<Seq<u8>>, bump: u8) -> Seq<Seq<u8>> {
    seeds.push(seq![bump])
}

/// Some address is derived from `seeds` with the bump seed `bump`.
pub open spec fn bump_derives(seeds: Seq<Seq<u8>>, program_id: Seq<u8>, bump: u8) -> bool {
    program_address(with_bump(seeds, bump), program_id) is Some
}

/// `bump` is the largest bump seed, from 1 up, that derives an address.
pub open spec fn is_canonical_bump(seeds: Seq<Seq<u8>>, program_id: Seq<u8>, bump: u8) -> bool {
    &&& 1 <= bump
    &&& bump_derives(seeds, program_id, bump)
    &&& forall|b: u8| bump < b ==> !#[trigger] bump_derives(seeds, program_id, b)
}

/// Some bump seed from 1 to 255 derives an address.
pub open spec fn pda_exists(seeds: Seq<Seq<u8>>, program_id: Seq<u8>) -> bool {
    exists|b: u8| 1 <= b && #[trigger] bump_derives(seeds, program_id, b)
}

/// The canonical bump seed (meaningful where `pda_exists`).
pub open spec fn canonical_bump(seeds: Seq<Seq<u8>>, program_id: Seq<u8>) -> u8 {
    choose|b: u8| is_canonical_bump(seeds, program_id, b)
}

/// The address derived with the canonical bump seed (meaningful where `pda_exists`).
pub open spec fn canonical_address(seeds: Seq<Seq<u8>>, program_id: Seq<u8>) -> Seq<u8> {
    program_address(with_bump(seeds, canonical_bump(seeds, program_id)), program_id)->0
}

/// Where some bump derives an address, exactly one bump is canonical.
pub proof fn lemma_canonical_bump(seeds: Seq<Seq<u8>>, program_id: Seq<u8>)
    requires
        pda_exists(seeds, program_id),
    ensures
        is_canonical_bump(seeds, program_id, canonical_bump(seeds, program_id)),
        forall|b: u8| #[trigger] is_canonical_bump(seeds, program_id, b) ==> b == canonical_bump(seeds, program_id),
{
    let w = choose|b: u8| 1 <= b && #[trigger] bump_derives(seeds, program_id, b);
    let top = lemma_largest_deriving_bump(seeds, program_id, w, 255);
    lemma_canonical_unique(seeds, program_id, top);
}

/// Descending from `k`, the first bump that derives an address is canonical.
proof fn lemma_largest_deriving_bump(seeds: Seq<Seq<u8>>, program_id: Seq<u8>, w: u8, k: u8) -> (top: u8)
    requires
        1 <= w <= k,
        bump_derives(seeds, program_id, w),
        forall|b: u8| k < b ==> !#[trigger] bump_derives(seeds, program_id, b),
    ensures
        is_canonical_bump(seeds, program_id, top),
    decreases k,
{
    if bump_derives(seeds, program_id, k) {
        k
    } else {
        lemma_largest_deriving_bump(seeds, program_id, w, (k - 1) as u8)
    }
}

proof fn lemma_canonical_unique(seeds: Seq<Seq<u8>>, program_id: Seq<u8>, top: u8)
    requires
        is_canonical_bump(seeds, program_id, top),
    ensures
        is_canonical_bump(seeds, program_id, canonical_bump(seeds, program_id)),
        forall|b: u8| #[trigger] is_canonical_bump(seeds, program_id, b) ==> b == canonical_bump(seeds, program_id),
{
    let c = canonical_bump(seeds, program_id);
    assert(is_canonical_bump(seeds, program_id, c));
    assert forall|b: u8| #[trigger] is_canonical_bump(seeds, program_id, b) implies b == c by {
        if b < c {
            assert(!bump_derives(seeds, program_id, c));
        } else if c < b {
            assert(!bump_derives(seeds, program_id, b));
        }
    }
}

/// Derives the program address of `seeds` under `program_id` with
/// `Pubkey::create_program_address`: the result is `program_address` of the
/// seeds and the program id (an error becomes `None`), and is `None` where
/// there are more than 16 seeds or a seed longer than 32 bytes.
#[verifier::external_body]
pub(crate) fn create_program_address(seeds: &Vec<Vec<u8>>, program_id: &Key) -> (r: Option<Key>)
    ensures
        r matches Some(k) ==> program_address(seeds_view(seeds@), program_id@) == Some(k@),
        r is None ==> program_address(seeds_view(seeds@), program_id@) is None,
        seeds_exceed_limits(seeds_view(seeds@)) ==> r is None,
{
    let slices: Vec<&[u8]> = seeds.iter().map(|s| s.as_slice()).collect();
    let pid = Pubkey::new_from_array(program_id.bytes);
    match Pubkey::create_program_address(&slices, &pid) {
        Ok(k) => Some(Key { bytes: k.to_bytes() }),
        Err(_) => None,
    }
}

/// Finds the canonical bump of `seeds` under `program_id` with
/// `Pubkey::try_find_program_address`, which tries the bump seeds 255 down to
/// 1: the result is the canonical bump seed and the address it derives, and
/// `None` exactly where no bump from 1 to 255 derives an address.
#[verifier::external_body]
pub(crate) fn try_find_program_address(seeds: &Vec<Vec<u8>>, program_id: &Key) -> (r: Option<(Key, u8)>)
    ensures
        r is Some <==> pda_exists(seeds_view(seeds@), program_id@),
        r matches Some(p) ==> {
            &&& is_canonical_bump(seeds_view(seeds@), program_id@, p.1)
            &&& program_address(with_bump(seeds_view(seeds@), p.1), program_id@) == Some(p.0@)
        },
{
    let slices: Vec<&[u8]> = seeds.iter().map(|s| s.as_slice()).collect();
    let pid = Pubkey::new_from_array(program_id.bytes);
    Pubkey::try_find_program_address(&slices, &pid).map(|(k, b)| (Key { bytes: k.to_bytes() }, b))
}

} // verus!
