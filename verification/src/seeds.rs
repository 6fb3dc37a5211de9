use vstd::prelude::*;

use crate::key::Key;
use crate::pda::seeds_view;

verus! {

/// `b"marketplace"`.
pub open spec fn marketplace_tag() -> Seq<u8> {
    seq![109u8, 97u8, 114u8, 107u8, 101u8, 116u8, 112u8, 108u8, 97u8, 99u8, 101u8]
}

/// `b"treasury"`.
pub open spec fn treasury_tag() -> Seq<u8> {
    seq![116u8, 114u8, 101u8, 97u8, 115u8, 117u8, 114u8, 121u8]
}

/// `b"offer"`.
pub open spec fn offer_tag() -> Seq<u8> {
    seq![111u8, 102u8, 102u8, 101u8, 114u8]
}

/// Seeds of the marketplace account: `[b"marketplace", name]`.
pub open spec fn marketplace_seeds(name: Seq<u8>) -> Seq<Seq<u8>> {
    seq![marketplace_tag(), name]
}

/// Seeds of the treasury account: `[b"treasury", marketplace]`.
pub open spec fn treasury_seeds(marketplace: Seq<u8>) -> Seq<Seq<u8>> {
    seq![treasury_tag(), marketplace]
}

/// Seeds of a listing account: `[marketplace, maker, mint]`.
pub open spec fn listing_seeds(marketplace: Seq<u8>, maker: Seq<u8>, mint: Seq<u8>) -> Seq<Seq<u8>> {
    seq![marketplace, maker, mint]
}

/// Seeds of an offer account: `[b"offer", marketplace, mint, buyer]`.
pub open spec fn offer_seeds(marketplace: Seq<u8>, mint: Seq<u8>, buyer: Seq<u8>) -> Seq<Seq<u8>> {
    seq![offer_tag(), marketplace, mint, buyer]
}

/// Seeds of an associated token account: `[wallet, token_program, mint]`.
pub open spec fn associated_token_seeds(wallet: Seq<u8>, token_program: Seq<u8>, mint: Seq<u8>) -> Seq<Seq<u8>> {
    seq![wallet, token_program, mint]
}

fn tag_marketplace() -> (v: Vec<u8>)
    ensures
        v@ == marketplace_tag(),
{
    let v: Vec<u8> = vec![109u8, 97u8, 114u8, 107u8, 101u8, 116u8, 112u8, 108u8, 97u8, 99u8, 101u8];
    assert(v@ =~= marketplace_tag());
    v
}

fn tag_treasury() -> (v: Vec<u8>)
    ensures
        v@ == treasury_tag(),
{
    let v: Vec<u8> = vec![116u8, 114u8, 101u8, 97u8, 115u8, 117u8, 114u8, 121u8];
    assert(v@ =~= treasury_tag());
    v
}

fn tag_offer() -> (v: Vec<u8>)
    ensures
        v@ == offer_tag(),
{
    let v: Vec<u8> = vec![111u8, 102u8, 102u8, 101u8, 114u8];
    assert(v@ =~= offer_tag());
    v
}

fn two(a: Vec<u8>, b: Vec<u8>) -> (v: Vec<Vec<u8>>)
    ensures
        seeds_view(v@) == seq![a@, b@],
{
    let mut v: Vec<Vec<u8>> = Vec::new();
    v.push(a);
    v.push(b);
    assert(seeds_view(v@) =~= seq![a@, b@]);
    v
}

fn three(a: Vec<u8>, b: Vec<u8>, c: Vec<u8>) -> (v: Vec<Vec<u8>>)
    ensures
        seeds_view(v@) == seq![a@, b@, c@],
{
    let mut v: Vec<Vec<u8>> = Vec::new();
    v.push(a);
    v.push(b);
    v.push(c);
    assert(seeds_view(v@) =~= seq![a@, b@, c@]);
    v
}

/// Builds the marketplace seeds from the name's bytes.
pub fn build_marketplace_seeds(name: Vec<u8>) -> (v: Vec<Vec<u8>>)
    ensures
        seeds_view(v@) == marketplace_seeds(name@),
{
    two(tag_marketplace(), name)
}

/// Builds the treasury seeds.
pub fn build_treasury_seeds(marketplace: &Key) -> (v: Vec<Vec<u8>>)
    ensures
        seeds_view(v@) == treasury_seeds(marketplace@),
{
    two(tag_treasury(), marketplace.to_seed())
}

/// Builds the listing seeds.
pub fn build_listing_seeds(marketplace: &Key, maker: &Key, mint: &Key) -> (v: Vec<Vec<u8>>)
    ensures
        seeds_view(v@) == listing_seeds(marketplace@, maker@, mint@),
{
    three(marketplace.to_seed(), maker.to_seed(), mint.to_seed())
}

/// Builds the offer seeds.
pub fn build_offer_seeds(marketplace: &Key, mint: &Key, buyer: &Key) -> (v: Vec<Vec<u8>>)
    ensures
        seeds_view(v@) == offer_seeds(marketplace@, mint@, buyer@),
{
    let mut v: Vec<Vec<u8>> = Vec::new();
    v.push(tag_offer());
    v.push(marketplace.to_seed());
    v.push(mint.to_seed());
    v.push(buyer.to_seed());
    assert(seeds_view(v@) =~= offer_seeds(marketplace@, mint@, buyer@));
    v
}

/// Builds the seeds of an associated token account.
pub fn build_associated_token_seeds(wallet: &Key, token_program: &Key, mint: &Key) -> (v: Vec<Vec<u8>>)
    ensures
        seeds_view(v@) == associated_token_seeds(wallet@, token_program@, mint@),
{
    three(wallet.to_seed(), token_program.to_seed(), mint.to_seed())
}

/// Appends the one-byte bump seed.
pub fn push_bump(seeds: &mut Vec<Vec<u8>>, bump: u8)
    ensures
        seeds_view(final(seeds)@) == crate::pda::with_bump(seeds_view(old(seeds)@), bump),
{
    let mut b: Vec<u8> = Vec::new();
    b.push(bump);
    assert(b@ =~= seq![bump]);
    seeds.push(b);
    assert(seeds_view(seeds@) =~= crate::pda::with_bump(seeds_view(old(seeds)@), bump));
}

} // verus!
