use vstd::prelude::*;

use crate::action::ListingSigner;
use crate::constraints::{
    check_close, check_has_one, check_mint, check_seeds, close_check, has_one_check, mint_check,
    seeds_check, then,
};
use crate::error::MarketError;
use crate::key::Key;
use crate::seeds::{
    build_listing_seeds, build_marketplace_seeds, build_offer_seeds, build_treasury_seeds,
    listing_seeds, marketplace_seeds, offer_seeds, treasury_seeds,
};
use crate::state::{Listing, Marketplace, Offer};

verus! {

/// The marketplace account: its address, the program owning it, and its
/// settings.
pub struct MarketplaceAccount {
    pub key: Key,
    pub owner: Key,
    pub data: Marketplace,
}

impl MarketplaceAccount {
    /// Its seeds constraint: `[b"marketplace", name]` with the stored bump.
    pub open spec fn spec_check(&self, program_id: Seq<u8>) -> Result<(), MarketError> {
        seeds_check(self.key@, marketplace_seeds(self.data.name_bytes()), self.data.bump, program_id)
    }

    /// Checks its seeds constraint.
    pub fn check(&self, program_id: &Key) -> (r: Result<(), MarketError>)
        ensures
            r == self.spec_check(program_id@),
    {
        check_seeds(&self.key, build_marketplace_seeds(self.data.name_seed()), self.data.bump, program_id)
    }

    /// The treasury's seeds constraint: `[b"treasury", marketplace]` with the
    /// stored treasury bump.
    pub open spec fn spec_check_treasury(&self, treasury: Seq<u8>, program_id: Seq<u8>) -> Result<(), MarketError> {
        seeds_check(treasury, treasury_seeds(self.key@), self.data.treasury_bump, program_id)
    }

    /// Checks the treasury's seeds constraint.
    pub fn check_treasury(&self, treasury: &Key, program_id: &Key) -> (r: Result<(), MarketError>)
        ensures
            r == self.spec_check_treasury(treasury@, program_id@),
    {
        check_seeds(treasury, build_treasury_seeds(&self.key), self.data.treasury_bump, program_id)
    }
}

/// A mint account: its address, the token program owning it, and its
/// decimals.
#[derive(Clone, Copy, Debug)]
pub struct MintAccount {
    pub key: Key,
    pub program: Key,
    pub decimals: u8,
}

/// A token account: its address, the wallet it belongs to, the mint it holds,
/// and the token program owning it.
#[derive(Clone, Copy, Debug)]
pub struct TokenAccount {
    pub key: Key,
    pub owner: Key,
    pub mint: Key,
    pub program: Key,
}

/// A listing account: its address, the program owning it, and its data.
#[derive(Clone, Copy, Debug)]
pub struct ListingAccount {
    pub key: Key,
    pub owner: Key,
    pub data: Listing,
}

impl ListingAccount {
    /// Its constraints, in order: the seeds `[marketplace, maker, mint]` with the
    /// stored bump, its maker is `maker`, its mint is `mint`, and it is not
    /// `maker`, into which it is closed.
    pub open spec fn spec_check(&self, marketplace: Seq<u8>, maker: Seq<u8>, mint: Seq<u8>, program_id: Seq<u8>) -> Result<(), MarketError> {
        then(
            seeds_check(self.key@, listing_seeds(marketplace, maker, mint), self.data.bump, program_id),
            then(
                has_one_check(self.data.maker@, maker),
                then(mint_check(self.data.mint@, mint), close_check(self.key@, maker)),
            ),
        )
    }

    /// Checks its constraints.
    pub fn check(&self, marketplace: &Key, maker: &Key, mint: &Key, program_id: &Key) -> (r: Result<(), MarketError>)
        ensures
            r == self.spec_check(marketplace@, maker@, mint@, program_id@),
    {
        check_seeds(&self.key, build_listing_seeds(marketplace, maker, mint), self.data.bump, program_id)?;
        check_has_one(&self.data.maker, maker)?;
        check_mint(&self.data.mint, mint)?;
        check_close(&self.key, maker)
    }

    /// The listing signing with its stored bump.
    pub open spec fn spec_signer(&self, marketplace: Key, maker: Key, mint: Key) -> ListingSigner {
        ListingSigner { marketplace, maker, mint, bump: self.data.bump }
    }
}

/// An offer account: its address, the program owning it, and its data.
#[derive(Clone, Copy, Debug)]
pub struct OfferAccount {
    pub key: Key,
    pub owner: Key,
    pub data: Offer,
}

impl OfferAccount {
    /// Its constraints, in order: the seeds `[b"offer", marketplace, mint, buyer]`
    /// with the stored bump, its buyer is `buyer`, its mint is `mint`, and it is
    /// not `buyer`, into which it is closed.
    pub open spec fn spec_check(&self, marketplace: Seq<u8>, mint: Seq<u8>, buyer: Seq<u8>, program_id: Seq<u8>) -> Result<(), MarketError> {
        then(
            seeds_check(self.key@, offer_seeds(marketplace, mint, buyer), self.data.bump, program_id),
            then(
                has_one_check(self.data.buyer@, buyer),
                then(mint_check(self.data.mint@, mint), close_check(self.key@, buyer)),
            ),
        )
    }

    /// Checks its constraints.
    pub fn check(&self, marketplace: &Key, mint: &Key, buyer: &Key, program_id: &Key) -> (r: Result<(), MarketError>)
        ensures
            r == self.spec_check(marketplace@, mint@, buyer@, program_id@),
    {
        check_seeds(&self.key, build_offer_seeds(marketplace, mint, buyer), self.data.bump, program_id)?;
        check_has_one(&self.data.buyer, buyer)?;
        check_mint(&self.data.mint, mint)?;
        check_close(&self.key, buyer)
    }
}

} // verus!
