use vstd::prelude::*;

use crate::action::Action;
use crate::contexts::accept_offer::AcceptOffer;
use crate::contexts::buy::Buy;
use crate::contexts::buy_with_token::BuyWithToken;
use crate::contexts::cancel_offer::CancelOffer;
use crate::contexts::list::{List, ListBumps};
use crate::contexts::make_offer::MakeOffer;
use crate::error::{MarketError, MarketplaceError};
use crate::key::Key;
use crate::state::{Listing, Marketplace, Offer};

verus! {

/// The bumps of the marketplace and treasury accounts.
#[derive(Clone, Copy, Debug)]
pub struct InitializeBumps {
    pub marketplace: u8,
    pub treasury: u8,
}

/// Sets up the marketplace's settings.
pub fn initialize(name: String, fee: u16, bumps: &InitializeBumps) -> (r: Result<Marketplace, MarketError>)
    ensures
        Marketplace::spec_new(name@, fee) is Ok <==> r is Ok,
        Marketplace::spec_new(name@, fee) matches Err(e) ==> r == Err::<Marketplace, MarketError>(MarketError::Program(e)),
        r matches Ok(m) ==> {
            &&& m.name@ == name@
            &&& m.fee == fee
            &&& m.bump == bumps.marketplace
            &&& m.treasury_bump == bumps.treasury
            &&& m.wf()
        },
{
    match Marketplace::new(name, fee, bumps.marketplace, bumps.treasury) {
        Ok(m) => Ok(m),
        Err(e) => Err(MarketError::Program(e)),
    }
}

/// The listing that `list` stores.
pub open spec fn listed(ctx: &List, price: u64, payment_mint: Option<Key>, bump: u8) -> Listing {
    Listing { maker: ctx.maker, mint: ctx.maker_mint.key, payment_mint, price, bump }
}

/// The outcome of `list`.
pub open spec fn spec_list(ctx: &List, price: u64, payment_mint: Option<Key>, program_id: Seq<u8>) -> Result<(Listing, Action), MarketError> {
    match ctx.spec_validate(program_id) {
        Err(e) => Err(e),
        Ok(bumps) => if price == 0 {
            Err(MarketError::Program(MarketplaceError::InvalidPrice))
        } else {
            Ok((listed(ctx, price, payment_mint, bumps.listing), ctx.spec_deposit()))
        },
    }
}

/// Lists an NFT: checks the accounts, then hands back the listing to store
/// and the deposit of the NFT into the vault.
pub fn list(ctx: &List, price: u64, payment_mint: Option<Key>, program_id: &Key) -> (r: Result<(Listing, Action), MarketError>)
    ensures
        r == spec_list(ctx, price, payment_mint, program_id@),
{
    let bumps: ListBumps = ctx.validate(program_id)?;
    let listing = match ctx.create_listing(price, payment_mint, &bumps) {
        Ok(l) => l,
        Err(e) => return Err(MarketError::Program(e)),
    };
    let deposit = ctx.deposit_nft();
    Ok((listing, deposit))
}

/// The outcome of `buy`: after the account checks, the handler's refusals
/// (a listing priced in a token, a buyer short of the price); else the handler's actions, then the listing account closed with its
/// lamports going to the maker.
pub open spec fn spec_buy(ctx: &Buy, program_id: Seq<u8>) -> Result<Seq<Action>, MarketError> {
    match ctx.spec_validate(program_id) {
        Err(e) => Err(e),
        Ok(_) => match ctx.handler_check() {
            Err(e) => Err(MarketError::Program(e)),
            Ok(_) => Ok(ctx.spec_plan().push(Action::CloseAccount { account: ctx.listing.key, destination: ctx.maker })),
        },
    }
}

/// Buys an NFT listed in lamports, with lamports.
pub fn buy(ctx: &Buy, program_id: &Key) -> (r: Result<Vec<Action>, MarketError>)
    requires
        ctx.marketplace.data.wf(),
    ensures
        spec_buy(ctx, program_id@) matches Err(e) ==> r == Err::<Vec<Action>, MarketError>(e),
        spec_buy(ctx, program_id@) matches Ok(plan) ==> (r matches Ok(p) && p@ == plan),
{
    ctx.validate(program_id)?;
    let mut plan = match ctx.pay_and_transfer() {
        Ok(p) => p,
        Err(e) => return Err(MarketError::Program(e)),
    };
    plan.push(Action::CloseAccount { account: ctx.listing.key, destination: ctx.maker });
    Ok(plan)
}

/// The outcome of `buy_with_token`: after the account checks, the
/// handler's refusals (another payment mint, a buyer short of the price);
/// else the handler's actions, then the listing account closed into the maker.
pub open spec fn spec_buy_with_token(ctx: &BuyWithToken, program_id: Seq<u8>) -> Result<Seq<Action>, MarketError> {
    match ctx.spec_validate(program_id) {
        Err(e) => Err(e),
        Ok(_) => match ctx.handler_check() {
            Err(e) => Err(MarketError::Program(e)),
            Ok(_) => Ok(ctx.spec_plan().push(Action::CloseAccount { account: ctx.listing.key, destination: ctx.maker })),
        },
    }
}

/// Buys a listed NFT with tokens of the listing's payment mint.
pub fn buy_with_token(ctx: &BuyWithToken, program_id: &Key) -> (r: Result<Vec<Action>, MarketError>)
    requires
        ctx.marketplace.data.wf(),
    ensures
        spec_buy_with_token(ctx, program_id@) matches Err(e) ==> r == Err::<Vec<Action>, MarketError>(e),
        spec_buy_with_token(ctx, program_id@) matches Ok(plan) ==> (r matches Ok(p) && p@ == plan),
{
    ctx.validate(program_id)?;
    let mut plan = match ctx.pay_and_transfer() {
        Ok(p) => p,
        Err(e) => return Err(MarketError::Program(e)),
    };
    plan.push(Action::CloseAccount { account: ctx.listing.key, destination: ctx.maker });
    Ok(plan)
}

/// The outcome of `make_offer`.
pub open spec fn spec_make_offer(ctx: &MakeOffer, offer_amount: u64, program_id: Seq<u8>) -> Result<(Offer, Action), MarketError> {
    match ctx.spec_validate(program_id) {
        Err(e) => Err(e),
        Ok(bumps) => if offer_amount == 0 {
            Err(MarketError::Program(MarketplaceError::InvalidOffer))
        } else {
            Ok((ctx.spec_offer(offer_amount, bumps), ctx.spec_escrow(offer_amount)))
        },
    }
}

/// Makes an offer: checks the accounts, then hands back the offer to store
/// and the escrow transfer.
pub fn make_offer(ctx: &MakeOffer, offer_amount: u64, program_id: &Key) -> (r: Result<(Offer, Action), MarketError>)
    ensures
        r == spec_make_offer(ctx, offer_amount, program_id@),
{
    let bumps = ctx.validate(program_id)?;
    match ctx.process(offer_amount, &bumps) {
        Ok(p) => Ok(p),
        Err(e) => Err(MarketError::Program(e)),
    }
}

/// The outcome of `accept_offer`: the handler's actions, then the listing
/// account closed into the maker and the offer account into the buyer.
pub open spec fn spec_accept_offer(ctx: &AcceptOffer, program_id: Seq<u8>) -> Result<Seq<Action>, MarketError> {
    match ctx.spec_validate(program_id) {
        Err(e) => Err(e),
        Ok(_) => Ok(
            ctx.spec_plan().push(Action::CloseAccount { account: ctx.listing.key, destination: ctx.maker }).push(
                Action::CloseAccount { account: ctx.offer.key, destination: ctx.buyer },
            ),
        ),
    }
}

/// Accepts an offer.
pub fn accept_offer(ctx: &AcceptOffer, program_id: &Key) -> (r: Result<Vec<Action>, MarketError>)
    requires
        ctx.marketplace.data.wf(),
    ensures
        spec_accept_offer(ctx, program_id@) matches Err(e) ==> r == Err::<Vec<Action>, MarketError>(e),
        spec_accept_offer(ctx, program_id@) matches Ok(plan) ==> (r matches Ok(p) && p@ == plan),
{
    ctx.validate(program_id)?;
    let mut plan = ctx.accept();
    plan.push(Action::CloseAccount { account: ctx.listing.key, destination: ctx.maker });
    plan.push(Action::CloseAccount { account: ctx.offer.key, destination: ctx.buyer });
    Ok(plan)
}

/// The outcome of `cancel_offer`: the offer account closed into the buyer.
pub open spec fn spec_cancel_offer(ctx: &CancelOffer, program_id: Seq<u8>) -> Result<Seq<Action>, MarketError> {
    match ctx.spec_validate(program_id) {
        Err(e) => Err(e),
        Ok(_) => Ok(seq![Action::CloseAccount { account: ctx.offer.key, destination: ctx.buyer }]),
    }
}

/// Cancels an offer.
pub fn cancel_offer(ctx: &CancelOffer, program_id: &Key) -> (r: Result<Vec<Action>, MarketError>)
    ensures
        spec_cancel_offer(ctx, program_id@) matches Err(e) ==> r == Err::<Vec<Action>, MarketError>(e),
        spec_cancel_offer(ctx, program_id@) matches Ok(plan) ==> (r matches Ok(p) && p@ == plan),
{
    ctx.validate(program_id)?;
    ctx.cancel()?;
    let mut plan: Vec<Action> = Vec::new();
    plan.push(Action::CloseAccount { account: ctx.offer.key, destination: ctx.buyer });
    assert(plan@ =~= seq![Action::CloseAccount { account: ctx.offer.key, destination: ctx.buyer }]);
    Ok(plan)
}

} // verus!
