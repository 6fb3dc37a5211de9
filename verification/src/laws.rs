use vstd::prelude::*;

use crate::accounts::{ListingAccount, OfferAccount};
use crate::action::{
    apply_lamports, apply_plan, lamport_change, net_credit, token_change, vault_action_signed, vault_actions_signed,
    Action,
};
use crate::state::{utf8_bytes, Marketplace};
use crate::constraints::{
    associated_check, distinct_check, init_if_needed_associated_check, init_seeds_check, lemma_distinct_at,
    owned_by_check,
};
use crate::error::{MarketError, MarketplaceError};
use crate::contexts::accept_offer::AcceptOffer;
use crate::contexts::buy::Buy;
use crate::contexts::buy_with_token::BuyWithToken;
use crate::contexts::cancel_offer::CancelOffer;
use crate::contexts::list::List;
use crate::contexts::make_offer::MakeOffer;
use crate::fee::{fee_of, lemma_fee_bounded};
use crate::key::Key;
use crate::pda::{lemma_canonical_bump, program_address, with_bump};
use crate::program::{
    listed, spec_accept_offer, spec_buy, spec_buy_with_token, spec_cancel_offer, spec_list,
    spec_make_offer,
};
use crate::seeds::{listing_seeds, offer_seeds};

verus! {

/// A buy settles the price exactly: the buyer pays the listed price, the
/// maker receives the price less the fee, the treasury the fee, which never
/// exceeds the price; the NFT leaves the vault for the buyer's token account.
pub proof fn law_buy_settles_price(ctx: Buy, program_id: Seq<u8>)
    requires
        ctx.marketplace.data.wf(),
        spec_buy(&ctx, program_id) is Ok,
        ctx.buyer@ != ctx.maker@,
        ctx.buyer@ != ctx.treasury@,
        ctx.maker@ != ctx.treasury@,
    ensures
        ({
            let plan = spec_buy(&ctx, program_id)->Ok_0;
            let price = ctx.listing.data.price;
            let fee = fee_of(price, ctx.marketplace.data.fee);
            &&& 0 <= fee <= price
            &&& lamport_change(plan, ctx.buyer@) == -(price as int)
            &&& lamport_change(plan, ctx.maker@) == price - fee
            &&& lamport_change(plan, ctx.treasury@) == fee
            &&& token_change(plan, ctx.vault.key@) == -1
            &&& token_change(plan, ctx.buyer_ata.key@) == 1
        }),
{
    lemma_fee_bounded(ctx.listing.data.price, ctx.marketplace.data.fee);
    lemma_distinct_at(ctx.written_back(), 0, 2);
    let plan = spec_buy(&ctx, program_id)->Ok_0;
    reveal_with_fuel(lamport_change, 6);
    reveal_with_fuel(token_change, 6);
    assert(plan.drop_last() =~= ctx.spec_plan());
    assert(plan.drop_last().drop_last() =~= ctx.spec_plan().drop_last());
}

/// A buy with tokens settles the price exactly, in tokens of the payment
/// mint: the buyer's token account pays the price, the maker's receives the
/// price less the fee, the treasury's the fee; the NFT leaves the vault for
/// the buyer's NFT token account.
pub proof fn law_buy_with_token_settles_price(ctx: BuyWithToken, program_id: Seq<u8>)
    requires
        ctx.marketplace.data.wf(),
        spec_buy_with_token(&ctx, program_id) is Ok,
    ensures
        ({
            let plan = spec_buy_with_token(&ctx, program_id)->Ok_0;
            let price = ctx.listing.data.price;
            let fee = fee_of(price, ctx.marketplace.data.fee);
            &&& ctx.listing.data.payment_mint == Some(ctx.payment_mint.key)
            &&& 0 <= fee <= price
            &&& token_change(plan, ctx.buyer_payment_ata.key@) == -(price as int)
            &&& token_change(plan, ctx.maker_payment_ata.key@) == price - fee
            &&& token_change(plan, ctx.treasury_payment_ata.key@) == fee
            &&& token_change(plan, ctx.vault.key@) == -1
            &&& token_change(plan, ctx.buyer_nft_ata.key@) == 1
        }),
{
    lemma_fee_bounded(ctx.listing.data.price, ctx.marketplace.data.fee);
    let ks = ctx.written_back();
    assert forall|i: int, j: int| 0 <= i < j < ks.len() implies ks[i] != ks[j] by {
        lemma_distinct_at(ks, i, j);
    }
    assert(ks[0] != ks[1] && ks[0] != ks[2] && ks[0] != ks[4] && ks[0] != ks[5]);
    assert(ks[1] != ks[2] && ks[1] != ks[4] && ks[1] != ks[5]);
    assert(ks[2] != ks[4] && ks[2] != ks[5] && ks[4] != ks[5]);
    let plan = spec_buy_with_token(&ctx, program_id)->Ok_0;
    reveal_with_fuel(token_change, 6);
    assert(plan.drop_last() =~= ctx.spec_plan());
}

/// Accepting an offer hands out exactly what the offer holds in escrow: the
/// offered amount leaves the offer account, the maker receives it less the
/// fee and the treasury the fee, so nothing is created or lost; the NFT
/// leaves the vault for the buyer's token account.
pub proof fn law_accept_offer_releases_escrow(ctx: AcceptOffer, program_id: Seq<u8>)
    requires
        ctx.marketplace.data.wf(),
        spec_accept_offer(&ctx, program_id) is Ok,
        ctx.maker@ != ctx.treasury@,
        ctx.offer.key@ != ctx.maker@,
        ctx.offer.key@ != ctx.treasury@,
    ensures
        ({
            let plan = spec_accept_offer(&ctx, program_id)->Ok_0;
            let amount = ctx.offer.data.offer_amount;
            let fee = fee_of(amount, ctx.marketplace.data.fee);
            &&& 0 <= fee <= amount
            &&& net_credit(plan) == 0
            &&& lamport_change(plan, ctx.offer.key@) == -(amount as int)
            &&& lamport_change(plan, ctx.maker@) == amount - fee
            &&& lamport_change(plan, ctx.treasury@) == fee
            &&& token_change(plan, ctx.vault.key@) == -1
            &&& token_change(plan, ctx.buyer_ata.key@) == 1
        }),
{
    lemma_fee_bounded(ctx.offer.data.offer_amount, ctx.marketplace.data.fee);
    lemma_distinct_at(ctx.written_back(), 0, 2);
    let plan = spec_accept_offer(&ctx, program_id)->Ok_0;
    reveal_with_fuel(lamport_change, 8);
    reveal_with_fuel(token_change, 8);
    reveal_with_fuel(net_credit, 8);
    assert(plan.drop_last().drop_last() =~= ctx.spec_plan());
}

proof fn lemma_created_account_matches(account: Seq<u8>, seeds: Seq<Seq<u8>>, program_id: Seq<u8>)
    requires
        init_seeds_check(account, seeds, program_id) is Ok,
    ensures
        program_address(with_bump(seeds, init_seeds_check(account, seeds, program_id)->Ok_0), program_id)
            == Some(account),
{
    lemma_canonical_bump(seeds, program_id);
}

/// A listing stored by `list` passes the listing constraints of the
/// instructions that later use it (`buy`, `buy_with_token`, `accept_offer`):
/// its stored bump re-derives its address from the same marketplace, maker
/// and mint, and it names that maker and mint (the listing's address being
/// other than the maker's, into which it is closed). The program that
/// creates the listing account owns it.
pub proof fn law_listing_passes_later_checks(
    ctx: List,
    price: u64,
    payment_mint: Option<Key>,
    program_id: Seq<u8>,
    owner: Key,
)
    requires
        owner@ == program_id,
        spec_list(&ctx, price, payment_mint, program_id) is Ok,
        ctx.listing@ != ctx.maker@,
    ensures
        ({
            let listing = ListingAccount { key: ctx.listing, owner, data: spec_list(&ctx, price, payment_mint, program_id)->Ok_0.0 };
            &&& owned_by_check(listing.owner@, program_id) is Ok
            &&& listing.spec_check(ctx.marketplace.key@, ctx.maker@, ctx.maker_mint.key@, program_id) is Ok
        }),
{
    let seeds = listing_seeds(ctx.marketplace.key@, ctx.maker@, ctx.maker_mint.key@);
    lemma_created_account_matches(ctx.listing@, seeds, program_id);
}

/// An offer stored by `make_offer` passes the offer constraints of the
/// instructions that later use it (`accept_offer`, `cancel_offer`), the
/// offer's address being other than the buyer's, into which it is closed.
/// The program that creates the offer account owns it.
pub proof fn law_offer_passes_later_checks(ctx: MakeOffer, offer_amount: u64, program_id: Seq<u8>, owner: Key)
    requires
        owner@ == program_id,
        spec_make_offer(&ctx, offer_amount, program_id) is Ok,
        ctx.offer@ != ctx.buyer@,
    ensures
        ({
            let offer = OfferAccount { key: ctx.offer, owner, data: spec_make_offer(&ctx, offer_amount, program_id)->Ok_0.0 };
            &&& owned_by_check(offer.owner@, program_id) is Ok
            &&& offer.spec_check(ctx.marketplace.key@, ctx.mint.key@, ctx.buyer@, program_id) is Ok
        }),
{
    let seeds = offer_seeds(ctx.marketplace.key@, ctx.mint.key@, ctx.buyer@);
    lemma_created_account_matches(ctx.offer@, seeds, program_id);
}

/// What `make_offer` escrows is exactly what `accept_offer` later pays out of
/// the offer account to the maker and the treasury together.
pub proof fn law_escrow_paid_out_on_accept(
    made: MakeOffer,
    offer_amount: u64,
    accepted: AcceptOffer,
    program_id: Seq<u8>,
)
    requires
        spec_make_offer(&made, offer_amount, program_id) is Ok,
        accepted.marketplace.data.wf(),
        accepted.offer.key == made.offer,
        accepted.offer.data == spec_make_offer(&made, offer_amount, program_id)->Ok_0.0,
        spec_accept_offer(&accepted, program_id) is Ok,
        accepted.maker@ != accepted.treasury@,
        accepted.offer.key@ != accepted.maker@,
        accepted.offer.key@ != accepted.treasury@,
        made.buyer@ != made.offer@,
    ensures
        ({
            let escrow = seq![spec_make_offer(&made, offer_amount, program_id)->Ok_0.1];
            let payout = spec_accept_offer(&accepted, program_id)->Ok_0;
            &&& lamport_change(escrow, made.offer@) == offer_amount
            &&& lamport_change(escrow, made.buyer@) == -(offer_amount as int)
            &&& lamport_change(payout, accepted.maker@) + lamport_change(payout, accepted.treasury@) == offer_amount
            &&& lamport_change(payout, accepted.offer.key@) == -(offer_amount as int)
        }),
{
    law_accept_offer_releases_escrow(accepted, program_id);
    let escrow = seq![spec_make_offer(&made, offer_amount, program_id)->Ok_0.1];
    reveal_with_fuel(lamport_change, 2);
    assert(escrow.drop_last() =~= Seq::<Action>::empty());
}

/// Cancelling an offer gives the buyer back everything: after the escrow of
/// `make_offer` and the close of `cancel_offer`, the buyer holds what it held
/// before the escrow plus what the offer account held before it (the rent the
/// buyer paid to create it), and the offer account holds nothing.
pub proof fn law_cancel_refunds_buyer(
    made: MakeOffer,
    offer_amount: u64,
    cancelled: CancelOffer,
    program_id: Seq<u8>,
    balances: spec_fn(Seq<u8>) -> int,
)
    requires
        spec_make_offer(&made, offer_amount, program_id) is Ok,
        spec_cancel_offer(&cancelled, program_id) is Ok,
        cancelled.offer.key == made.offer,
        cancelled.buyer == made.buyer,
        made.buyer@ != made.offer@,
    ensures
        ({
            let escrow = seq![spec_make_offer(&made, offer_amount, program_id)->Ok_0.1];
            let close = spec_cancel_offer(&cancelled, program_id)->Ok_0;
            let after = apply_plan(apply_plan(balances, escrow), close);
            &&& after(made.buyer@) == balances(made.buyer@) + balances(made.offer@)
            &&& after(made.offer@) == 0
        }),
{
    let escrow = seq![spec_make_offer(&made, offer_amount, program_id)->Ok_0.1];
    let close = spec_cancel_offer(&cancelled, program_id)->Ok_0;
    reveal_with_fuel(apply_plan, 2);
    assert(escrow.drop_last() =~= Seq::<Action>::empty());
    assert(close.drop_last() =~= Seq::<Action>::empty());
}

/// The NFT's custody from listing to sale: `list` moves it from the maker's
/// token account into the vault, and a `buy` of that listing moves it on to
/// the buyer's token account, so the vault ends as it began.
pub proof fn law_nft_custody_list_then_buy(
    listed_ctx: List,
    price: u64,
    payment_mint: Option<Key>,
    bought: Buy,
    program_id: Seq<u8>,
)
    requires
        spec_list(&listed_ctx, price, payment_mint, program_id) is Ok,
        bought.marketplace.data.wf(),
        spec_buy(&bought, program_id) is Ok,
        bought.vault.key == listed_ctx.vault.key,
        listed_ctx.maker_ata.key@ != listed_ctx.vault.key@,
        listed_ctx.maker_ata.key@ != bought.buyer_ata.key@,
    ensures
        ({
            let deposit = spec_list(&listed_ctx, price, payment_mint, program_id)->Ok_0.1;
            let both = seq![deposit] + spec_buy(&bought, program_id)->Ok_0;
            &&& token_change(both, listed_ctx.maker_ata.key@) == -1
            &&& token_change(both, listed_ctx.vault.key@) == 0
            &&& token_change(both, bought.buyer_ata.key@) == 1
        }),
{
    let deposit = spec_list(&listed_ctx, price, payment_mint, program_id)->Ok_0.1;
    let plan = spec_buy(&bought, program_id)->Ok_0;
    let both = seq![deposit] + plan;
    lemma_distinct_at(bought.written_back(), 0, 2);
    reveal_with_fuel(token_change, 7);
    assert(both.drop_last() =~= seq![deposit] + bought.spec_plan());
    assert(both.drop_last().drop_last() =~= seq![deposit] + bought.spec_plan().drop_last());
    assert(both.drop_last().drop_last().drop_last() =~= seq![deposit] + bought.spec_plan().drop_last().drop_last());
    assert(both.drop_last().drop_last().drop_last().drop_last() =~= seq![deposit, bought.spec_plan()[0]]);
    assert(seq![deposit, bought.spec_plan()[0]].drop_last() =~= seq![deposit]);
    assert(seq![deposit].drop_last() =~= Seq::<Action>::empty());
}

/// A buy with lamports goes through only when the buyer signed, and only for
/// a listing priced in lamports that belongs to the maker and mint passed: its
/// address is derived from the marketplace, the maker and the mint, and it
/// names that maker and that mint.
pub proof fn law_buy_only_matching_listing(ctx: Buy, program_id: Seq<u8>)
    requires
        spec_buy(&ctx, program_id) is Ok,
    ensures
        ctx.buyer_is_signer,
        ctx.listing.data.payment_mint is None,
        program_address(
            with_bump(listing_seeds(ctx.marketplace.key@, ctx.maker@, ctx.maker_mint.key@), ctx.listing.data.bump),
            program_id,
        ) == Some(ctx.listing.key@),
        ctx.listing.data.maker@ == ctx.maker@,
        ctx.listing.data.mint@ == ctx.maker_mint.key@,
{
}

/// An offer is accepted only by the maker of the listing it is for, who has
/// signed: the offer names the buyer and the listed mint, and the listing
/// names the maker.
pub proof fn law_accept_only_matching_offer(ctx: AcceptOffer, program_id: Seq<u8>)
    requires
        spec_accept_offer(&ctx, program_id) is Ok,
    ensures
        ctx.maker_is_signer,
        ctx.offer.data.buyer@ == ctx.buyer@,
        ctx.offer.data.mint@ == ctx.maker_mint.key@,
        ctx.listing.data.maker@ == ctx.maker@,
        ctx.listing.data.mint@ == ctx.maker_mint.key@,
        program_address(
            with_bump(offer_seeds(ctx.marketplace.key@, ctx.maker_mint.key@, ctx.buyer@), ctx.offer.data.bump),
            program_id,
        ) == Some(ctx.offer.key@),
{
}

/// Only the offer's buyer, having signed, withdraws an offer: the offer names
/// that buyer and the mint passed, and its address is derived from them.
pub proof fn law_cancel_only_by_buyer(ctx: CancelOffer, program_id: Seq<u8>)
    requires
        spec_cancel_offer(&ctx, program_id) is Ok,
    ensures
        ctx.buyer_is_signer,
        ctx.offer.data.buyer@ == ctx.buyer@,
        ctx.offer.data.mint@ == ctx.mint.key@,
        program_address(
            with_bump(offer_seeds(ctx.marketplace.key@, ctx.mint.key@, ctx.buyer@), ctx.offer.data.bump),
            program_id,
        ) == Some(ctx.offer.key@),
{
}

/// The fee grows with the amount and with the basis points; what is left for
/// the seller grows with the amount.
pub proof fn law_fee_monotone(a1: u64, a2: u64, b1: u16, b2: u16)
    requires
        a1 <= a2,
        b1 <= b2 <= 10000,
    ensures
        fee_of(a1, b1) <= fee_of(a2, b1),
        fee_of(a1, b1) <= fee_of(a1, b2),
        a1 - fee_of(a1, b1) <= a2 - fee_of(a2, b1),
{
    let x1 = (a1 as int) * (b1 as int);
    let x2 = (a2 as int) * (b1 as int);
    let y2 = (a1 as int) * (b2 as int);
    assert(0 <= x1 <= x2 && x1 <= y2) by (nonlinear_arith)
        requires
            x1 == (a1 as int) * (b1 as int),
            x2 == (a2 as int) * (b1 as int),
            y2 == (a1 as int) * (b2 as int),
            0 <= a1 <= a2,
            0 <= b1 <= b2,
    ;
    assert(x2 - x1 <= (a2 - a1) * 10000) by (nonlinear_arith)
        requires
            x1 == (a1 as int) * (b1 as int),
            x2 == (a2 as int) * (b1 as int),
            a1 <= a2,
            b1 <= 10000,
    ;
    lemma_div_monotone(x1, x2);
    lemma_div_monotone(x1, y2);
    lemma_div_gap(x1, x2, (a2 - a1) as int);
}

proof fn lemma_div_monotone(x: int, y: int)
    requires
        0 <= x <= y,
    ensures
        x / 10000 <= y / 10000,
{
}

proof fn lemma_div_gap(x: int, y: int, k: int)
    requires
        0 <= x <= y,
        0 <= k,
        y - x <= k * 10000,
    ensures
        y / 10000 - x / 10000 <= k,
{
    let qx = x / 10000;
    let qy = y / 10000;
    assert(qx * 10000 <= x < qx * 10000 + 10000);
    assert(qy * 10000 <= y < qy * 10000 + 10000);
    assert((qy - qx) * 10000 < k * 10000 + 10000) by (nonlinear_arith)
        requires
            qx * 10000 <= x < qx * 10000 + 10000,
            qy * 10000 <= y,
            y - x <= k * 10000,
    ;
    assert(qy - qx <= k) by (nonlinear_arith)
        requires
            (qy - qx) * 10000 < k * 10000 + 10000,
    ;
}

/// Of two buys that pass their checks and differ only in the price, the one at
/// the higher price pays the treasury and the maker no less; of two that
/// differ only in the marketplace's fee, the higher fee pays the treasury no
/// less and the maker no more.
pub proof fn law_buy_fee_monotone(c1: Buy, c2: Buy, program_id: Seq<u8>)
    requires
        c1.marketplace.data.wf(),
        c2.marketplace.data.wf(),
        spec_buy(&c1, program_id) is Ok,
        spec_buy(&c2, program_id) is Ok,
        c1.buyer@ != c1.maker@ && c1.buyer@ != c1.treasury@ && c1.maker@ != c1.treasury@,
        c2.buyer@ != c2.maker@ && c2.buyer@ != c2.treasury@ && c2.maker@ != c2.treasury@,
    ensures
        ({
            let p1 = spec_buy(&c1, program_id)->Ok_0;
            let p2 = spec_buy(&c2, program_id)->Ok_0;
            &&& (c1.marketplace.data.fee == c2.marketplace.data.fee && c1.listing.data.price <= c2.listing.data.price)
                ==> lamport_change(p1, c1.treasury@) <= lamport_change(p2, c2.treasury@)
                    && lamport_change(p1, c1.maker@) <= lamport_change(p2, c2.maker@)
            &&& (c1.listing.data.price == c2.listing.data.price && c1.marketplace.data.fee <= c2.marketplace.data.fee)
                ==> lamport_change(p1, c1.treasury@) <= lamport_change(p2, c2.treasury@)
                    && lamport_change(p1, c1.maker@) >= lamport_change(p2, c2.maker@)
        }),
{
    law_buy_settles_price(c1, program_id);
    law_buy_settles_price(c2, program_id);
    let (a1, a2) = (c1.listing.data.price, c2.listing.data.price);
    let (b1, b2) = (c1.marketplace.data.fee, c2.marketplace.data.fee);
    if b1 == b2 && a1 <= a2 {
        law_fee_monotone(a1, a2, b1, b1);
    }
    if a1 == a2 && b1 <= b2 {
        law_fee_monotone(a1, a1, b1, b2);
    }
}

/// An offer made holds exactly its amount above what the offer account held
/// before (the rent it was created with): the escrow moves the offered
/// lamports, which are more than zero, from the buyer into the offer account,
/// and the offer is in lamports.
pub proof fn law_offer_escrow_above_rent(
    made: MakeOffer,
    offer_amount: u64,
    program_id: Seq<u8>,
    balances: spec_fn(Seq<u8>) -> int,
)
    requires
        spec_make_offer(&made, offer_amount, program_id) is Ok,
        made.buyer@ != made.offer@,
    ensures
        ({
            let (offer, escrow) = spec_make_offer(&made, offer_amount, program_id)->Ok_0;
            let after = apply_plan(balances, seq![escrow]);
            &&& offer_amount > 0
            &&& offer.offer_amount == offer_amount
            &&& offer.payment_mint is None
            &&& after(made.offer@) == balances(made.offer@) + offer_amount
            &&& after(made.buyer@) == balances(made.buyer@) - offer_amount
        }),
{
    let escrow = spec_make_offer(&made, offer_amount, program_id)->Ok_0.1;
    reveal_with_fuel(apply_plan, 2);
    assert(seq![escrow].drop_last() =~= Seq::<Action>::empty());
}


/// The lamports of a buy, end to end, taken once the buyer's token account
/// exists: the buyer pays the price; the maker receives the price less the
/// fee, and the lamports of the vault and of the listing account (their rent),
/// both closed into the maker; the treasury receives the fee; the vault and
/// the listing account are left with nothing.
pub proof fn law_buy_balances(ctx: Buy, program_id: Seq<u8>, bal: spec_fn(Seq<u8>) -> int)
    requires
        ctx.marketplace.data.wf(),
        spec_buy(&ctx, program_id) is Ok,
        ctx.buyer@ != ctx.maker@,
        ctx.buyer@ != ctx.treasury@,
        ctx.maker@ != ctx.treasury@,
        ctx.vault.key@ != ctx.buyer@ && ctx.vault.key@ != ctx.maker@ && ctx.vault.key@ != ctx.treasury@,
        ctx.listing.key@ != ctx.buyer@ && ctx.listing.key@ != ctx.treasury@,
    ensures
        ({
            let after = apply_plan(bal, spec_buy(&ctx, program_id)->Ok_0);
            let price = ctx.listing.data.price;
            let fee = fee_of(price, ctx.marketplace.data.fee);
            &&& after(ctx.buyer@) == bal(ctx.buyer@) - price
            &&& after(ctx.maker@) == bal(ctx.maker@) + (price - fee) + bal(ctx.vault.key@) + bal(ctx.listing.key@)
            &&& after(ctx.treasury@) == bal(ctx.treasury@) + fee
            &&& after(ctx.vault.key@) == 0
            &&& after(ctx.listing.key@) == 0
        }),
{
    lemma_fee_bounded(ctx.listing.data.price, ctx.marketplace.data.fee);
    lemma_distinct_at(ctx.written_back(), 1, 2);
    let plan = spec_buy(&ctx, program_id)->Ok_0;
    let p4 = plan.drop_last();
    let p3 = p4.drop_last();
    let p2 = p3.drop_last();
    let p1 = p2.drop_last();
    let p0 = p1.drop_last();
    assert(p0 =~= Seq::<Action>::empty());
    reveal_with_fuel(apply_plan, 2);
    let b1 = apply_plan(bal, p1);
    let b2 = apply_plan(bal, p2);
    let b3 = apply_plan(bal, p3);
    let b4 = apply_plan(bal, p4);
    let b5 = apply_plan(bal, plan);
    assert(b1 == apply_lamports(bal, plan[0]));
    assert(b2 == apply_lamports(b1, plan[1]));
    assert(b3 == apply_lamports(b2, plan[2]));
    assert(b4 == apply_lamports(b3, plan[3]));
    assert(b5 == apply_lamports(b4, plan[4]));
}


/// A buy of a listing priced in lamports that `list` made goes through: the
/// marketplace, the listing and its vault pass the buy's checks because they
/// passed `list`'s, so it goes through whenever the buyer's own accounts pass
/// their checks (its signature and token account, the treasury, the program
/// accounts, distinct writable accounts) and the buyer holds the price.
pub proof fn law_list_then_buy(l: List, price: u64, b: Buy, program_id: Seq<u8>)
    requires
        spec_list(&l, price, None, program_id) is Ok,
        l.listing@ != l.maker@,
        b.marketplace == l.marketplace,
        b.maker == l.maker,
        b.maker_mint == l.maker_mint,
        b.listing.key == l.listing,
        b.listing.owner@ == program_id,
        b.listing.data == spec_list(&l, price, None, program_id)->Ok_0.0,
        b.vault == l.vault,
        b.load_check(program_id) is Ok,
        init_if_needed_associated_check(b.buyer_ata, b.buyer@, b.maker_mint.key@, b.token_program@) is Ok,
        distinct_check(b.written_back()) is Ok,
        b.marketplace.spec_check_treasury(b.treasury@, program_id) is Ok,
        b.buyer_lamports >= price,
    ensures
        spec_buy(&b, program_id) is Ok,
{
    law_listing_passes_later_checks(l, price, None, program_id, b.listing.owner);
}

/// A buy with tokens of a listing that `list` priced in mint `m` goes through
/// when the buyer's own accounts pass their checks, the payment mint passed is
/// `m` and the buyer's payment account holds the price; with another payment
/// mint it is refused with `InvalidPaymentMint`.
pub proof fn law_list_then_buy_with_token(l: List, price: u64, m: Key, b: BuyWithToken, program_id: Seq<u8>)
    requires
        spec_list(&l, price, Some(m), program_id) is Ok,
        l.listing@ != l.maker@,
        b.marketplace == l.marketplace,
        b.maker == l.maker,
        b.maker_mint == l.maker_mint,
        b.listing.key == l.listing,
        b.listing.owner@ == program_id,
        b.listing.data == spec_list(&l, price, Some(m), program_id)->Ok_0.0,
        b.vault == l.vault,
        b.load_check(program_id) is Ok,
        b.init_check() is Ok,
        distinct_check(b.written_back()) is Ok,
        associated_check(b.buyer_payment_ata, b.buyer@, b.payment_mint.key@) is Ok,
        b.marketplace.spec_check_treasury(b.treasury@, program_id) is Ok,
    ensures
        b.payment_mint.key == m && b.buyer_payment_amount >= price ==> spec_buy_with_token(&b, program_id) is Ok,
        b.payment_mint.key != m ==> spec_buy_with_token(&b, program_id)
            == Err::<Seq<Action>, MarketError>(MarketError::Program(MarketplaceError::InvalidPaymentMint)),
{
    law_listing_passes_later_checks(l, price, Some(m), program_id, b.listing.owner);
}


/// The lamports of an offer, end to end, from its escrow to its acceptance,
/// taken once the offer account and the buyer's token account exist: the
/// buyer pays the offered amount and gets back what the offer account held
/// before the escrow (its rent); the maker receives the amount less the fee,
/// and the lamports of the vault and of the listing account; the treasury
/// receives the fee; the offer account, the vault and the listing account are
/// left with nothing.
pub proof fn law_offer_then_accept_balances(
    made: MakeOffer,
    offer_amount: u64,
    accepted: AcceptOffer,
    program_id: Seq<u8>,
    bal: spec_fn(Seq<u8>) -> int,
)
    requires
        spec_make_offer(&made, offer_amount, program_id) is Ok,
        accepted.marketplace.data.wf(),
        spec_accept_offer(&accepted, program_id) is Ok,
        accepted.offer.key == made.offer,
        accepted.offer.data == spec_make_offer(&made, offer_amount, program_id)->Ok_0.0,
        accepted.buyer == made.buyer,
        accepted.buyer@ != accepted.maker@,
        accepted.buyer@ != accepted.treasury@,
        accepted.maker@ != accepted.treasury@,
        accepted.offer.key@ != accepted.maker@ && accepted.offer.key@ != accepted.treasury@,
        accepted.vault.key@ != accepted.buyer@ && accepted.vault.key@ != accepted.maker@,
        accepted.vault.key@ != accepted.treasury@,
        accepted.listing.key@ != accepted.buyer@ && accepted.listing.key@ != accepted.treasury@,
    ensures
        ({
            let escrow = seq![spec_make_offer(&made, offer_amount, program_id)->Ok_0.1];
            let after = apply_plan(apply_plan(bal, escrow), spec_accept_offer(&accepted, program_id)->Ok_0);
            let fee = fee_of(offer_amount, accepted.marketplace.data.fee);
            let (buyer, maker, treasury) = (accepted.buyer@, accepted.maker@, accepted.treasury@);
            let (offer, vault, listing) = (accepted.offer.key@, accepted.vault.key@, accepted.listing.key@);
            &&& after(buyer) == bal(buyer) - offer_amount + bal(offer)
            &&& after(maker) == bal(maker) + (offer_amount - fee) + bal(vault) + bal(listing)
            &&& after(treasury) == bal(treasury) + fee
            &&& after(offer) == 0
            &&& after(vault) == 0
            &&& after(listing) == 0
        }),
{
    lemma_fee_bounded(offer_amount, accepted.marketplace.data.fee);
    lemma_distinct_at(accepted.written_back(), 1, 2);
    lemma_distinct_at(accepted.written_back(), 1, 3);
    lemma_distinct_at(accepted.written_back(), 2, 3);
    let escrow = seq![spec_make_offer(&made, offer_amount, program_id)->Ok_0.1];
    reveal_with_fuel(apply_plan, 2);
    assert(escrow.drop_last() =~= Seq::<Action>::empty());
    let b0 = apply_plan(bal, escrow);
    assert(b0 == apply_lamports(bal, escrow[0]));
    let plan = spec_accept_offer(&accepted, program_id)->Ok_0;
    let p6 = plan.drop_last();
    let p5 = p6.drop_last();
    let p4 = p5.drop_last();
    let p3 = p4.drop_last();
    let p2 = p3.drop_last();
    let p1 = p2.drop_last();
    assert(p1.drop_last() =~= Seq::<Action>::empty());
    let b1 = apply_plan(b0, p1);
    let b2 = apply_plan(b0, p2);
    let b3 = apply_plan(b0, p3);
    let b4 = apply_plan(b0, p4);
    let b5 = apply_plan(b0, p5);
    let b6 = apply_plan(b0, p6);
    let b7 = apply_plan(b0, plan);
    assert(b1 == apply_lamports(b0, plan[0]));
    assert(b2 == apply_lamports(b1, plan[1]));
    assert(b3 == apply_lamports(b2, plan[2]));
    assert(b4 == apply_lamports(b3, plan[3]));
    assert(b5 == apply_lamports(b4, plan[4]));
    assert(b6 == apply_lamports(b5, plan[5]));
    assert(b7 == apply_lamports(b6, plan[6]));
}


/// `list` takes the NFT from the maker's token account only: it puts one
/// token into the vault and takes from no other account.
pub proof fn law_list_only_fills_the_vault(l: List, price: u64, payment_mint: Option<Key>, program_id: Seq<u8>)
    requires
        spec_list(&l, price, payment_mint, program_id) is Ok,
    ensures
        ({
            let deposit = seq![spec_list(&l, price, payment_mint, program_id)->Ok_0.1];
            &&& l.vault.key@ != l.maker_ata.key@ ==> token_change(deposit, l.vault.key@) == 1
            &&& forall|k: Seq<u8>| k != l.maker_ata.key@ ==> token_change(deposit, k) >= 0
        }),
{
    let deposit = seq![spec_list(&l, price, payment_mint, program_id)->Ok_0.1];
    reveal_with_fuel(token_change, 2);
    assert(deposit.drop_last() =~= Seq::<Action>::empty());
}

/// Offers move no tokens: neither `make_offer` nor `cancel_offer` takes
/// anything out of a vault (or any token account), so a listed NFT leaves its
/// vault only through a sale (`buy`, `buy_with_token`, `accept_offer`).
pub proof fn law_offers_move_no_tokens(
    made: MakeOffer,
    offer_amount: u64,
    cancelled: CancelOffer,
    program_id: Seq<u8>,
)
    requires
        spec_make_offer(&made, offer_amount, program_id) is Ok,
        spec_cancel_offer(&cancelled, program_id) is Ok,
    ensures
        forall|k: Seq<u8>| #[trigger] token_change(seq![spec_make_offer(&made, offer_amount, program_id)->Ok_0.1], k) == 0,
        forall|k: Seq<u8>| #[trigger] token_change(spec_cancel_offer(&cancelled, program_id)->Ok_0, k) == 0,
{
    let escrow = seq![spec_make_offer(&made, offer_amount, program_id)->Ok_0.1];
    let close = spec_cancel_offer(&cancelled, program_id)->Ok_0;
    reveal_with_fuel(token_change, 2);
    assert(escrow.drop_last() =~= Seq::<Action>::empty());
    assert(close.drop_last() =~= Seq::<Action>::empty());
}


/// The lamports of a buy with tokens, end to end: the vault and the listing
/// account are closed into the maker, who receives their lamports; the vault
/// and the listing account are left with nothing; the buyer's lamports do not
/// change (the price is paid in tokens).
pub proof fn law_buy_with_token_balances(ctx: BuyWithToken, program_id: Seq<u8>, bal: spec_fn(Seq<u8>) -> int)
    requires
        spec_buy_with_token(&ctx, program_id) is Ok,
        ctx.buyer@ != ctx.maker@,
        ctx.vault.key@ != ctx.buyer@ && ctx.vault.key@ != ctx.maker@,
        ctx.listing.key@ != ctx.buyer@,
    ensures
        ({
            let after = apply_plan(bal, spec_buy_with_token(&ctx, program_id)->Ok_0);
            &&& after(ctx.maker@) == bal(ctx.maker@) + bal(ctx.vault.key@) + bal(ctx.listing.key@)
            &&& after(ctx.buyer@) == bal(ctx.buyer@)
            &&& after(ctx.vault.key@) == 0
            &&& after(ctx.listing.key@) == 0
        }),
{
    lemma_distinct_at(ctx.written_back(), 3, 4);
    let plan = spec_buy_with_token(&ctx, program_id)->Ok_0;
    let p4 = plan.drop_last();
    let p3 = p4.drop_last();
    let p2 = p3.drop_last();
    let p1 = p2.drop_last();
    assert(p1.drop_last() =~= Seq::<Action>::empty());
    reveal_with_fuel(apply_plan, 2);
    let b1 = apply_plan(bal, p1);
    let b2 = apply_plan(bal, p2);
    let b3 = apply_plan(bal, p3);
    let b4 = apply_plan(bal, p4);
    let b5 = apply_plan(bal, plan);
    assert(b1 == apply_lamports(bal, plan[0]));
    assert(b2 == apply_lamports(b1, plan[1]));
    assert(b3 == apply_lamports(b2, plan[2]));
    assert(b4 == apply_lamports(b3, plan[3]));
    assert(b5 == apply_lamports(b4, plan[4]));
}

/// In a buy, every action that takes the NFT out of the vault or closes the
/// vault is authorised by the listing, which signs it with seeds that derive
/// the listing's own address.
pub proof fn law_buy_vault_signed_by_listing(ctx: Buy, program_id: Seq<u8>)
    requires
        spec_buy(&ctx, program_id) is Ok,
    ensures
        vault_actions_signed(spec_buy(&ctx, program_id)->Ok_0, ctx.vault.key@, ctx.listing.key@, program_id),
{
    let plan = spec_buy(&ctx, program_id)->Ok_0;
    assert forall|i: int| 0 <= i < plan.len() implies #[trigger] vault_action_signed(
        plan[i],
        ctx.vault.key@,
        ctx.listing.key@,
        program_id,
    ) by {
        assert(ctx.signer().spec_seeds() == with_bump(
            listing_seeds(ctx.marketplace.key@, ctx.maker@, ctx.maker_mint.key@),
            ctx.listing.data.bump,
        ));
    }
}

/// In a buy with tokens, every action that takes from or closes the vault is
/// authorised by the listing, which signs it with seeds that derive the
/// listing's own address.
pub proof fn law_buy_with_token_vault_signed_by_listing(ctx: BuyWithToken, program_id: Seq<u8>)
    requires
        spec_buy_with_token(&ctx, program_id) is Ok,
    ensures
        vault_actions_signed(spec_buy_with_token(&ctx, program_id)->Ok_0, ctx.vault.key@, ctx.listing.key@, program_id),
{
    lemma_distinct_at(ctx.written_back(), 0, 4);
    let plan = spec_buy_with_token(&ctx, program_id)->Ok_0;
    assert forall|i: int| 0 <= i < plan.len() implies #[trigger] vault_action_signed(
        plan[i],
        ctx.vault.key@,
        ctx.listing.key@,
        program_id,
    ) by {
        assert(ctx.signer().spec_seeds() == with_bump(
            listing_seeds(ctx.marketplace.key@, ctx.maker@, ctx.maker_mint.key@),
            ctx.listing.data.bump,
        ));
    }
}

/// In an acceptance, every action that takes the NFT out of the vault or
/// closes the vault is authorised by the listing, which signs it with seeds
/// that derive the listing's own address.
pub proof fn law_accept_vault_signed_by_listing(ctx: AcceptOffer, program_id: Seq<u8>)
    requires
        spec_accept_offer(&ctx, program_id) is Ok,
    ensures
        vault_actions_signed(spec_accept_offer(&ctx, program_id)->Ok_0, ctx.vault.key@, ctx.listing.key@, program_id),
{
    let plan = spec_accept_offer(&ctx, program_id)->Ok_0;
    assert forall|i: int| 0 <= i < plan.len() implies #[trigger] vault_action_signed(
        plan[i],
        ctx.vault.key@,
        ctx.listing.key@,
        program_id,
    ) by {
        assert(ctx.signer().spec_seeds() == with_bump(
            listing_seeds(ctx.marketplace.key@, ctx.maker@, ctx.maker_mint.key@),
            ctx.listing.data.bump,
        ));
    }
}

/// An offer that `make_offer` stored can be withdrawn: a cancel by the same
/// buyer, with the same marketplace, mint and system program, of the stored
/// offer owned by the program, goes through (whichever token program owns the
/// mint), the offer's address being other than the buyer's.
pub proof fn law_offer_can_be_cancelled(
    made: MakeOffer,
    offer_amount: u64,
    cancelled: CancelOffer,
    program_id: Seq<u8>,
)
    requires
        spec_make_offer(&made, offer_amount, program_id) is Ok,
        made.offer@ != made.buyer@,
        cancelled.buyer == made.buyer,
        cancelled.buyer_is_signer == made.buyer_is_signer,
        cancelled.marketplace == made.marketplace,
        cancelled.mint == made.mint,
        cancelled.system_program == made.system_program,
        cancelled.offer.key == made.offer,
        cancelled.offer.owner@ == program_id,
        cancelled.offer.data == spec_make_offer(&made, offer_amount, program_id)->Ok_0.0,
    ensures
        spec_cancel_offer(&cancelled, program_id) is Ok,
{
    law_offer_passes_later_checks(made, offer_amount, program_id, cancelled.offer.owner);
}

/// `initialize` accepts exactly a name of 1 to 32 bytes with a fee of at most
/// 10000 basis points; a name of another length is refused with
/// `NameTooLong`, and else a fee above 10000 with `InvalidFee`.
pub proof fn law_initialize_accepts_exactly(name: Seq<char>, fee: u16)
    ensures
        Marketplace::spec_new(name, fee) is Ok <==> (1 <= utf8_bytes(name).len() <= 32 && fee <= 10000),
        !(1 <= utf8_bytes(name).len() <= 32) ==> Marketplace::spec_new(name, fee) == Err::<(), MarketplaceError>(
            MarketplaceError::NameTooLong,
        ),
        (1 <= utf8_bytes(name).len() <= 32 && fee > 10000) ==> Marketplace::spec_new(name, fee) == Err::<
            (),
            MarketplaceError,
        >(MarketplaceError::InvalidFee),
{
}

} // verus!
