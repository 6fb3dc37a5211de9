use anchor_lang::prelude::Pubkey;
use anchor_spl::associated_token::{get_associated_token_address, get_associated_token_address_with_program_id};

use nft_marketplace::accounts::{ListingAccount, MarketplaceAccount, MintAccount, OfferAccount, TokenAccount};
use nft_marketplace::action::{Action, ListingSigner};
use nft_marketplace::constraints::{check_close, check_distinct};
use nft_marketplace::fee::split_payment;
use nft_marketplace::ids::{ASSOCIATED_TOKEN_PROGRAM_ID, SYSTEM_PROGRAM_ID, TOKEN_2022_PROGRAM_ID, TOKEN_PROGRAM_ID};
use nft_marketplace::key::Key;
use nft_marketplace::{
    accept_offer, buy, buy_with_token, cancel_offer, initialize, list, make_offer, AcceptOffer, Buy,
    BuyWithToken, CancelOffer, InitializeBumps, List, ListBumps, Listing, MakeOffer, MakeOfferBumps,
    MarketError, Marketplace, MarketplaceError, Offer,
};

const NAME: &str = "market";
const FEE_BPS: u16 = 250;
const DECIMALS: u8 = 0;
const PAYMENT_DECIMALS: u8 = 6;
const BUYER_LAMPORTS: u64 = 5_000_000_000;
const BUYER_TOKENS: u64 = 9_000_000;

fn key(p: &Pubkey) -> Key {
    Key::new(p.to_bytes())
}

fn wallet(n: u8) -> Pubkey {
    Pubkey::new_from_array([n; 32])
}

fn program() -> Pubkey {
    Pubkey::new_from_array([200; 32])
}

fn token_program() -> Pubkey {
    anchor_spl::token::ID
}

fn ata_program() -> Pubkey {
    anchor_spl::associated_token::ID
}

fn ata(owner: &Pubkey, mint: &Pubkey) -> Pubkey {
    get_associated_token_address_with_program_id(owner, mint, &token_program())
}

struct World {
    maker: Pubkey,
    buyer: Pubkey,
    mint: Pubkey,
    payment_mint: Pubkey,
    marketplace: Pubkey,
    marketplace_bump: u8,
    treasury: Pubkey,
    treasury_bump: u8,
    listing: Pubkey,
    listing_bump: u8,
    offer: Pubkey,
    offer_bump: u8,
}

fn world() -> World {
    let maker = wallet(1);
    let buyer = wallet(2);
    let mint = wallet(3);
    let payment_mint = wallet(4);
    let (marketplace, marketplace_bump) =
        Pubkey::find_program_address(&[b"marketplace", NAME.as_bytes()], &program());
    let (treasury, treasury_bump) =
        Pubkey::find_program_address(&[b"treasury", marketplace.as_ref()], &program());
    let (listing, listing_bump) = Pubkey::find_program_address(
        &[marketplace.as_ref(), maker.as_ref(), mint.as_ref()],
        &program(),
    );
    let (offer, offer_bump) = Pubkey::find_program_address(
        &[b"offer", marketplace.as_ref(), mint.as_ref(), buyer.as_ref()],
        &program(),
    );
    World {
        maker,
        buyer,
        mint,
        payment_mint,
        marketplace,
        marketplace_bump,
        treasury,
        treasury_bump,
        listing,
        listing_bump,
        offer,
        offer_bump,
    }
}

fn market_data(w: &World) -> Marketplace {
    Marketplace::new(NAME.to_string(), FEE_BPS, w.marketplace_bump, w.treasury_bump).unwrap()
}

fn market(w: &World) -> MarketplaceAccount {
    MarketplaceAccount { key: key(&w.marketplace), owner: key(&program()), data: market_data(w) }
}

fn mint(w: &World) -> MintAccount {
    MintAccount { key: key(&w.mint), program: key(&token_program()), decimals: DECIMALS }
}

/// The associated token account of `owner` for `mint`, as created.
fn tok(owner: &Pubkey, mint: &Pubkey) -> TokenAccount {
    tok_at(ata(owner, mint), owner, mint)
}

/// A token account at `address` belonging to `owner` and holding `mint`.
fn tok_at(address: Pubkey, owner: &Pubkey, mint: &Pubkey) -> TokenAccount {
    TokenAccount { key: key(&address), owner: key(owner), mint: key(mint), program: key(&token_program()) }
}

fn listing_account(w: &World, data: Listing) -> ListingAccount {
    ListingAccount { key: key(&w.listing), owner: key(&program()), data }
}

fn offer_account(w: &World, data: Offer) -> OfferAccount {
    OfferAccount { key: key(&w.offer), owner: key(&program()), data }
}

fn listing_data(w: &World, price: u64, payment_mint: Option<Key>) -> Listing {
    Listing { maker: key(&w.maker), mint: key(&w.mint), payment_mint, price, bump: w.listing_bump }
}

fn list_ctx(w: &World) -> List {
    List {
        maker: key(&w.maker),
        maker_is_signer: true,
        marketplace: market(w),
        maker_mint: mint(w),
        maker_ata: tok(&w.maker, &w.mint),
        listing: key(&w.listing),
        vault: tok(&w.listing, &w.mint),
        system_program: key(&anchor_lang::system_program::ID),
        token_program: key(&token_program()),
        associated_token_program: key(&ata_program()),
    }
}

fn buy_ctx(w: &World, price: u64) -> Buy {
    Buy {
        buyer: key(&w.buyer),
        buyer_is_signer: true,
        buyer_lamports: BUYER_LAMPORTS,
        maker: key(&w.maker),
        maker_owner: key(&anchor_lang::system_program::ID),
        marketplace: market(w),
        maker_mint: mint(w),
        buyer_ata: tok(&w.buyer, &w.mint),
        listing: listing_account(w, listing_data(w, price, None)),
        vault: tok(&w.listing, &w.mint),
        treasury: key(&w.treasury),
        treasury_owner: key(&anchor_lang::system_program::ID),
        system_program: key(&anchor_lang::system_program::ID),
        token_program: key(&token_program()),
        associated_token_program: key(&ata_program()),
    }
}

fn buy_token_ctx(w: &World, price: u64) -> BuyWithToken {
    BuyWithToken {
        buyer: key(&w.buyer),
        buyer_is_signer: true,
        maker: key(&w.maker),
        maker_owner: key(&anchor_lang::system_program::ID),
        marketplace: market(w),
        maker_mint: mint(w),
        payment_mint: MintAccount { key: key(&w.payment_mint), program: key(&token_program()), decimals: PAYMENT_DECIMALS },
        buyer_payment_ata: tok(&w.buyer, &w.payment_mint),
        buyer_payment_amount: BUYER_TOKENS,
        maker_payment_ata: tok(&w.maker, &w.payment_mint),
        buyer_nft_ata: tok(&w.buyer, &w.mint),
        listing: listing_account(w, listing_data(w, price, Some(key(&w.payment_mint)))),
        vault: tok(&w.listing, &w.mint),
        treasury: key(&w.treasury),
        treasury_owner: key(&anchor_lang::system_program::ID),
        treasury_payment_ata: tok(&w.treasury, &w.payment_mint),
        system_program: key(&anchor_lang::system_program::ID),
        token_program: key(&token_program()),
        associated_token_program: key(&ata_program()),
    }
}

fn make_offer_ctx(w: &World) -> MakeOffer {
    MakeOffer {
        buyer: key(&w.buyer),
        buyer_is_signer: true,
        marketplace: market(w),
        mint: mint(w),
        offer: key(&w.offer),
        system_program: key(&anchor_lang::system_program::ID),
    }
}

fn offer_data(w: &World, amount: u64) -> Offer {
    Offer { buyer: key(&w.buyer), mint: key(&w.mint), payment_mint: None, offer_amount: amount, bump: w.offer_bump }
}

fn accept_ctx(w: &World, price: u64, amount: u64) -> AcceptOffer {
    AcceptOffer {
        maker: key(&w.maker),
        maker_is_signer: true,
        marketplace: market(w),
        buyer: key(&w.buyer),
        buyer_owner: key(&anchor_lang::system_program::ID),
        maker_mint: mint(w),
        buyer_ata: tok(&w.buyer, &w.mint),
        listing: listing_account(w, listing_data(w, price, None)),
        vault: tok(&w.listing, &w.mint),
        offer: offer_account(w, offer_data(w, amount)),
        treasury: key(&w.treasury),
        treasury_owner: key(&anchor_lang::system_program::ID),
        system_program: key(&anchor_lang::system_program::ID),
        token_program: key(&token_program()),
        associated_token_program: key(&ata_program()),
    }
}

fn cancel_ctx(w: &World, amount: u64) -> CancelOffer {
    CancelOffer {
        buyer: key(&w.buyer),
        buyer_is_signer: true,
        marketplace: market(w),
        mint: mint(w),
        offer: offer_account(w, offer_data(w, amount)),
        system_program: key(&anchor_lang::system_program::ID),
    }
}

fn same(a: &Key, b: &Pubkey) -> bool {
    a.to_bytes() == b.to_bytes()
}

fn signer(w: &World) -> ListingSigner {
    ListingSigner { marketplace: key(&w.marketplace), maker: key(&w.maker), mint: key(&w.mint), bump: w.listing_bump }
}

fn err<T>(r: Result<T, MarketError>) -> MarketError {
    match r {
        Ok(_) => panic!("expected an error"),
        Err(e) => e,
    }
}

// ---- fee split ----

#[test]
fn fee_split_basis_points() {
    assert_eq!(split_payment(1000, 250), (25, 975));
    assert_eq!(split_payment(1_000_000_000, 250), (25_000_000, 975_000_000));
    assert_eq!(split_payment(999, 1), (0, 999));
    assert_eq!(split_payment(10_000, 1), (1, 9_999));
    assert_eq!(split_payment(12345, 0), (0, 12345));
    assert_eq!(split_payment(12345, 10000), (12345, 0));
    assert_eq!(split_payment(u64::MAX, 10000), (u64::MAX, 0));
    assert_eq!(split_payment(u64::MAX, 5000), (u64::MAX / 2, u64::MAX - u64::MAX / 2));
}

// ---- initialize ----

#[test]
fn initialize_accepts_valid_settings() {
    let m = initialize("market".to_string(), 250, &InitializeBumps { marketplace: 254, treasury: 253 }).unwrap();
    assert_eq!(m.name, "market");
    assert_eq!(m.fee, 250);
    assert_eq!(m.bump, 254);
    assert_eq!(m.treasury_bump, 253);
}

#[test]
fn initialize_name_limits() {
    let bumps = InitializeBumps { marketplace: 1, treasury: 2 };
    assert_eq!(err(initialize(String::new(), 0, &bumps)), MarketError::Program(MarketplaceError::NameTooLong));
    assert!(initialize("a".repeat(32), 0, &bumps).is_ok());
    assert_eq!(err(initialize("a".repeat(33), 0, &bumps)), MarketError::Program(MarketplaceError::NameTooLong));
    // 16 two-byte characters take 32 bytes; 17 take 34.
    assert!(initialize("é".repeat(16), 0, &bumps).is_ok());
    assert_eq!(err(initialize("é".repeat(17), 0, &bumps)), MarketError::Program(MarketplaceError::NameTooLong));
}

#[test]
fn initialize_fee_limits() {
    let bumps = InitializeBumps { marketplace: 1, treasury: 2 };
    assert!(initialize("m".to_string(), 10000, &bumps).is_ok());
    assert_eq!(err(initialize("m".to_string(), 10001, &bumps)), MarketError::Program(MarketplaceError::InvalidFee));
    assert_eq!(
        Marketplace::new("m".to_string(), u16::MAX, 0, 0).err(),
        Some(MarketplaceError::InvalidFee)
    );
    // the name is checked first
    assert_eq!(Marketplace::new(String::new(), 10001, 0, 0).err(), Some(MarketplaceError::NameTooLong));
}

// ---- addresses ----

#[test]
fn key_round_trip_and_equality() {
    let a = key(&wallet(9));
    let b = key(&wallet(9));
    let c = key(&wallet(8));
    assert!(a.equals(&b));
    assert!(!a.equals(&c));
    assert_eq!(a.to_bytes(), [9u8; 32]);
    assert_eq!(a.to_seed(), vec![9u8; 32]);
}

#[test]
fn listing_signer_seeds() {
    let w = world();
    let seeds = signer(&w).seeds();
    assert_eq!(
        seeds,
        vec![w.marketplace.to_bytes().to_vec(), w.maker.to_bytes().to_vec(), w.mint.to_bytes().to_vec(), vec![w.listing_bump]]
    );
    let slices: Vec<&[u8]> = seeds.iter().map(|s| s.as_slice()).collect();
    assert_eq!(Pubkey::create_program_address(&slices, &program()).unwrap(), w.listing);
}

#[test]
fn marketplace_seeds_checked_against_derivation() {
    let w = world();
    let m = market(&w);
    assert_eq!(m.check(&key(&program())), Ok(()));
    assert_eq!(m.check_treasury(&key(&w.treasury), &key(&program())), Ok(()));
    // another address, another bump or another program: refused
    let moved = MarketplaceAccount { key: key(&wallet(50)), owner: key(&program()), data: market_data(&w) };
    assert_eq!(moved.check(&key(&program())), Err(MarketError::ConstraintSeeds));
    let rebumped = MarketplaceAccount {
        key: key(&w.marketplace),
        owner: key(&program()),
        data: Marketplace::new(NAME.to_string(), FEE_BPS, w.marketplace_bump.wrapping_sub(1), w.treasury_bump).unwrap(),
    };
    assert_eq!(rebumped.check(&key(&program())), Err(MarketError::ConstraintSeeds));
    assert_eq!(m.check(&key(&wallet(201))), Err(MarketError::ConstraintSeeds));
    assert_eq!(m.check_treasury(&key(&w.marketplace), &key(&program())), Err(MarketError::ConstraintSeeds));
}

// ---- list ----

#[test]
fn list_stores_listing_and_deposits_nft() {
    let w = world();
    let ctx = list_ctx(&w);
    assert_eq!(ctx.validate(&key(&program())).map(|b| b.listing), Ok(w.listing_bump));
    let (listing, deposit) = list(&ctx, 5_000, None, &key(&program())).unwrap();
    assert!(same(&listing.maker, &w.maker));
    assert!(same(&listing.mint, &w.mint));
    assert!(listing.payment_mint.is_none());
    assert_eq!(listing.price, 5_000);
    assert_eq!(listing.bump, w.listing_bump);
    match deposit {
        Action::TransferTokens { from, mint, to, authority, amount, decimals, signer } => {
            assert!(same(&from, &ata(&w.maker, &w.mint)));
            assert!(same(&mint, &w.mint));
            assert!(same(&to, &ata(&w.listing, &w.mint)));
            assert!(same(&authority, &w.maker));
            assert_eq!(amount, 1);
            assert_eq!(decimals, DECIMALS);
            assert!(signer.is_none());
        },
        _ => panic!("expected a token transfer"),
    }
}

#[test]
fn list_with_payment_mint() {
    let w = world();
    let (listing, _) = list(&list_ctx(&w), 7, Some(key(&w.payment_mint)), &key(&program())).unwrap();
    assert!(same(&listing.payment_mint.unwrap(), &w.payment_mint));
}

#[test]
fn list_rejects_zero_price() {
    let w = world();
    assert_eq!(err(list(&list_ctx(&w), 0, None, &key(&program()))), MarketError::Program(MarketplaceError::InvalidPrice));
    let ctx = list_ctx(&w);
    assert_eq!(ctx.create_listing(0, None, &ListBumps { listing: 1 }).err(), Some(MarketplaceError::InvalidPrice));
}

#[test]
fn list_rejects_wrong_accounts() {
    let w = world();
    let mut ctx = list_ctx(&w);
    ctx.listing = key(&wallet(60));
    assert_eq!(err(list(&ctx, 1, None, &key(&program()))), MarketError::ConstraintSeeds);
    let mut ctx = list_ctx(&w);
    ctx.maker_ata = tok_at(ata(&w.buyer, &w.mint), &w.maker, &w.mint);
    assert_eq!(err(list(&ctx, 1, None, &key(&program()))), MarketError::ConstraintAssociated);
    let mut ctx = list_ctx(&w);
    ctx.maker_ata = tok(&w.buyer, &w.mint);
    assert_eq!(err(list(&ctx, 1, None, &key(&program()))), MarketError::ConstraintTokenOwner);
    let mut ctx = list_ctx(&w);
    ctx.vault = tok_at(ata(&w.maker, &w.mint), &w.listing, &w.mint);
    assert_eq!(err(list(&ctx, 1, None, &key(&program()))), MarketError::AccountNotAssociatedTokenAccount);
    // constraints come before the price check
    let mut ctx = list_ctx(&w);
    ctx.marketplace.key = key(&wallet(61));
    assert_eq!(err(list(&ctx, 0, None, &key(&program()))), MarketError::ConstraintSeeds);
}

#[test]
fn associated_address_matches_the_associated_token_program() {
    let w = world();
    let ctx = list_ctx(&w);
    // the derivation the library uses is the associated token program's own
    assert!(same(&ctx.maker_ata.key, &get_associated_token_address(&w.maker, &w.mint)));
    assert!(ctx.validate(&key(&program())).is_ok());
    // under Token-2022 the vault created is another address...
    let mut t22 = list_ctx(&w);
    t22.token_program = key(&anchor_spl::token_2022::ID);
    assert_eq!(err(t22.validate(&key(&program()))), MarketError::AccountNotAssociatedTokenAccount);
    // ...and that address is not the one the `associated_token` constraint derives
    t22.vault = TokenAccount {
        key: key(&get_associated_token_address_with_program_id(&w.listing, &w.mint, &anchor_spl::token_2022::ID)),
        owner: key(&w.listing),
        mint: key(&w.mint),
        program: key(&anchor_spl::token_2022::ID),
    };
    assert_eq!(err(t22.validate(&key(&program()))), MarketError::ConstraintAssociated);
}

#[test]
fn program_ids_match_the_outside_crates() {
    assert_eq!(SYSTEM_PROGRAM_ID, anchor_lang::system_program::ID.to_bytes());
    assert_eq!(TOKEN_PROGRAM_ID, anchor_spl::token::ID.to_bytes());
    assert_eq!(TOKEN_2022_PROGRAM_ID, anchor_spl::token_2022::ID.to_bytes());
    assert_eq!(ASSOCIATED_TOKEN_PROGRAM_ID, anchor_spl::associated_token::ID.to_bytes());
}

#[test]
fn program_accounts_must_be_the_programs() {
    let w = world();
    let pid = key(&program());
    let mut ctx = list_ctx(&w);
    ctx.system_program = key(&token_program());
    assert_eq!(err(ctx.validate(&pid)), MarketError::InvalidProgramId);
    let mut ctx = list_ctx(&w);
    ctx.token_program = key(&ata_program());
    assert_eq!(err(ctx.validate(&pid)), MarketError::InvalidProgramId);
    let mut ctx = list_ctx(&w);
    ctx.associated_token_program = key(&token_program());
    assert_eq!(err(ctx.validate(&pid)), MarketError::InvalidProgramId);
    // the program accounts are checked before any other constraint
    let mut ctx = buy_ctx(&w, 1);
    ctx.listing.data.maker = key(&wallet(73));
    ctx.token_program = key(&wallet(74));
    assert_eq!(err(buy(&ctx, &pid)), MarketError::InvalidProgramId);
    let mut ctx = make_offer_ctx(&w);
    ctx.system_program = key(&wallet(75));
    assert_eq!(err(make_offer(&ctx, 1, &pid)), MarketError::InvalidProgramId);
    let mut ctx = cancel_ctx(&w, 1);
    ctx.system_program = key(&wallet(76));
    assert_eq!(err(cancel_offer(&ctx, &pid)), MarketError::InvalidProgramId);
    // Token-2022 is a token program too: the buyer's existing token account
    // is then refused as owned by the other token program
    let mut ctx = buy_ctx(&w, 1);
    ctx.token_program = key(&anchor_spl::token_2022::ID);
    assert_eq!(err(buy(&ctx, &pid)), MarketError::ConstraintAssociatedTokenTokenProgram);
}

#[test]
fn duplicate_written_back_accounts_refused() {
    let w = world();
    let pid = key(&program());
    let mut ctx = buy_ctx(&w, 1);
    ctx.vault = tok_at(w.listing, &w.listing, &w.mint);
    assert_eq!(err(buy(&ctx, &pid)), MarketError::ConstraintDuplicateMutableAccount);
    let mut ctx = accept_ctx(&w, 1, 1);
    ctx.offer.key = key(&w.listing);
    assert_eq!(err(accept_offer(&ctx, &pid)), MarketError::ConstraintDuplicateMutableAccount);
    let mut ctx = buy_token_ctx(&w, 1);
    ctx.buyer_payment_ata = tok_at(ata(&w.buyer, &w.mint), &w.buyer, &w.payment_mint);
    assert_eq!(err(buy_with_token(&ctx, &pid)), MarketError::ConstraintDuplicateMutableAccount);
    // the duplicate check comes before the marketplace's seeds
    let mut ctx = buy_ctx(&w, 1);
    ctx.vault = tok_at(w.listing, &w.listing, &w.mint);
    ctx.marketplace.key = key(&wallet(77));
    assert_eq!(err(buy(&ctx, &pid)), MarketError::ConstraintDuplicateMutableAccount);
}

#[test]
fn close_into_itself_refused() {
    let a = key(&wallet(5));
    assert_eq!(check_close(&a, &a), Err(MarketError::ConstraintClose));
    assert_eq!(check_close(&a, &key(&wallet(6))), Ok(()));
    let ks = vec![key(&wallet(1)), key(&wallet(2)), key(&wallet(1))];
    assert_eq!(check_distinct(&ks), Err(MarketError::ConstraintDuplicateMutableAccount));
    assert_eq!(check_distinct(&ks[..2].to_vec()), Ok(()));
}

// ---- buy ----

#[test]
fn buy_pays_maker_and_treasury_and_hands_over_nft() {
    let w = world();
    let plan = buy(&buy_ctx(&w, 10_000), &key(&program())).unwrap();
    assert_eq!(plan.len(), 5);
    match plan[0] {
        Action::TransferLamports { from, to, amount } => {
            assert!(same(&from, &w.buyer));
            assert!(same(&to, &w.maker));
            assert_eq!(amount, 9_750);
        },
        _ => panic!("expected a lamport transfer"),
    }
    match plan[1] {
        Action::TransferLamports { from, to, amount } => {
            assert!(same(&from, &w.buyer));
            assert!(same(&to, &w.treasury));
            assert_eq!(amount, 250);
        },
        _ => panic!("expected a lamport transfer"),
    }
    match plan[2] {
        Action::TransferTokens { from, mint, to, authority, amount, decimals, signer } => {
            assert!(same(&from, &ata(&w.listing, &w.mint)));
            assert!(same(&mint, &w.mint));
            assert!(same(&to, &ata(&w.buyer, &w.mint)));
            assert!(same(&authority, &w.listing));
            assert_eq!(amount, 1);
            assert_eq!(decimals, DECIMALS);
            assert_eq!(signer.unwrap().seeds(), signer_seeds(&w));
        },
        _ => panic!("expected a token transfer"),
    }
    match plan[3] {
        Action::CloseTokenAccount { account, destination, authority, signer } => {
            assert!(same(&account, &ata(&w.listing, &w.mint)));
            assert!(same(&destination, &w.maker));
            assert!(same(&authority, &w.listing));
            assert!(signer.is_some());
        },
        _ => panic!("expected the vault closed"),
    }
    match plan[4] {
        Action::CloseAccount { account, destination } => {
            assert!(same(&account, &w.listing));
            assert!(same(&destination, &w.maker));
        },
        _ => panic!("expected the listing closed"),
    }
}

fn signer_seeds(w: &World) -> Vec<Vec<u8>> {
    signer(w).seeds()
}

#[test]
fn buy_rejects_a_listing_priced_in_tokens() {
    // a listing priced in a token is paid in that token, not in lamports
    let w = world();
    let mut ctx = buy_ctx(&w, 100);
    ctx.listing.data.payment_mint = Some(key(&w.payment_mint));
    assert_eq!(err(buy(&ctx, &key(&program()))), MarketError::Program(MarketplaceError::InvalidPaymentMint));
    assert_eq!(ctx.pay_and_transfer().err(), Some(MarketplaceError::InvalidPaymentMint));
    // the account checks come first
    ctx.treasury = key(&wallet(78));
    assert_eq!(err(buy(&ctx, &key(&program()))), MarketError::ConstraintSeeds);
}

#[test]
fn signers_must_sign() {
    let w = world();
    let pid = key(&program());
    let mut ctx = list_ctx(&w);
    ctx.maker_is_signer = false;
    assert_eq!(err(ctx.validate(&pid)), MarketError::AccountNotSigner);
    let mut ctx = buy_ctx(&w, 1);
    ctx.buyer_is_signer = false;
    assert_eq!(err(buy(&ctx, &pid)), MarketError::AccountNotSigner);
    let mut ctx = buy_token_ctx(&w, 1);
    ctx.buyer_is_signer = false;
    assert_eq!(err(buy_with_token(&ctx, &pid)), MarketError::AccountNotSigner);
    let mut ctx = make_offer_ctx(&w);
    ctx.buyer_is_signer = false;
    assert_eq!(err(make_offer(&ctx, 1, &pid)), MarketError::AccountNotSigner);
    let mut ctx = accept_ctx(&w, 1, 1);
    ctx.maker_is_signer = false;
    assert_eq!(err(accept_offer(&ctx, &pid)), MarketError::AccountNotSigner);
    let mut ctx = cancel_ctx(&w, 1);
    ctx.buyer_is_signer = false;
    assert_eq!(err(cancel_offer(&ctx, &pid)), MarketError::AccountNotSigner);
}

#[test]
fn accounts_owned_by_the_right_programs() {
    let w = world();
    let pid = key(&program());
    let mut ctx = buy_ctx(&w, 1);
    ctx.marketplace.owner = key(&token_program());
    assert_eq!(err(buy(&ctx, &pid)), MarketError::AccountOwnedByWrongProgram);
    let mut ctx = buy_ctx(&w, 1);
    ctx.listing.owner = key(&wallet(79));
    assert_eq!(err(buy(&ctx, &pid)), MarketError::AccountOwnedByWrongProgram);
    let mut ctx = buy_ctx(&w, 1);
    ctx.vault.program = key(&program());
    assert_eq!(err(buy(&ctx, &pid)), MarketError::AccountOwnedByWrongProgram);
    let mut ctx = cancel_ctx(&w, 1);
    ctx.offer.owner = key(&wallet(79));
    assert_eq!(err(cancel_offer(&ctx, &pid)), MarketError::AccountOwnedByWrongProgram);
    let mut ctx = make_offer_ctx(&w);
    ctx.mint.program = key(&anchor_lang::system_program::ID);
    assert_eq!(err(make_offer(&ctx, 1, &pid)), MarketError::AccountOwnedByWrongProgram);
    // a mint of Token-2022 is a token program's too
    let mut ctx = make_offer_ctx(&w);
    ctx.mint.program = key(&anchor_spl::token_2022::ID);
    assert!(make_offer(&ctx, 1, &pid).is_ok());
}

#[test]
fn token_accounts_created_where_needed_are_checked_field_by_field() {
    let w = world();
    let pid = key(&program());
    let mut ctx = buy_ctx(&w, 1);
    ctx.buyer_ata.mint = key(&w.payment_mint);
    assert_eq!(err(buy(&ctx, &pid)), MarketError::ConstraintTokenMint);
    let mut ctx = buy_ctx(&w, 1);
    ctx.buyer_ata.owner = key(&w.maker);
    assert_eq!(err(buy(&ctx, &pid)), MarketError::ConstraintTokenOwner);
    let mut ctx = buy_ctx(&w, 1);
    ctx.buyer_ata.program = key(&anchor_spl::token_2022::ID);
    assert_eq!(err(buy(&ctx, &pid)), MarketError::ConstraintAssociatedTokenTokenProgram);
    // an existing account that is not a token program's is refused first
    let mut ctx = buy_ctx(&w, 1);
    ctx.buyer_ata.program = key(&program());
    assert_eq!(err(buy(&ctx, &pid)), MarketError::AccountOwnedByWrongProgram);
    // a token account passed as it stands must belong to the wallet named
    let mut ctx = buy_ctx(&w, 1);
    ctx.vault.owner = key(&w.maker);
    assert_eq!(err(buy(&ctx, &pid)), MarketError::ConstraintTokenOwner);
}

#[test]
fn buy_rejects_listing_of_another_maker() {
    let w = world();
    // the listing's address is that of this maker, but it names another maker
    let mut ctx = buy_ctx(&w, 100);
    ctx.listing.data.maker = key(&wallet(70));
    assert_eq!(err(buy(&ctx, &key(&program()))), MarketError::ConstraintHasOne);
    // another maker passed: the listing's address no longer derives
    let mut ctx = buy_ctx(&w, 100);
    ctx.maker = key(&wallet(70));
    assert_eq!(err(buy(&ctx, &key(&program()))), MarketError::ConstraintSeeds);
}

#[test]
fn buy_rejects_listing_of_another_mint() {
    let w = world();
    let mut ctx = buy_ctx(&w, 100);
    ctx.listing.data.mint = key(&wallet(71));
    assert_eq!(err(buy(&ctx, &key(&program()))), MarketError::Program(MarketplaceError::TokenAccountsMismatch));
}

#[test]
fn buy_rejects_wrong_treasury_vault_or_buyer_account() {
    let w = world();
    let mut ctx = buy_ctx(&w, 100);
    ctx.treasury = key(&wallet(72));
    assert_eq!(err(buy(&ctx, &key(&program()))), MarketError::ConstraintSeeds);
    let mut ctx = buy_ctx(&w, 100);
    ctx.vault = tok_at(ata(&w.maker, &w.mint), &w.listing, &w.mint);
    assert_eq!(err(buy(&ctx, &key(&program()))), MarketError::ConstraintAssociated);
    let mut ctx = buy_ctx(&w, 100);
    ctx.buyer_ata = tok_at(ata(&w.maker, &w.mint), &w.buyer, &w.mint);
    assert_eq!(err(buy(&ctx, &key(&program()))), MarketError::AccountNotAssociatedTokenAccount);
    let mut ctx = buy_ctx(&w, 100);
    ctx.listing.data.bump = w.listing_bump.wrapping_sub(1);
    assert_eq!(err(buy(&ctx, &key(&program()))), MarketError::ConstraintSeeds);
}

#[test]
fn buy_with_zero_fee_and_full_fee() {
    let w = world();
    let mut ctx = buy_ctx(&w, 777);
    ctx.marketplace.data = Marketplace::new(NAME.to_string(), 0, w.marketplace_bump, w.treasury_bump).unwrap();
    let plan = ctx.pay_and_transfer().unwrap();
    assert!(matches!(plan[0], Action::TransferLamports { amount: 777, .. }));
    assert!(matches!(plan[1], Action::TransferLamports { amount: 0, .. }));
    ctx.marketplace.data = Marketplace::new(NAME.to_string(), 10000, w.marketplace_bump, w.treasury_bump).unwrap();
    let plan = ctx.pay_and_transfer().unwrap();
    assert!(matches!(plan[0], Action::TransferLamports { amount: 0, .. }));
    assert!(matches!(plan[1], Action::TransferLamports { amount: 777, .. }));
}

// ---- buy with token ----

#[test]
fn buy_with_token_pays_in_the_payment_mint() {
    let w = world();
    let plan = buy_with_token(&buy_token_ctx(&w, 2_000_000), &key(&program())).unwrap();
    assert_eq!(plan.len(), 5);
    match plan[0] {
        Action::TransferTokens { from, mint, to, authority, amount, decimals, signer } => {
            assert!(same(&from, &ata(&w.buyer, &w.payment_mint)));
            assert!(same(&mint, &w.payment_mint));
            assert!(same(&to, &ata(&w.maker, &w.payment_mint)));
            assert!(same(&authority, &w.buyer));
            assert_eq!(amount, 1_950_000);
            assert_eq!(decimals, PAYMENT_DECIMALS);
            assert!(signer.is_none());
        },
        _ => panic!("expected a token transfer"),
    }
    match plan[1] {
        Action::TransferTokens { to, amount, .. } => {
            assert!(same(&to, &ata(&w.treasury, &w.payment_mint)));
            assert_eq!(amount, 50_000);
        },
        _ => panic!("expected a token transfer"),
    }
    match plan[2] {
        Action::TransferTokens { from, to, amount, decimals, .. } => {
            assert!(same(&from, &ata(&w.listing, &w.mint)));
            assert!(same(&to, &ata(&w.buyer, &w.mint)));
            assert_eq!(amount, 1);
            assert_eq!(decimals, DECIMALS);
        },
        _ => panic!("expected a token transfer"),
    }
    assert!(matches!(plan[3], Action::CloseTokenAccount { .. }));
    assert!(matches!(plan[4], Action::CloseAccount { .. }));
}

#[test]
fn buy_with_token_rejects_another_payment_mint() {
    let w = world();
    let mut ctx = buy_token_ctx(&w, 10);
    ctx.listing.data.payment_mint = Some(key(&wallet(80)));
    assert_eq!(err(buy_with_token(&ctx, &key(&program()))), MarketError::Program(MarketplaceError::InvalidPaymentMint));
    let mut ctx = buy_token_ctx(&w, 10);
    ctx.listing.data.payment_mint = None;
    assert_eq!(err(buy_with_token(&ctx, &key(&program()))), MarketError::Program(MarketplaceError::InvalidPaymentMint));
    assert_eq!(ctx.pay_and_transfer().err(), Some(MarketplaceError::InvalidPaymentMint));
}

#[test]
fn buy_with_token_rejects_wrong_token_accounts() {
    let w = world();
    let mut ctx = buy_token_ctx(&w, 10);
    ctx.treasury_payment_ata = tok_at(ata(&w.treasury, &w.mint), &w.treasury, &w.payment_mint);
    assert_eq!(err(buy_with_token(&ctx, &key(&program()))), MarketError::AccountNotAssociatedTokenAccount);
    let mut ctx = buy_token_ctx(&w, 10);
    ctx.maker_payment_ata = tok_at(ata(&w.buyer, &w.payment_mint), &w.maker, &w.payment_mint);
    assert_eq!(err(buy_with_token(&ctx, &key(&program()))), MarketError::AccountNotAssociatedTokenAccount);
    let mut ctx = buy_token_ctx(&w, 10);
    ctx.buyer_payment_ata = tok_at(ata(&w.maker, &w.mint), &w.buyer, &w.payment_mint);
    assert_eq!(err(buy_with_token(&ctx, &key(&program()))), MarketError::ConstraintAssociated);
    // the maker's payment account passed as the buyer's: a duplicate
    let mut ctx = buy_token_ctx(&w, 10);
    ctx.buyer_payment_ata = tok_at(ata(&w.maker, &w.payment_mint), &w.buyer, &w.payment_mint);
    assert_eq!(err(buy_with_token(&ctx, &key(&program()))), MarketError::ConstraintDuplicateMutableAccount);
}

// ---- offers ----

#[test]
fn make_offer_escrows_lamports() {
    let w = world();
    let ctx = make_offer_ctx(&w);
    assert_eq!(ctx.validate(&key(&program())).map(|b| b.offer), Ok(w.offer_bump));
    let (offer, escrow) = make_offer(&ctx, 3_000, &key(&program())).unwrap();
    assert!(same(&offer.buyer, &w.buyer));
    assert!(same(&offer.mint, &w.mint));
    assert!(offer.payment_mint.is_none());
    assert_eq!(offer.offer_amount, 3_000);
    assert_eq!(offer.bump, w.offer_bump);
    match escrow {
        Action::TransferLamports { from, to, amount } => {
            assert!(same(&from, &w.buyer));
            assert!(same(&to, &w.offer));
            assert_eq!(amount, 3_000);
        },
        _ => panic!("expected a lamport transfer"),
    }
}

#[test]
fn make_offer_rejects_zero_and_wrong_offer_account() {
    let w = world();
    let ctx = make_offer_ctx(&w);
    assert_eq!(err(make_offer(&ctx, 0, &key(&program()))), MarketError::Program(MarketplaceError::InvalidOffer));
    assert_eq!(ctx.process(0, &MakeOfferBumps { offer: 1 }).err(), Some(MarketplaceError::InvalidOffer));
    let mut ctx = make_offer_ctx(&w);
    ctx.offer = key(&w.listing);
    assert_eq!(err(make_offer(&ctx, 5, &key(&program()))), MarketError::ConstraintSeeds);
}

#[test]
fn accept_offer_releases_escrow_to_maker_and_treasury() {
    let w = world();
    let plan = accept_offer(&accept_ctx(&w, 50, 4_000), &key(&program())).unwrap();
    assert_eq!(plan.len(), 7);
    match plan[0] {
        Action::TransferTokens { from, to, authority, amount, .. } => {
            assert!(same(&from, &ata(&w.listing, &w.mint)));
            assert!(same(&to, &ata(&w.buyer, &w.mint)));
            assert!(same(&authority, &w.listing));
            assert_eq!(amount, 1);
        },
        _ => panic!("expected a token transfer"),
    }
    assert!(matches!(plan[1], Action::CloseTokenAccount { .. }));
    match plan[2] {
        Action::DebitLamports { account, amount } => {
            assert!(same(&account, &w.offer));
            assert_eq!(amount, 4_000);
        },
        _ => panic!("expected a debit"),
    }
    match plan[3] {
        Action::CreditLamports { account, amount } => {
            assert!(same(&account, &w.maker));
            assert_eq!(amount, 3_900);
        },
        _ => panic!("expected a credit"),
    }
    match plan[4] {
        Action::CreditLamports { account, amount } => {
            assert!(same(&account, &w.treasury));
            assert_eq!(amount, 100);
        },
        _ => panic!("expected a credit"),
    }
    match plan[5] {
        Action::CloseAccount { account, destination } => {
            assert!(same(&account, &w.listing));
            assert!(same(&destination, &w.maker));
        },
        _ => panic!("expected the listing closed"),
    }
    match plan[6] {
        Action::CloseAccount { account, destination } => {
            assert!(same(&account, &w.offer));
            assert!(same(&destination, &w.buyer));
        },
        _ => panic!("expected the offer closed"),
    }
}

#[test]
fn accept_offer_rejects_mismatched_offer() {
    let w = world();
    let mut ctx = accept_ctx(&w, 50, 10);
    ctx.offer.data.buyer = key(&wallet(90));
    assert_eq!(err(accept_offer(&ctx, &key(&program()))), MarketError::ConstraintHasOne);
    let mut ctx = accept_ctx(&w, 50, 10);
    ctx.offer.data.mint = key(&wallet(91));
    assert_eq!(err(accept_offer(&ctx, &key(&program()))), MarketError::Program(MarketplaceError::TokenAccountsMismatch));
    let mut ctx = accept_ctx(&w, 50, 10);
    ctx.buyer = key(&wallet(92));
    // the buyer's token account, created where needed, is checked first: it
    // belongs to another wallet
    assert_eq!(err(accept_offer(&ctx, &key(&program()))), MarketError::ConstraintTokenOwner);
    let mut ctx = accept_ctx(&w, 50, 10);
    ctx.listing.data.maker = key(&wallet(93));
    assert_eq!(err(accept_offer(&ctx, &key(&program()))), MarketError::ConstraintHasOne);
}

#[test]
fn cancel_offer_closes_offer_into_buyer() {
    let w = world();
    let ctx = cancel_ctx(&w, 10);
    assert_eq!(ctx.cancel(), Ok(()));
    let plan = cancel_offer(&ctx, &key(&program())).unwrap();
    assert_eq!(plan.len(), 1);
    match plan[0] {
        Action::CloseAccount { account, destination } => {
            assert!(same(&account, &w.offer));
            assert!(same(&destination, &w.buyer));
        },
        _ => panic!("expected the offer closed"),
    }
}

#[test]
fn cancel_offer_rejects_another_buyer() {
    let w = world();
    let mut ctx = cancel_ctx(&w, 10);
    ctx.buyer = key(&wallet(94));
    assert_eq!(err(cancel_offer(&ctx, &key(&program()))), MarketError::ConstraintSeeds);
    let mut ctx = cancel_ctx(&w, 10);
    ctx.offer.data.buyer = key(&wallet(94));
    assert_eq!(err(cancel_offer(&ctx, &key(&program()))), MarketError::ConstraintHasOne);
    let mut ctx = cancel_ctx(&w, 10);
    ctx.mint = MintAccount { key: key(&wallet(95)), program: key(&token_program()), decimals: 0 };
    assert_eq!(err(cancel_offer(&ctx, &key(&program()))), MarketError::ConstraintSeeds);
}

// ---- laws on concrete values ----

#[test]
fn listing_from_list_is_accepted_by_buy() {
    let w = world();
    let (listing, _) = list(&list_ctx(&w), 900, None, &key(&program())).unwrap();
    let mut ctx = buy_ctx(&w, 1);
    ctx.listing = listing_account(&w, listing);
    assert!(ctx.validate(&key(&program())).is_ok());
    let plan = buy(&ctx, &key(&program())).unwrap();
    // the buyer pays the price: 900 = 878 + 22
    assert!(matches!(plan[0], Action::TransferLamports { amount: 878, .. }));
    assert!(matches!(plan[1], Action::TransferLamports { amount: 22, .. }));
}

#[test]
fn offer_from_make_offer_is_accepted_and_cancelled() {
    let w = world();
    let (offer, _) = make_offer(&make_offer_ctx(&w), 1_234, &key(&program())).unwrap();
    let mut a = accept_ctx(&w, 50, 0);
    a.offer.data = offer;
    let plan = accept_offer(&a, &key(&program())).unwrap();
    // the escrow is paid out in full: 1234 = 1204 + 30
    assert!(matches!(plan[2], Action::DebitLamports { amount: 1_234, .. }));
    assert!(matches!(plan[3], Action::CreditLamports { amount: 1_204, .. }));
    assert!(matches!(plan[4], Action::CreditLamports { amount: 30, .. }));
    let mut c = cancel_ctx(&w, 0);
    c.offer.data = offer;
    assert!(cancel_offer(&c, &key(&program())).is_ok());
}

#[test]
fn list_then_buy_moves_nft_from_maker_to_buyer() {
    let w = world();
    let (listing, deposit) = list(&list_ctx(&w), 42, None, &key(&program())).unwrap();
    let mut ctx = buy_ctx(&w, 1);
    ctx.listing.data = listing;
    let plan = buy(&ctx, &key(&program())).unwrap();
    let vault = ata(&w.listing, &w.mint);
    match (deposit, plan[2]) {
        (Action::TransferTokens { from: f1, to: t1, amount: a1, .. }, Action::TransferTokens { from: f2, to: t2, amount: a2, .. }) => {
            assert!(same(&f1, &ata(&w.maker, &w.mint)));
            assert!(same(&t1, &vault));
            assert!(same(&f2, &vault));
            assert!(same(&t2, &ata(&w.buyer, &w.mint)));
            assert_eq!((a1, a2), (1, 1));
        },
        _ => panic!("expected two token transfers"),
    }
}

#[test]
fn cancel_after_offer_refunds_buyer() {
    let w = world();
    let (offer, escrow) = make_offer(&make_offer_ctx(&w), 500, &key(&program())).unwrap();
    let mut c = cancel_ctx(&w, 0);
    c.offer.data = offer;
    let close = cancel_offer(&c, &key(&program())).unwrap();
    // carry the actions out on a small ledger: buyer 1000, offer account 10 (rent)
    let mut buyer_bal: i128 = 1_000;
    let mut offer_bal: i128 = 10;
    if let Action::TransferLamports { amount, .. } = escrow {
        buyer_bal -= amount as i128;
        offer_bal += amount as i128;
    }
    if let Action::CloseAccount { .. } = close[0] {
        buyer_bal += offer_bal;
        offer_bal = 0;
    }
    assert_eq!(buyer_bal, 1_010);
    assert_eq!(offer_bal, 0);
}


#[test]
fn fee_grows_with_price_and_rate() {
    let w = world();
    let pid = key(&program());
    let treasury_and_maker = |price: u64, fee: u16| {
        let mut ctx = buy_ctx(&w, price);
        ctx.marketplace.data = Marketplace::new(NAME.to_string(), fee, w.marketplace_bump, w.treasury_bump).unwrap();
        let plan = buy(&ctx, &pid).unwrap();
        match (plan[0], plan[1]) {
            (Action::TransferLamports { amount: m, .. }, Action::TransferLamports { amount: t, .. }) => (t, m),
            _ => panic!("expected two lamport transfers"),
        }
    };
    // a higher price: no less to the treasury, no less to the maker
    assert_eq!(treasury_and_maker(999, 250), (24, 975));
    assert_eq!(treasury_and_maker(1_000, 250), (25, 975));
    // a higher rate: more to the treasury, less to the maker
    assert_eq!(treasury_and_maker(1_000, 500), (50, 950));
}

#[test]
fn offer_escrows_its_amount_above_rent() {
    let w = world();
    let (offer, escrow) = make_offer(&make_offer_ctx(&w), 2_500, &key(&program())).unwrap();
    assert_eq!(offer.offer_amount, 2_500);
    assert!(offer.payment_mint.is_none());
    // the offer account starts with its rent
    let rent: u64 = 1_002_240;
    match escrow {
        Action::TransferLamports { from, to, amount } => {
            assert!(same(&from, &w.buyer));
            assert!(same(&to, &w.offer));
            assert_eq!(rent + amount, rent + 2_500);
        },
        _ => panic!("expected a lamport transfer"),
    }
}

#[test]
fn buyer_short_of_the_price_refused() {
    let w = world();
    let pid = key(&program());
    let mut ctx = buy_ctx(&w, 1_000);
    ctx.buyer_lamports = 999;
    assert_eq!(err(buy(&ctx, &pid)), MarketError::Program(MarketplaceError::InsufficientFunds));
    assert_eq!(ctx.pay_and_transfer().err(), Some(MarketplaceError::InsufficientFunds));
    ctx.buyer_lamports = 1_000;
    assert!(buy(&ctx, &pid).is_ok());
    let mut ctx = buy_token_ctx(&w, 1_000);
    ctx.buyer_payment_amount = 999;
    assert_eq!(err(buy_with_token(&ctx, &pid)), MarketError::Program(MarketplaceError::InsufficientFunds));
    // the payment mint is checked first
    ctx.listing.data.payment_mint = None;
    assert_eq!(err(buy_with_token(&ctx, &pid)), MarketError::Program(MarketplaceError::InvalidPaymentMint));
    ctx.listing.data.payment_mint = Some(key(&w.payment_mint));
    ctx.buyer_payment_amount = 1_000;
    assert!(buy_with_token(&ctx, &pid).is_ok());
}

#[test]
fn wallet_accounts_owned_by_the_system_program() {
    let w = world();
    let pid = key(&program());
    let mut ctx = buy_ctx(&w, 1);
    ctx.maker_owner = key(&token_program());
    assert_eq!(err(buy(&ctx, &pid)), MarketError::AccountNotSystemOwned);
    let mut ctx = buy_ctx(&w, 1);
    ctx.treasury_owner = key(&program());
    assert_eq!(err(buy(&ctx, &pid)), MarketError::AccountNotSystemOwned);
    let mut ctx = buy_token_ctx(&w, 1);
    ctx.treasury_owner = key(&program());
    assert_eq!(err(buy_with_token(&ctx, &pid)), MarketError::AccountNotSystemOwned);
    let mut ctx = accept_ctx(&w, 1, 1);
    ctx.buyer_owner = key(&program());
    assert_eq!(err(accept_offer(&ctx, &pid)), MarketError::AccountNotSystemOwned);
}

/// Carries a plan out on a ledger of lamports, as the runtime would.
fn run(plan: &[Action], ledger: &mut Vec<(Pubkey, i128)>) {
    fn at(ledger: &mut Vec<(Pubkey, i128)>, k: &Key) -> usize {
        let p = Pubkey::new_from_array(k.to_bytes());
        match ledger.iter().position(|(q, _)| *q == p) {
            Some(i) => i,
            None => {
                ledger.push((p, 0));
                ledger.len() - 1
            },
        }
    }
    for a in plan {
        match a {
            Action::TransferLamports { from, to, amount } => {
                let (f, t) = (at(ledger, from), at(ledger, to));
                ledger[f].1 -= *amount as i128;
                ledger[t].1 += *amount as i128;
            },
            Action::DebitLamports { account, amount } => {
                let i = at(ledger, account);
                ledger[i].1 -= *amount as i128;
            },
            Action::CreditLamports { account, amount } => {
                let i = at(ledger, account);
                ledger[i].1 += *amount as i128;
            },
            Action::CloseAccount { account, destination } | Action::CloseTokenAccount { account, destination, .. } => {
                let (a, d) = (at(ledger, account), at(ledger, destination));
                let held = ledger[a].1;
                ledger[a].1 = 0;
                ledger[d].1 += held;
            },
            Action::TransferTokens { .. } => {},
        }
    }
}

fn held(ledger: &[(Pubkey, i128)], p: &Pubkey) -> i128 {
    ledger.iter().find(|(q, _)| q == p).map(|(_, v)| *v).unwrap()
}

#[test]
fn list_then_buy_balances_end_to_end() {
    let w = world();
    let pid = key(&program());
    let (listing, _) = list(&list_ctx(&w), 10_000, None, &pid).unwrap();
    let mut ctx = buy_ctx(&w, 1);
    ctx.listing.data = listing;
    let plan = buy(&ctx, &pid).unwrap();
    let vault = ata(&w.listing, &w.mint);
    let mut ledger = vec![(w.buyer, 50_000), (w.maker, 1_000), (w.treasury, 7), (vault, 2_039_280), (w.listing, 1_503_360)];
    run(&plan, &mut ledger);
    assert_eq!(held(&ledger, &w.buyer), 40_000);
    assert_eq!(held(&ledger, &w.maker), 1_000 + 9_750 + 2_039_280 + 1_503_360);
    assert_eq!(held(&ledger, &w.treasury), 257);
    assert_eq!(held(&ledger, &vault), 0);
    assert_eq!(held(&ledger, &w.listing), 0);
}

#[test]
fn offer_then_accept_balances_end_to_end() {
    let w = world();
    let pid = key(&program());
    let (offer, escrow) = make_offer(&make_offer_ctx(&w), 4_000, &pid).unwrap();
    let mut a = accept_ctx(&w, 50, 0);
    a.offer.data = offer;
    let plan = accept_offer(&a, &pid).unwrap();
    let vault = ata(&w.listing, &w.mint);
    let mut ledger =
        vec![(w.buyer, 10_000), (w.maker, 500), (w.treasury, 0), (w.offer, 1_002), (vault, 2_000), (w.listing, 1_500)];
    run(&[escrow], &mut ledger);
    run(&plan, &mut ledger);
    assert_eq!(held(&ledger, &w.buyer), 10_000 - 4_000 + 1_002);
    assert_eq!(held(&ledger, &w.maker), 500 + 3_900 + 2_000 + 1_500);
    assert_eq!(held(&ledger, &w.treasury), 100);
    assert_eq!(held(&ledger, &w.offer), 0);
}
