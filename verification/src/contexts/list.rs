use vstd::prelude::*;

use crate::accounts::{MarketplaceAccount, MintAccount, TokenAccount};
use crate::action::Action;
use crate::constraints::{
    associated_check, check_associated, check_init_associated, check_owned_by, check_signer, check_token_owned,
    find_bump, init_associated_check, init_seeds_check, owned_by_check, signer_check, then, token_owned_check,
};
use crate::error::{MarketError, MarketplaceError};
use crate::ids::{check_programs, programs_check};
use crate::key::Key;
use crate::seeds::{build_listing_seeds, listing_seeds};
use crate::state::Listing;

verus! {

/// The accounts of `list`: the maker puts an NFT up for sale.
pub struct List {
    pub maker: Key,
    /// Whether the maker signed the transaction.
    pub maker_is_signer: bool,
    pub marketplace: MarketplaceAccount,
    pub maker_mint: MintAccount,
    /// The maker's token account for the NFT.
    pub maker_ata: TokenAccount,
    /// The listing account, created here.
    pub listing: Key,
    /// The listing's token account that holds the NFT, created here (as the
    /// associated token program creates it).
    pub vault: TokenAccount,
    pub system_program: Key,
    pub token_program: Key,
    pub associated_token_program: Key,
}

/// The bump found for the listing account.
#[derive(Clone, Copy, Debug)]
pub struct ListBumps {
    pub listing: u8,
}

impl List {
    /// The accounts read as they are passed, in field order: the maker has
    /// signed; the marketplace is the program's; the mint and the maker's
    /// token account are a token program's; then the program accounts.
    pub open spec fn load_check(&self, program_id: Seq<u8>) -> Result<(), MarketError> {
        then(
            signer_check(self.maker_is_signer),
            then(
                owned_by_check(self.marketplace.owner@, program_id),
                then(
                    token_owned_check(self.maker_mint.program@),
                    then(
                        token_owned_check(self.maker_ata.program@),
                        programs_check(self.system_program@, self.token_program@, self.associated_token_program@),
                    ),
                ),
            ),
        )
    }

    /// The account constraints, in the order they are checked: the accounts
    /// read as passed; then the accounts created here (the listing, whose
    /// address gives its canonical bump, and the vault); then the others in
    /// field order. The listing's canonical bump where all hold.
    pub open spec fn spec_validate(&self, program_id: Seq<u8>) -> Result<ListBumps, MarketError> {
        then(
            self.load_check(program_id),
            match init_seeds_check(
                self.listing@,
                listing_seeds(self.marketplace.key@, self.maker@, self.maker_mint.key@),
                program_id,
            ) {
                Err(e) => Err(e),
                Ok(bump) => then(
                    init_associated_check(self.vault, self.listing@, self.maker_mint.key@, self.token_program@),
                    then(
                        self.marketplace.spec_check(program_id),
                        then(
                            associated_check(self.maker_ata, self.maker@, self.maker_mint.key@),
                            Ok(ListBumps { listing: bump }),
                        ),
                    ),
                ),
            },
        )
    }

    /// Checks the account constraints and finds the listing's bump.
    pub fn validate(&self, program_id: &Key) -> (r: Result<ListBumps, MarketError>)
        ensures
            r == self.spec_validate(program_id@),
    {
        check_signer(self.maker_is_signer)?;
        check_owned_by(&self.marketplace.owner, program_id)?;
        check_token_owned(&self.maker_mint.program)?;
        check_token_owned(&self.maker_ata.program)?;
        check_programs(&self.system_program, &self.token_program, &self.associated_token_program)?;
        let seeds = build_listing_seeds(&self.marketplace.key, &self.maker, &self.maker_mint.key);
        let bump = find_bump(&self.listing, &seeds, program_id)?;
        check_init_associated(&self.vault, &self.listing, &self.maker_mint.key, &self.token_program)?;
        self.marketplace.check(program_id)?;
        check_associated(&self.maker_ata, &self.maker, &self.maker_mint.key)?;
        Ok(ListBumps { listing: bump })
    }

    /// The listing to store: refused with `InvalidPrice` where the price is 0.
    pub fn create_listing(&self, price: u64, payment_mint: Option<Key>, bumps: &ListBumps) -> (r: Result<Listing, MarketplaceError>)
        ensures
            price == 0 ==> r == Err::<Listing, MarketplaceError>(MarketplaceError::InvalidPrice),
            price > 0 ==> r == Ok::<Listing, MarketplaceError>(
                (Listing {
                    maker: self.maker,
                    mint: self.maker_mint.key,
                    payment_mint,
                    price,
                    bump: bumps.listing,
                }),
            ),
    {
        if !(price > 0) {
            return Err(MarketplaceError::InvalidPrice);
        }
        Ok(Listing { maker: self.maker, mint: self.maker_mint.key, payment_mint, price, bump: bumps.listing })
    }

    /// The NFT moves from the maker's token account into the vault.
    pub open spec fn spec_deposit(&self) -> Action {
        Action::TransferTokens {
            from: self.maker_ata.key,
            mint: self.maker_mint.key,
            to: self.vault.key,
            authority: self.maker,
            amount: 1,
            decimals: self.maker_mint.decimals,
            signer: None,
        }
    }

    /// Moves the NFT into the vault.
    pub fn deposit_nft(&self) -> (a: Action)
        ensures
            a == self.spec_deposit(),
    {
        Action::TransferTokens {
            from: self.maker_ata.key,
            mint: self.maker_mint.key,
            to: self.vault.key,
            authority: self.maker,
            amount: 1,
            decimals: self.maker_mint.decimals,
            signer: None,
        }
    }
}

} // verus!
