use vstd::prelude::*;

use crate::accounts::{ListingAccount, MarketplaceAccount, MintAccount, TokenAccount};
use crate::action::{Action, ListingSigner};
use crate::constraints::{
    associated_check, check_associated, check_distinct, check_init_if_needed_associated, check_owned_by,
    check_signer, check_system_owned, system_owned_check, check_token_owned, distinct_check, init_if_needed_associated_check, keys_view, owned_by_check,
    signer_check, then, token_owned_check,
};
use crate::ids::{check_programs, programs_check};
use crate::error::{MarketError, MarketplaceError};
use crate::fee::{fee_of, split_payment};
use crate::key::Key;

verus! {

/// The accounts of `buy`: the buyer pays the listed price in lamports.
pub struct Buy {
    pub buyer: Key,
    /// Whether the buyer signed the transaction.
    pub buyer_is_signer: bool,
    /// The lamports the buyer holds.
    pub buyer_lamports: u64,
    pub maker: Key,
    /// The program owning the maker's account.
    pub maker_owner: Key,
    pub marketplace: MarketplaceAccount,
    pub maker_mint: MintAccount,
    /// The buyer's token account for the NFT, created where needed (as it
    /// stands once created).
    pub buyer_ata: TokenAccount,
    pub listing: ListingAccount,
    /// The listing's token account that holds the NFT.
    pub vault: TokenAccount,
    /// The marketplace's treasury, which takes the fee.
    pub treasury: Key,
    /// The program owning the treasury's account.
    pub treasury_owner: Key,
    pub system_program: Key,
    pub token_program: Key,
    pub associated_token_program: Key,
}

impl Buy {
    /// The accounts written back at the end, which must all differ.
    pub open spec fn written_back(&self) -> Seq<Seq<u8>> {
        seq![self.buyer_ata.key@, self.listing.key@, self.vault.key@]
    }

    /// The accounts read as they are passed, in field order: the buyer has
    /// signed; the maker's account is the system program's; the marketplace
    /// and the listing are the program's; the mint and the vault are a token
    /// program's; the treasury is the system program's; then the program
    /// accounts.
    pub open spec fn load_check(&self, program_id: Seq<u8>) -> Result<(), MarketError> {
        then(
            signer_check(self.buyer_is_signer),
            then(
                system_owned_check(self.maker_owner@),
                then(
                    owned_by_check(self.marketplace.owner@, program_id),
                    then(
                        token_owned_check(self.maker_mint.program@),
                        then(
                            owned_by_check(self.listing.owner@, program_id),
                            then(
                                token_owned_check(self.vault.program@),
                                then(
                                    system_owned_check(self.treasury_owner@),
                                    programs_check(self.system_program@, self.token_program@, self.associated_token_program@),
                                ),
                            ),
                        ),
                    ),
                ),
            ),
        )
    }

    /// The account constraints, in the order they are checked: the accounts
    /// read as passed; then the buyer's token account, created where needed;
    /// then that the accounts written back all differ; then the others in
    /// field order.
    pub open spec fn spec_validate(&self, program_id: Seq<u8>) -> Result<(), MarketError> {
        then(
            self.load_check(program_id),
            then(
                init_if_needed_associated_check(self.buyer_ata, self.buyer@, self.maker_mint.key@, self.token_program@),
                then(
                    distinct_check(self.written_back()),
                    then(
                        self.marketplace.spec_check(program_id),
                        then(
                            self.listing.spec_check(self.marketplace.key@, self.maker@, self.maker_mint.key@, program_id),
                            then(
                                associated_check(self.vault, self.listing.key@, self.maker_mint.key@),
                                self.marketplace.spec_check_treasury(self.treasury@, program_id),
                            ),
                        ),
                    ),
                ),
            ),
        )
    }

    /// Checks the account constraints.
    pub fn validate(&self, program_id: &Key) -> (r: Result<(), MarketError>)
        ensures
            r == self.spec_validate(program_id@),
    {
        check_signer(self.buyer_is_signer)?;
        check_system_owned(&self.maker_owner)?;
        check_owned_by(&self.marketplace.owner, program_id)?;
        check_token_owned(&self.maker_mint.program)?;
        check_owned_by(&self.listing.owner, program_id)?;
        check_token_owned(&self.vault.program)?;
        check_system_owned(&self.treasury_owner)?;
        check_programs(&self.system_program, &self.token_program, &self.associated_token_program)?;
        check_init_if_needed_associated(&self.buyer_ata, &self.buyer, &self.maker_mint.key, &self.token_program)?;
        let mut written: Vec<Key> = Vec::new();
        written.push(self.buyer_ata.key);
        written.push(self.listing.key);
        written.push(self.vault.key);
        assert(keys_view(written@) =~= self.written_back());
        check_distinct(&written)?;
        self.marketplace.check(program_id)?;
        self.listing.check(&self.marketplace.key, &self.maker, &self.maker_mint.key, program_id)?;
        check_associated(&self.vault, &self.listing.key, &self.maker_mint.key)?;
        self.marketplace.check_treasury(&self.treasury, program_id)
    }

    /// The marketplace's fee on the price.
    pub open spec fn fee(&self) -> int {
        fee_of(self.listing.data.price, self.marketplace.data.fee)
    }

    /// The listing signing for its vault.
    pub open spec fn signer(&self) -> ListingSigner {
        self.listing.spec_signer(self.marketplace.key, self.maker, self.maker_mint.key)
    }

    /// The buyer pays the maker the price less the fee, and the treasury the
    /// fee; the NFT moves from the vault to the buyer; the vault is closed,
    /// its lamports going to the maker.
    pub open spec fn spec_plan(&self) -> Seq<Action> {
        seq![
            Action::TransferLamports {
                from: self.buyer,
                to: self.maker,
                amount: (self.listing.data.price - self.fee()) as u64,
            },
            Action::TransferLamports { from: self.buyer, to: self.treasury, amount: self.fee() as u64 },
            Action::TransferTokens {
                from: self.vault.key,
                mint: self.maker_mint.key,
                to: self.buyer_ata.key,
                authority: self.listing.key,
                amount: 1,
                decimals: self.maker_mint.decimals,
                signer: Some(self.signer()),
            },
            Action::CloseTokenAccount {
                account: self.vault.key,
                destination: self.maker,
                authority: self.listing.key,
                signer: Some(self.signer()),
            },
        ]
    }

    /// The listing is priced in lamports: it names no payment mint.
    pub open spec fn priced_in_lamports(&self) -> bool {
        self.listing.data.payment_mint is None
    }

    /// The handler's own refusals, before anything moves: a listing priced in
    /// a token (`InvalidPaymentMint`), then a buyer holding less than the
    /// price (`InsufficientFunds`).
    pub open spec fn handler_check(&self) -> Result<(), MarketplaceError> {
        if !self.priced_in_lamports() {
            Err(MarketplaceError::InvalidPaymentMint)
        } else if self.buyer_lamports < self.listing.data.price {
            Err(MarketplaceError::InsufficientFunds)
        } else {
            Ok(())
        }
    }

    /// The payment and the hand-over of the NFT, where the handler's own
    /// checks pass; else their error, with nothing to do.
    pub fn pay_and_transfer(&self) -> (r: Result<Vec<Action>, MarketplaceError>)
        requires
            self.marketplace.data.wf(),
        ensures
            self.handler_check() matches Err(e) ==> r == Err::<Vec<Action>, MarketplaceError>(e),
            self.handler_check() is Ok ==> (r matches Ok(plan) && plan@ == self.spec_plan()),
    {
        if self.listing.data.payment_mint.is_some() {
            return Err(MarketplaceError::InvalidPaymentMint);
        }
        if self.buyer_lamports < self.listing.data.price {
            return Err(MarketplaceError::InsufficientFunds);
        }
        let (fee, maker_amount) = split_payment(self.listing.data.price, self.marketplace.data.fee);
        let signer = ListingSigner {
            marketplace: self.marketplace.key,
            maker: self.maker,
            mint: self.maker_mint.key,
            bump: self.listing.data.bump,
        };
        let mut plan: Vec<Action> = Vec::new();
        plan.push(Action::TransferLamports { from: self.buyer, to: self.maker, amount: maker_amount });
        plan.push(Action::TransferLamports { from: self.buyer, to: self.treasury, amount: fee });
        plan.push(
            Action::TransferTokens {
                from: self.vault.key,
                mint: self.maker_mint.key,
                to: self.buyer_ata.key,
                authority: self.listing.key,
                amount: 1,
                decimals: self.maker_mint.decimals,
                signer: Some(signer),
            },
        );
        plan.push(
            Action::CloseTokenAccount {
                account: self.vault.key,
                destination: self.maker,
                authority: self.listing.key,
                signer: Some(signer),
            },
        );
        assert(plan@ =~= self.spec_plan());
        Ok(plan)
    }
}

} // verus!
