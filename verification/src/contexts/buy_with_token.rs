use vstd::prelude::*;

use crate::accounts::{ListingAccount, MarketplaceAccount, MintAccount, TokenAccount};
use crate::action::{Action, ListingSigner};
use crate::constraints::{
    associated_check, check_associated, check_distinct, check_init_if_needed_associated, check_owned_by,
    check_signer, check_system_owned, system_owned_check, check_token_owned, distinct_check, init_if_needed_associated_check, keys_view, owned_by_check,
    signer_check, then, token_owned_check,
};
use crate::ids::{check_programs, programs_check};
use crate::error::{MarketError, MarketplaceError};
use crate::fee::{fee_of, split_payment};
use crate::key::Key;

verus! {

/// The accounts of `buy_with_token`: the buyer pays the listed price in
/// tokens of the listing's payment mint.
pub struct BuyWithToken {
    pub buyer: Key,
    /// Whether the buyer signed the transaction.
    pub buyer_is_signer: bool,
    pub maker: Key,
    /// The program owning the maker's account.
    pub maker_owner: Key,
    pub marketplace: MarketplaceAccount,
    pub maker_mint: MintAccount,
    pub payment_mint: MintAccount,
    /// The buyer's token account for the payment mint.
    pub buyer_payment_ata: TokenAccount,
    /// The tokens the buyer's payment account holds.
    pub buyer_payment_amount: u64,
    /// The maker's token account for the payment mint, created where needed
    /// (as it stands once created).
    pub maker_payment_ata: TokenAccount,
    /// The buyer's token account for the NFT, created where needed.
    pub buyer_nft_ata: TokenAccount,
    pub listing: ListingAccount,
    /// The listing's token account that holds the NFT.
    pub vault: TokenAccount,
    pub treasury: Key,
    /// The program owning the treasury's account.
    pub treasury_owner: Key,
    /// The treasury's token account for the payment mint, created where needed.
    pub treasury_payment_ata: TokenAccount,
    pub system_program: Key,
    pub token_program: Key,
    pub associated_token_program: Key,
}

impl BuyWithToken {
    /// The accounts written back at the end, which must all differ.
    pub open spec fn written_back(&self) -> Seq<Seq<u8>> {
        seq![
            self.buyer_payment_ata.key@,
            self.maker_payment_ata.key@,
            self.buyer_nft_ata.key@,
            self.listing.key@,
            self.vault.key@,
            self.treasury_payment_ata.key@,
        ]
    }

    /// The token accounts created where needed, in field order: the maker's
    /// and the treasury's for the payment mint, the buyer's for the NFT.
    pub open spec fn init_check(&self) -> Result<(), MarketError> {
        let tp = self.token_program@;
        then(
            init_if_needed_associated_check(self.maker_payment_ata, self.maker@, self.payment_mint.key@, tp),
            then(
                init_if_needed_associated_check(self.buyer_nft_ata, self.buyer@, self.maker_mint.key@, tp),
                init_if_needed_associated_check(self.treasury_payment_ata, self.treasury@, self.payment_mint.key@, tp),
            ),
        )
    }

    /// The accounts read as they are passed, in field order: the buyer has
    /// signed; the maker and the treasury are the system program's; the
    /// marketplace and the listing are the program's; the mints,
    /// the buyer's payment account and the vault are a token program's; then
    /// the program accounts.
    pub open spec fn load_check(&self, program_id: Seq<u8>) -> Result<(), MarketError> {
        then(
            signer_check(self.buyer_is_signer),
            then(
                system_owned_check(self.maker_owner@),
                then(
                    owned_by_check(self.marketplace.owner@, program_id),
                    then(
                        token_owned_check(self.maker_mint.program@),
                        then(
                            token_owned_check(self.payment_mint.program@),
                            then(
                                token_owned_check(self.buyer_payment_ata.program@),
                                then(
                                    owned_by_check(self.listing.owner@, program_id),
                                    then(
                                        token_owned_check(self.vault.program@),
                                        then(
                                            system_owned_check(self.treasury_owner@),
                                            programs_check(
                                                self.system_program@,
                                                self.token_program@,
                                                self.associated_token_program@,
                                            ),
                                        ),
                                    ),
                                ),
                            ),
                        ),
                    ),
                ),
            ),
        )
    }

    /// The account constraints, in the order they are checked: the accounts
    /// read as passed; then the token accounts created where needed; then
    /// that the accounts written back all differ; then the others in field
    /// order.
    pub open spec fn spec_validate(&self, program_id: Seq<u8>) -> Result<(), MarketError> {
        then(
            self.load_check(program_id),
            then(
                self.init_check(),
                then(
                    distinct_check(self.written_back()),
                    then(
                        self.marketplace.spec_check(program_id),
                        then(
                            associated_check(self.buyer_payment_ata, self.buyer@, self.payment_mint.key@),
                            then(
                                self.listing.spec_check(self.marketplace.key@, self.maker@, self.maker_mint.key@, program_id),
                                then(
                                    associated_check(self.vault, self.listing.key@, self.maker_mint.key@),
                                    self.marketplace.spec_check_treasury(self.treasury@, program_id),
                                ),
                            ),
                        ),
                    ),
                ),
            ),
        )
    }

    /// Checks the account constraints.
    pub fn validate(&self, program_id: &Key) -> (r: Result<(), MarketError>)
        ensures
            r == self.spec_validate(program_id@),
    {
        let tp = &self.token_program;
        check_signer(self.buyer_is_signer)?;
        check_system_owned(&self.maker_owner)?;
        check_owned_by(&self.marketplace.owner, program_id)?;
        check_token_owned(&self.maker_mint.program)?;
        check_token_owned(&self.payment_mint.program)?;
        check_token_owned(&self.buyer_payment_ata.program)?;
        check_owned_by(&self.listing.owner, program_id)?;
        check_token_owned(&self.vault.program)?;
        check_system_owned(&self.treasury_owner)?;
        check_programs(&self.system_program, tp, &self.associated_token_program)?;
        check_init_if_needed_associated(&self.maker_payment_ata, &self.maker, &self.payment_mint.key, tp)?;
        check_init_if_needed_associated(&self.buyer_nft_ata, &self.buyer, &self.maker_mint.key, tp)?;
        check_init_if_needed_associated(&self.treasury_payment_ata, &self.treasury, &self.payment_mint.key, tp)?;
        let mut written: Vec<Key> = Vec::new();
        written.push(self.buyer_payment_ata.key);
        written.push(self.maker_payment_ata.key);
        written.push(self.buyer_nft_ata.key);
        written.push(self.listing.key);
        written.push(self.vault.key);
        written.push(self.treasury_payment_ata.key);
        assert(keys_view(written@) =~= self.written_back());
        check_distinct(&written)?;
        self.marketplace.check(program_id)?;
        check_associated(&self.buyer_payment_ata, &self.buyer, &self.payment_mint.key)?;
        self.listing.check(&self.marketplace.key, &self.maker, &self.maker_mint.key, program_id)?;
        check_associated(&self.vault, &self.listing.key, &self.maker_mint.key)?;
        self.marketplace.check_treasury(&self.treasury, program_id)
    }

    /// The marketplace's fee on the price.
    pub open spec fn fee(&self) -> int {
        fee_of(self.listing.data.price, self.marketplace.data.fee)
    }

    /// The listing signing for its vault.
    pub open spec fn signer(&self) -> ListingSigner {
        self.listing.spec_signer(self.marketplace.key, self.maker, self.maker_mint.key)
    }

    /// The buyer pays the maker the price less the fee, and the treasury the
    /// fee, in tokens of the payment mint; the NFT moves from the vault to the
    /// buyer; the vault is closed, its lamports going to the maker.
    pub open spec fn spec_plan(&self) -> Seq<Action> {
        seq![
            Action::TransferTokens {
                from: self.buyer_payment_ata.key,
                mint: self.payment_mint.key,
                to: self.maker_payment_ata.key,
                authority: self.buyer,
                amount: (self.listing.data.price - self.fee()) as u64,
                decimals: self.payment_mint.decimals,
                signer: None,
            },
            Action::TransferTokens {
                from: self.buyer_payment_ata.key,
                mint: self.payment_mint.key,
                to: self.treasury_payment_ata.key,
                authority: self.buyer,
                amount: self.fee() as u64,
                decimals: self.payment_mint.decimals,
                signer: None,
            },
            Action::TransferTokens {
                from: self.vault.key,
                mint: self.maker_mint.key,
                to: self.buyer_nft_ata.key,
                authority: self.listing.key,
                amount: 1,
                decimals: self.maker_mint.decimals,
                signer: Some(self.signer()),
            },
            Action::CloseTokenAccount {
                account: self.vault.key,
                destination: self.maker,
                authority: self.listing.key,
                signer: Some(self.signer()),
            },
        ]
    }

    /// The listing must be priced in the payment mint passed.
    pub open spec fn payment_mint_accepted(&self) -> bool {
        self.listing.data.payment_mint == Some(self.payment_mint.key)
    }

    /// The handler's own refusals, before anything moves: a listing not
    /// priced in the payment mint (`InvalidPaymentMint`), then a buyer whose
    /// payment account holds less than the price (`InsufficientFunds`).
    pub open spec fn handler_check(&self) -> Result<(), MarketplaceError> {
        if !self.payment_mint_accepted() {
            Err(MarketplaceError::InvalidPaymentMint)
        } else if self.buyer_payment_amount < self.listing.data.price {
            Err(MarketplaceError::InsufficientFunds)
        } else {
            Ok(())
        }
    }

    /// The payment and the hand-over of the NFT, where the handler's own
    /// checks pass; else their error, with nothing to do.
    pub fn pay_and_transfer(&self) -> (r: Result<Vec<Action>, MarketplaceError>)
        requires
            self.marketplace.data.wf(),
        ensures
            self.handler_check() matches Err(e) ==> r == Err::<Vec<Action>, MarketplaceError>(e),
            self.handler_check() is Ok ==> (r matches Ok(plan) && plan@ == self.spec_plan()),
    {
        let accepted = match &self.listing.data.payment_mint {
            Some(k) => k.equals(&self.payment_mint.key),
            None => false,
        };
        if !accepted {
            return Err(MarketplaceError::InvalidPaymentMint);
        }
        if self.buyer_payment_amount < self.listing.data.price {
            return Err(MarketplaceError::InsufficientFunds);
        }
        let (fee, maker_amount) = split_payment(self.listing.data.price, self.marketplace.data.fee);
        let signer = ListingSigner {
            marketplace: self.marketplace.key,
            maker: self.maker,
            mint: self.maker_mint.key,
            bump: self.listing.data.bump,
        };
        let mut plan: Vec<Action> = Vec::new();
        plan.push(
            Action::TransferTokens {
                from: self.buyer_payment_ata.key,
                mint: self.payment_mint.key,
                to: self.maker_payment_ata.key,
                authority: self.buyer,
                amount: maker_amount,
                decimals: self.payment_mint.decimals,
                signer: None,
            },
        );
        plan.push(
            Action::TransferTokens {
                from: self.buyer_payment_ata.key,
                mint: self.payment_mint.key,
                to: self.treasury_payment_ata.key,
                authority: self.buyer,
                amount: fee,
                decimals: self.payment_mint.decimals,
                signer: None,
            },
        );
        plan.push(
            Action::TransferTokens {
                from: self.vault.key,
                mint: self.maker_mint.key,
                to: self.buyer_nft_ata.key,
                authority: self.listing.key,
                amount: 1,
                decimals: self.maker_mint.decimals,
                signer: Some(signer),
            },
        );
        plan.push(
            Action::CloseTokenAccount {
                account: self.vault.key,
                destination: self.maker,
                authority: self.listing.key,
                signer: Some(signer),
            },
        );
        assert(plan@ =~= self.spec_plan());
        Ok(plan)
    }
}

} // verus!
