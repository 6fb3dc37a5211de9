use vstd::prelude::*;

use crate::accounts::{ListingAccount, MarketplaceAccount, MintAccount, OfferAccount, TokenAccount};
use crate::action::{Action, ListingSigner};
use crate::constraints::{
    associated_check, check_associated, check_distinct, check_init_if_needed_associated, check_owned_by,
    check_signer, check_system_owned, system_owned_check, check_token_owned, distinct_check, init_if_needed_associated_check, keys_view, owned_by_check,
    signer_check, then, token_owned_check,
};
use crate::ids::{check_programs, programs_check};
use crate::error::MarketError;
use crate::fee::{fee_of, split_payment};
use crate::key::Key;

verus! {

/// The accounts of `accept_offer`: the maker sells the listed NFT to the
/// buyer for the lamports the buyer's offer holds in escrow.
pub struct AcceptOffer {
    pub maker: Key,
    /// Whether the maker signed the transaction.
    pub maker_is_signer: bool,
    pub marketplace: MarketplaceAccount,
    pub buyer: Key,
    /// The program owning the buyer's account.
    pub buyer_owner: Key,
    pub maker_mint: MintAccount,
    /// The buyer's token account for the NFT, created where needed (as it
    /// stands once created).
    pub buyer_ata: TokenAccount,
    pub listing: ListingAccount,
    /// The listing's token account that holds the NFT.
    pub vault: TokenAccount,
    pub offer: OfferAccount,
    pub treasury: Key,
    /// The program owning the treasury's account.
    pub treasury_owner: Key,
    pub system_program: Key,
    pub token_program: Key,
    pub associated_token_program: Key,
}

impl AcceptOffer {
    /// The accounts written back at the end, which must all differ.
    pub open spec fn written_back(&self) -> Seq<Seq<u8>> {
        seq![self.buyer_ata.key@, self.listing.key@, self.vault.key@, self.offer.key@]
    }

    /// The accounts read as they are passed, in field order: the maker has
    /// signed; the marketplace, the listing and the offer are the program's;
    /// the buyer and the treasury are the system program's; the mint and the
    /// vault are a token program's; then the program accounts.
    pub open spec fn load_check(&self, program_id: Seq<u8>) -> Result<(), MarketError> {
        then(
            signer_check(self.maker_is_signer),
            then(
                owned_by_check(self.marketplace.owner@, program_id),
                then(
                    system_owned_check(self.buyer_owner@),
                    then(
                        token_owned_check(self.maker_mint.program@),
                        then(
                            owned_by_check(self.listing.owner@, program_id),
                            then(
                                token_owned_check(self.vault.program@),
                                then(
                                    owned_by_check(self.offer.owner@, program_id),
                                    then(
                                        system_owned_check(self.treasury_owner@),
                                        programs_check(
                                            self.system_program@,
                                            self.token_program@,
                                            self.associated_token_program@,
                                        ),
                                    ),
                                ),
                            ),
                        ),
                    ),
                ),
            ),
        )
    }

    /// The account constraints, in the order they are checked: the accounts
    /// read as passed; then the buyer's token account, created where needed;
    /// then that the accounts written back all differ; then the others in
    /// field order.
    pub open spec fn spec_validate(&self, program_id: Seq<u8>) -> Result<(), MarketError> {
        then(
            self.load_check(program_id),
            then(
                init_if_needed_associated_check(self.buyer_ata, self.buyer@, self.maker_mint.key@, self.token_program@),
                then(
                    distinct_check(self.written_back()),
                    then(
                        self.marketplace.spec_check(program_id),
                        then(
                            self.listing.spec_check(self.marketplace.key@, self.maker@, self.maker_mint.key@, program_id),
                            then(
                                associated_check(self.vault, self.listing.key@, self.maker_mint.key@),
                                then(
                                    self.offer.spec_check(self.marketplace.key@, self.maker_mint.key@, self.buyer@, program_id),
                                    self.marketplace.spec_check_treasury(self.treasury@, program_id),
                                ),
                            ),
                        ),
                    ),
                ),
            ),
        )
    }

    /// Checks the account constraints.
    pub fn validate(&self, program_id: &Key) -> (r: Result<(), MarketError>)
        ensures
            r == self.spec_validate(program_id@),
    {
        check_signer(self.maker_is_signer)?;
        check_owned_by(&self.marketplace.owner, program_id)?;
        check_system_owned(&self.buyer_owner)?;
        check_token_owned(&self.maker_mint.program)?;
        check_owned_by(&self.listing.owner, program_id)?;
        check_token_owned(&self.vault.program)?;
        check_owned_by(&self.offer.owner, program_id)?;
        check_system_owned(&self.treasury_owner)?;
        check_programs(&self.system_program, &self.token_program, &self.associated_token_program)?;
        check_init_if_needed_associated(&self.buyer_ata, &self.buyer, &self.maker_mint.key, &self.token_program)?;
        let mut written: Vec<Key> = Vec::new();
        written.push(self.buyer_ata.key);
        written.push(self.listing.key);
        written.push(self.vault.key);
        written.push(self.offer.key);
        assert(keys_view(written@) =~= self.written_back());
        check_distinct(&written)?;
        self.marketplace.check(program_id)?;
        self.listing.check(&self.marketplace.key, &self.maker, &self.maker_mint.key, program_id)?;
        check_associated(&self.vault, &self.listing.key, &self.maker_mint.key)?;
        self.offer.check(&self.marketplace.key, &self.maker_mint.key, &self.buyer, program_id)?;
        self.marketplace.check_treasury(&self.treasury, program_id)
    }

    /// The marketplace's fee on the offered amount.
    pub open spec fn fee(&self) -> int {
        fee_of(self.offer.data.offer_amount, self.marketplace.data.fee)
    }

    /// The listing signing for its vault.
    pub open spec fn signer(&self) -> ListingSigner {
        self.listing.spec_signer(self.marketplace.key, self.maker, self.maker_mint.key)
    }

    /// The NFT moves from the vault to the buyer; the vault is closed, its
    /// lamports going to the maker; the offered amount leaves the offer
    /// account, the maker receiving it less the fee and the treasury the fee.
    pub open spec fn spec_plan(&self) -> Seq<Action> {
        seq![
            Action::TransferTokens {
                from: self.vault.key,
                mint: self.maker_mint.key,
                to: self.buyer_ata.key,
                authority: self.listing.key,
                amount: 1,
                decimals: self.maker_mint.decimals,
                signer: Some(self.signer()),
            },
            Action::CloseTokenAccount {
                account: self.vault.key,
                destination: self.maker,
                authority: self.listing.key,
                signer: Some(self.signer()),
            },
            Action::DebitLamports { account: self.offer.key, amount: self.offer.data.offer_amount },
            Action::CreditLamports {
                account: self.maker,
                amount: (self.offer.data.offer_amount - self.fee()) as u64,
            },
            Action::CreditLamports { account: self.treasury, amount: self.fee() as u64 },
        ]
    }

    /// The hand-over of the NFT and the release of the escrow.
    pub fn accept(&self) -> (plan: Vec<Action>)
        requires
            self.marketplace.data.wf(),
        ensures
            plan@ == self.spec_plan(),
    {
        let signer = ListingSigner {
            marketplace: self.marketplace.key,
            maker: self.maker,
            mint: self.maker_mint.key,
            bump: self.listing.data.bump,
        };
        let mut plan: Vec<Action> = Vec::new();
        plan.push(
            Action::TransferTokens {
                from: self.vault.key,
                mint: self.maker_mint.key,
                to: self.buyer_ata.key,
                authority: self.listing.key,
                amount: 1,
                decimals: self.maker_mint.decimals,
                signer: Some(signer),
            },
        );
        plan.push(
            Action::CloseTokenAccount {
                account: self.vault.key,
                destination: self.maker,
                authority: self.listing.key,
                signer: Some(signer),
            },
        );
        let offer_amount = self.offer.data.offer_amount;
        let (fee, maker_amount) = split_payment(offer_amount, self.marketplace.data.fee);
        plan.push(Action::DebitLamports { account: self.offer.key, amount: offer_amount });
        plan.push(Action::CreditLamports { account: self.maker, amount: maker_amount });
        plan.push(Action::CreditLamports { account: self.treasury, amount: fee });
        assert(plan@ =~= self.spec_plan());
        plan
    }
}

} // verus!
