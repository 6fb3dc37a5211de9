use vstd::prelude::*;

use crate::accounts::{MarketplaceAccount, MintAccount};
use crate::action::Action;
use crate::constraints::{
    check_owned_by, check_signer, check_token_owned, find_bump, init_seeds_check, owned_by_check, signer_check, then,
    token_owned_check,
};
use crate::error::{MarketError, MarketplaceError};
use crate::ids::{check_program, program_check, SYSTEM_PROGRAM_ID};
use crate::key::Key;
use crate::seeds::{build_offer_seeds, offer_seeds};
use crate::state::Offer;

verus! {

/// The accounts of `make_offer`: a buyer offers lamports for an NFT, held in
/// escrow by the offer account.
pub struct MakeOffer {
    pub buyer: Key,
    /// Whether the buyer signed the transaction.
    pub buyer_is_signer: bool,
    pub marketplace: MarketplaceAccount,
    pub mint: MintAccount,
    /// The offer account, created here.
    pub offer: Key,
    pub system_program: Key,
}

/// The bump found for the offer account.
#[derive(Clone, Copy, Debug)]
pub struct MakeOfferBumps {
    pub offer: u8,
}

impl MakeOffer {
    /// The accounts read as they are passed, in field order: the buyer has
    /// signed; the marketplace is the program's; the mint is a token
    /// program's; the system program.
    pub open spec fn load_check(&self, program_id: Seq<u8>) -> Result<(), MarketError> {
        then(
            signer_check(self.buyer_is_signer),
            then(
                owned_by_check(self.marketplace.owner@, program_id),
                then(
                    token_owned_check(self.mint.program@),
                    program_check(self.system_program@, SYSTEM_PROGRAM_ID@),
                ),
            ),
        )
    }

    /// The account constraints, in the order they are checked: the accounts
    /// read as passed; then the offer, created here, whose address gives its
    /// canonical bump; then the marketplace. The offer's canonical bump where
    /// all hold.
    pub open spec fn spec_validate(&self, program_id: Seq<u8>) -> Result<MakeOfferBumps, MarketError> {
        then(
            self.load_check(program_id),
            match init_seeds_check(
                self.offer@,
                offer_seeds(self.marketplace.key@, self.mint.key@, self.buyer@),
                program_id,
            ) {
                Err(e) => Err(e),
                Ok(bump) => then(self.marketplace.spec_check(program_id), Ok(MakeOfferBumps { offer: bump })),
            },
        )
    }

    /// Checks the account constraints and finds the offer's bump.
    pub fn validate(&self, program_id: &Key) -> (r: Result<MakeOfferBumps, MarketError>)
        ensures
            r == self.spec_validate(program_id@),
    {
        check_signer(self.buyer_is_signer)?;
        check_owned_by(&self.marketplace.owner, program_id)?;
        check_token_owned(&self.mint.program)?;
        check_program(&self.system_program, SYSTEM_PROGRAM_ID)?;
        let seeds = build_offer_seeds(&self.marketplace.key, &self.mint.key, &self.buyer);
        let bump = find_bump(&self.offer, &seeds, program_id)?;
        self.marketplace.check(program_id)?;
        Ok(MakeOfferBumps { offer: bump })
    }

    /// The offer to store, in lamports.
    pub open spec fn spec_offer(&self, offer_amount: u64, bumps: MakeOfferBumps) -> Offer {
        Offer { buyer: self.buyer, mint: self.mint.key, payment_mint: None, offer_amount, bump: bumps.offer }
    }

    /// The offered lamports move from the buyer into the offer account.
    pub open spec fn spec_escrow(&self, offer_amount: u64) -> Action {
        Action::TransferLamports { from: self.buyer, to: self.offer, amount: offer_amount }
    }

    /// The offer to store and the escrow transfer: refused with
    /// `InvalidOffer` where the amount is 0.
    pub fn process(&self, offer_amount: u64, bumps: &MakeOfferBumps) -> (r: Result<(Offer, Action), MarketplaceError>)
        ensures
            offer_amount == 0 ==> r == Err::<(Offer, Action), MarketplaceError>(MarketplaceError::InvalidOffer),
            offer_amount > 0 ==> r == Ok::<(Offer, Action), MarketplaceError>(
                (self.spec_offer(offer_amount, *bumps), self.spec_escrow(offer_amount)),
            ),
    {
        if !(offer_amount > 0) {
            return Err(MarketplaceError::InvalidOffer);
        }
        let offer = Offer {
            buyer: self.buyer,
            mint: self.mint.key,
            payment_mint: None,
            offer_amount,
            bump: bumps.offer,
        };
        let escrow = Action::TransferLamports { from: self.buyer, to: self.offer, amount: offer_amount };
        Ok((offer, escrow))
    }
}

} // verus!
