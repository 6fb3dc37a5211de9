use vstd::prelude::*;

use crate::accounts::{MarketplaceAccount, MintAccount, OfferAccount};
use crate::constraints::{
    check_owned_by, check_signer, check_token_owned, owned_by_check, signer_check, then, token_owned_check,
};
use crate::error::MarketError;
use crate::ids::{check_program, program_check, SYSTEM_PROGRAM_ID};
use crate::key::Key;

verus! {

/// The accounts of `cancel_offer`: the buyer withdraws an offer; closing the
/// offer account returns the escrow and the rent to the buyer.
pub struct CancelOffer {
    pub buyer: Key,
    /// Whether the buyer signed the transaction.
    pub buyer_is_signer: bool,
    pub marketplace: MarketplaceAccount,
    pub mint: MintAccount,
    pub offer: OfferAccount,
    pub system_program: Key,
}

impl CancelOffer {
    /// The accounts read as they are passed, in field order: the buyer has
    /// signed; the marketplace and the offer are the program's; the mint is a
    /// token program's; the system program.
    pub open spec fn load_check(&self, program_id: Seq<u8>) -> Result<(), MarketError> {
        then(
            signer_check(self.buyer_is_signer),
            then(
                owned_by_check(self.marketplace.owner@, program_id),
                then(
                    token_owned_check(self.mint.program@),
                    then(
                        owned_by_check(self.offer.owner@, program_id),
                        program_check(self.system_program@, SYSTEM_PROGRAM_ID@),
                    ),
                ),
            ),
        )
    }

    /// The account constraints, in the order they are checked: the accounts
    /// read as passed, the marketplace, the offer.
    pub open spec fn spec_validate(&self, program_id: Seq<u8>) -> Result<(), MarketError> {
        then(
            self.load_check(program_id),
            then(
                self.marketplace.spec_check(program_id),
                self.offer.spec_check(self.marketplace.key@, self.mint.key@, self.buyer@, program_id),
            ),
        )
    }

    /// Checks the account constraints.
    pub fn validate(&self, program_id: &Key) -> (r: Result<(), MarketError>)
        ensures
            r == self.spec_validate(program_id@),
    {
        check_signer(self.buyer_is_signer)?;
        check_owned_by(&self.marketplace.owner, program_id)?;
        check_token_owned(&self.mint.program)?;
        check_owned_by(&self.offer.owner, program_id)?;
        check_program(&self.system_program, SYSTEM_PROGRAM_ID)?;
        self.marketplace.check(program_id)?;
        self.offer.check(&self.marketplace.key, &self.mint.key, &self.buyer, program_id)
    }

    /// The handler itself does nothing more: closing the offer account, which
    /// follows it, hands everything back to the buyer.
    pub fn cancel(&self) -> (r: Result<(), MarketError>)
        ensures
            r is Ok,
    {
        Ok(())
    }
}

} // verus!
