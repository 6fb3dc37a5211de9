use vstd::prelude::*;

verus! {

/// The program's own errors.
#[derive(Clone, Copy, Debug, PartialEq, Eq, Structural)]
pub enum MarketplaceError {
    /// Name must be between 1 and 32 characters
    NameTooLong,
    /// Invalid fee. Fee must be between 0 and 10000
    InvalidFee,
    /// Price must be greater than zero
    InvalidPrice,
    /// Payment mint does not match the listing
    InvalidPaymentMint,
    /// Insufficient funds to complete the purchase
    InsufficientFunds,
    /// Offer amount must be greater than zero
    InvalidOffer,
    /// Token accounts mismatch
    TokenAccountsMismatch,
}

/// Why an instruction is refused: one of the program's own errors, or an
/// account that breaks one of the instruction's account constraints.
#[derive(Clone, Copy, Debug, PartialEq, Eq, Structural)]
pub enum MarketError {
    /// One of the program's own errors.
    Program(MarketplaceError),
    /// An account is not the address its seeds and bump derive.
    ConstraintSeeds,
    /// A token account is not the associated token account of its owner and mint.
    ConstraintAssociated,
    /// A stored key differs from the account passed beside it.
    ConstraintHasOne,
    /// No bump seed from 1 to 255 derives an address from the seeds.
    BumpNotFound,
    /// A program account is not the program it stands for.
    InvalidProgramId,
    /// A token account created here, or where needed, is not the associated
    /// token account of its owner and mint under the token program passed.
    AccountNotAssociatedTokenAccount,
    /// The same account is passed twice among the accounts written back.
    ConstraintDuplicateMutableAccount,
    /// An account to be closed is its own destination.
    ConstraintClose,
    /// An account that must sign the transaction did not.
    AccountNotSigner,
    /// An account is not owned by the program its type belongs to.
    AccountOwnedByWrongProgram,
    /// A wallet account is not owned by the system program.
    AccountNotSystemOwned,
    /// A token account belongs to another wallet than the one required.
    ConstraintTokenOwner,
    /// A token account holds another mint than the one required.
    ConstraintTokenMint,
    /// An existing associated token account is owned by another token program
    /// than the one passed.
    ConstraintAssociatedTokenTokenProgram,
}

} // verus!
