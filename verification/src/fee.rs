use vstd::prelude::*;

verus! {

/// Fees are stated in basis points: 10000 is the whole amount.
pub const BASIS_POINTS: u16 = 10000;

/// The marketplace's cut of `amount` at `fee_bps` basis points, rounded down.
pub open spec fn fee_of(amount: u64, fee_bps: u16) -> int {
    (amount as int) * (fee_bps as int) / 10000
}

/// At most 10000 basis points, the fee is never more than the amount.
pub proof fn lemma_fee_bounded(amount: u64, fee_bps: u16)
    requires
        fee_bps <= 10000,
    ensures
        0 <= fee_of(amount, fee_bps) <= amount,
{
    assert(0 <= (amount as int) * (fee_bps as int) <= (amount as int) * 10000) by (nonlinear_arith)
        requires
            fee_bps <= 10000,
    ;
    assert((amount as int) * 10000 / 10000 == amount) by (nonlinear_arith);
    assert(((amount as int) * (fee_bps as int)) / 10000 <= ((amount as int) * 10000) / 10000) by (nonlinear_arith)
        requires
            (amount as int) * (fee_bps as int) <= (amount as int) * 10000,
    ;
}

/// Splits a payment of `amount` into the marketplace fee and what the seller
/// receives: `fee = amount * fee_bps / 10000`, `seller = amount - fee`.
pub fn split_payment(amount: u64, fee_bps: u16) -> (r: (u64, u64))
    requires
        fee_bps <= BASIS_POINTS,
    ensures
        r.0 == fee_of(amount, fee_bps),
        r.0 + r.1 == amount,
        r.0 <= amount,
{
    proof {
        lemma_fee_bounded(amount, fee_bps);
    }
    let product: u128 = (amount as u128) * (fee_bps as u128);
    let fee: u64 = (product / 10000) as u64;
    let seller: u64 = amount - fee;
    (fee, seller)
}

} // verus!
