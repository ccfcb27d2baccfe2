//! How a released amount is divided between the payee and the fee collector.

use vstd::prelude::*;

verus! {

/// The fee, in hundredths of the amount.
pub const FEE_PERCENT: i128 = 2;

/// The quotient of `a` by a positive `b`, rounded toward zero.
pub open spec fn div_toward_zero(a: int, b: int) -> int {
    if a >= 0 {
        a / b
    } else {
        -((-a) / b)
    }
}

/// The fee on `amount`: two hundredths of it, rounded toward zero.
pub open spec fn fee_share(amount: int) -> int {
    div_toward_zero(amount * FEE_PERCENT, 100)
}

/// What is left of `amount` for the payee once the fee is taken.
pub open spec fn payee_share(amount: int) -> int {
    amount - fee_share(amount)
}

/// The two parts of a released amount.
#[derive(Clone, Copy, Debug, PartialEq, Eq, Structural)]
pub struct Split {
    pub fee_amount: i128,
    pub payee_amount: i128,
}

/// Divides `amount` into the fee and the payee's part. The fee is computed
/// first and the payee takes the rest, so the parts always add up to
/// `amount`, whatever the rounding.
pub fn split(amount: i128) -> (s: Split)
    ensures
        s.fee_amount == fee_share(amount as int),
        s.payee_amount == payee_share(amount as int),
        s.fee_amount + s.payee_amount == amount,
{
    let fee: i128 = amount / 50;
    Split { fee_amount: fee, payee_amount: amount - fee }
}

/// The parts of a split add up to the amount, and neither part lies outside
/// the range between zero and the amount.
pub proof fn lemma_split_conserves(amount: int)
    ensures
        fee_share(amount) + payee_share(amount) == amount,
        amount >= 0 ==> 0 <= fee_share(amount) <= amount && 0 <= payee_share(amount) <= amount,
        amount <= 0 ==> amount <= fee_share(amount) <= 0 && amount <= payee_share(amount) <= 0,
{
}

/// The fee is the largest whole number of units, counted toward zero, that
/// does not exceed two hundredths of the amount.
pub proof fn lemma_fee_is_truncated_percentage(amount: int)
    ensures
        amount >= 0 ==> 100 * fee_share(amount) <= 2 * amount < 100 * (fee_share(amount) + 1),
        amount <= 0 ==> 100 * (fee_share(amount) - 1) < 2 * amount <= 100 * fee_share(amount),
{
}

} // verus!
