//! The fee accumulator: a running total of the fees reported to it.

use vstd::prelude::*;

verus! {

/// Why a call on the accumulator failed.
#[derive(Clone, Copy, Debug, PartialEq, Eq, Structural)]
pub enum AccumulatorError {
    /// The new total would not fit in 128 bits.
    Overflow,
}

/// A fee accumulator: the total it stores, or nothing before the first fee.
#[derive(Clone, Copy, Debug, PartialEq, Eq, Structural)]
pub struct FeeAccumulator {
    stored: Option<i128>,
}

/// The running total of an accumulator that stores `stored`: zero while it
/// stores nothing.
pub open spec fn running_total(stored: Option<int>) -> int {
    match stored {
        Some(total) => total,
        None => 0,
    }
}

/// Whether `total` can be stored.
pub open spec fn fits(total: int) -> bool {
    i128::MIN <= total <= i128::MAX
}

/// What an accumulator that stored `stored` stores after `amount` was
/// reported to it: the new total where it fits, what it had where not.
pub open spec fn after_track_fee(stored: Option<int>, amount: int) -> Option<int> {
    if fits(running_total(stored) + amount) {
        Some(running_total(stored) + amount)
    } else {
        stored
    }
}

/// What an accumulator stores after `fees` were reported to it in order.
pub open spec fn after_fees(stored: Option<int>, fees: Seq<int>) -> Option<int>
    decreases fees.len(),
{
    if fees.len() == 0 {
        stored
    } else {
        after_track_fee(after_fees(stored, fees.drop_last()), fees.last())
    }
}

/// Whether each of `fees`, reported in order, is accepted.
pub open spec fn all_accepted(stored: Option<int>, fees: Seq<int>) -> bool
    decreases fees.len(),
{
    fees.len() > 0 ==> {
        &&& all_accepted(stored, fees.drop_last())
        &&& fits(running_total(after_fees(stored, fees.drop_last())) + fees.last())
    }
}

/// The sum of `fees`.
pub open spec fn sum(fees: Seq<int>) -> int
    decreases fees.len(),
{
    if fees.len() == 0 {
        0
    } else {
        sum(fees.drop_last()) + fees.last()
    }
}

impl View for FeeAccumulator {
    type V = Option<int>;

    closed spec fn view(&self) -> Option<int> {
        match self.stored {
            Some(total) => Some(total as int),
            None => None,
        }
    }
}

impl FeeAccumulator {
    /// A freshly deployed accumulator, which stores nothing.
    pub fn new() -> (acc: FeeAccumulator)
        ensures
            acc@ is None,
    {
        FeeAccumulator { stored: None }
    }

    /// The accumulator that stores `stored`.
    pub fn from_stored(stored: Option<i128>) -> (acc: FeeAccumulator)
        ensures
            acc@ == match stored {
                Some(total) => Some(total as int),
                None => None,
            },
    {
        FeeAccumulator { stored }
    }

    /// What the accumulator stores.
    pub fn stored(&self) -> (stored: Option<i128>)
        ensures
            self@ == match stored {
                Some(total) => Some(total as int),
                None => None,
            },
    {
        self.stored
    }

    /// The running total.
    pub fn total(&self) -> (total: i128)
        ensures
            total == running_total(self@),
    {
        match self.stored {
            Some(total) => total,
            None => 0,
        }
    }

    /// Adds `amount` to the running total and stores the result. Any caller
    /// may report a fee. A total that would leave the range of 128 bits is
    /// not stored: the call fails with `Overflow` and the total stays.
    pub fn track_fee(&mut self, amount: i128) -> (r: Result<(), AccumulatorError>)
        ensures
            r is Ok <==> fits(running_total(old(self)@) + amount),
            final(self)@ == after_track_fee(old(self)@, amount as int),
    {
        match self.total().checked_add(amount) {
            Some(total) => {
                self.stored = Some(total);
                Ok(())
            },
            None => Err(AccumulatorError::Overflow),
        }
    }
}

/// Fees add up: where each of `fees` was accepted, the running total has
/// grown by their sum.
pub proof fn lemma_fees_add_up(stored: Option<int>, fees: Seq<int>)
    requires
        all_accepted(stored, fees),
    ensures
        running_total(after_fees(stored, fees)) == running_total(stored) + sum(fees),
    decreases fees.len(),
{
    if fees.len() > 0 {
        lemma_fees_add_up(stored, fees.drop_last());
    }
}

} // verus!
