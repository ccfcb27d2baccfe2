//! The fee accumulator.

use micro_escrow::accumulator::{AccumulatorError, FeeAccumulator};

#[test]
fn total_starts_at_zero() {
    let acc = FeeAccumulator::new();
    assert_eq!(acc.total(), 0);
    assert_eq!(acc.stored(), None);
    assert_eq!(acc, FeeAccumulator::from_stored(None));
}

#[test]
fn fees_add_up() {
    let mut acc = FeeAccumulator::new();
    assert_eq!(acc.track_fee(10), Ok(()));
    assert_eq!(acc.total(), 10);
    assert_eq!(acc.stored(), Some(10));
    assert_eq!(acc.track_fee(32), Ok(()));
    assert_eq!(acc.track_fee(0), Ok(()));
    assert_eq!(acc.total(), 42);
    assert_eq!(acc.track_fee(-2), Ok(()));
    assert_eq!(acc.total(), 40);
    assert_eq!(acc, FeeAccumulator::from_stored(Some(40)));
}

#[test]
fn first_fee_of_zero_is_stored() {
    let mut acc = FeeAccumulator::new();
    assert_eq!(acc.track_fee(0), Ok(()));
    assert_eq!(acc.stored(), Some(0));
    assert_eq!(acc.total(), 0);
}

#[test]
fn overflow_fails_and_keeps_the_total() {
    let mut acc = FeeAccumulator::from_stored(Some(i128::MAX - 5));
    assert_eq!(acc.track_fee(5), Ok(()));
    assert_eq!(acc.total(), i128::MAX);
    assert_eq!(acc.track_fee(1), Err(AccumulatorError::Overflow));
    assert_eq!(acc.total(), i128::MAX);
    assert_eq!(acc.track_fee(-1), Ok(()));
    assert_eq!(acc.total(), i128::MAX - 1);

    let mut low = FeeAccumulator::from_stored(Some(i128::MIN));
    assert_eq!(low.track_fee(-1), Err(AccumulatorError::Overflow));
    assert_eq!(low.stored(), Some(i128::MIN));

    let mut empty = FeeAccumulator::new();
    assert_eq!(empty.track_fee(i128::MAX), Ok(()));
    assert_eq!(empty.track_fee(i128::MAX), Err(AccumulatorError::Overflow));
    assert_eq!(empty.total(), i128::MAX);
}
