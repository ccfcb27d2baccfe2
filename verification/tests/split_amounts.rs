//! The two-percent split on chosen amounts.

use micro_escrow::{split, Split};

#[test]
fn five_hundred_splits_into_ten_and_four_hundred_ninety() {
    assert_eq!(split(500), Split { fee_amount: 10, payee_amount: 490 });
}

#[test]
fn fee_is_rounded_down_for_positive_amounts() {
    assert_eq!(split(0), Split { fee_amount: 0, payee_amount: 0 });
    assert_eq!(split(1), Split { fee_amount: 0, payee_amount: 1 });
    assert_eq!(split(49), Split { fee_amount: 0, payee_amount: 49 });
    assert_eq!(split(50), Split { fee_amount: 1, payee_amount: 49 });
    assert_eq!(split(99), Split { fee_amount: 1, payee_amount: 98 });
    assert_eq!(split(100), Split { fee_amount: 2, payee_amount: 98 });
    assert_eq!(split(149), Split { fee_amount: 2, payee_amount: 147 });
    assert_eq!(split(150), Split { fee_amount: 3, payee_amount: 147 });
    assert_eq!(split(1_000_000), Split { fee_amount: 20_000, payee_amount: 980_000 });
}

#[test]
fn fee_is_rounded_toward_zero_for_negative_amounts() {
    assert_eq!(split(-1), Split { fee_amount: 0, payee_amount: -1 });
    assert_eq!(split(-49), Split { fee_amount: 0, payee_amount: -49 });
    assert_eq!(split(-50), Split { fee_amount: -1, payee_amount: -49 });
    assert_eq!(split(-149), Split { fee_amount: -2, payee_amount: -147 });
    assert_eq!(split(-500), Split { fee_amount: -10, payee_amount: -490 });
}

#[test]
fn split_agrees_with_the_formula_where_it_fits() {
    for amount in -1000i128..=1000 {
        let parts = split(amount);
        assert_eq!(parts.fee_amount, amount * 2 / 100);
        assert_eq!(parts.payee_amount, amount - amount * 2 / 100);
    }
}

#[test]
fn split_covers_the_whole_range() {
    let top = split(i128::MAX);
    assert_eq!(top.fee_amount, 3_402_823_669_209_384_634_633_746_074_317_682_114);
    assert_eq!(top.fee_amount + top.payee_amount, i128::MAX);
    let bottom = split(i128::MIN);
    assert_eq!(bottom.fee_amount, -3_402_823_669_209_384_634_633_746_074_317_682_114);
    assert_eq!(bottom.fee_amount + bottom.payee_amount, i128::MIN);
}
