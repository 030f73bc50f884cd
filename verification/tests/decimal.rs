use qkukeb_engine::decimal::FixedDecimal;
use std::cmp::Ordering;

#[test]
fn test_fixed_decimal_basic() {
    let a = FixedDecimal::new(12345, 2); // 123.45
    let b = FixedDecimal::new(10, 0); // 10
    let sum = a + b;
    assert_eq!(sum.raw_units, 13345);
    assert_eq!(sum.scale, 2);

    let diff = a - b;
    assert_eq!(diff.raw_units, 11345);
    assert_eq!(diff.scale, 2);
}

#[test]
fn test_comparison() {
    let a = FixedDecimal::new(1000, 1); // 100.0
    let b = FixedDecimal::new(9999, 2); // 99.99
    assert!(a > b);
}

#[test]
fn rescaling_up_keeps_the_value_and_down_rounds_towards_zero() {
    let d = FixedDecimal::new(-199, 2);
    assert_eq!(d.rescale(4), FixedDecimal::new(-19900, 4));
    assert_eq!(d.rescale(2), d);
    assert_eq!(d.rescale(1), FixedDecimal::new(-19, 1));
    assert_eq!(d.rescale(0), FixedDecimal::new(-1, 0));
    assert_eq!(FixedDecimal::new(199, 2).rescale(1), FixedDecimal::new(19, 1));
}

#[test]
fn rescaling_that_does_not_fit_is_refused() {
    assert_eq!(FixedDecimal::new(1, 0).checked_rescale(18), Some(FixedDecimal::new(1_000_000_000_000_000_000, 18)));
    assert_eq!(FixedDecimal::new(10, 0).checked_rescale(18), None);
    assert_eq!(FixedDecimal::new(0, 0).checked_rescale(19), None);
    assert_eq!(FixedDecimal::new(i64::MAX, 19).checked_rescale(0), None);
    assert_eq!(FixedDecimal::new(i64::MAX, 18).checked_rescale(0), Some(FixedDecimal::new(9, 0)));
}

#[test]
fn a_pair_is_brought_to_the_finer_scale() {
    let a = FixedDecimal::new(3, 1);
    let b = FixedDecimal::new(25, 3);
    assert_eq!(FixedDecimal::normalize_pair(&a, &b), (300, 25, 3));
    assert_eq!(FixedDecimal::normalize_pair(&b, &a), (25, 300, 3));
    assert_eq!(FixedDecimal::checked_normalize_pair(&FixedDecimal::new(1, 0), &FixedDecimal::new(1, 19)), None);
}

#[test]
fn sums_and_differences_that_do_not_fit_are_refused() {
    let max = FixedDecimal::new(i64::MAX, 0);
    let min = FixedDecimal::new(i64::MIN, 0);
    let one = FixedDecimal::new(1, 0);
    assert_eq!(max.checked_add(one), None);
    assert_eq!(min.checked_sub(one), None);
    assert_eq!(max.checked_sub(one), Some(FixedDecimal::new(i64::MAX - 1, 0)));
    assert_eq!(max.checked_add(FixedDecimal::new(1, 1)), None);
}

#[test]
fn addition_commutes_and_subtraction_undoes_it() {
    let a = FixedDecimal::new(12345, 2);
    let b = FixedDecimal::new(-7, 5);
    assert_eq!(a + b, b + a);
    let back = (a + b) - b;
    assert_eq!(back, FixedDecimal::new(12_345_000, 5));
    assert_eq!(back.cmp(&a), Ordering::Equal);
}

#[test]
fn the_order_goes_by_value_across_scales() {
    let small = FixedDecimal::new(999, 3);
    let one = FixedDecimal::new(1, 0);
    let same = FixedDecimal::new(1000, 3);
    assert!(small < one);
    assert!(one > small);
    assert_eq!(one.cmp(&same), Ordering::Equal);
    assert_eq!(small.partial_cmp(&same), Some(Ordering::Less));
    assert!(one.has_reached(&same));
    assert!(!small.has_reached(&one));
    // Two numbers that cannot be brought to one scale are still ordered.
    assert_eq!(FixedDecimal::new(1, 0).cmp(&FixedDecimal::new(i64::MAX, 40)), Ordering::Greater);
    assert_eq!(FixedDecimal::new(-1, 0).cmp(&FixedDecimal::new(i64::MIN, 40)), Ordering::Less);
    assert_eq!(FixedDecimal::new(0, 0).cmp(&FixedDecimal::new(0, 40)), Ordering::Equal);
}

#[test]
fn the_default_is_zero() {
    assert_eq!(FixedDecimal::default(), FixedDecimal::zero());
    assert_eq!(FixedDecimal::zero(), FixedDecimal::new(0, 0));
}
