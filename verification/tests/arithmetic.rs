use typenum_alias::Const;
use typenum_alias::Ordering;

fn tag(n: i32) -> Const {
    Const::new(n)
}

#[test]
fn addition_is_exact() {
    assert_eq!(tag(3).add(tag(4)).unwrap(), tag(7));
    assert_eq!(tag(-2).add(tag(9)).unwrap(), tag(7));
    assert_eq!(tag(-16).add(tag(16)).unwrap(), tag(0));
}

#[test]
fn subtraction_is_exact() {
    assert_eq!(tag(10).sub(tag(15)).unwrap(), tag(-5));
    assert_eq!(tag(-7).sub(tag(-7)).unwrap(), tag(0));
}

#[test]
fn multiplication_is_exact() {
    assert_eq!(tag(2).mul(tag(3)).unwrap(), tag(6));
    assert_eq!(tag(-4).mul(tag(4)).unwrap(), tag(-16));
    assert_eq!(tag(-2).mul(tag(-8)).unwrap(), tag(16));
}

#[test]
fn result_outside_range_is_rejected() {
    // The operands are supported; 32 is not, so no result exists.
    assert!(tag(16).add(tag(16)).is_none());
    assert!(tag(-16).sub(tag(16)).is_none());
    assert!(tag(6).mul(tag(7)).is_none());
    assert!(tag(-16).neg().is_some());
}

#[test]
fn unsupported_operands_are_rejected() {
    assert!(tag(17).add(tag(1)).is_none());
    assert!(tag(1).add(tag(-42)).is_none());
    assert!(tag(100).neg().is_none());
    assert!(tag(5).compare(&tag(99)).is_none());
    assert!(tag(17).gcd(tag(1)).is_none());
    assert!(tag(-17).max(tag(2)).is_none());
}

#[test]
fn division_truncates_toward_zero() {
    assert_eq!(tag(7).div(tag(2)).unwrap(), tag(3));
    assert_eq!(tag(-7).div(tag(2)).unwrap(), tag(-3));
    assert_eq!(tag(16).div(tag(-5)).unwrap(), tag(-3));
    assert_eq!(tag(-15).div(tag(-4)).unwrap(), tag(3));
    assert_eq!(tag(0).div(tag(5)).unwrap(), tag(0));
    assert_eq!(tag(3).div(tag(16)).unwrap(), tag(0));
}

#[test]
fn division_by_zero_is_undefined() {
    assert!(tag(5).div(tag(0)).is_none());
    assert!(tag(0).div(tag(0)).is_none());
    assert!(tag(5).partial_div(tag(0)).is_none());
}

#[test]
fn partial_division_demands_exactness() {
    assert_eq!(tag(12).partial_div(tag(4)).unwrap(), tag(3));
    assert_eq!(tag(12).partial_div(tag(-4)).unwrap(), tag(-3));
    assert!(tag(7).partial_div(tag(2)).is_none());
    assert!(tag(-9).partial_div(tag(6)).is_none());
    assert_eq!(tag(0).partial_div(tag(5)).unwrap(), tag(0));
}

#[test]
fn gcd_is_taken_over_magnitudes() {
    assert_eq!(tag(12).gcd(tag(8)).unwrap(), tag(4));
    assert_eq!(tag(-12).gcd(tag(8)).unwrap(), tag(4));
    assert_eq!(tag(12).gcd(tag(-8)).unwrap(), tag(4));
    assert_eq!(tag(16).gcd(tag(0)).unwrap(), tag(16));
    assert_eq!(tag(0).gcd(tag(0)).unwrap(), tag(0));
}

#[test]
fn max_and_min_pick_an_operand() {
    assert_eq!(tag(3).max(tag(-5)).unwrap(), tag(3));
    assert_eq!(tag(3).min(tag(-5)).unwrap(), tag(-5));
    assert_eq!(tag(4).max(tag(4)).unwrap(), tag(4));
}

#[test]
fn comparison_orders_by_value() {
    assert_eq!(tag(5).compare(&tag(3)).unwrap(), Ordering::Greater);
    assert_eq!(tag(-2).compare(&tag(0)).unwrap(), Ordering::Less);
    assert_eq!(tag(4).compare(&tag(4)).unwrap(), Ordering::Equal);
}

#[test]
fn negation_and_absolute_value() {
    assert_eq!(tag(5).neg().unwrap(), tag(-5));
    assert_eq!(tag(-16).neg().unwrap(), tag(16));
    assert_eq!(tag(-5).abs().unwrap(), tag(5));
    assert_eq!(tag(5).abs().unwrap(), tag(5));
}

#[test]
fn zero_is_the_additive_identity() {
    for n in -16..=16 {
        assert_eq!(tag(0).add(tag(n)).unwrap(), tag(n));
        assert_eq!(tag(n).add(tag(0)).unwrap(), tag(n));
    }
    assert_eq!(tag(0).neg().unwrap(), tag(0));
}

#[test]
fn logarithm_is_floored_and_demands_a_positive_operand() {
    assert_eq!(tag(1).log2().unwrap(), tag(0));
    assert_eq!(tag(2).log2().unwrap(), tag(1));
    assert_eq!(tag(8).log2().unwrap(), tag(3));
    assert_eq!(tag(10).log2().unwrap(), tag(3));
    assert_eq!(tag(16).log2().unwrap(), tag(4));
    assert!(tag(0).log2().is_none());
    assert!(tag(-3).log2().is_none());
}

#[test]
fn square_root_is_floored_and_demands_a_nonnegative_operand() {
    assert_eq!(tag(0).sqrt().unwrap(), tag(0));
    assert_eq!(tag(1).sqrt().unwrap(), tag(1));
    assert_eq!(tag(9).sqrt().unwrap(), tag(3));
    assert_eq!(tag(15).sqrt().unwrap(), tag(3));
    assert_eq!(tag(16).sqrt().unwrap(), tag(4));
    assert!(tag(-9).sqrt().is_none());
}
