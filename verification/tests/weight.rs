use std::collections::HashSet;

use ai_gateway::weight::Weight;
use rust_decimal::Decimal;

#[test]
fn whole_number_weight_is_the_decimal_integer() {
    let one = Weight::from_u64(1);
    assert_eq!((one.mantissa(), one.scale()), (1, 0));
    assert_eq!(Decimal::from_i128_with_scale(one.mantissa(), one.scale()), Decimal::ONE);
    let big = Weight::from_u64(u64::MAX);
    assert_eq!(big.mantissa(), u64::MAX as i128);
    assert_eq!(big.scale(), 0);
}

#[test]
fn parts_must_be_a_decimal() {
    assert!(Weight::from_parts(15, 1).is_some());
    assert!(Weight::from_parts(-7, 28).is_some());
    assert!(Weight::from_parts(0, 0).is_some());
    assert!(Weight::from_parts(10, 1).is_some());
    assert!(Weight::from_parts(0, 2).is_some());
    assert!(Weight::from_parts(7, 29).is_none());
    assert!(Weight::from_parts(1i128 << 96, 0).is_none());
    assert!(Weight::from_parts(-(1i128 << 96), 0).is_none());
    assert!(Weight::from_parts((1i128 << 96) - 1, 0).is_some());
}

#[test]
fn parts_round_trip_as_written() {
    let w = Weight::from_parts(150, 2).unwrap();
    assert_eq!((w.mantissa(), w.scale()), (150, 2));
    assert_eq!(
        Decimal::from_i128_with_scale(w.mantissa(), w.scale()).to_string(),
        "1.50"
    );
}

#[test]
fn weights_compare_and_hash_by_value() {
    let a = Weight::from_parts(150, 2).unwrap();
    let b = Weight::from_parts(15, 1).unwrap();
    let c = Weight::from_parts(-150, 2).unwrap();
    assert_eq!(a, b);
    assert_ne!(a, c);
    assert_eq!(a.normalized(), (15, 1));
    assert_eq!(c.normalized(), (-15, 1));
    assert_eq!(Weight::from_parts(0, 5).unwrap().normalized(), (0, 0));
    assert_eq!(Weight::from_parts(0, 5).unwrap(), Weight::from_u64(0));
    let mut set = HashSet::new();
    set.insert(a);
    set.insert(b);
    set.insert(Weight::from_parts(1500, 3).unwrap());
    assert_eq!(set.len(), 1);
    assert!(set.insert(c));
}

#[test]
fn hash_key_stands_for_the_value() {
    let a = Weight::from_parts(150, 2).unwrap();
    let b = Weight::from_parts(15, 1).unwrap();
    assert_eq!(a.hash_key(), b.hash_key());
    assert_eq!(a.hash_key(), 15 * 32 + 1);
    assert_eq!(Weight::from_parts(-3, 0).unwrap().hash_key(), -96);
    assert_ne!(Weight::from_parts(1, 1).unwrap().hash_key(), Weight::from_u64(1).hash_key());
}
