use ordered_float::{Bits32, Bits64, Float, FloatIsNaN, NotNaN, OrderedFloat};
use std::cmp::Ordering;

fn b32(x: f32) -> Bits32 {
    Bits32::from_bits(x.to_bits())
}

fn b64(x: f64) -> Bits64 {
    Bits64::from_bits(x.to_bits())
}

fn nn32(x: f32) -> NotNaN<Bits32> {
    NotNaN::new(b32(x)).unwrap()
}

#[test]
fn notnan_order_is_transitive_and_antisymmetric() {
    assert_eq!(nn32(-3.0).cmp(&nn32(1.5)), Ordering::Less);
    assert_eq!(nn32(1.5).cmp(&nn32(200.0)), Ordering::Less);
    assert_eq!(nn32(-3.0).cmp(&nn32(200.0)), Ordering::Less);
    assert_eq!(nn32(200.0).cmp(&nn32(-3.0)), Ordering::Greater);
}

#[test]
fn notnan_order_agrees_with_infinities() {
    assert_eq!(nn32(f32::INFINITY).cmp(&nn32(1.0e30)), Ordering::Greater);
    assert_eq!(nn32(f32::NEG_INFINITY).cmp(&nn32(-1.0e30)), Ordering::Less);
    assert_eq!(nn32(f32::NEG_INFINITY).cmp(&nn32(f32::INFINITY)), Ordering::Less);
}

#[test]
fn notnan_error_value_and_description() {
    let err: FloatIsNaN = NotNaN::new(Bits32::from_bits(f32::NAN.to_bits())).unwrap_err();
    assert_eq!(err, FloatIsNaN);
    assert_eq!(err.description(), "NotNaN constructed with NaN");
}

#[test]
fn notnan_equality_is_numeric() {
    assert!(nn32(7.0) == nn32(7.0));
    assert!(nn32(7.0) != nn32(8.0));
    assert!(nn32(0.0) == nn32(-0.0));
}

#[test]
fn notnan_equal_values_hash_equal() {
    assert_eq!(nn32(7.0).hash_value(), nn32(7.0).hash_value());
    assert_eq!(nn32(0.0).hash_value(), nn32(-0.0).hash_value());
    let a = NotNaN::new(b64(0.0)).unwrap();
    let b = NotNaN::new(b64(-0.0)).unwrap();
    assert_eq!(a.hash_value(), b.hash_value());
}

#[test]
fn notnan_roundtrip_yields_equal_wrapper() {
    let w = nn32(3.5);
    let w2 = NotNaN::new(w.into_inner()).unwrap();
    assert!(w == w2);
    assert_eq!(w.cmp(&w2), Ordering::Equal);
}

#[test]
fn notnan_construct_seven_unwraps_to_seven() {
    let w = nn32(7.0);
    assert_eq!(w.into_inner().to_bits(), 7.0f32.to_bits());
    let w64 = NotNaN::new(b64(7.0)).unwrap();
    assert_eq!(w64.into_inner().to_bits(), 7.0f64.to_bits());
}

#[test]
fn notnan_unchecked_new_matches_checked() {
    let a = NotNaN::unchecked_new(b32(2.0));
    let b = nn32(2.0);
    assert!(a == b);
    assert_eq!(a.as_ref().to_bits(), 2.0f32.to_bits());
}

#[test]
fn ordered_float_nan_above_infinity() {
    let nan: Bits32 = Float::nan();
    assert_eq!(
        OrderedFloat(nan).cmp(&OrderedFloat(b32(f32::INFINITY))),
        Ordering::Greater
    );
    assert_eq!(
        OrderedFloat(b32(f32::INFINITY)).cmp(&OrderedFloat(nan)),
        Ordering::Less
    );
}

#[test]
fn ordered_float_equality_with_nan() {
    let nan = OrderedFloat(b32(f32::NAN));
    let one = OrderedFloat(b32(1.0));
    assert!(nan == nan);
    assert!(nan != one);
    assert!(one != nan);
    assert!(one == OrderedFloat(b32(1.0)));
    assert!(OrderedFloat(b32(0.0)) == OrderedFloat(b32(-0.0)));
}

#[test]
fn ordered_float_distinct_nan_payloads_are_equal_and_hash_equal() {
    let quiet = OrderedFloat(Bits32::from_bits(0x7FC0_0001));
    let signalling = OrderedFloat(Bits32::from_bits(0xFFA0_0123));
    assert!(quiet == signalling);
    assert_eq!(quiet.cmp(&signalling), Ordering::Equal);
    assert_eq!(quiet.hash_value(), signalling.hash_value());
    let q64 = OrderedFloat(Bits64::from_bits(0x7FF8_0000_0000_0001));
    let s64 = OrderedFloat(Bits64::from_bits(0xFFF0_0000_0000_0123));
    assert!(q64 == s64);
    assert_eq!(q64.hash_value(), s64.hash_value());
}

#[test]
fn ordered_float_zeroes_hash_equal() {
    let pz = OrderedFloat(b32(0.0));
    let nz = OrderedFloat(b32(-0.0));
    assert!(pz == nz);
    assert_eq!(pz.hash_value(), nz.hash_value());
}

#[test]
fn ordered_float_roundtrip_yields_equal_wrapper() {
    let w = OrderedFloat(b64(-2.25));
    let w2 = OrderedFloat(w.into_inner());
    assert!(w == w2);
    let nan = OrderedFloat(b32(f32::NAN));
    let nan2 = OrderedFloat(nan.into_inner());
    assert!(nan == nan2);
}

#[test]
fn ordered_float_transitive_across_signs() {
    let a = OrderedFloat(b64(-1.0e6));
    let b = OrderedFloat(b64(0.0));
    let c = OrderedFloat(b64(2.5));
    assert_eq!(a.cmp(&b), Ordering::Less);
    assert_eq!(b.cmp(&c), Ordering::Less);
    assert_eq!(a.cmp(&c), Ordering::Less);
}

#[test]
fn ordered_float_set_replaces_payload() {
    let mut w = OrderedFloat(b32(1.0));
    w.set(b32(5.0));
    assert_eq!(w.cmp(&OrderedFloat(b32(5.0))), Ordering::Equal);
    w.set(b32(f32::NAN));
    assert!(w == OrderedFloat(b32(f32::NAN)));
}

#[test]
fn ordered_float_from_wraps_value() {
    let w: OrderedFloat<Bits32> = OrderedFloat::from(b32(9.0));
    assert_eq!(w.cmp(&OrderedFloat(b32(9.0))), Ordering::Equal);
    assert_eq!(w.as_ref().to_bits(), 9.0f32.to_bits());
}

#[test]
fn comparison_operators_follow_the_order() {
    assert!(nn32(4.0) < nn32(7.0));
    assert!(nn32(8.0) > nn32(7.0));
    assert!(nn32(7.0) <= nn32(7.0));
    assert!(OrderedFloat(b32(f32::NAN)) > OrderedFloat(b32(f32::INFINITY)));
    assert!(OrderedFloat(b64(-100.0)) < OrderedFloat(b64(f64::NAN)));
    assert!(OrderedFloat(b32(f32::NAN)) >= OrderedFloat(b32(f32::NAN)));
}

#[test]
fn bits_roundtrip() {
    assert_eq!(Bits32::from_bits(0x4212_3456).to_bits(), 0x4212_3456);
    assert_eq!(Bits64::from_bits(0x4212_3456_789A_BCDE).to_bits(), 0x4212_3456_789A_BCDE);
    let nan32: Bits32 = Float::nan();
    assert!(f32::from_bits(nan32.to_bits()).is_nan());
    let nan64: Bits64 = Float::nan();
    assert!(f64::from_bits(nan64.to_bits()).is_nan());
}
