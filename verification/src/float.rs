//! The mathematical model of a floating-point value, and the capability
//! an element type must offer to be wrapped.
//!
//! A floating-point value is either NaN or a number. For the purposes of
//! ordering and equality a number is fully described by one integer, its
//! *order key*: the key of a non-negative value is its magnitude bit
//! pattern, the key of a negative value is the negation of its magnitude
//! bit pattern. Two numbers are numerically equal exactly when their keys
//! are equal (in particular, positive and negative zero share the key 0),
//! and the natural order of two numbers is the order of their keys.

use vstd::prelude::*;
use core::cmp::Ordering;

verus! {

/// What a floating-point value is, as far as ordering, equality and
/// hashing are concerned: NaN, or a number identified by its order key.
pub enum FloatVal {
    /// Not a number. All NaN payloads collapse to this one value.
    Nan,
    /// A number (finite or infinite) with the given order key.
    Num { key: int },
}

impl FloatVal {
    /// Whether this value is NaN.
    pub open spec fn is_nan(self) -> bool {
        self is Nan
    }

    /// The order key of a number; 0 for NaN (never consulted there).
    pub open spec fn key(self) -> int {
        match self {
            FloatVal::Nan => 0,
            FloatVal::Num { key } => key,
        }
    }
}

/// The order of two order keys.
pub open spec fn key_order(a: int, b: int) -> Ordering {
    if a < b {
        Ordering::Less
    } else if a == b {
        Ordering::Equal
    } else {
        Ordering::Greater
    }
}

/// The natural partial order: undefined as soon as one side is NaN,
/// otherwise the order of the keys.
pub open spec fn partial_order(a: FloatVal, b: FloatVal) -> Option<Ordering> {
    if a.is_nan() || b.is_nan() {
        None
    } else {
        Some(key_order(a.key(), b.key()))
    }
}

/// The NaN-sorts-high total order: NaN equals NaN and is greater than
/// every number; numbers are ordered by their keys.
pub open spec fn total_order(a: FloatVal, b: FloatVal) -> Ordering {
    if a.is_nan() && b.is_nan() {
        Ordering::Equal
    } else if a.is_nan() {
        Ordering::Greater
    } else if b.is_nan() {
        Ordering::Less
    } else {
        key_order(a.key(), b.key())
    }
}

/// The NaN-sorts-high equality: NaN equals NaN, a number equals a number
/// with the same key, and NaN never equals a number.
pub open spec fn total_eq(a: FloatVal, b: FloatVal) -> bool {
    if a.is_nan() {
        b.is_nan()
    } else {
        !b.is_nan() && a.key() == b.key()
    }
}

/// A value of the model is NaN or is exactly the number built from its key.
pub proof fn lemma_val_form(v: FloatVal)
    ensures
        v.is_nan() || v == (FloatVal::Num { key: v.key() }),
{
    match v {
        FloatVal::Nan => {},
        FloatVal::Num { key } => {},
    }
}

/// The NaN-sorts-high equality holds exactly when the two model values
/// coincide: it is the equality of the model.
pub proof fn lemma_total_eq_is_val_eq(a: FloatVal, b: FloatVal)
    ensures
        total_eq(a, b) <==> a == b,
{
    lemma_val_form(a);
    lemma_val_form(b);
}

/// The capability an element type must offer: a NaN test, a canonical
/// NaN constant, the natural partial-order comparison, and a hash key
/// drawn from the (mantissa, exponent, sign) decomposition.
///
/// `fv` is the element's model value; every operation is specified
/// against it. `hash_spec` depends on the model value alone, so two
/// elements that the model cannot tell apart (for instance two NaN
/// payloads, or the two zeroes) hash identically.
pub trait Float: Sized + Copy {
    /// The model value this element represents.
    spec fn fv(self) -> FloatVal;

    /// The hash key of a model value.
    spec fn hash_spec(v: FloatVal) -> u64;

    /// Whether this element is NaN.
    fn is_nan(&self) -> (r: bool)
        ensures
            r == self.fv().is_nan(),
    ;

    /// The canonical NaN element.
    fn nan() -> (r: Self)
        ensures
            r.fv() == FloatVal::Nan,
    ;

    /// The natural partial-order comparison of two elements.
    fn partial_cmp(&self, other: &Self) -> (r: Option<Ordering>)
        ensures
            r == partial_order(self.fv(), other.fv()),
    ;

    /// The hash key of this element: its (mantissa, exponent, sign)
    /// decomposition combined by exclusive-or, after NaN is normalized
    /// to the canonical NaN and negative zero to positive zero.
    fn hash_key(&self) -> (r: u64)
        ensures
            r == Self::hash_spec(self.fv()),
    ;
}

} // verus!
