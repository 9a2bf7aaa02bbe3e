//! The NaN-sorts-high wrapper: accepts every floating-point value and
//! defines an explicit total order in which NaN equals itself and is
//! greater than every number, deliberately deviating from the natural
//! comparison semantics to satisfy the total-order contract.

use vstd::prelude::*;
use core::cmp::Ordering;
use crate::float::{Float, FloatVal, partial_order, total_order, total_eq,
    lemma_total_eq_is_val_eq};

verus! {

/// A wrapper around a floating-point element providing a total order
/// and a consistent hash over the full domain, NaN included.
///
/// No invariant is imposed: NaN is a legal payload, and the payload may
/// be replaced freely through the public field.
#[derive(Clone, Copy, Debug)]
pub struct OrderedFloat<T: Float>(pub T);

impl<T: Float> OrderedFloat<T> {
    /// The model value of the contained element.
    pub open spec fn fv(self) -> FloatVal {
        self.0.fv()
    }

    /// The order key of the contained element.
    pub open spec fn key(self) -> int {
        self.fv().key()
    }

    /// The order of two wrapped values: NaN equals NaN and is greater
    /// than every number; numbers are ordered naturally.
    pub open spec fn cmp_spec(self, other: Self) -> Ordering {
        total_order(self.fv(), other.fv())
    }

    /// Equality of two wrapped values: both NaN, or neither NaN and
    /// numerically equal.
    pub open spec fn eq_val(self, other: Self) -> bool {
        total_eq(self.fv(), other.fv())
    }

    /// Get the value out.
    pub fn into_inner(self) -> (r: T)
        ensures
            r == self.0,
    {
        let OrderedFloat(val) = self;
        val
    }

    /// Borrow the contained value read-only.
    pub fn as_ref(&self) -> (r: &T)
        ensures
            *r == self.0,
    {
        &self.0
    }

    /// Replace the contained value. Safe for any payload: no invariant
    /// needs protecting here.
    pub fn set(&mut self, val: T)
        ensures
            final(self).0 == val,
    {
        self.0 = val;
    }

    /// Compare two wrapped values. When the natural partial order yields
    /// a result it is used; otherwise at least one side is NaN, and the
    /// NaN-sorts-high rule decides.
    pub fn cmp(&self, other: &Self) -> (r: Ordering)
        ensures
            r == self.cmp_spec(*other),
    {
        match self.0.partial_cmp(&other.0) {
            Some(ordering) => ordering,
            None => {
                if self.0.is_nan() {
                    if other.0.is_nan() {
                        Ordering::Equal
                    } else {
                        Ordering::Greater
                    }
                } else {
                    Ordering::Less
                }
            },
        }
    }

    /// The hash key of a wrapped value: the (mantissa, exponent, sign)
    /// decomposition of the element combined by exclusive-or, after every
    /// NaN payload is normalized to the one canonical NaN pattern and
    /// negative zero to positive zero, so that the hash agrees with the
    /// equality above.
    pub fn hash_value(&self) -> (r: u64)
        ensures
            r == T::hash_spec(self.fv()),
    {
        self.0.hash_key()
    }

    /// Ordering law: the order is total and reflexive on every input,
    /// NaN included. NaN equals NaN and is greater than every number;
    /// numbers are ordered by the natural partial order, which decides
    /// every NaN-free pair. The order is antisymmetric and consistent
    /// with the equality of this wrapper.
    pub proof fn lemma_cmp_total_order(a: Self, b: Self)
        ensures
            a.cmp_spec(a) == Ordering::Equal,
            a.fv().is_nan() && b.fv().is_nan() ==> a.cmp_spec(b) == Ordering::Equal,
            a.fv().is_nan() && !b.fv().is_nan() ==> a.cmp_spec(b)
                == Ordering::Greater,
            !a.fv().is_nan() && b.fv().is_nan() ==> a.cmp_spec(b) == Ordering::Less,
            !a.fv().is_nan() && !b.fv().is_nan() ==> partial_order(a.fv(), b.fv())
                == Some(a.cmp_spec(b)),
            a.cmp_spec(b) == Ordering::Equal <==> a.eq_val(b),
            a.cmp_spec(b) == Ordering::Less <==> b.cmp_spec(a) == Ordering::Greater,
    {
    }

    /// Ordering law: the order is transitive.
    pub proof fn lemma_cmp_transitive(a: Self, b: Self, c: Self)
        requires
            a.cmp_spec(b) == Ordering::Less,
            b.cmp_spec(c) == Ordering::Less,
        ensures
            a.cmp_spec(c) == Ordering::Less,
    {
    }

    /// Equality law: the equality is reflexive (NaN included), symmetric
    /// and transitive; NaN never equals a number; and on NaN-free pairs
    /// it is numeric equality.
    pub proof fn lemma_eq_laws(a: Self, b: Self, c: Self)
        ensures
            a.eq_val(a),
            a.eq_val(b) <==> b.eq_val(a),
            a.eq_val(b) && b.eq_val(c) ==> a.eq_val(c),
            a.fv().is_nan() && b.fv().is_nan() ==> a.eq_val(b),
            a.fv().is_nan() != b.fv().is_nan() ==> !a.eq_val(b),
            !a.fv().is_nan() && !b.fv().is_nan() ==> (a.eq_val(b) <==> a.key()
                == b.key()),
    {
    }

    /// Hash law: equal wrapped values hash identically, even when the
    /// two sides hold distinct NaN payloads.
    pub proof fn lemma_eq_hash_consistent(a: Self, b: Self)
        requires
            a.eq_val(b),
        ensures
            T::hash_spec(a.fv()) == T::hash_spec(b.fv()),
    {
        lemma_total_eq_is_val_eq(a.fv(), b.fv());
    }

    /// Round-trip law: re-wrapping the value taken out of a wrapper
    /// yields that same wrapper back.
    pub proof fn lemma_roundtrip(a: Self)
        ensures
            (OrderedFloat(a.0)) == a,
    {
    }
}

impl<T: Float> PartialEq for OrderedFloat<T> {
    fn eq(&self, other: &Self) -> (r: bool) {
        if self.0.is_nan() {
            other.0.is_nan()
        } else if other.0.is_nan() {
            false
        } else {
            match self.0.partial_cmp(&other.0) {
                Some(Ordering::Equal) => true,
                _ => false,
            }
        }
    }
}

impl<T: Float> Eq for OrderedFloat<T> {

}

impl<T: Float> vstd::std_specs::cmp::PartialEqSpecImpl for OrderedFloat<T> {
    open spec fn obeys_eq_spec() -> bool {
        true
    }

    open spec fn eq_spec(&self, other: &Self) -> bool {
        self.eq_val(*other)
    }
}

impl<T: Float> PartialOrd for OrderedFloat<T> {
    fn partial_cmp(&self, other: &Self) -> (r: Option<Ordering>) {
        Some(self.cmp(other))
    }
}

impl<T: Float> vstd::std_specs::cmp::PartialOrdSpecImpl for OrderedFloat<T> {
    open spec fn obeys_partial_cmp_spec() -> bool {
        true
    }

    open spec fn partial_cmp_spec(&self, other: &Self) -> Option<Ordering> {
        Some(total_order(self.fv(), other.fv()))
    }
}

impl<T: Float> From<T> for OrderedFloat<T> {
    fn from(val: T) -> (r: Self) {
        OrderedFloat(val)
    }
}

impl<T: Float> vstd::std_specs::convert::FromSpecImpl<T> for OrderedFloat<T> {
    open spec fn obeys_from_spec() -> bool {
        true
    }

    open spec fn from_spec(val: T) -> Self {
        OrderedFloat(val)
    }
}

} // verus!
