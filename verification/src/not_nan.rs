//! The error-on-NaN wrapper: a floating-point value that is proven never
//! to be NaN, so the natural partial order is total on it.

use vstd::prelude::*;
use core::cmp::Ordering;
use crate::float::{Float, FloatVal, key_order, partial_order, lemma_val_form};

verus! {

/// The error raised when a `NotNaN` would be built from NaN. It carries
/// no payload beyond its identity, and the failure is always recoverable.
#[derive(Clone, Copy, PartialEq, Eq, Debug, Structural)]
pub struct FloatIsNaN;

impl FloatIsNaN {
    /// A human-readable description of the error.
    pub fn description(&self) -> (r: &'static str)
        ensures
            r@ == "NotNaN constructed with NaN"@,
    {
        "NotNaN constructed with NaN"
    }
}

/// A wrapper around a floating-point element that is never NaN.
///
/// The invariant `wf` (the contained value is not NaN) is established by
/// every construction path and preserved thereafter: no mutable access
/// is exposed, since mutation could reintroduce NaN unseen.
#[derive(Clone, Copy, Debug)]
pub struct NotNaN<T: Float>(T);

impl<T: Float> NotNaN<T> {
    /// The contained element.
    pub closed spec fn inner(self) -> T {
        self.0
    }

    /// The model value of the contained element.
    pub open spec fn fv(self) -> FloatVal {
        self.inner().fv()
    }

    /// The order key of the contained element.
    pub open spec fn key(self) -> int {
        self.fv().key()
    }

    /// The invariant: the contained element is not NaN.
    pub open spec fn wf(self) -> bool {
        !self.fv().is_nan()
    }

    /// What validated construction yields: nothing for NaN, the wrapped
    /// value for everything else.
    pub closed spec fn new_spec(val: T) -> Option<NotNaN<T>> {
        if val.fv().is_nan() {
            None
        } else {
            Some(NotNaN(val))
        }
    }

    /// The order of two wrapped values: the order of their keys.
    pub open spec fn cmp_spec(self, other: Self) -> Ordering {
        key_order(self.key(), other.key())
    }

    /// Equality of two wrapped values: numeric equality of the contained
    /// elements, that is, equality of their keys. (NaN makes either side
    /// unequal to everything; a well-formed wrapper never holds one.)
    pub open spec fn eq_val(self, other: Self) -> bool {
        !self.fv().is_nan() && !other.fv().is_nan() && self.key() == other.key()
    }

    /// Create a `NotNaN` value.
    ///
    /// Returns `Err` if and only if `val` is NaN.
    pub fn new(val: T) -> (r: Result<Self, FloatIsNaN>)
        ensures
            val.fv().is_nan() <==> r is Err,
            r matches Ok(w) ==> w.inner() == val && w.wf() && Self::new_spec(val)
                == Some(w),
    {
        if val.is_nan() {
            Err(FloatIsNaN)
        } else {
            Ok(NotNaN(val))
        }
    }

    /// Create a `NotNaN` value from an element the caller has already
    /// shown not to be NaN: the check is the caller's precondition, not
    /// a run-time test.
    pub fn unchecked_new(val: T) -> (r: Self)
        requires
            !val.fv().is_nan(),
        ensures
            r.inner() == val,
            r.wf(),
    {
        NotNaN(val)
    }

    /// Get the value out, discarding the invariant.
    pub fn into_inner(self) -> (r: T)
        ensures
            r == self.inner(),
    {
        self.0
    }

    /// Borrow the contained value read-only.
    pub fn as_ref(&self) -> (r: &T)
        ensures
            *r == self.inner(),
    {
        &self.0
    }

    /// Compare two wrapped values. The natural partial order is total
    /// here because neither side is NaN; the incomparable case is proven
    /// unreachable rather than handled.
    pub fn cmp(&self, other: &Self) -> (r: Ordering)
        requires
            self.wf(),
            other.wf(),
        ensures
            r == self.cmp_spec(*other),
            partial_order(self.fv(), other.fv()) == Some(r),
    {
        match self.0.partial_cmp(&other.0) {
            Some(ord) => ord,
            None => {
                proof {
                    assert(false);
                }
                Ordering::Equal
            },
        }
    }

    /// The hash key of a wrapped value: the (mantissa, exponent, sign)
    /// decomposition of the element combined by exclusive-or, with
    /// negative zero first normalized to positive zero so that the hash
    /// agrees with numeric equality.
    pub fn hash_value(&self) -> (r: u64)
        ensures
            r == T::hash_spec(self.fv()),
    {
        self.0.hash_key()
    }

    /// Ordering law: on well-formed values the order is strict and total.
    /// It is reflexive only at equality, antisymmetric, and agrees with
    /// the natural partial order of the elements, which decides every
    /// pair here.
    pub proof fn lemma_cmp_strict_total_order(a: Self, b: Self)
        requires
            a.wf(),
            b.wf(),
        ensures
            a.cmp_spec(b) == Ordering::Equal <==> a.eq_val(b),
            a.cmp_spec(b) == Ordering::Less <==> b.cmp_spec(a) == Ordering::Greater,
            a.cmp_spec(a) == Ordering::Equal,
            partial_order(a.fv(), b.fv()) == Some(a.cmp_spec(b)),
    {
    }

    /// Ordering law: the order is transitive.
    pub proof fn lemma_cmp_transitive(a: Self, b: Self, c: Self)
        requires
            a.wf(),
            b.wf(),
            c.wf(),
            a.cmp_spec(b) == Ordering::Less,
            b.cmp_spec(c) == Ordering::Less,
        ensures
            a.cmp_spec(c) == Ordering::Less,
    {
    }

    /// Hash law: equal wrapped values hash identically.
    pub proof fn lemma_eq_hash_consistent(a: Self, b: Self)
        requires
            a.eq_val(b),
        ensures
            T::hash_spec(a.fv()) == T::hash_spec(b.fv()),
    {
        lemma_val_form(a.fv());
        lemma_val_form(b.fv());
    }

    /// Round-trip law: re-validating the value taken out of a well-formed
    /// wrapper succeeds and yields that same wrapper back.
    pub proof fn lemma_roundtrip(a: Self)
        requires
            a.wf(),
        ensures
            Self::new_spec(a.inner()) == Some(a),
    {
    }
}

impl<T: Float> PartialEq for NotNaN<T> {
    fn eq(&self, other: &Self) -> (r: bool) {
        match self.0.partial_cmp(&other.0) {
            Some(Ordering::Equal) => true,
            _ => false,
        }
    }
}

impl<T: Float> Eq for NotNaN<T> {

}

impl<T: Float> vstd::std_specs::cmp::PartialEqSpecImpl for NotNaN<T> {
    open spec fn obeys_eq_spec() -> bool {
        true
    }

    open spec fn eq_spec(&self, other: &Self) -> bool {
        self.eq_val(*other)
    }
}

impl<T: Float> PartialOrd for NotNaN<T> {
    fn partial_cmp(&self, other: &Self) -> (r: Option<Ordering>) {
        self.0.partial_cmp(&other.0)
    }
}

impl<T: Float> vstd::std_specs::cmp::PartialOrdSpecImpl for NotNaN<T> {
    open spec fn obeys_partial_cmp_spec() -> bool {
        true
    }

    open spec fn partial_cmp_spec(&self, other: &Self) -> Option<Ordering> {
        partial_order(self.fv(), other.fv())
    }
}

} // verus!
