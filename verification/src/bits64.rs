//! The 64-bit IEEE 754 element type.
//!
//! A value is held as its raw bit pattern: 1 sign bit, 11 exponent bits,
//! 52 mantissa bits. The pattern is NaN when its magnitude (the pattern
//! with the sign bit cleared) exceeds the all-ones-exponent threshold.

use vstd::prelude::*;
use core::cmp::Ordering;
use crate::float::{Float, FloatVal};

verus! {

/// The magnitude of a 64-bit pattern: the pattern with the sign bit cleared.
pub open spec fn mag64(b: u64) -> int {
    if b >= 0x8000_0000_0000_0000 {
        b - 0x8000_0000_0000_0000
    } else {
        b as int
    }
}

/// Whether a 64-bit pattern is NaN: exponent all ones and mantissa non-zero,
/// that is, magnitude strictly above the infinity pattern.
pub open spec fn is_nan64(b: u64) -> bool {
    mag64(b) > 0x7FF0_0000_0000_0000
}

/// The order key of a 64-bit pattern: the magnitude, negated for a
/// negative sign. Both zeroes get the key 0.
pub open spec fn key64(b: u64) -> int {
    if b >= 0x8000_0000_0000_0000 {
        -mag64(b)
    } else {
        mag64(b)
    }
}

/// The model value of a 64-bit pattern.
pub open spec fn val64(b: u64) -> FloatVal {
    if is_nan64(b) {
        FloatVal::Nan
    } else {
        FloatVal::Num { key: key64(b) }
    }
}

/// The canonical 64-bit pattern of a model value: the canonical quiet NaN
/// for NaN, and for a number the unique pattern with its key, with the
/// key 0 mapped to positive zero.
pub open spec fn canon64(v: FloatVal) -> u64 {
    match v {
        FloatVal::Nan => 0x7FF8_0000_0000_0000u64,
        FloatVal::Num { key } => if key >= 0 {
            key as u64
        } else {
            (0x8000_0000_0000_0000 + (-key)) as u64
        },
    }
}

/// The hash key of a canonical 64-bit pattern: mantissa, raw exponent and
/// sign fields combined by exclusive-or.
pub open spec fn hash64(c: u64) -> u64 {
    ((c % 0x10_0000_0000_0000) ^ ((c / 0x10_0000_0000_0000) % 0x800)) ^ (c
        / 0x8000_0000_0000_0000)
}

/// A 64-bit IEEE 754 value, held as its raw bit pattern.
#[derive(Clone, Copy, Debug)]
pub struct Bits64(pub u64);

impl Bits64 {
    /// Wrap a raw 64-bit pattern.
    pub fn from_bits(bits: u64) -> (r: Self)
        ensures
            r.0 == bits,
    {
        Bits64(bits)
    }

    /// The raw 64-bit pattern.
    pub fn to_bits(self) -> (r: u64)
        ensures
            r == self.0,
    {
        self.0
    }
}

impl Float for Bits64 {
    open spec fn fv(self) -> FloatVal {
        val64(self.0)
    }

    open spec fn hash_spec(v: FloatVal) -> u64 {
        hash64(canon64(v))
    }

    fn is_nan(&self) -> (r: bool) {
        let m: u64 = if self.0 >= 0x8000_0000_0000_0000 {
            self.0 - 0x8000_0000_0000_0000
        } else {
            self.0
        };
        m > 0x7FF0_0000_0000_0000
    }

    fn nan() -> (r: Self) {
        Bits64(0x7FF8_0000_0000_0000)
    }

    fn partial_cmp(&self, other: &Self) -> (r: Option<Ordering>) {
        if self.is_nan() || other.is_nan() {
            None
        } else {
            let a: u64 = self.0;
            let b: u64 = other.0;
            let a_neg: bool = a >= 0x8000_0000_0000_0000;
            let b_neg: bool = b >= 0x8000_0000_0000_0000;
            let a_mag: u64 = if a_neg { a - 0x8000_0000_0000_0000 } else { a };
            let b_mag: u64 = if b_neg { b - 0x8000_0000_0000_0000 } else { b };
            let ord: Ordering = if a_neg && b_neg {
                if a_mag > b_mag {
                    Ordering::Less
                } else if a_mag == b_mag {
                    Ordering::Equal
                } else {
                    Ordering::Greater
                }
            } else if !a_neg && !b_neg {
                if a_mag < b_mag {
                    Ordering::Less
                } else if a_mag == b_mag {
                    Ordering::Equal
                } else {
                    Ordering::Greater
                }
            } else if a_neg {
                if a_mag == 0 && b_mag == 0 {
                    Ordering::Equal
                } else {
                    Ordering::Less
                }
            } else {
                if a_mag == 0 && b_mag == 0 {
                    Ordering::Equal
                } else {
                    Ordering::Greater
                }
            };
            Some(ord)
        }
    }

    fn hash_key(&self) -> (r: u64) {
        let c: u64 = if self.is_nan() {
            0x7FF8_0000_0000_0000
        } else if self.0 == 0x8000_0000_0000_0000 {
            0
        } else {
            self.0
        };
        proof {
            assert(c == canon64(self.fv()));
        }
        let man: u64 = c % 0x10_0000_0000_0000;
        let exp: u64 = (c / 0x10_0000_0000_0000) % 0x800;
        let sgn: u64 = c / 0x8000_0000_0000_0000;
        (man ^ exp) ^ sgn
    }
}

} // verus!
