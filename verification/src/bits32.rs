//! The 32-bit IEEE 754 element type.
//!
//! A value is held as its raw bit pattern: 1 sign bit, 8 exponent bits,
//! 23 mantissa bits. The pattern is NaN when its magnitude (the pattern
//! with the sign bit cleared) exceeds the all-ones-exponent threshold.

use vstd::prelude::*;
use core::cmp::Ordering;
use crate::float::{Float, FloatVal};

verus! {

/// The magnitude of a 32-bit pattern: the pattern with the sign bit cleared.
pub open spec fn mag32(b: u32) -> int {
    if b >= 0x8000_0000 {
        b - 0x8000_0000
    } else {
        b as int
    }
}

/// Whether a 32-bit pattern is NaN: exponent all ones and mantissa non-zero,
/// that is, magnitude strictly above the infinity pattern.
pub open spec fn is_nan32(b: u32) -> bool {
    mag32(b) > 0x7F80_0000
}

/// The order key of a 32-bit pattern: the magnitude, negated for a
/// negative sign. Both zeroes get the key 0.
pub open spec fn key32(b: u32) -> int {
    if b >= 0x8000_0000 {
        -mag32(b)
    } else {
        mag32(b)
    }
}

/// The model value of a 32-bit pattern.
pub open spec fn val32(b: u32) -> FloatVal {
    if is_nan32(b) {
        FloatVal::Nan
    } else {
        FloatVal::Num { key: key32(b) }
    }
}

/// The canonical 32-bit pattern of a model value: the canonical quiet NaN
/// for NaN, and for a number the unique pattern with its key, with the
/// key 0 mapped to positive zero.
pub open spec fn canon32(v: FloatVal) -> u32 {
    match v {
        FloatVal::Nan => 0x7FC0_0000u32,
        FloatVal::Num { key } => if key >= 0 {
            key as u32
        } else {
            (0x8000_0000 + (-key)) as u32
        },
    }
}

/// The hash key of a canonical 32-bit pattern: mantissa, raw exponent and
/// sign fields combined by exclusive-or.
pub open spec fn hash32(c: u32) -> u64 {
    (((c % 0x80_0000) as u64) ^ (((c / 0x80_0000) % 0x100) as u64)) ^ ((c
        / 0x8000_0000) as u64)
}

/// A 32-bit IEEE 754 value, held as its raw bit pattern.
#[derive(Clone, Copy, Debug)]
pub struct Bits32(pub u32);

impl Bits32 {
    /// Wrap a raw 32-bit pattern.
    pub fn from_bits(bits: u32) -> (r: Self)
        ensures
            r.0 == bits,
    {
        Bits32(bits)
    }

    /// The raw 32-bit pattern.
    pub fn to_bits(self) -> (r: u32)
        ensures
            r == self.0,
    {
        self.0
    }
}

impl Float for Bits32 {
    open spec fn fv(self) -> FloatVal {
        val32(self.0)
    }

    open spec fn hash_spec(v: FloatVal) -> u64 {
        hash32(canon32(v))
    }

    fn is_nan(&self) -> (r: bool) {
        let m: u32 = if self.0 >= 0x8000_0000 {
            self.0 - 0x8000_0000
        } else {
            self.0
        };
        m > 0x7F80_0000
    }

    fn nan() -> (r: Self) {
        Bits32(0x7FC0_0000)
    }

    fn partial_cmp(&self, other: &Self) -> (r: Option<Ordering>) {
        if self.is_nan() || other.is_nan() {
            None
        } else {
            let a: u32 = self.0;
            let b: u32 = other.0;
            let a_neg: bool = a >= 0x8000_0000;
            let b_neg: bool = b >= 0x8000_0000;
            let a_mag: u32 = if a_neg { a - 0x8000_0000 } else { a };
            let b_mag: u32 = if b_neg { b - 0x8000_0000 } else { b };
            let ord: Ordering = if a_neg && b_neg {
                if a_mag > b_mag {
                    Ordering::Less
                } else if a_mag == b_mag {
                    Ordering::Equal
                } else {
                    Ordering::Greater
                }
            } else if !a_neg && !b_neg {
                if a_mag < b_mag {
                    Ordering::Less
                } else if a_mag == b_mag {
                    Ordering::Equal
                } else {
                    Ordering::Greater
                }
            } else if a_neg {
                if a_mag == 0 && b_mag == 0 {
                    Ordering::Equal
                } else {
                    Ordering::Less
                }
            } else {
                if a_mag == 0 && b_mag == 0 {
                    Ordering::Equal
                } else {
                    Ordering::Greater
                }
            };
            Some(ord)
        }
    }

    fn hash_key(&self) -> (r: u64) {
        let c: u32 = if self.is_nan() {
            0x7FC0_0000
        } else if self.0 == 0x8000_0000 {
            0
        } else {
            self.0
        };
        proof {
            assert(c == canon32(self.fv()));
        }
        let man: u64 = (c % 0x80_0000) as u64;
        let exp: u64 = ((c / 0x80_0000) % 0x100) as u64;
        let sgn: u64 = (c / 0x8000_0000) as u64;
        (man ^ exp) ^ sgn
    }
}

} // verus!
