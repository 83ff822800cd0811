//! 4-component vectors over binary32 bit patterns.

use vstd::prelude::*;
use crate::fpbits::ZERO_BITS;
use crate::fpbits::{add_bits, div_bits, mul_bits, sqrt_bits};
use crate::fpbits::{fadd, fdiv, fmul, fsqrt};

verus! {

/// A 4-component vector.
#[derive(Debug, Clone, Copy)]
pub struct Vector4 {
    pub x: u32,
    pub y: u32,
    pub z: u32,
    pub w: u32,
}

/// Euclidean norm: the square root of the sum of the squared components,
/// summed left to right.
pub open spec fn len4_spec(a: Vector4) -> u32 {
    sqrt_bits(
        add_bits(
            add_bits(add_bits(mul_bits(a.x, a.x), mul_bits(a.y, a.y)), mul_bits(a.z, a.z)),
            mul_bits(a.w, a.w),
        ),
    )
}

/// Every component divided by the Euclidean norm. For a zero vector the
/// components come out non-finite; callers must not normalize one.
pub open spec fn normalize4_spec(a: Vector4) -> Vector4 {
    Vector4 {
        x: div_bits(a.x, len4_spec(a)),
        y: div_bits(a.y, len4_spec(a)),
        z: div_bits(a.z, len4_spec(a)),
        w: div_bits(a.w, len4_spec(a)),
    }
}

impl Vector4 {
    /// The zero vector.
    pub fn new() -> (r: Vector4)
        ensures
            r == (Vector4 { x: ZERO_BITS, y: ZERO_BITS, z: ZERO_BITS, w: ZERO_BITS }),
    {
        Vector4 { x: ZERO_BITS, y: ZERO_BITS, z: ZERO_BITS, w: ZERO_BITS }
    }

    /// Euclidean norm.
    pub fn length(self) -> (r: u32)
        ensures
            r == len4_spec(self),
    {
        fsqrt(
            fadd(
                fadd(fadd(fmul(self.x, self.x), fmul(self.y, self.y)), fmul(self.z, self.z)),
                fmul(self.w, self.w),
            ),
        )
    }

    /// The unit vector in this vector's direction: every component divided
    /// by the norm. Normalizing a zero vector yields non-finite components.
    pub fn normalize(self) -> (r: Vector4)
        ensures
            r == normalize4_spec(self),
    {
        let len = self.length();
        Vector4 {
            x: fdiv(self.x, len),
            y: fdiv(self.y, len),
            z: fdiv(self.z, len),
            w: fdiv(self.w, len),
        }
    }
}

} // verus!
