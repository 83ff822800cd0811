//! 2-component vectors over binary32 bit patterns.

use vstd::prelude::*;
use crate::fpbits::{add_bits, div_bits, mul_bits, sqrt_bits};
use crate::fpbits::{fadd, fdiv, fmul, fsqrt};

verus! {

/// A 2-component vector.
#[derive(Debug, Clone, Copy)]
pub struct Vector2 {
    pub x: u32,
    pub y: u32,
}

/// Euclidean norm: the square root of the sum of the squared components.
pub open spec fn len2_spec(a: Vector2) -> u32 {
    sqrt_bits(add_bits(mul_bits(a.x, a.x), mul_bits(a.y, a.y)))
}

/// Every component divided by the Euclidean norm. For a zero vector the
/// components come out non-finite; callers must not normalize one.
pub open spec fn normalize2_spec(a: Vector2) -> Vector2 {
    Vector2 { x: div_bits(a.x, len2_spec(a)), y: div_bits(a.y, len2_spec(a)) }
}

impl Vector2 {
    /// A vector with the given components.
    pub fn new(x: u32, y: u32) -> (r: Vector2)
        ensures
            r == (Vector2 { x, y }),
    {
        Vector2 { x, y }
    }

    /// Euclidean norm.
    pub fn length(self) -> (r: u32)
        ensures
            r == len2_spec(self),
    {
        fsqrt(fadd(fmul(self.x, self.x), fmul(self.y, self.y)))
    }

    /// The unit vector in this vector's direction: every component divided
    /// by the norm. Normalizing a zero vector yields non-finite components.
    pub fn normalize(self) -> (r: Vector2)
        ensures
            r == normalize2_spec(self),
    {
        let len = self.length();
        Vector2 { x: fdiv(self.x, len), y: fdiv(self.y, len) }
    }
}

} // verus!
