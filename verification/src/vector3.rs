//! 3-component vectors over binary32 bit patterns.

use vstd::prelude::*;
use crate::fpbits::{add_bits, div_bits, mul_bits, neg_bits, sqrt_bits, sub_bits};
use crate::fpbits::{fadd, fdiv, fmul, fneg, fsqrt, fsub};

verus! {

/// A 3-component vector.
#[derive(Debug, Clone, Copy)]
pub struct Vector3 {
    pub x: u32,
    pub y: u32,
    pub z: u32,
}

/// Componentwise sum.
pub open spec fn v3_add_spec(a: Vector3, b: Vector3) -> Vector3 {
    Vector3 { x: add_bits(a.x, b.x), y: add_bits(a.y, b.y), z: add_bits(a.z, b.z) }
}

/// Componentwise difference.
pub open spec fn v3_sub_spec(a: Vector3, b: Vector3) -> Vector3 {
    Vector3 { x: sub_bits(a.x, b.x), y: sub_bits(a.y, b.y), z: sub_bits(a.z, b.z) }
}

/// Componentwise product.
pub open spec fn v3_mul_spec(a: Vector3, b: Vector3) -> Vector3 {
    Vector3 { x: mul_bits(a.x, b.x), y: mul_bits(a.y, b.y), z: mul_bits(a.z, b.z) }
}

/// Every component multiplied on the left by the scalar `s`.
pub open spec fn v3_scale_spec(s: u32, a: Vector3) -> Vector3 {
    Vector3 { x: mul_bits(s, a.x), y: mul_bits(s, a.y), z: mul_bits(s, a.z) }
}

/// Every component negated.
pub open spec fn v3_neg_spec(a: Vector3) -> Vector3 {
    Vector3 { x: neg_bits(a.x), y: neg_bits(a.y), z: neg_bits(a.z) }
}

/// Dot product: the componentwise products summed left to right.
pub open spec fn dot3_spec(a: Vector3, b: Vector3) -> u32 {
    add_bits(add_bits(mul_bits(a.x, b.x), mul_bits(a.y, b.y)), mul_bits(a.z, b.z))
}

/// Right-handed cross product:
/// `(y1*z2 - z1*y2, z1*x2 - x1*z2, x1*y2 - y1*x2)`.
pub open spec fn cross3_spec(a: Vector3, b: Vector3) -> Vector3 {
    Vector3 {
        x: sub_bits(mul_bits(a.y, b.z), mul_bits(a.z, b.y)),
        y: sub_bits(mul_bits(a.z, b.x), mul_bits(a.x, b.z)),
        z: sub_bits(mul_bits(a.x, b.y), mul_bits(a.y, b.x)),
    }
}

/// Euclidean norm: the square root of the dot product of `a` with itself.
pub open spec fn len3_spec(a: Vector3) -> u32 {
    sqrt_bits(dot3_spec(a, a))
}

/// Every component divided by the Euclidean norm. For a zero vector the
/// components come out non-finite; callers must not normalize one.
pub open spec fn normalize3_spec(a: Vector3) -> Vector3 {
    Vector3 {
        x: div_bits(a.x, len3_spec(a)),
        y: div_bits(a.y, len3_spec(a)),
        z: div_bits(a.z, len3_spec(a)),
    }
}

impl Vector3 {
    /// A vector with the given components.
    pub fn new(x: u32, y: u32, z: u32) -> (r: Vector3)
        ensures
            r == (Vector3 { x, y, z }),
    {
        Vector3 { x, y, z }
    }

    /// Componentwise sum.
    pub fn add(self, rhs: Vector3) -> (r: Vector3)
        ensures
            r == v3_add_spec(self, rhs),
    {
        Vector3 { x: fadd(self.x, rhs.x), y: fadd(self.y, rhs.y), z: fadd(self.z, rhs.z) }
    }

    /// Componentwise difference.
    pub fn sub(self, rhs: Vector3) -> (r: Vector3)
        ensures
            r == v3_sub_spec(self, rhs),
    {
        Vector3 { x: fsub(self.x, rhs.x), y: fsub(self.y, rhs.y), z: fsub(self.z, rhs.z) }
    }

    /// Componentwise product.
    pub fn mul(self, rhs: Vector3) -> (r: Vector3)
        ensures
            r == v3_mul_spec(self, rhs),
    {
        Vector3 { x: fmul(self.x, rhs.x), y: fmul(self.y, rhs.y), z: fmul(self.z, rhs.z) }
    }

    /// Scalar-left multiplication: every component is scaled by `s`.
    pub fn scale(self, s: u32) -> (r: Vector3)
        ensures
            r == v3_scale_spec(s, self),
    {
        Vector3 { x: fmul(s, self.x), y: fmul(s, self.y), z: fmul(s, self.z) }
    }

    /// Euclidean norm.
    pub fn length(self) -> (r: u32)
        ensures
            r == len3_spec(self),
    {
        fsqrt(fadd(fadd(fmul(self.x, self.x), fmul(self.y, self.y)), fmul(self.z, self.z)))
    }

    /// The unit vector in this vector's direction: every component divided
    /// by the norm. Normalizing a zero vector yields non-finite components.
    pub fn normalize(self) -> (r: Vector3)
        ensures
            r == normalize3_spec(self),
    {
        let len = self.length();
        Vector3 { x: fdiv(self.x, len), y: fdiv(self.y, len), z: fdiv(self.z, len) }
    }

    /// The normalized cross product of `(a - self)` and `(b - self)`: the
    /// surface normal of the triangle with `self` as origin vertex.
    pub fn normal(self, a: Vector3, b: Vector3) -> (r: Vector3)
        ensures
            r == normalize3_spec(cross3_spec(v3_sub_spec(a, self), v3_sub_spec(b, self))),
    {
        let u = a.sub(self);
        let v = b.sub(self);
        u.cross(v).normalize()
    }

    /// Right-handed cross product.
    pub fn cross(self, a: Vector3) -> (r: Vector3)
        ensures
            r == cross3_spec(self, a),
    {
        Vector3 {
            x: fsub(fmul(self.y, a.z), fmul(self.z, a.y)),
            y: fsub(fmul(self.z, a.x), fmul(self.x, a.z)),
            z: fsub(fmul(self.x, a.y), fmul(self.y, a.x)),
        }
    }

    /// Dot product.
    pub fn dot(self, a: Vector3) -> (r: u32)
        ensures
            r == dot3_spec(self, a),
    {
        fadd(fadd(fmul(self.x, a.x), fmul(self.y, a.y)), fmul(self.z, a.z))
    }

    /// Flip the sign of every component in place.
    pub fn negate(&mut self)
        ensures
            *final(self) == v3_neg_spec(*old(self)),
    {
        self.x = fneg(self.x);
        self.y = fneg(self.y);
        self.z = fneg(self.z);
    }
}

} // verus!
