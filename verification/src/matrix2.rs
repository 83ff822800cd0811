//! 2x2 matrices over binary32 bit patterns, stored row-major.

use vstd::prelude::*;
use crate::fpbits::{ONE_BITS, ZERO_BITS};
use crate::fpbits::{add_bits, mul_bits, sub_bits};
use crate::fpbits::{fadd, fmul, fsub};

verus! {

/// A 2x2 matrix. `data[r * 2 + c]` is the entry in row `r`, column `c`.
#[derive(Debug, Clone, Copy)]
pub struct Matrix2 {
    pub data: [u32; 4],
}

/// The flat contents of the 2x2 identity matrix.
pub open spec fn identity2() -> Seq<u32> {
    seq![ONE_BITS, ZERO_BITS, ZERO_BITS, ONE_BITS]
}

/// Row-by-column dot product: entry (`r`, `c`) of the product of `a` and `b`,
/// with the two products summed left to right.
pub open spec fn mat2_mul_entry(a: Seq<u32>, b: Seq<u32>, r: int, c: int) -> u32 {
    add_bits(mul_bits(a[2 * r], b[c]), mul_bits(a[2 * r + 1], b[2 + c]))
}

/// The flat contents of the standard matrix product of `a` and `b`.
pub open spec fn mat2_mul_spec(a: Seq<u32>, b: Seq<u32>) -> Seq<u32> {
    seq![
        mat2_mul_entry(a, b, 0, 0),
        mat2_mul_entry(a, b, 0, 1),
        mat2_mul_entry(a, b, 1, 0),
        mat2_mul_entry(a, b, 1, 1),
    ]
}

/// Every entry of `a` multiplied on the left by the scalar `s`.
pub open spec fn mat2_scale_spec(s: u32, a: Seq<u32>) -> Seq<u32> {
    seq![
        mul_bits(s, a[0]),
        mul_bits(s, a[1]),
        mul_bits(s, a[2]),
        mul_bits(s, a[3]),
    ]
}

/// The transpose of `a`: the two off-diagonal entries swap places.
pub open spec fn transpose2_spec(a: Seq<u32>) -> Seq<u32> {
    seq![a[0], a[2], a[1], a[3]]
}

/// The 2x2 determinant `a*d - b*c` of entries ordered `[a, b, c, d]`.
pub open spec fn det2_spec(a: Seq<u32>) -> u32 {
    sub_bits(mul_bits(a[0], a[3]), mul_bits(a[1], a[2]))
}

impl Matrix2 {
    /// The 2x2 identity matrix.
    pub fn new() -> (r: Matrix2)
        ensures
            r.data@ == identity2(),
    {
        let m = Matrix2 { data: [ONE_BITS, ZERO_BITS, ZERO_BITS, ONE_BITS] };
        proof {
            assert(m.data@ =~= identity2());
        }
        m
    }

    /// Standard matrix product.
    pub fn mul(self, rhs: Matrix2) -> (r: Matrix2)
        ensures
            r.data@ == mat2_mul_spec(self.data@, rhs.data@),
    {
        let m = Matrix2 {
            data: [
                fadd(fmul(self.data[0], rhs.data[0]), fmul(self.data[1], rhs.data[2])),
                fadd(fmul(self.data[0], rhs.data[1]), fmul(self.data[1], rhs.data[3])),
                fadd(fmul(self.data[2], rhs.data[0]), fmul(self.data[3], rhs.data[2])),
                fadd(fmul(self.data[2], rhs.data[1]), fmul(self.data[3], rhs.data[3])),
            ],
        };
        proof {
            assert(m.data@ =~= mat2_mul_spec(self.data@, rhs.data@));
        }
        m
    }

    /// Scalar-left multiplication: every entry is scaled by `s`.
    pub fn scale(self, s: u32) -> (r: Matrix2)
        ensures
            r.data@ == mat2_scale_spec(s, self.data@),
    {
        let m = Matrix2 {
            data: [
                fmul(s, self.data[0]),
                fmul(s, self.data[1]),
                fmul(s, self.data[2]),
                fmul(s, self.data[3]),
            ],
        };
        proof {
            assert(m.data@ =~= mat2_scale_spec(s, self.data@));
        }
        m
    }

    /// The transpose.
    pub fn transpose(&self) -> (r: Matrix2)
        ensures
            r.data@ == transpose2_spec(self.data@),
    {
        let m = Matrix2 { data: [self.data[0], self.data[2], self.data[1], self.data[3]] };
        proof {
            assert(m.data@ =~= transpose2_spec(self.data@));
        }
        m
    }

    /// The determinant `a*d - b*c` of entries ordered `[a, b, c, d]`.
    pub fn determinant(&self) -> (r: u32)
        ensures
            r == det2_spec(self.data@),
    {
        fsub(fmul(self.data[0], self.data[3]), fmul(self.data[1], self.data[2]))
    }
}

/// Transposing twice gives the matrix back, for every 2x2 contents.
pub proof fn transpose2_involutive(a: Seq<u32>)
    requires
        a.len() == 4,
    ensures
        transpose2_spec(transpose2_spec(a)) == a,
{
    assert(transpose2_spec(transpose2_spec(a)) =~= a);
}

} // verus!
