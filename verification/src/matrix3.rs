//! 3x3 matrices over binary32 bit patterns, stored row-major.
//!
//! The minor extraction goes through an explicit index table keyed by
//! `i + j*3`; its contract ties every table entry to the general
//! row/column-removal formula [`minor_index`](crate::indexing::minor_index).

use vstd::prelude::*;
use crate::fpbits::{NEG_ONE_BITS, ONE_BITS, ZERO_BITS};
use crate::fpbits::{add_bits, mul_bits, sub_bits};
use crate::fpbits::{fadd, fmul, fsub};
use crate::indexing::{cof_sign, minor_index};
use crate::matrix2::{det2_spec, Matrix2};

verus! {

/// A 3x3 matrix. `data[r * 3 + c]` is the entry in row `r`, column `c`.
#[derive(Debug, Clone, Copy)]
pub struct Matrix3 {
    pub data: [u32; 9],
}

/// The flat contents of the 3x3 identity matrix.
pub open spec fn identity3() -> Seq<u32> {
    seq![
        ONE_BITS, ZERO_BITS, ZERO_BITS,
        ZERO_BITS, ONE_BITS, ZERO_BITS,
        ZERO_BITS, ZERO_BITS, ONE_BITS,
    ]
}

/// The four entries of `s` that survive deleting the row and column of the
/// minor keyed by `i + j*3`, in row-major order of the reduced matrix.
pub open spec fn minor3_seq(s: Seq<u32>, i: int, j: int) -> Seq<u32> {
    Seq::new(4, |k: int| s[minor_index(3, i, j, k)])
}

/// Row-by-column dot product: entry (`r`, `c`) of the product of `a` and `b`,
/// with the three products summed left to right.
pub open spec fn mat3_mul_entry(a: Seq<u32>, b: Seq<u32>, r: int, c: int) -> u32 {
    add_bits(
        add_bits(mul_bits(a[3 * r], b[c]), mul_bits(a[3 * r + 1], b[3 + c])),
        mul_bits(a[3 * r + 2], b[6 + c]),
    )
}

/// The flat contents of the standard matrix product of `a` and `b`.
pub open spec fn mat3_mul_spec(a: Seq<u32>, b: Seq<u32>) -> Seq<u32> {
    seq![
        mat3_mul_entry(a, b, 0, 0), mat3_mul_entry(a, b, 0, 1), mat3_mul_entry(a, b, 0, 2),
        mat3_mul_entry(a, b, 1, 0), mat3_mul_entry(a, b, 1, 1), mat3_mul_entry(a, b, 1, 2),
        mat3_mul_entry(a, b, 2, 0), mat3_mul_entry(a, b, 2, 1), mat3_mul_entry(a, b, 2, 2),
    ]
}

/// Every entry of `a` multiplied on the left by the scalar `s`.
pub open spec fn mat3_scale_spec(s: u32, a: Seq<u32>) -> Seq<u32> {
    seq![
        mul_bits(s, a[0]), mul_bits(s, a[1]), mul_bits(s, a[2]),
        mul_bits(s, a[3]), mul_bits(s, a[4]), mul_bits(s, a[5]),
        mul_bits(s, a[6]), mul_bits(s, a[7]), mul_bits(s, a[8]),
    ]
}

/// The transpose of `a`.
pub open spec fn transpose3_spec(a: Seq<u32>) -> Seq<u32> {
    seq![
        a[0], a[3], a[6],
        a[1], a[4], a[7],
        a[2], a[5], a[8],
    ]
}

/// First-column cofactor expansion of the determinant: the first three
/// entries of `s` times their minor determinants, with alternating signs,
/// summed left to right.
pub open spec fn det3_spec(s: Seq<u32>) -> u32 {
    add_bits(
        sub_bits(
            mul_bits(s[0], det2_spec(minor3_seq(s, 0, 0))),
            mul_bits(s[1], det2_spec(minor3_seq(s, 1, 0))),
        ),
        mul_bits(s[2], det2_spec(minor3_seq(s, 2, 0))),
    )
}

/// One entry of the cofactor matrix: the signed minor determinant of the
/// cell keyed by `i + j*3`.
pub open spec fn cof3_entry(s: Seq<u32>, i: int, j: int) -> u32 {
    mul_bits(cof_sign(i, j), det2_spec(minor3_seq(s, i, j)))
}

/// The flat contents of the cofactor matrix: the entry for cell key `(i, j)`
/// is written to position `i + j*3`.
pub open spec fn cof3_spec(s: Seq<u32>) -> Seq<u32> {
    seq![
        cof3_entry(s, 0, 0), cof3_entry(s, 1, 0), cof3_entry(s, 2, 0),
        cof3_entry(s, 0, 1), cof3_entry(s, 1, 1), cof3_entry(s, 2, 1),
        cof3_entry(s, 0, 2), cof3_entry(s, 1, 2), cof3_entry(s, 2, 2),
    ]
}

impl Matrix3 {
    /// The 3x3 identity matrix.
    pub fn new() -> (r: Matrix3)
        ensures
            r.data@ == identity3(),
    {
        let m = Matrix3 {
            data: [
                ONE_BITS, ZERO_BITS, ZERO_BITS,
                ZERO_BITS, ONE_BITS, ZERO_BITS,
                ZERO_BITS, ZERO_BITS, ONE_BITS,
            ],
        };
        proof {
            assert(m.data@ =~= identity3());
        }
        m
    }

    /// Standard matrix product.
    pub fn mul(self, rhs: Matrix3) -> (r: Matrix3)
        ensures
            r.data@ == mat3_mul_spec(self.data@, rhs.data@),
    {
        let a = &self.data;
        let b = &rhs.data;
        let m = Matrix3 {
            data: [
                fadd(fadd(fmul(a[0], b[0]), fmul(a[1], b[3])), fmul(a[2], b[6])),
                fadd(fadd(fmul(a[0], b[1]), fmul(a[1], b[4])), fmul(a[2], b[7])),
                fadd(fadd(fmul(a[0], b[2]), fmul(a[1], b[5])), fmul(a[2], b[8])),
                fadd(fadd(fmul(a[3], b[0]), fmul(a[4], b[3])), fmul(a[5], b[6])),
                fadd(fadd(fmul(a[3], b[1]), fmul(a[4], b[4])), fmul(a[5], b[7])),
                fadd(fadd(fmul(a[3], b[2]), fmul(a[4], b[5])), fmul(a[5], b[8])),
                fadd(fadd(fmul(a[6], b[0]), fmul(a[7], b[3])), fmul(a[8], b[6])),
                fadd(fadd(fmul(a[6], b[1]), fmul(a[7], b[4])), fmul(a[8], b[7])),
                fadd(fadd(fmul(a[6], b[2]), fmul(a[7], b[5])), fmul(a[8], b[8])),
            ],
        };
        proof {
            assert(m.data@ =~= mat3_mul_spec(self.data@, rhs.data@));
        }
        m
    }

    /// Scalar-left multiplication: every entry is scaled by `s`.
    pub fn scale(self, s: u32) -> (r: Matrix3)
        ensures
            r.data@ == mat3_scale_spec(s, self.data@),
    {
        let a = &self.data;
        let m = Matrix3 {
            data: [
                fmul(s, a[0]), fmul(s, a[1]), fmul(s, a[2]),
                fmul(s, a[3]), fmul(s, a[4]), fmul(s, a[5]),
                fmul(s, a[6]), fmul(s, a[7]), fmul(s, a[8]),
            ],
        };
        proof {
            assert(m.data@ =~= mat3_scale_spec(s, self.data@));
        }
        m
    }

    /// The transpose.
    pub fn transpose(&self) -> (r: Matrix3)
        ensures
            r.data@ == transpose3_spec(self.data@),
    {
        let a = &self.data;
        let m = Matrix3 {
            data: [
                a[0], a[3], a[6],
                a[1], a[4], a[7],
                a[2], a[5], a[8],
            ],
        };
        proof {
            assert(m.data@ =~= transpose3_spec(self.data@));
        }
        m
    }

    /// The cofactor matrix, each entry a signed minor determinant, written
    /// to position `i + j*3` for cell key `(i, j)`.
    pub fn cofactor(&self) -> (r: Matrix3)
        ensures
            r.data@ == cof3_spec(self.data@),
    {
        let m = Matrix3 {
            data: [
                fmul(sign_for(0, 0), self.minor(0, 0).determinant()),
                fmul(sign_for(1, 0), self.minor(1, 0).determinant()),
                fmul(sign_for(2, 0), self.minor(2, 0).determinant()),
                fmul(sign_for(0, 1), self.minor(0, 1).determinant()),
                fmul(sign_for(1, 1), self.minor(1, 1).determinant()),
                fmul(sign_for(2, 1), self.minor(2, 1).determinant()),
                fmul(sign_for(0, 2), self.minor(0, 2).determinant()),
                fmul(sign_for(1, 2), self.minor(1, 2).determinant()),
                fmul(sign_for(2, 2), self.minor(2, 2).determinant()),
            ],
        };
        proof {
            assert(m.data@ =~= cof3_spec(self.data@));
        }
        m
    }

    /// First-column cofactor expansion of the determinant.
    pub fn determinant(&self) -> (r: u32)
        ensures
            r == det3_spec(self.data@),
    {
        let m0 = self.minor(0, 0).determinant();
        let m1 = self.minor(1, 0).determinant();
        let m2 = self.minor(2, 0).determinant();
        fadd(
            fsub(fmul(self.data[0], m0), fmul(self.data[1], m1)),
            fmul(self.data[2], m2),
        )
    }

    /// The 2x2 minor of the cell keyed by `i + j*3`, extracted through the
    /// hand-written index table. Out-of-range `i` or `j` is a caller error.
    pub fn minor(&self, i: usize, j: usize) -> (r: Matrix2)
        requires
            i < 3,
            j < 3,
        ensures
            r.data@ == minor3_seq(self.data@, i as int, j as int),
    {
        let idx: [usize; 4] = match i + j * 3 {
            0 => [4, 5, 7, 8],
            1 => [3, 5, 6, 8],
            2 => [3, 4, 6, 7],
            3 => [1, 2, 7, 8],
            4 => [0, 2, 6, 8],
            5 => [0, 1, 6, 7],
            6 => [1, 2, 4, 5],
            7 => [0, 2, 3, 5],
            8 => [0, 1, 3, 4],
            _ => unreached(),
        };
        let m = Matrix2 {
            data: [self.data[idx[0]], self.data[idx[1]], self.data[idx[2]], self.data[idx[3]]],
        };
        proof {
            assert(m.data@ =~= minor3_seq(self.data@, i as int, j as int));
        }
        m
    }
}

/// The sign scalar for the cofactor at cell key `(i, j)`.
fn sign_for(i: usize, j: usize) -> (r: u32)
    requires
        i < 3,
        j < 3,
    ensures
        r == cof_sign(i as int, j as int),
{
    if (i + j) % 2 == 0 {
        ONE_BITS
    } else {
        NEG_ONE_BITS
    }
}

/// Transposing twice gives the matrix back, for every 3x3 contents.
pub proof fn transpose3_involutive(a: Seq<u32>)
    requires
        a.len() == 9,
    ensures
        transpose3_spec(transpose3_spec(a)) == a,
{
    assert(transpose3_spec(transpose3_spec(a)) =~= a);
}

} // verus!
