//! 4x4 matrices over binary32 bit patterns, stored row-major, and the
//! transformation-matrix constructors built on them.
//!
//! The minor extraction goes through an explicit index table keyed by
//! `i + j*4`; its contract ties every table entry to the general
//! row/column-removal formula [`minor_index`](crate::indexing::minor_index).
//!
//! The builders that need trigonometry (the axis rotations, the perspective
//! projection and the first-person camera) take the required cosines, sines
//! and tangent as ready-made scalars: no bit-level software floating-point
//! library here computes them, so evaluating the angle functions is the
//! caller's business.

use vstd::prelude::*;
use crate::fpbits::{NEG_ONE_BITS, NEG_TWO_BITS, ONE_BITS, ZERO_BITS};
use crate::fpbits::{add_bits, div_bits, is_zero_bits, mul_bits, neg_bits, sub_bits};
use crate::fpbits::{f_is_zero, fadd, fdiv, fmul, fneg, fsub};
use crate::indexing::{cof_sign, minor_index};
use crate::matrix3::{det3_spec, Matrix3};
use crate::vector3::{cross3_spec, dot3_spec, normalize3_spec, v3_neg_spec, v3_sub_spec, Vector3};

verus! {

/// A 4x4 matrix. `data[r * 4 + c]` is the entry in row `r`, column `c`.
#[derive(Debug, Clone, Copy)]
pub struct Matrix4 {
    pub data: [u32; 16],
}

/// The flat contents of the 4x4 identity matrix.
pub open spec fn identity4() -> Seq<u32> {
    seq![
        ONE_BITS, ZERO_BITS, ZERO_BITS, ZERO_BITS,
        ZERO_BITS, ONE_BITS, ZERO_BITS, ZERO_BITS,
        ZERO_BITS, ZERO_BITS, ONE_BITS, ZERO_BITS,
        ZERO_BITS, ZERO_BITS, ZERO_BITS, ONE_BITS,
    ]
}

/// The nine entries of `s` that survive deleting the row and column of the
/// minor keyed by `i + j*4`, in row-major order of the reduced matrix.
pub open spec fn minor4_seq(s: Seq<u32>, i: int, j: int) -> Seq<u32> {
    Seq::new(9, |k: int| s[minor_index(4, i, j, k)])
}

/// Row-by-column dot product: entry (`r`, `c`) of the product of `a` and `b`,
/// with the four products summed left to right.
pub open spec fn mat4_mul_entry(a: Seq<u32>, b: Seq<u32>, r: int, c: int) -> u32 {
    add_bits(
        add_bits(
            add_bits(mul_bits(a[4 * r], b[c]), mul_bits(a[4 * r + 1], b[4 + c])),
            mul_bits(a[4 * r + 2], b[8 + c]),
        ),
        mul_bits(a[4 * r + 3], b[12 + c]),
    )
}

/// The flat contents of the standard matrix product of `a` and `b`.
pub open spec fn mat4_mul_spec(a: Seq<u32>, b: Seq<u32>) -> Seq<u32> {
    seq![
        mat4_mul_entry(a, b, 0, 0), mat4_mul_entry(a, b, 0, 1),
        mat4_mul_entry(a, b, 0, 2), mat4_mul_entry(a, b, 0, 3),
        mat4_mul_entry(a, b, 1, 0), mat4_mul_entry(a, b, 1, 1),
        mat4_mul_entry(a, b, 1, 2), mat4_mul_entry(a, b, 1, 3),
        mat4_mul_entry(a, b, 2, 0), mat4_mul_entry(a, b, 2, 1),
        mat4_mul_entry(a, b, 2, 2), mat4_mul_entry(a, b, 2, 3),
        mat4_mul_entry(a, b, 3, 0), mat4_mul_entry(a, b, 3, 1),
        mat4_mul_entry(a, b, 3, 2), mat4_mul_entry(a, b, 3, 3),
    ]
}

/// Every entry of `a` multiplied on the left by the scalar `s`.
pub open spec fn mat4_scale_spec(s: u32, a: Seq<u32>) -> Seq<u32> {
    seq![
        mul_bits(s, a[0]), mul_bits(s, a[1]), mul_bits(s, a[2]), mul_bits(s, a[3]),
        mul_bits(s, a[4]), mul_bits(s, a[5]), mul_bits(s, a[6]), mul_bits(s, a[7]),
        mul_bits(s, a[8]), mul_bits(s, a[9]), mul_bits(s, a[10]), mul_bits(s, a[11]),
        mul_bits(s, a[12]), mul_bits(s, a[13]), mul_bits(s, a[14]), mul_bits(s, a[15]),
    ]
}

/// The transpose of `a`.
pub open spec fn transpose4_spec(a: Seq<u32>) -> Seq<u32> {
    seq![
        a[0], a[4], a[8], a[12],
        a[1], a[5], a[9], a[13],
        a[2], a[6], a[10], a[14],
        a[3], a[7], a[11], a[15],
    ]
}

/// First-column cofactor expansion of the determinant: the first four
/// entries of `s` times their minor determinants, with alternating signs,
/// summed left to right.
pub open spec fn det4_spec(s: Seq<u32>) -> u32 {
    sub_bits(
        add_bits(
            sub_bits(
                mul_bits(s[0], det3_spec(minor4_seq(s, 0, 0))),
                mul_bits(s[1], det3_spec(minor4_seq(s, 1, 0))),
            ),
            mul_bits(s[2], det3_spec(minor4_seq(s, 2, 0))),
        ),
        mul_bits(s[3], det3_spec(minor4_seq(s, 3, 0))),
    )
}

/// One entry of the cofactor matrix: the signed minor determinant of the
/// cell keyed by `i + j*4`.
pub open spec fn cof4_entry(s: Seq<u32>, i: int, j: int) -> u32 {
    mul_bits(cof_sign(i, j), det3_spec(minor4_seq(s, i, j)))
}

/// The flat contents of the cofactor matrix: the entry for cell key `(i, j)`
/// is written to position `i + j*4`.
pub open spec fn cof4_spec(s: Seq<u32>) -> Seq<u32> {
    seq![
        cof4_entry(s, 0, 0), cof4_entry(s, 1, 0), cof4_entry(s, 2, 0), cof4_entry(s, 3, 0),
        cof4_entry(s, 0, 1), cof4_entry(s, 1, 1), cof4_entry(s, 2, 1), cof4_entry(s, 3, 1),
        cof4_entry(s, 0, 2), cof4_entry(s, 1, 2), cof4_entry(s, 2, 2), cof4_entry(s, 3, 2),
        cof4_entry(s, 0, 3), cof4_entry(s, 1, 3), cof4_entry(s, 2, 3), cof4_entry(s, 3, 3),
    ]
}

/// The adjugate-over-determinant inverse: the transposed cofactor matrix,
/// scaled by the reciprocal of the determinant.
pub open spec fn inverse4_spec(s: Seq<u32>) -> Seq<u32> {
    mat4_scale_spec(div_bits(ONE_BITS, det4_spec(s)), transpose4_spec(cof4_spec(s)))
}

impl Matrix4 {
    /// The 4x4 identity matrix.
    pub fn new() -> (r: Matrix4)
        ensures
            r.data@ == identity4(),
    {
        let m = Matrix4 {
            data: [
                ONE_BITS, ZERO_BITS, ZERO_BITS, ZERO_BITS,
                ZERO_BITS, ONE_BITS, ZERO_BITS, ZERO_BITS,
                ZERO_BITS, ZERO_BITS, ONE_BITS, ZERO_BITS,
                ZERO_BITS, ZERO_BITS, ZERO_BITS, ONE_BITS,
            ],
        };
        proof {
            assert(m.data@ =~= identity4());
        }
        m
    }

    /// Standard matrix product.
    pub fn mul(self, rhs: Matrix4) -> (r: Matrix4)
        ensures
            r.data@ == mat4_mul_spec(self.data@, rhs.data@),
    {
        let a = &self.data;
        let b = &rhs.data;
        let m = Matrix4 {
            data: [
                fadd(fadd(fadd(fmul(a[0], b[0]), fmul(a[1], b[4])), fmul(a[2], b[8])), fmul(a[3], b[12])),
                fadd(fadd(fadd(fmul(a[0], b[1]), fmul(a[1], b[5])), fmul(a[2], b[9])), fmul(a[3], b[13])),
                fadd(fadd(fadd(fmul(a[0], b[2]), fmul(a[1], b[6])), fmul(a[2], b[10])), fmul(a[3], b[14])),
                fadd(fadd(fadd(fmul(a[0], b[3]), fmul(a[1], b[7])), fmul(a[2], b[11])), fmul(a[3], b[15])),
                fadd(fadd(fadd(fmul(a[4], b[0]), fmul(a[5], b[4])), fmul(a[6], b[8])), fmul(a[7], b[12])),
                fadd(fadd(fadd(fmul(a[4], b[1]), fmul(a[5], b[5])), fmul(a[6], b[9])), fmul(a[7], b[13])),
                fadd(fadd(fadd(fmul(a[4], b[2]), fmul(a[5], b[6])), fmul(a[6], b[10])), fmul(a[7], b[14])),
                fadd(fadd(fadd(fmul(a[4], b[3]), fmul(a[5], b[7])), fmul(a[6], b[11])), fmul(a[7], b[15])),
                fadd(fadd(fadd(fmul(a[8], b[0]), fmul(a[9], b[4])), fmul(a[10], b[8])), fmul(a[11], b[12])),
                fadd(fadd(fadd(fmul(a[8], b[1]), fmul(a[9], b[5])), fmul(a[10], b[9])), fmul(a[11], b[13])),
                fadd(fadd(fadd(fmul(a[8], b[2]), fmul(a[9], b[6])), fmul(a[10], b[10])), fmul(a[11], b[14])),
                fadd(fadd(fadd(fmul(a[8], b[3]), fmul(a[9], b[7])), fmul(a[10], b[11])), fmul(a[11], b[15])),
                fadd(fadd(fadd(fmul(a[12], b[0]), fmul(a[13], b[4])), fmul(a[14], b[8])), fmul(a[15], b[12])),
                fadd(fadd(fadd(fmul(a[12], b[1]), fmul(a[13], b[5])), fmul(a[14], b[9])), fmul(a[15], b[13])),
                fadd(fadd(fadd(fmul(a[12], b[2]), fmul(a[13], b[6])), fmul(a[14], b[10])), fmul(a[15], b[14])),
                fadd(fadd(fadd(fmul(a[12], b[3]), fmul(a[13], b[7])), fmul(a[14], b[11])), fmul(a[15], b[15])),
            ],
        };
        proof {
            assert(m.data@ =~= mat4_mul_spec(self.data@, rhs.data@));
        }
        m
    }

    /// Scalar-left multiplication: every entry is scaled by `s`.
    pub fn scale(self, s: u32) -> (r: Matrix4)
        ensures
            r.data@ == mat4_scale_spec(s, self.data@),
    {
        let a = &self.data;
        let m = Matrix4 {
            data: [
                fmul(s, a[0]), fmul(s, a[1]), fmul(s, a[2]), fmul(s, a[3]),
                fmul(s, a[4]), fmul(s, a[5]), fmul(s, a[6]), fmul(s, a[7]),
                fmul(s, a[8]), fmul(s, a[9]), fmul(s, a[10]), fmul(s, a[11]),
                fmul(s, a[12]), fmul(s, a[13]), fmul(s, a[14]), fmul(s, a[15]),
            ],
        };
        proof {
            assert(m.data@ =~= mat4_scale_spec(s, self.data@));
        }
        m
    }

    /// The transpose.
    pub fn transpose(&self) -> (r: Matrix4)
        ensures
            r.data@ == transpose4_spec(self.data@),
    {
        let a = &self.data;
        let m = Matrix4 {
            data: [
                a[0], a[4], a[8], a[12],
                a[1], a[5], a[9], a[13],
                a[2], a[6], a[10], a[14],
                a[3], a[7], a[11], a[15],
            ],
        };
        proof {
            assert(m.data@ =~= transpose4_spec(self.data@));
        }
        m
    }

    /// The cofactor matrix, each entry a signed minor determinant, written
    /// to position `i + j*4` for cell key `(i, j)`.
    pub fn cofactor(&self) -> (r: Matrix4)
        ensures
            r.data@ == cof4_spec(self.data@),
    {
        let m = Matrix4 {
            data: [
                fmul(sign_for(0, 0), self.minor(0, 0).determinant()),
                fmul(sign_for(1, 0), self.minor(1, 0).determinant()),
                fmul(sign_for(2, 0), self.minor(2, 0).determinant()),
                fmul(sign_for(3, 0), self.minor(3, 0).determinant()),
                fmul(sign_for(0, 1), self.minor(0, 1).determinant()),
                fmul(sign_for(1, 1), self.minor(1, 1).determinant()),
                fmul(sign_for(2, 1), self.minor(2, 1).determinant()),
                fmul(sign_for(3, 1), self.minor(3, 1).determinant()),
                fmul(sign_for(0, 2), self.minor(0, 2).determinant()),
                fmul(sign_for(1, 2), self.minor(1, 2).determinant()),
                fmul(sign_for(2, 2), self.minor(2, 2).determinant()),
                fmul(sign_for(3, 2), self.minor(3, 2).determinant()),
                fmul(sign_for(0, 3), self.minor(0, 3).determinant()),
                fmul(sign_for(1, 3), self.minor(1, 3).determinant()),
                fmul(sign_for(2, 3), self.minor(2, 3).determinant()),
                fmul(sign_for(3, 3), self.minor(3, 3).determinant()),
            ],
        };
        proof {
            assert(m.data@ =~= cof4_spec(self.data@));
        }
        m
    }

    /// The adjugate-over-determinant inverse. Fails exactly when the
    /// determinant's bits encode floating-point zero; the error is
    /// recoverable and the matrix is left untouched.
    pub fn inverse(&self) -> (r: Result<Matrix4, &'static str>)
        ensures
            r is Err <==> is_zero_bits(det4_spec(self.data@)),
            r is Ok ==> (r->Ok_0).data@ == inverse4_spec(self.data@),
    {
        let determinant = self.determinant();
        if f_is_zero(determinant) {
            Err("Matrix does not have an inverse")
        } else {
            Ok(self.cofactor().transpose().scale(fdiv(ONE_BITS, determinant)))
        }
    }

    /// First-column cofactor expansion of the determinant.
    pub fn determinant(&self) -> (r: u32)
        ensures
            r == det4_spec(self.data@),
    {
        let m0 = self.minor(0, 0).determinant();
        let m1 = self.minor(1, 0).determinant();
        let m2 = self.minor(2, 0).determinant();
        let m3 = self.minor(3, 0).determinant();
        fsub(
            fadd(
                fsub(fmul(self.data[0], m0), fmul(self.data[1], m1)),
                fmul(self.data[2], m2),
            ),
            fmul(self.data[3], m3),
        )
    }

    /// The 3x3 minor of the cell keyed by `i + j*4`, extracted through the
    /// hand-written index table. Out-of-range `i` or `j` is a caller error.
    pub fn minor(&self, i: usize, j: usize) -> (r: Matrix3)
        requires
            i < 4,
            j < 4,
        ensures
            r.data@ == minor4_seq(self.data@, i as int, j as int),
    {
        let idx: [usize; 9] = match i + j * 4 {
            0 => [5, 6, 7, 9, 10, 11, 13, 14, 15],
            1 => [4, 6, 7, 8, 10, 11, 12, 14, 15],
            2 => [4, 5, 7, 8, 9, 11, 12, 13, 15],
            3 => [4, 5, 6, 8, 9, 10, 12, 13, 14],
            4 => [1, 2, 3, 9, 10, 11, 13, 14, 15],
            5 => [0, 2, 3, 8, 10, 11, 12, 14, 15],
            6 => [0, 1, 3, 8, 9, 11, 12, 13, 15],
            7 => [0, 1, 2, 8, 9, 10, 12, 13, 14],
            8 => [1, 2, 3, 5, 6, 7, 13, 14, 15],
            9 => [0, 2, 3, 4, 6, 7, 12, 14, 15],
            10 => [0, 1, 3, 4, 5, 7, 12, 13, 15],
            11 => [0, 1, 2, 4, 5, 6, 12, 13, 14],
            12 => [1, 2, 3, 5, 6, 7, 9, 10, 11],
            13 => [0, 2, 3, 4, 6, 7, 8, 10, 11],
            14 => [0, 1, 3, 4, 5, 7, 8, 9, 11],
            15 => [0, 1, 2, 4, 5, 6, 8, 9, 10],
            _ => unreached(),
        };
        let m = Matrix3 {
            data: [
                self.data[idx[0]], self.data[idx[1]], self.data[idx[2]],
                self.data[idx[3]], self.data[idx[4]], self.data[idx[5]],
                self.data[idx[6]], self.data[idx[7]], self.data[idx[8]],
            ],
        };
        proof {
            assert(m.data@ =~= minor4_seq(self.data@, i as int, j as int));
        }
        m
    }
}

/// The sign scalar for the cofactor at cell key `(i, j)`.
fn sign_for(i: usize, j: usize) -> (r: u32)
    requires
        i < 4,
        j < 4,
    ensures
        r == cof_sign(i as int, j as int),
{
    if (i + j) % 2 == 0 {
        ONE_BITS
    } else {
        NEG_ONE_BITS
    }
}

/// Transposing twice gives the matrix back, for every 4x4 contents.
pub proof fn transpose4_involutive(a: Seq<u32>)
    requires
        a.len() == 16,
    ensures
        transpose4_spec(transpose4_spec(a)) == a,
{
    assert(transpose4_spec(transpose4_spec(a)) =~= a);
}

/// The cofactor placement and the transpose inside the inverse cancel: the
/// entry of the inverse at row `r`, column `c` (flat position `p = 4r + c`)
/// is the signed minor determinant keyed by `(r, c)`, divided by the
/// determinant.
pub proof fn inverse4_is_signed_minor_over_det(s: Seq<u32>)
    requires
        s.len() == 16,
    ensures
        inverse4_spec(s) == Seq::new(
            16,
            |p: int| mul_bits(div_bits(ONE_BITS, det4_spec(s)), cof4_entry(s, p / 4, p % 4)),
        ),
{
    assert(inverse4_spec(s) =~= Seq::new(
        16,
        |p: int| mul_bits(div_bits(ONE_BITS, det4_spec(s)), cof4_entry(s, p / 4, p % 4)),
    ));
}

/// The (0, 0) minor of the 4x4 identity matrix is the 3x3 identity matrix.
pub proof fn minor4_identity_is_identity3()
    ensures
        minor4_seq(identity4(), 0, 0) == crate::matrix3::identity3(),
{
    assert(minor4_seq(identity4(), 0, 0) =~= crate::matrix3::identity3());
}

/// The flat contents of the perspective projection matrix for the given
/// aspect ratio, tangent of half the field-of-view angle, and near and far
/// clip depths: the classic frustum form, with `scale = tan_half_fov * z_near`,
/// `right = aspect * scale` and `top = scale`.
pub open spec fn perspective4_spec(aspect: u32, tan_half_fov: u32, z_near: u32, z_far: u32) -> Seq<u32> {
    let scale = mul_bits(tan_half_fov, z_near);
    let right = mul_bits(aspect, scale);
    let top = scale;
    seq![
        div_bits(z_near, right), ZERO_BITS, ZERO_BITS, ZERO_BITS,
        ZERO_BITS, div_bits(z_near, top), ZERO_BITS, ZERO_BITS,
        ZERO_BITS, ZERO_BITS,
        div_bits(neg_bits(add_bits(z_far, z_near)), sub_bits(z_far, z_near)),
        NEG_ONE_BITS,
        ZERO_BITS, ZERO_BITS,
        div_bits(mul_bits(mul_bits(NEG_TWO_BITS, z_far), z_near), sub_bits(z_far, z_near)),
        ZERO_BITS,
    ]
}

/// The perspective projection matrix. `tan_half_fov` is the tangent of half
/// the field-of-view angle; the depth rows use the classic form that divides
/// by `z_far - z_near` as a whole.
pub fn perspective_matrix(aspect: u32, tan_half_fov: u32, z_near: u32, z_far: u32) -> (r: Matrix4)
    ensures
        r.data@ == perspective4_spec(aspect, tan_half_fov, z_near, z_far),
{
    let scale = fmul(tan_half_fov, z_near);
    let right = fmul(aspect, scale);
    let top = scale;
    let depth = fsub(z_far, z_near);
    let m = Matrix4 {
        data: [
            fdiv(z_near, right), ZERO_BITS, ZERO_BITS, ZERO_BITS,
            ZERO_BITS, fdiv(z_near, top), ZERO_BITS, ZERO_BITS,
            ZERO_BITS, ZERO_BITS, fdiv(fneg(fadd(z_far, z_near)), depth), NEG_ONE_BITS,
            ZERO_BITS, ZERO_BITS, fdiv(fmul(fmul(NEG_TWO_BITS, z_far), z_near), depth), ZERO_BITS,
        ],
    };
    proof {
        assert(m.data@ =~= perspective4_spec(aspect, tan_half_fov, z_near, z_far));
    }
    m
}

/// The flat contents of the rotation about the x axis whose angle has the
/// given cosine and sine.
pub open spec fn rotation_x_spec(cos_theta: u32, sin_theta: u32) -> Seq<u32> {
    seq![
        ONE_BITS, ZERO_BITS, ZERO_BITS, ZERO_BITS,
        ZERO_BITS, cos_theta, neg_bits(sin_theta), ZERO_BITS,
        ZERO_BITS, sin_theta, cos_theta, ZERO_BITS,
        ZERO_BITS, ZERO_BITS, ZERO_BITS, ONE_BITS,
    ]
}

/// The right-handed rotation about the x axis: a positive angle turns
/// counter-clockwise seen from the positive axis. Callers supply the angle's
/// cosine and sine.
pub fn rotation_matrix_x(cos_theta: u32, sin_theta: u32) -> (r: Matrix4)
    ensures
        r.data@ == rotation_x_spec(cos_theta, sin_theta),
{
    let m = Matrix4 {
        data: [
            ONE_BITS, ZERO_BITS, ZERO_BITS, ZERO_BITS,
            ZERO_BITS, cos_theta, fneg(sin_theta), ZERO_BITS,
            ZERO_BITS, sin_theta, cos_theta, ZERO_BITS,
            ZERO_BITS, ZERO_BITS, ZERO_BITS, ONE_BITS,
        ],
    };
    proof {
        assert(m.data@ =~= rotation_x_spec(cos_theta, sin_theta));
    }
    m
}

/// The flat contents of the rotation about the y axis whose angle has the
/// given cosine and sine.
pub open spec fn rotation_y_spec(cos_theta: u32, sin_theta: u32) -> Seq<u32> {
    seq![
        cos_theta, ZERO_BITS, sin_theta, ZERO_BITS,
        ZERO_BITS, ONE_BITS, ZERO_BITS, ZERO_BITS,
        neg_bits(sin_theta), ZERO_BITS, cos_theta, ZERO_BITS,
        ZERO_BITS, ZERO_BITS, ZERO_BITS, ONE_BITS,
    ]
}

/// The right-handed rotation about the y axis. Callers supply the angle's
/// cosine and sine.
pub fn rotation_matrix_y(cos_theta: u32, sin_theta: u32) -> (r: Matrix4)
    ensures
        r.data@ == rotation_y_spec(cos_theta, sin_theta),
{
    let m = Matrix4 {
        data: [
            cos_theta, ZERO_BITS, sin_theta, ZERO_BITS,
            ZERO_BITS, ONE_BITS, ZERO_BITS, ZERO_BITS,
            fneg(sin_theta), ZERO_BITS, cos_theta, ZERO_BITS,
            ZERO_BITS, ZERO_BITS, ZERO_BITS, ONE_BITS,
        ],
    };
    proof {
        assert(m.data@ =~= rotation_y_spec(cos_theta, sin_theta));
    }
    m
}

/// The flat contents of the rotation about the z axis whose angle has the
/// given cosine and sine.
pub open spec fn rotation_z_spec(cos_theta: u32, sin_theta: u32) -> Seq<u32> {
    seq![
        cos_theta, neg_bits(sin_theta), ZERO_BITS, ZERO_BITS,
        sin_theta, cos_theta, ZERO_BITS, ZERO_BITS,
        ZERO_BITS, ZERO_BITS, ONE_BITS, ZERO_BITS,
        ZERO_BITS, ZERO_BITS, ZERO_BITS, ONE_BITS,
    ]
}

/// The right-handed rotation about the z axis. Callers supply the angle's
/// cosine and sine.
pub fn rotation_matrix_z(cos_theta: u32, sin_theta: u32) -> (r: Matrix4)
    ensures
        r.data@ == rotation_z_spec(cos_theta, sin_theta),
{
    let m = Matrix4 {
        data: [
            cos_theta, fneg(sin_theta), ZERO_BITS, ZERO_BITS,
            sin_theta, cos_theta, ZERO_BITS, ZERO_BITS,
            ZERO_BITS, ZERO_BITS, ONE_BITS, ZERO_BITS,
            ZERO_BITS, ZERO_BITS, ZERO_BITS, ONE_BITS,
        ],
    };
    proof {
        assert(m.data@ =~= rotation_z_spec(cos_theta, sin_theta));
    }
    m
}

/// The flat contents of the translation matrix: the identity with
/// `[x, y, z]` written into the last row.
pub open spec fn translation4_spec(x: u32, y: u32, z: u32) -> Seq<u32> {
    seq![
        ONE_BITS, ZERO_BITS, ZERO_BITS, ZERO_BITS,
        ZERO_BITS, ONE_BITS, ZERO_BITS, ZERO_BITS,
        ZERO_BITS, ZERO_BITS, ONE_BITS, ZERO_BITS,
        x, y, z, ONE_BITS,
    ]
}

/// The translation matrix, with the offset in the last row: vectors are row
/// vectors multiplied on the left.
pub fn translation_matrix_xyz(x: u32, y: u32, z: u32) -> (r: Matrix4)
    ensures
        r.data@ == translation4_spec(x, y, z),
{
    let m = Matrix4 {
        data: [
            ONE_BITS, ZERO_BITS, ZERO_BITS, ZERO_BITS,
            ZERO_BITS, ONE_BITS, ZERO_BITS, ZERO_BITS,
            ZERO_BITS, ZERO_BITS, ONE_BITS, ZERO_BITS,
            x, y, z, ONE_BITS,
        ],
    };
    proof {
        assert(m.data@ =~= translation4_spec(x, y, z));
    }
    m
}

/// The flat contents of the scale matrix: a diagonal of the three factors
/// and `1.0` in the `w` slot.
pub open spec fn scale4_spec(x: u32, y: u32, z: u32) -> Seq<u32> {
    seq![
        x, ZERO_BITS, ZERO_BITS, ZERO_BITS,
        ZERO_BITS, y, ZERO_BITS, ZERO_BITS,
        ZERO_BITS, ZERO_BITS, z, ZERO_BITS,
        ZERO_BITS, ZERO_BITS, ZERO_BITS, ONE_BITS,
    ]
}

/// The axis-aligned scale matrix.
pub fn scale_matrix_xyz(x: u32, y: u32, z: u32) -> (r: Matrix4)
    ensures
        r.data@ == scale4_spec(x, y, z),
{
    let m = Matrix4 {
        data: [
            x, ZERO_BITS, ZERO_BITS, ZERO_BITS,
            ZERO_BITS, y, ZERO_BITS, ZERO_BITS,
            ZERO_BITS, ZERO_BITS, z, ZERO_BITS,
            ZERO_BITS, ZERO_BITS, ZERO_BITS, ONE_BITS,
        ],
    };
    proof {
        assert(m.data@ =~= scale4_spec(x, y, z));
    }
    m
}

/// The flat contents of the look-at view matrix: the camera basis is built
/// from the normalized look direction, its cross with `up`, and their cross;
/// the look axis is then negated so that view space looks down its negative
/// direction, and each basis row carries `-dot(axis, eye)` as translation.
pub open spec fn look_at_spec(eye: Vector3, at: Vector3, up: Vector3) -> Seq<u32> {
    let fwd = normalize3_spec(v3_sub_spec(at, eye));
    let x_axis = normalize3_spec(cross3_spec(fwd, up));
    let y_axis = cross3_spec(x_axis, fwd);
    let z_axis = v3_neg_spec(fwd);
    seq![
        x_axis.x, x_axis.y, x_axis.z, mul_bits(NEG_ONE_BITS, dot3_spec(x_axis, eye)),
        y_axis.x, y_axis.y, y_axis.z, mul_bits(NEG_ONE_BITS, dot3_spec(y_axis, eye)),
        z_axis.x, z_axis.y, z_axis.z, mul_bits(NEG_ONE_BITS, dot3_spec(z_axis, eye)),
        ZERO_BITS, ZERO_BITS, ZERO_BITS, ONE_BITS,
    ]
}

/// The look-at view matrix for a camera at `eye` looking toward `at` with
/// the given up direction. A degenerate configuration (eye equal to `at`, or
/// `up` parallel to the look direction) propagates non-finite entries.
pub fn look_at(eye: Vector3, at: Vector3, up: Vector3) -> (r: Matrix4)
    ensures
        r.data@ == look_at_spec(eye, at, up),
{
    let mut z_axis = at.sub(eye).normalize();
    let x_axis = z_axis.cross(up).normalize();
    let y_axis = x_axis.cross(z_axis);
    z_axis.negate();
    let m = Matrix4 {
        data: [
            x_axis.x, x_axis.y, x_axis.z, fmul(NEG_ONE_BITS, x_axis.dot(eye)),
            y_axis.x, y_axis.y, y_axis.z, fmul(NEG_ONE_BITS, y_axis.dot(eye)),
            z_axis.x, z_axis.y, z_axis.z, fmul(NEG_ONE_BITS, z_axis.dot(eye)),
            ZERO_BITS, ZERO_BITS, ZERO_BITS, ONE_BITS,
        ],
    };
    proof {
        assert(m.data@ =~= look_at_spec(eye, at, up));
    }
    m
}

/// The flat contents of the first-person camera view matrix: the camera
/// basis is written directly from the cosines and sines of pitch and yaw,
/// and each basis row carries `-dot(axis, eye)` as translation.
pub open spec fn fps_camera_spec(
    eye: Vector3,
    cos_pitch: u32,
    sin_pitch: u32,
    cos_yaw: u32,
    sin_yaw: u32,
) -> Seq<u32> {
    let x_axis = Vector3 { x: cos_yaw, y: ZERO_BITS, z: mul_bits(NEG_ONE_BITS, sin_yaw) };
    let y_axis = Vector3 {
        x: mul_bits(sin_yaw, sin_pitch),
        y: cos_pitch,
        z: mul_bits(cos_yaw, sin_pitch),
    };
    let z_axis = Vector3 {
        x: mul_bits(sin_yaw, cos_pitch),
        y: mul_bits(NEG_ONE_BITS, sin_pitch),
        z: mul_bits(cos_pitch, cos_yaw),
    };
    seq![
        x_axis.x, x_axis.y, x_axis.z, mul_bits(NEG_ONE_BITS, dot3_spec(x_axis, eye)),
        y_axis.x, y_axis.y, y_axis.z, mul_bits(NEG_ONE_BITS, dot3_spec(y_axis, eye)),
        z_axis.x, z_axis.y, z_axis.z, mul_bits(NEG_ONE_BITS, dot3_spec(z_axis, eye)),
        ZERO_BITS, ZERO_BITS, ZERO_BITS, ONE_BITS,
    ]
}

/// The first-person camera view matrix for a camera at `eye` with the given
/// pitch and yaw, an alternate derivation of the look-at matrix. Callers
/// supply the cosines and sines of the two angles.
pub fn fps_camera(
    eye: Vector3,
    cos_pitch: u32,
    sin_pitch: u32,
    cos_yaw: u32,
    sin_yaw: u32,
) -> (r: Matrix4)
    ensures
        r.data@ == fps_camera_spec(eye, cos_pitch, sin_pitch, cos_yaw, sin_yaw),
{
    let x_axis = Vector3::new(cos_yaw, ZERO_BITS, fmul(NEG_ONE_BITS, sin_yaw));
    let y_axis = Vector3::new(fmul(sin_yaw, sin_pitch), cos_pitch, fmul(cos_yaw, sin_pitch));
    let z_axis = Vector3::new(
        fmul(sin_yaw, cos_pitch),
        fmul(NEG_ONE_BITS, sin_pitch),
        fmul(cos_pitch, cos_yaw),
    );
    let m = Matrix4 {
        data: [
            x_axis.x, x_axis.y, x_axis.z, fmul(NEG_ONE_BITS, x_axis.dot(eye)),
            y_axis.x, y_axis.y, y_axis.z, fmul(NEG_ONE_BITS, y_axis.dot(eye)),
            z_axis.x, z_axis.y, z_axis.z, fmul(NEG_ONE_BITS, z_axis.dot(eye)),
            ZERO_BITS, ZERO_BITS, ZERO_BITS, ONE_BITS,
        ],
    };
    proof {
        assert(m.data@ =~= fps_camera_spec(eye, cos_pitch, sin_pitch, cos_yaw, sin_yaw));
    }
    m
}

} // verus!
