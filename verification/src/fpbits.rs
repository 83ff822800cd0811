//! Scalar arithmetic for the library.
//!
//! Every scalar in this crate is the bit pattern of an IEEE 754 binary32
//! value, carried as a `u32`. The arithmetic itself is done by the
//! `rustc_apfloat` software floating-point crate (square roots by its
//! companion `ieee_apsqrt`) behind the trusted wrappers below, rounding to
//! nearest with ties to even. Each operation's result is a function of the
//! operand bits alone, so it is given a name (`add_bits`, `mul_bits`, ...)
//! that the contracts of the rest of the library are stated over.

use vstd::prelude::*;
use rustc_apfloat::Float as ApFloat;

verus! {

/// Bit pattern of binary32 `0.0`.
pub const ZERO_BITS: u32 = 0x0000_0000;

/// Bit pattern of binary32 `-0.0`: only the sign bit is set.
pub const NEG_ZERO_BITS: u32 = 0x8000_0000;

/// Bit pattern of binary32 `1.0`.
pub const ONE_BITS: u32 = 0x3F80_0000;

/// Bit pattern of binary32 `-1.0`.
pub const NEG_ONE_BITS: u32 = 0xBF80_0000;

/// Bit pattern of binary32 `-2.0`.
pub const NEG_TWO_BITS: u32 = 0xC000_0000;

/// A binary32 bit pattern encodes a zero (of either sign) exactly when every
/// bit but the sign bit is clear.
pub open spec fn is_zero_bits(a: u32) -> bool {
    a & 0x7FFF_FFFF == 0
}

/// Binary32 negation: the sign bit is toggled, every other bit is kept.
pub open spec fn neg_bits(a: u32) -> u32 {
    a ^ 0x8000_0000
}

/// The bits of the binary32 sum of the values encoded by `a` and `b`.
pub uninterp spec fn add_bits(a: u32, b: u32) -> u32;

/// The bits of the binary32 difference of the values encoded by `a` and `b`.
pub uninterp spec fn sub_bits(a: u32, b: u32) -> u32;

/// The bits of the binary32 product of the values encoded by `a` and `b`.
pub uninterp spec fn mul_bits(a: u32, b: u32) -> u32;

/// The bits of the binary32 quotient of the values encoded by `a` and `b`.
pub uninterp spec fn div_bits(a: u32, b: u32) -> u32;

/// The bits of the binary32 square root of the value encoded by `a`.
pub uninterp spec fn sqrt_bits(a: u32) -> u32;

/// Relies on `rustc_apfloat::ieee::Single::add_r`: the result depends on the
/// operand bits alone.
#[verifier::external_body]
pub(crate) fn fadd(a: u32, b: u32) -> (r: u32)
    ensures
        r == add_bits(a, b),
{
    let x = rustc_apfloat::ieee::Single::from_bits(a as u128);
    let y = rustc_apfloat::ieee::Single::from_bits(b as u128);
    x.add_r(y, rustc_apfloat::Round::NearestTiesToEven).value.to_bits() as u32
}

/// Relies on `rustc_apfloat::ieee::Single::sub_r`: the result depends on the
/// operand bits alone.
#[verifier::external_body]
pub(crate) fn fsub(a: u32, b: u32) -> (r: u32)
    ensures
        r == sub_bits(a, b),
{
    let x = rustc_apfloat::ieee::Single::from_bits(a as u128);
    let y = rustc_apfloat::ieee::Single::from_bits(b as u128);
    x.sub_r(y, rustc_apfloat::Round::NearestTiesToEven).value.to_bits() as u32
}

/// Relies on `rustc_apfloat::ieee::Single::mul_r`: the result depends on the
/// operand bits alone.
#[verifier::external_body]
pub(crate) fn fmul(a: u32, b: u32) -> (r: u32)
    ensures
        r == mul_bits(a, b),
{
    let x = rustc_apfloat::ieee::Single::from_bits(a as u128);
    let y = rustc_apfloat::ieee::Single::from_bits(b as u128);
    x.mul_r(y, rustc_apfloat::Round::NearestTiesToEven).value.to_bits() as u32
}

/// Relies on `rustc_apfloat::ieee::Single::div_r`: the result depends on the
/// operand bits alone.
#[verifier::external_body]
pub(crate) fn fdiv(a: u32, b: u32) -> (r: u32)
    ensures
        r == div_bits(a, b),
{
    let x = rustc_apfloat::ieee::Single::from_bits(a as u128);
    let y = rustc_apfloat::ieee::Single::from_bits(b as u128);
    x.div_r(y, rustc_apfloat::Round::NearestTiesToEven).value.to_bits() as u32
}

/// Relies on `ieee_apsqrt::sqrt_accurate`, the correctly rounded software
/// square root for `rustc_apfloat`: the result depends on the operand bits
/// alone.
#[verifier::external_body]
pub(crate) fn fsqrt(a: u32) -> (r: u32)
    ensures
        r == sqrt_bits(a),
{
    ieee_apsqrt::sqrt_accurate(a, rustc_apfloat::Round::NearestTiesToEven).0.value
}

/// Binary32 negation, a pure sign-bit flip.
pub(crate) fn fneg(a: u32) -> (r: u32)
    ensures
        r == neg_bits(a),
{
    a ^ NEG_ZERO_BITS
}

/// Relies on `rustc_apfloat::Float::is_zero`: true exactly for the two
/// bit patterns that encode a zero, as the IEEE comparison with zero is.
#[verifier::external_body]
pub(crate) fn f_is_zero(a: u32) -> (r: bool)
    ensures
        r == is_zero_bits(a),
{
    rustc_apfloat::ieee::Single::from_bits(a as u128).is_zero()
}

} // verus!
