//! Single-precision scalar arithmetic on raw bit patterns.
//!
//! The dataset stores every numeric value as the 32-bit pattern of an
//! IEEE-754 single-precision number. The executable operations below are
//! carried out by `rustc_apfloat`'s software model of that format. Each
//! operation's result is a pure function of its argument bits, so it is
//! named by an uninterpreted spec function; contracts elsewhere in the crate
//! then record exactly which operations produced every stored value.

use rustc_apfloat::ieee::Single;
use rustc_apfloat::Float;
use rustc_apfloat::Round;
use vstd::prelude::*;

verus! {

/// Bit pattern of single-precision `0.0`.
pub const ZERO_BITS: u32 = 0;

/// Bit pattern of single-precision `1.0`.
pub const ONE_BITS: u32 = 0x3F80_0000;

/// Bit pattern of single-precision `2.0`.
pub const TWO_BITS: u32 = 0x4000_0000;

/// Bit pattern of single-precision `-1.0`.
pub const NEG_ONE_BITS: u32 = 0xBF80_0000;

/// Bit pattern of single-precision `16777216.0`, that is `2^24`.
pub const POW24_BITS: u32 = 0x4B80_0000;

/// The IEEE-754 single-precision sum of two bit patterns, rounded to
/// nearest, ties to even.
pub uninterp spec fn add_bits(a: u32, b: u32) -> u32;

/// The IEEE-754 single-precision difference of two bit patterns, rounded to
/// nearest, ties to even.
pub uninterp spec fn sub_bits(a: u32, b: u32) -> u32;

/// The IEEE-754 single-precision product of two bit patterns, rounded to
/// nearest, ties to even.
pub uninterp spec fn mul_bits(a: u32, b: u32) -> u32;

/// The IEEE-754 single-precision quotient of two bit patterns, rounded to
/// nearest, ties to even.
pub uninterp spec fn div_bits(a: u32, b: u32) -> u32;

/// The IEEE-754 single-precision negation of a bit pattern.
pub uninterp spec fn neg_bits(a: u32) -> u32;

/// The bit pattern of the single-precision value nearest to an unsigned
/// integer, rounded to nearest, ties to even.
pub uninterp spec fn uint_bits(v: int) -> u32;

/// Whether the single-precision value of `a` is strictly below that of `b`;
/// false whenever either is a NaN.
pub uninterp spec fn lt_bits(a: u32, b: u32) -> bool;

/// Whether the single-precision value of `a` is below or equal to that of
/// `b`; false whenever either is a NaN.
pub uninterp spec fn le_bits(a: u32, b: u32) -> bool;

/// The bit pattern of a single-precision value rounded to an integral
/// value, ties away from zero.
pub uninterp spec fn round_away_bits(a: u32) -> u32;

/// The single-precision value of `a` as an unsigned machine word: truncated
/// toward zero, saturating at the ends of the range, zero for NaN.
pub uninterp spec fn usize_of_bits(a: u32) -> usize;

/// Relies on `rustc_apfloat`: addition of two `ieee::Single` values rounded
/// to nearest, ties to even.
#[verifier::external_body]
pub(crate) fn bits_add(a: u32, b: u32) -> (r: u32)
    ensures
        r == add_bits(a, b),
{
    (Single::from_bits(a as u128) + Single::from_bits(b as u128)).value.to_bits() as u32
}

/// Relies on `rustc_apfloat`: subtraction of two `ieee::Single` values
/// rounded to nearest, ties to even.
#[verifier::external_body]
pub(crate) fn bits_sub(a: u32, b: u32) -> (r: u32)
    ensures
        r == sub_bits(a, b),
{
    (Single::from_bits(a as u128) - Single::from_bits(b as u128)).value.to_bits() as u32
}

/// Relies on `rustc_apfloat`: multiplication of two `ieee::Single` values
/// rounded to nearest, ties to even.
#[verifier::external_body]
pub(crate) fn bits_mul(a: u32, b: u32) -> (r: u32)
    ensures
        r == mul_bits(a, b),
{
    (Single::from_bits(a as u128) * Single::from_bits(b as u128)).value.to_bits() as u32
}

/// Relies on `rustc_apfloat`: division of two `ieee::Single` values rounded
/// to nearest, ties to even.
#[verifier::external_body]
pub(crate) fn bits_div(a: u32, b: u32) -> (r: u32)
    ensures
        r == div_bits(a, b),
{
    (Single::from_bits(a as u128) / Single::from_bits(b as u128)).value.to_bits() as u32
}

/// Relies on `rustc_apfloat`: negation of an `ieee::Single` value.
#[verifier::external_body]
pub(crate) fn bits_neg(a: u32) -> (r: u32)
    ensures
        r == neg_bits(a),
{
    (-Single::from_bits(a as u128)).to_bits() as u32
}

/// Relies on `rustc_apfloat`: `ieee::Single::from_u128` converts an
/// unsigned integer to the nearest single-precision value, ties to even.
#[verifier::external_body]
pub(crate) fn bits_of_uint(v: usize) -> (r: u32)
    ensures
        r == uint_bits(v as int),
{
    Single::from_u128(v as u128).value.to_bits() as u32
}

/// Relies on `rustc_apfloat`: the `PartialOrd` order of `ieee::Single`
/// values, under which a NaN compares with nothing.
#[verifier::external_body]
pub(crate) fn bits_lt(a: u32, b: u32) -> (r: bool)
    ensures
        r == lt_bits(a, b),
{
    Single::from_bits(a as u128) < Single::from_bits(b as u128)
}

/// Relies on `rustc_apfloat`: the `PartialOrd` order of `ieee::Single`
/// values, under which a NaN compares with nothing.
#[verifier::external_body]
pub(crate) fn bits_le(a: u32, b: u32) -> (r: bool)
    ensures
        r == le_bits(a, b),
{
    Single::from_bits(a as u128) <= Single::from_bits(b as u128)
}

/// Relies on `rustc_apfloat`: `ieee::Single::round_to_integral` with ties
/// rounded away from zero.
#[verifier::external_body]
pub(crate) fn bits_round_away(a: u32) -> (r: u32)
    ensures
        r == round_away_bits(a),
{
    Single::from_bits(a as u128).round_to_integral(Round::NearestTiesToAway).value.to_bits() as u32
}

/// Relies on `rustc_apfloat`: `ieee::Single::to_u128` truncates toward
/// zero, returns zero for NaN and saturates out-of-range values.
#[verifier::external_body]
pub(crate) fn bits_to_usize(a: u32) -> (r: usize)
    ensures
        r == usize_of_bits(a),
{
    Single::from_bits(a as u128).to_u128(64).value as usize
}

/// Relies on `rand::random` for an arbitrary machine word; nothing is
/// assumed about the value drawn.
#[verifier::external_body]
pub(crate) fn random_u32() -> u32 {
    rand::random::<u32>()
}

} // verus!
