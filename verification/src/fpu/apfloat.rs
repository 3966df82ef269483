//! Arithmetic from the `rustc_apfloat` crate.
//!
//! A number stands for itself by its encoding. Each function here makes one call of the crate and
//! says that what came back is the named result of its arguments: the encoding of the value and
//! the bits of the status. Of the conversions to an integer it says what that result is.
use rustc_apfloat::ieee::{Double, Single};
use rustc_apfloat::{Float, FloatConvert};
use vstd::arithmetic::power2::*;
use vstd::prelude::*;

use super::bits::{FloatFormat, Round};
use super::rounding;

verus! {

/// What `Single::add_r` gives: the encoding and the status of the rounded sum.
pub uninterp spec fn single_add_of(a: u32, b: u32, round: Round) -> (u32, u8);

/// Calls `Single::add_r`. The contract claims that the call is a function of its arguments.
#[verifier::external_body]
pub(crate) fn single_add(a: u32, b: u32, round: Round) -> (r: (u32, u8))
    ensures
        r == single_add_of(a, b, round),
{
    let round = match round {
        Round::NearestTiesToEven => rustc_apfloat::Round::NearestTiesToEven,
        Round::TowardPositive => rustc_apfloat::Round::TowardPositive,
        Round::TowardNegative => rustc_apfloat::Round::TowardNegative,
        Round::TowardZero => rustc_apfloat::Round::TowardZero,
        Round::NearestTiesToAway => rustc_apfloat::Round::NearestTiesToAway,
    };
    let r = Single::from_bits(a as u128).add_r(Single::from_bits(b as u128), round);
    (r.value.to_bits() as u32, r.status.bits())
}

/// What `Single::sub_r` gives: the encoding and the status of the rounded difference.
pub uninterp spec fn single_sub_of(a: u32, b: u32, round: Round) -> (u32, u8);

/// Calls `Single::sub_r`. The contract claims that the call is a function of its arguments.
#[verifier::external_body]
pub(crate) fn single_sub(a: u32, b: u32, round: Round) -> (r: (u32, u8))
    ensures
        r == single_sub_of(a, b, round),
{
    let round = match round {
        Round::NearestTiesToEven => rustc_apfloat::Round::NearestTiesToEven,
        Round::TowardPositive => rustc_apfloat::Round::TowardPositive,
        Round::TowardNegative => rustc_apfloat::Round::TowardNegative,
        Round::TowardZero => rustc_apfloat::Round::TowardZero,
        Round::NearestTiesToAway => rustc_apfloat::Round::NearestTiesToAway,
    };
    let r = Single::from_bits(a as u128).sub_r(Single::from_bits(b as u128), round);
    (r.value.to_bits() as u32, r.status.bits())
}

/// What `Single::mul_r` gives: the encoding and the status of the rounded product.
pub uninterp spec fn single_mul_of(a: u32, b: u32, round: Round) -> (u32, u8);

/// Calls `Single::mul_r`. The contract claims that the call is a function of its arguments.
#[verifier::external_body]
pub(crate) fn single_mul(a: u32, b: u32, round: Round) -> (r: (u32, u8))
    ensures
        r == single_mul_of(a, b, round),
{
    let round = match round {
        Round::NearestTiesToEven => rustc_apfloat::Round::NearestTiesToEven,
        Round::TowardPositive => rustc_apfloat::Round::TowardPositive,
        Round::TowardNegative => rustc_apfloat::Round::TowardNegative,
        Round::TowardZero => rustc_apfloat::Round::TowardZero,
        Round::NearestTiesToAway => rustc_apfloat::Round::NearestTiesToAway,
    };
    let r = Single::from_bits(a as u128).mul_r(Single::from_bits(b as u128), round);
    (r.value.to_bits() as u32, r.status.bits())
}

/// What `Single::div_r` gives: the encoding and the status of the rounded quotient.
pub uninterp spec fn single_div_of(a: u32, b: u32, round: Round) -> (u32, u8);

/// Calls `Single::div_r`. The contract claims that the call is a function of its arguments.
#[verifier::external_body]
pub(crate) fn single_div(a: u32, b: u32, round: Round) -> (r: (u32, u8))
    ensures
        r == single_div_of(a, b, round),
{
    let round = match round {
        Round::NearestTiesToEven => rustc_apfloat::Round::NearestTiesToEven,
        Round::TowardPositive => rustc_apfloat::Round::TowardPositive,
        Round::TowardNegative => rustc_apfloat::Round::TowardNegative,
        Round::TowardZero => rustc_apfloat::Round::TowardZero,
        Round::NearestTiesToAway => rustc_apfloat::Round::NearestTiesToAway,
    };
    let r = Single::from_bits(a as u128).div_r(Single::from_bits(b as u128), round);
    (r.value.to_bits() as u32, r.status.bits())
}

/// What `Single::mul_add_r` gives: the encoding and the status of the rounded `a * b + c`.
pub uninterp spec fn single_mul_add_of(a: u32, b: u32, c: u32, round: Round) -> (u32, u8);

/// Calls `Single::mul_add_r`. The contract claims that the call is a function of its arguments.
#[verifier::external_body]
pub(crate) fn single_mul_add(a: u32, b: u32, c: u32, round: Round) -> (r: (u32, u8))
    ensures
        r == single_mul_add_of(a, b, c, round),
{
    let round = match round {
        Round::NearestTiesToEven => rustc_apfloat::Round::NearestTiesToEven,
        Round::TowardPositive => rustc_apfloat::Round::TowardPositive,
        Round::TowardNegative => rustc_apfloat::Round::TowardNegative,
        Round::TowardZero => rustc_apfloat::Round::TowardZero,
        Round::NearestTiesToAway => rustc_apfloat::Round::NearestTiesToAway,
    };
    let (b, c) = (Single::from_bits(b as u128), Single::from_bits(c as u128));
    let r = Single::from_bits(a as u128).mul_add_r(b, c, round);
    (r.value.to_bits() as u32, r.status.bits())
}

/// What `Single::from_u128_r` gives: the encoding and the status of the rounded integer.
pub uninterp spec fn single_from_unsigned_of(v: u64, round: Round) -> (u32, u8);

/// Calls `Single::from_u128_r`. The contract claims that the call is a function of its arguments.
#[verifier::external_body]
pub(crate) fn single_from_unsigned(v: u64, round: Round) -> (r: (u32, u8))
    ensures
        r == single_from_unsigned_of(v, round),
{
    let round = match round {
        Round::NearestTiesToEven => rustc_apfloat::Round::NearestTiesToEven,
        Round::TowardPositive => rustc_apfloat::Round::TowardPositive,
        Round::TowardNegative => rustc_apfloat::Round::TowardNegative,
        Round::TowardZero => rustc_apfloat::Round::TowardZero,
        Round::NearestTiesToAway => rustc_apfloat::Round::NearestTiesToAway,
    };
    let r = Single::from_u128_r(v as u128, round);
    (r.value.to_bits() as u32, r.status.bits())
}

/// What `Single::from_i128_r` gives: the encoding and the status of the rounded integer.
pub uninterp spec fn single_from_signed_of(v: i64, round: Round) -> (u32, u8);

/// Calls `Single::from_i128_r`. The contract claims that the call is a function of its arguments.
#[verifier::external_body]
pub(crate) fn single_from_signed(v: i64, round: Round) -> (r: (u32, u8))
    ensures
        r == single_from_signed_of(v, round),
{
    let round = match round {
        Round::NearestTiesToEven => rustc_apfloat::Round::NearestTiesToEven,
        Round::TowardPositive => rustc_apfloat::Round::TowardPositive,
        Round::TowardNegative => rustc_apfloat::Round::TowardNegative,
        Round::TowardZero => rustc_apfloat::Round::TowardZero,
        Round::NearestTiesToAway => rustc_apfloat::Round::NearestTiesToAway,
    };
    let r = Single::from_i128_r(v as i128, round);
    (r.value.to_bits() as u32, r.status.bits())
}

/// What `Single::to_u128_r` gives for an integer of `width` bits: the integer and the status.
pub open spec fn single_to_unsigned_of(a: u32, width: u32, round: Round) -> (u128, u8) {
    let greatest = pow2(width as nat) - 1;
    let r = rounding::to_integer(FloatFormat::Single, a as u64, 0, greatest, round);
    (r.0 as u128, r.1)
}

/// Calls `Single::to_u128_r`. The contract claims that the number is rounded to an integer in the
/// direction asked for; that an integer which does not fit gives 0 or the greatest one, whichever is
/// nearer, and a NaN gives 0, both as invalid operations; and that an integer which fits is inexact
/// unless it is the number. The call also says whether the conversion is exact, which is not handed
/// on.
#[verifier::external_body]
pub(crate) fn single_to_unsigned(a: u32, width: u32, round: Round) -> (r: (u128, u8))
    requires
        1 <= width <= 64,
    ensures
        r == single_to_unsigned_of(a, width, round),
{
    let round = match round {
        Round::NearestTiesToEven => rustc_apfloat::Round::NearestTiesToEven,
        Round::TowardPositive => rustc_apfloat::Round::TowardPositive,
        Round::TowardNegative => rustc_apfloat::Round::TowardNegative,
        Round::TowardZero => rustc_apfloat::Round::TowardZero,
        Round::NearestTiesToAway => rustc_apfloat::Round::NearestTiesToAway,
    };
    let mut exact = false;
    let r = Single::from_bits(a as u128).to_u128_r(width as usize, round, &mut exact);
    (r.value, r.status.bits())
}

/// What `Single::to_i128_r` gives for an integer of `width` bits: the integer and the status.
pub open spec fn single_to_signed_of(a: u32, width: u32, round: Round) -> (i128, u8) {
    let half = pow2((width - 1) as nat) as int;
    let r = rounding::to_integer(FloatFormat::Single, a as u64, -half, half - 1, round);
    (r.0 as i128, r.1)
}

/// Calls `Single::to_i128_r`. The contract claims that the number is rounded to an integer in the
/// direction asked for; that an integer which does not fit gives the least or the greatest one,
/// whichever is nearer, and a NaN gives 0, both as invalid operations; and that an integer which fits
/// is inexact unless it is the number. The call also says whether the conversion is exact, which is
/// not handed on.
#[verifier::external_body]
pub(crate) fn single_to_signed(a: u32, width: u32, round: Round) -> (r: (i128, u8))
    requires
        2 <= width <= 64,
    ensures
        r == single_to_signed_of(a, width, round),
{
    let round = match round {
        Round::NearestTiesToEven => rustc_apfloat::Round::NearestTiesToEven,
        Round::TowardPositive => rustc_apfloat::Round::TowardPositive,
        Round::TowardNegative => rustc_apfloat::Round::TowardNegative,
        Round::TowardZero => rustc_apfloat::Round::TowardZero,
        Round::NearestTiesToAway => rustc_apfloat::Round::NearestTiesToAway,
    };
    let mut exact = false;
    let r = Single::from_bits(a as u128).to_i128_r(width as usize, round, &mut exact);
    (r.value, r.status.bits())
}

/// What `Single::convert_r` gives for a double precision result: its encoding and the status.
pub uninterp spec fn single_to_double_of(a: u32, round: Round) -> (u64, u8);

/// Calls `Single::convert_r`. The contract claims that the call is a function of its arguments. The
/// call also says whether information was lost, which is not handed on.
#[verifier::external_body]
pub(crate) fn single_to_double(a: u32, round: Round) -> (r: (u64, u8))
    ensures
        r == single_to_double_of(a, round),
{
    let round = match round {
        Round::NearestTiesToEven => rustc_apfloat::Round::NearestTiesToEven,
        Round::TowardPositive => rustc_apfloat::Round::TowardPositive,
        Round::TowardNegative => rustc_apfloat::Round::TowardNegative,
        Round::TowardZero => rustc_apfloat::Round::TowardZero,
        Round::NearestTiesToAway => rustc_apfloat::Round::NearestTiesToAway,
    };
    let mut loses_info = false;
    let r: rustc_apfloat::StatusAnd<Double> = Single::from_bits(a as u128).convert_r(
        round,
        &mut loses_info,
    );
    (r.value.to_bits() as u64, r.status.bits())
}

/// What `Double::add_r` gives: the encoding and the status of the rounded sum.
pub uninterp spec fn double_add_of(a: u64, b: u64, round: Round) -> (u64, u8);

/// Calls `Double::add_r`. The contract claims that the call is a function of its arguments.
#[verifier::external_body]
pub(crate) fn double_add(a: u64, b: u64, round: Round) -> (r: (u64, u8))
    ensures
        r == double_add_of(a, b, round),
{
    let round = match round {
        Round::NearestTiesToEven => rustc_apfloat::Round::NearestTiesToEven,
        Round::TowardPositive => rustc_apfloat::Round::TowardPositive,
        Round::TowardNegative => rustc_apfloat::Round::TowardNegative,
        Round::TowardZero => rustc_apfloat::Round::TowardZero,
        Round::NearestTiesToAway => rustc_apfloat::Round::NearestTiesToAway,
    };
    let r = Double::from_bits(a as u128).add_r(Double::from_bits(b as u128), round);
    (r.value.to_bits() as u64, r.status.bits())
}

/// What `Double::sub_r` gives: the encoding and the status of the rounded difference.
pub uninterp spec fn double_sub_of(a: u64, b: u64, round: Round) -> (u64, u8);

/// Calls `Double::sub_r`. The contract claims that the call is a function of its arguments.
#[verifier::external_body]
pub(crate) fn double_sub(a: u64, b: u64, round: Round) -> (r: (u64, u8))
    ensures
        r == double_sub_of(a, b, round),
{
    let round = match round {
        Round::NearestTiesToEven => rustc_apfloat::Round::NearestTiesToEven,
        Round::TowardPositive => rustc_apfloat::Round::TowardPositive,
        Round::TowardNegative => rustc_apfloat::Round::TowardNegative,
        Round::TowardZero => rustc_apfloat::Round::TowardZero,
        Round::NearestTiesToAway => rustc_apfloat::Round::NearestTiesToAway,
    };
    let r = Double::from_bits(a as u128).sub_r(Double::from_bits(b as u128), round);
    (r.value.to_bits() as u64, r.status.bits())
}

/// What `Double::mul_r` gives: the encoding and the status of the rounded product.
pub uninterp spec fn double_mul_of(a: u64, b: u64, round: Round) -> (u64, u8);

/// Calls `Double::mul_r`. The contract claims that the call is a function of its arguments.
#[verifier::external_body]
pub(crate) fn double_mul(a: u64, b: u64, round: Round) -> (r: (u64, u8))
    ensures
        r == double_mul_of(a, b, round),
{
    let round = match round {
        Round::NearestTiesToEven => rustc_apfloat::Round::NearestTiesToEven,
        Round::TowardPositive => rustc_apfloat::Round::TowardPositive,
        Round::TowardNegative => rustc_apfloat::Round::TowardNegative,
        Round::TowardZero => rustc_apfloat::Round::TowardZero,
        Round::NearestTiesToAway => rustc_apfloat::Round::NearestTiesToAway,
    };
    let r = Double::from_bits(a as u128).mul_r(Double::from_bits(b as u128), round);
    (r.value.to_bits() as u64, r.status.bits())
}

/// What `Double::div_r` gives: the encoding and the status of the rounded quotient.
pub uninterp spec fn double_div_of(a: u64, b: u64, round: Round) -> (u64, u8);

/// Calls `Double::div_r`. The contract claims that the call is a function of its arguments.
#[verifier::external_body]
pub(crate) fn double_div(a: u64, b: u64, round: Round) -> (r: (u64, u8))
    ensures
        r == double_div_of(a, b, round),
{
    let round = match round {
        Round::NearestTiesToEven => rustc_apfloat::Round::NearestTiesToEven,
        Round::TowardPositive => rustc_apfloat::Round::TowardPositive,
        Round::TowardNegative => rustc_apfloat::Round::TowardNegative,
        Round::TowardZero => rustc_apfloat::Round::TowardZero,
        Round::NearestTiesToAway => rustc_apfloat::Round::NearestTiesToAway,
    };
    let r = Double::from_bits(a as u128).div_r(Double::from_bits(b as u128), round);
    (r.value.to_bits() as u64, r.status.bits())
}

/// What `Double::mul_add_r` gives: the encoding and the status of the rounded `a * b + c`.
pub uninterp spec fn double_mul_add_of(a: u64, b: u64, c: u64, round: Round) -> (u64, u8);

/// Calls `Double::mul_add_r`. The contract claims that the call is a function of its arguments.
#[verifier::external_body]
pub(crate) fn double_mul_add(a: u64, b: u64, c: u64, round: Round) -> (r: (u64, u8))
    ensures
        r == double_mul_add_of(a, b, c, round),
{
    let round = match round {
        Round::NearestTiesToEven => rustc_apfloat::Round::NearestTiesToEven,
        Round::TowardPositive => rustc_apfloat::Round::TowardPositive,
        Round::TowardNegative => rustc_apfloat::Round::TowardNegative,
        Round::TowardZero => rustc_apfloat::Round::TowardZero,
        Round::NearestTiesToAway => rustc_apfloat::Round::NearestTiesToAway,
    };
    let (b, c) = (Double::from_bits(b as u128), Double::from_bits(c as u128));
    let r = Double::from_bits(a as u128).mul_add_r(b, c, round);
    (r.value.to_bits() as u64, r.status.bits())
}

/// What `Double::from_u128_r` gives: the encoding and the status of the rounded integer.
pub uninterp spec fn double_from_unsigned_of(v: u64, round: Round) -> (u64, u8);

/// Calls `Double::from_u128_r`. The contract claims that the call is a function of its arguments.
#[verifier::external_body]
pub(crate) fn double_from_unsigned(v: u64, round: Round) -> (r: (u64, u8))
    ensures
        r == double_from_unsigned_of(v, round),
{
    let round = match round {
        Round::NearestTiesToEven => rustc_apfloat::Round::NearestTiesToEven,
        Round::TowardPositive => rustc_apfloat::Round::TowardPositive,
        Round::TowardNegative => rustc_apfloat::Round::TowardNegative,
        Round::TowardZero => rustc_apfloat::Round::TowardZero,
        Round::NearestTiesToAway => rustc_apfloat::Round::NearestTiesToAway,
    };
    let r = Double::from_u128_r(v as u128, round);
    (r.value.to_bits() as u64, r.status.bits())
}

/// What `Double::from_i128_r` gives: the encoding and the status of the rounded integer.
pub uninterp spec fn double_from_signed_of(v: i64, round: Round) -> (u64, u8);

/// Calls `Double::from_i128_r`. The contract claims that the call is a function of its arguments.
#[verifier::external_body]
pub(crate) fn double_from_signed(v: i64, round: Round) -> (r: (u64, u8))
    ensures
        r == double_from_signed_of(v, round),
{
    let round = match round {
        Round::NearestTiesToEven => rustc_apfloat::Round::NearestTiesToEven,
        Round::TowardPositive => rustc_apfloat::Round::TowardPositive,
        Round::TowardNegative => rustc_apfloat::Round::TowardNegative,
        Round::TowardZero => rustc_apfloat::Round::TowardZero,
        Round::NearestTiesToAway => rustc_apfloat::Round::NearestTiesToAway,
    };
    let r = Double::from_i128_r(v as i128, round);
    (r.value.to_bits() as u64, r.status.bits())
}

/// What `Double::to_u128_r` gives for an integer of `width` bits: the integer and the status.
pub open spec fn double_to_unsigned_of(a: u64, width: u32, round: Round) -> (u128, u8) {
    let greatest = pow2(width as nat) - 1;
    let r = rounding::to_integer(FloatFormat::Double, a, 0, greatest, round);
    (r.0 as u128, r.1)
}

/// Calls `Double::to_u128_r`. The contract claims that the number is rounded to an integer in the
/// direction asked for; that an integer which does not fit gives 0 or the greatest one, whichever is
/// nearer, and a NaN gives 0, both as invalid operations; and that an integer which fits is inexact
/// unless it is the number. The call also says whether the conversion is exact, which is not handed
/// on.
#[verifier::external_body]
pub(crate) fn double_to_unsigned(a: u64, width: u32, round: Round) -> (r: (u128, u8))
    requires
        1 <= width <= 64,
    ensures
        r == double_to_unsigned_of(a, width, round),
{
    let round = match round {
        Round::NearestTiesToEven => rustc_apfloat::Round::NearestTiesToEven,
        Round::TowardPositive => rustc_apfloat::Round::TowardPositive,
        Round::TowardNegative => rustc_apfloat::Round::TowardNegative,
        Round::TowardZero => rustc_apfloat::Round::TowardZero,
        Round::NearestTiesToAway => rustc_apfloat::Round::NearestTiesToAway,
    };
    let mut exact = false;
    let r = Double::from_bits(a as u128).to_u128_r(width as usize, round, &mut exact);
    (r.value, r.status.bits())
}

/// What `Double::to_i128_r` gives for an integer of `width` bits: the integer and the status.
pub open spec fn double_to_signed_of(a: u64, width: u32, round: Round) -> (i128, u8) {
    let half = pow2((width - 1) as nat) as int;
    let r = rounding::to_integer(FloatFormat::Double, a, -half, half - 1, round);
    (r.0 as i128, r.1)
}

/// Calls `Double::to_i128_r`. The contract claims that the number is rounded to an integer in the
/// direction asked for; that an integer which does not fit gives the least or the greatest one,
/// whichever is nearer, and a NaN gives 0, both as invalid operations; and that an integer which fits
/// is inexact unless it is the number. The call also says whether the conversion is exact, which is
/// not handed on.
#[verifier::external_body]
pub(crate) fn double_to_signed(a: u64, width: u32, round: Round) -> (r: (i128, u8))
    requires
        2 <= width <= 64,
    ensures
        r == double_to_signed_of(a, width, round),
{
    let round = match round {
        Round::NearestTiesToEven => rustc_apfloat::Round::NearestTiesToEven,
        Round::TowardPositive => rustc_apfloat::Round::TowardPositive,
        Round::TowardNegative => rustc_apfloat::Round::TowardNegative,
        Round::TowardZero => rustc_apfloat::Round::TowardZero,
        Round::NearestTiesToAway => rustc_apfloat::Round::NearestTiesToAway,
    };
    let mut exact = false;
    let r = Double::from_bits(a as u128).to_i128_r(width as usize, round, &mut exact);
    (r.value, r.status.bits())
}

/// What `Double::convert_r` gives for a single precision result: its encoding and the status.
pub uninterp spec fn double_to_single_of(a: u64, round: Round) -> (u32, u8);

/// Calls `Double::convert_r`. The contract claims that the call is a function of its arguments. The
/// call also says whether information was lost, which is not handed on.
#[verifier::external_body]
pub(crate) fn double_to_single(a: u64, round: Round) -> (r: (u32, u8))
    ensures
        r == double_to_single_of(a, round),
{
    let round = match round {
        Round::NearestTiesToEven => rustc_apfloat::Round::NearestTiesToEven,
        Round::TowardPositive => rustc_apfloat::Round::TowardPositive,
        Round::TowardNegative => rustc_apfloat::Round::TowardNegative,
        Round::TowardZero => rustc_apfloat::Round::TowardZero,
        Round::NearestTiesToAway => rustc_apfloat::Round::NearestTiesToAway,
    };
    let mut loses_info = false;
    let r: rustc_apfloat::StatusAnd<Single> = Double::from_bits(a as u128).convert_r(
        round,
        &mut loses_info,
    );
    (r.value.to_bits() as u32, r.status.bits())
}

} // verus!
