//! Decimal arithmetic on `d128`, the 128-bit decimal floating-point type.
//!
//! A `d128` is carried through the library as an opaque value. Each
//! operation is a function of its operands alone: the context that the
//! underlying routines read is private to the `decimal` crate and always
//! holds 34 digits with round-half-even. The result of each operation has a
//! name here, and the contracts of the library are stated over these names.

use vstd::prelude::*;
use decimal::d128;
use std::str::FromStr;

verus! {

/// The 128-bit decimal floating-point type of the `decimal` crate.
#[verifier::external_type_specification]
#[verifier::external_body]
pub struct ExD128(d128);

/// The decimal that `d128::from` gives for an unsigned 32-bit integer.
pub uninterp spec fn from_u32_spec(v: u32) -> d128;

/// The decimal that `d128::from_str` gives for a string.
pub uninterp spec fn parse_spec(s: Seq<char>) -> d128;

/// The rounded sum of two decimals.
pub uninterp spec fn add_spec(a: d128, b: d128) -> d128;

/// The rounded difference of two decimals.
pub uninterp spec fn sub_spec(a: d128, b: d128) -> d128;

/// The rounded product of two decimals.
pub uninterp spec fn mul_spec(a: d128, b: d128) -> d128;

/// The rounded quotient of two decimals.
pub uninterp spec fn div_spec(a: d128, b: d128) -> d128;

/// The rounded power of a decimal base to a decimal exponent.
pub uninterp spec fn pow_spec(base: d128, exponent: d128) -> d128;

/// Whether a decimal is a zero of either sign.
pub uninterp spec fn is_zero_spec(a: d128) -> bool;

/// Calls `d128::from(u32)`. The conversion is exact and reads nothing but
/// the integer, so the result is named by `from_u32_spec`.
#[verifier::external_body]
pub(crate) fn dec_from_u32(v: u32) -> (r: d128)
    ensures
        r == from_u32_spec(v),
{
    d128::from(v)
}

/// Calls `d128::from_str`, which returns `Ok` for every text: text that is
/// no decimal numeral gives a quiet NaN. The result depends on the text
/// alone and is named by `parse_spec`.
#[verifier::external_body]
pub(crate) fn dec_parse(s: &str) -> (r: d128)
    ensures
        r == parse_spec(s@),
{
    d128::from_str(s).unwrap()
}

/// Calls `d128`'s `+`. The sum depends on the two operands alone and is
/// named by `add_spec`.
#[verifier::external_body]
pub(crate) fn dec_add(a: d128, b: d128) -> (r: d128)
    ensures
        r == add_spec(a, b),
{
    a + b
}

/// Calls `d128`'s `-`. The difference depends on the two operands alone
/// and is named by `sub_spec`.
#[verifier::external_body]
pub(crate) fn dec_sub(a: d128, b: d128) -> (r: d128)
    ensures
        r == sub_spec(a, b),
{
    a - b
}

/// Calls `d128`'s `*`. The product depends on the two operands alone and
/// is named by `mul_spec`.
#[verifier::external_body]
pub(crate) fn dec_mul(a: d128, b: d128) -> (r: d128)
    ensures
        r == mul_spec(a, b),
{
    a * b
}

/// Calls `d128`'s `/`. The quotient depends on the two operands alone and
/// is named by `div_spec`; a zero divisor gives an infinity or a NaN, not
/// a panic.
#[verifier::external_body]
pub(crate) fn dec_div(a: d128, b: d128) -> (r: d128)
    ensures
        r == div_spec(a, b),
{
    a / b
}

/// Calls `d128::pow`. The power depends on base and exponent alone and is
/// named by `pow_spec`.
#[verifier::external_body]
pub(crate) fn dec_pow(base: d128, exponent: d128) -> (r: d128)
    ensures
        r == pow_spec(base, exponent),
{
    base.pow(exponent)
}

/// Calls `d128::is_zero`, which tells whether the decimal is a zero; the
/// answer is named by `is_zero_spec`.
#[verifier::external_body]
pub(crate) fn dec_is_zero(a: d128) -> (r: bool)
    ensures
        r == is_zero_spec(a),
{
    a.is_zero()
}

} // verus!
