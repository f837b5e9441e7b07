//! The scalar arithmetic used on recorded values.
//!
//! Every scalar is an IEEE-754 binary64 bit pattern in a `u64`.  The four
//! arithmetic operations go through `rustc_apfloat`, a software
//! implementation of IEEE-754 that works directly on bit patterns.  The
//! elementary functions go through `astro-float`, a software big-float
//! library; a finite value crosses that boundary as the integer
//! magnitude-and-exponent form of `crate::bits`, and the result is rounded
//! back to binary64 by the verified `encode`.  Each outside call is named by
//! an uninterpreted function of its arguments, which is what the rest of the
//! library's contracts speak of; non-finite arguments are handled by
//! verified code before any outside call is made.

use vstd::prelude::*;
use rustc_apfloat::Float;
use astro_float::BigFloat;
use astro_float::Consts;
use astro_float::RoundingMode;
use astro_float::Sign;
use crate::bits::spec_is_nan_bits;
use crate::bits::spec_is_inf_bits;
use crate::bits::spec_decode_neg;
use crate::bits::spec_decode_mag;
use crate::bits::spec_decode_exp;
use crate::bits::spec_encode;
use crate::bits::decode;
use crate::bits::encode;
use crate::bits::abs_bits;
use crate::bits::EXP_MASK;
use crate::bits::NAN_BITS;
use crate::bits::POS_INF_BITS;
use crate::bits::NEG_INF_BITS;
use crate::bits::ONE_BITS;
use crate::bits::NEG_ONE_BITS;
use crate::bits::HALF_BITS;
use crate::bits::ZERO_BITS;

verus! {

/// The IEEE-754 binary64 sum of two bit patterns.
pub uninterp spec fn add_of(a: u64, b: u64) -> u64;

/// The IEEE-754 binary64 difference of two bit patterns.
pub uninterp spec fn sub_of(a: u64, b: u64) -> u64;

/// The IEEE-754 binary64 product of two bit patterns.
pub uninterp spec fn mul_of(a: u64, b: u64) -> u64;

/// The IEEE-754 binary64 quotient of two bit patterns.
pub uninterp spec fn div_of(a: u64, b: u64) -> u64;

/// The IEEE-754 binary64 value nearest to a signed integer.
pub uninterp spec fn int_of(n: i64) -> u64;

/// Relies on rustc_apfloat's `Double::add_r`: IEEE-754 binary64 addition
/// with round-to-nearest-even, a pure function of the argument bit patterns.
#[verifier::external_body]
pub(crate) fn add_bits(a: u64, b: u64) -> (r: u64)
    ensures
        r == add_of(a, b),
{
    let x = rustc_apfloat::ieee::Double::from_bits(a as u128);
    let y = rustc_apfloat::ieee::Double::from_bits(b as u128);
    x.add_r(y, rustc_apfloat::Round::NearestTiesToEven).value.to_bits() as u64
}

/// Relies on rustc_apfloat's `Double::sub_r`: IEEE-754 binary64 subtraction
/// with round-to-nearest-even, a pure function of the argument bit patterns.
#[verifier::external_body]
pub(crate) fn sub_bits(a: u64, b: u64) -> (r: u64)
    ensures
        r == sub_of(a, b),
{
    let x = rustc_apfloat::ieee::Double::from_bits(a as u128);
    let y = rustc_apfloat::ieee::Double::from_bits(b as u128);
    x.sub_r(y, rustc_apfloat::Round::NearestTiesToEven).value.to_bits() as u64
}

/// Relies on rustc_apfloat's `Double::mul_r`: IEEE-754 binary64
/// multiplication with round-to-nearest-even, a pure function of the
/// argument bit patterns.
#[verifier::external_body]
pub(crate) fn mul_bits(a: u64, b: u64) -> (r: u64)
    ensures
        r == mul_of(a, b),
{
    let x = rustc_apfloat::ieee::Double::from_bits(a as u128);
    let y = rustc_apfloat::ieee::Double::from_bits(b as u128);
    x.mul_r(y, rustc_apfloat::Round::NearestTiesToEven).value.to_bits() as u64
}

/// Relies on rustc_apfloat's `Double::div_r`: IEEE-754 binary64 division
/// with round-to-nearest-even, a pure function of the argument bit patterns.
#[verifier::external_body]
pub(crate) fn div_bits(a: u64, b: u64) -> (r: u64)
    ensures
        r == div_of(a, b),
{
    let x = rustc_apfloat::ieee::Double::from_bits(a as u128);
    let y = rustc_apfloat::ieee::Double::from_bits(b as u128);
    x.div_r(y, rustc_apfloat::Round::NearestTiesToEven).value.to_bits() as u64
}

/// Relies on rustc_apfloat's `Double::from_i128`: conversion of a signed
/// integer to the nearest IEEE-754 binary64 value.
#[verifier::external_body]
pub(crate) fn int_bits(n: i64) -> (r: u64)
    ensures
        r == int_of(n),
{
    rustc_apfloat::ieee::Double::from_i128(n as i128).value.to_bits() as u64
}

/// The result of an elementary-function call on a finite argument, as the
/// software library reports it: a class tag (0 finite, 1 positive infinity,
/// 2 negative infinity, 3 NaN) and, for a finite result, its sign, the low
/// and high words of its 128-bit mantissa, its exponent and its inexact
/// flag, the value being about
/// `(-1)^sign * (hi * 2^64 + lo) * 2^(exponent - 128)`.
pub uninterp spec fn exp_parts(neg: bool, mag: u64, e: i32) -> (u8, bool, u64, u64, i32, bool);

/// The natural logarithm, reported as `exp_parts` is.
pub uninterp spec fn ln_parts(neg: bool, mag: u64, e: i32) -> (u8, bool, u64, u64, i32, bool);

/// The sine, reported as `exp_parts` is.
pub uninterp spec fn sin_parts(neg: bool, mag: u64, e: i32) -> (u8, bool, u64, u64, i32, bool);

/// The cosine, reported as `exp_parts` is.
pub uninterp spec fn cos_parts(neg: bool, mag: u64, e: i32) -> (u8, bool, u64, u64, i32, bool);

/// The tangent, reported as `exp_parts` is.
pub uninterp spec fn tan_parts(neg: bool, mag: u64, e: i32) -> (u8, bool, u64, u64, i32, bool);

/// The hyperbolic sine, reported as `exp_parts` is.
pub uninterp spec fn sinh_parts(neg: bool, mag: u64, e: i32) -> (u8, bool, u64, u64, i32, bool);

/// The hyperbolic cosine, reported as `exp_parts` is.
pub uninterp spec fn cosh_parts(neg: bool, mag: u64, e: i32) -> (u8, bool, u64, u64, i32, bool);

/// The hyperbolic tangent, reported as `exp_parts` is.
pub uninterp spec fn tanh_parts(neg: bool, mag: u64, e: i32) -> (u8, bool, u64, u64, i32, bool);

/// The inverse hyperbolic sine, reported as `exp_parts` is.
pub uninterp spec fn asinh_parts(neg: bool, mag: u64, e: i32) -> (u8, bool, u64, u64, i32, bool);

/// The square root, reported as `exp_parts` is.
pub uninterp spec fn sqrt_parts(neg: bool, mag: u64, e: i32) -> (u8, bool, u64, u64, i32, bool);

/// The power `base ^ exponent` of two finite values, reported as
/// `exp_parts` is.
pub uninterp spec fn pow_parts(
    bneg: bool,
    bmag: u64,
    be: i32,
    eneg: bool,
    emag: u64,
    ee: i32,
) -> (u8, bool, u64, u64, i32, bool);

/// The bit pattern encoding a reported elementary-function result: the
/// high mantissa word is rounded to binary64, with the low word and the
/// inexact flag folded into the sticky bit.
pub open spec fn parts_to_bits(p: (u8, bool, u64, u64, i32, bool)) -> u64 {
    if p.0 == 0 {
        if p.3 == 0 {
            spec_encode(p.1, p.2, (p.4 - 64) as i64, p.5)
        } else {
            spec_encode(p.1, p.3, p.4 as i64, p.2 != 0 || p.5)
        }
    } else if p.0 == 1 {
        POS_INF_BITS
    } else if p.0 == 2 {
        NEG_INF_BITS
    } else {
        NAN_BITS
    }
}

/// Encodes a reported elementary-function result as a bit pattern.
fn parts_value(p: (u8, bool, u64, u64, i32, bool)) -> (r: u64)
    ensures
        r == parts_to_bits(p),
{
    if p.0 == 0 {
        if p.3 == 0 {
            encode(p.1, p.2, p.4 as i64 - 64, p.5)
        } else {
            encode(p.1, p.3, p.4 as i64, p.2 != 0 || p.5)
        }
    } else if p.0 == 1 {
        POS_INF_BITS
    } else if p.0 == 2 {
        NEG_INF_BITS
    } else {
        NAN_BITS
    }
}

/// Whether the bit pattern is an infinity or NaN.
fn is_non_finite(a: u64) -> (r: bool)
    ensures
        r == (spec_is_nan_bits(a) || spec_is_inf_bits(a)),
{
    abs_bits(a) >= EXP_MASK
}

/// Relies on astro-float's `BigFloat::exp` at 128-bit precision: a pure
/// function of the argument's sign, mantissa and exponent.
#[verifier::external_body]
fn ast_exp(neg: bool, mag: u64, e: i32) -> (r: (u8, bool, u64, u64, i32, bool))
    ensures
        r == exp_parts(neg, mag, e),
{
    let x = BigFloat::from_words(&[mag], if neg { Sign::Neg } else { Sign::Pos }, e);
    let mut cc = Consts::new().unwrap();
    let y = x.exp(128, RoundingMode::ToEven, &mut cc);
    match y.as_raw_parts() {
        Some((w, _, s2, e2, inx)) => (0, s2 == Sign::Neg, w[0], w[1], e2, inx),
        None => (if y.is_inf_pos() { 1 } else if y.is_inf_neg() { 2 } else { 3 }, false, 0, 0, 0, false),
    }
}

/// Relies on astro-float's `BigFloat::ln` at 128-bit precision: a pure
/// function of the argument's sign, mantissa and exponent.
#[verifier::external_body]
fn ast_ln(neg: bool, mag: u64, e: i32) -> (r: (u8, bool, u64, u64, i32, bool))
    ensures
        r == ln_parts(neg, mag, e),
{
    let x = BigFloat::from_words(&[mag], if neg { Sign::Neg } else { Sign::Pos }, e);
    let mut cc = Consts::new().unwrap();
    let y = x.ln(128, RoundingMode::ToEven, &mut cc);
    match y.as_raw_parts() {
        Some((w, _, s2, e2, inx)) => (0, s2 == Sign::Neg, w[0], w[1], e2, inx),
        None => (if y.is_inf_pos() { 1 } else if y.is_inf_neg() { 2 } else { 3 }, false, 0, 0, 0, false),
    }
}

/// Relies on astro-float's `BigFloat::sin` at 128-bit precision: a pure
/// function of the argument's sign, mantissa and exponent.
#[verifier::external_body]
fn ast_sin(neg: bool, mag: u64, e: i32) -> (r: (u8, bool, u64, u64, i32, bool))
    ensures
        r == sin_parts(neg, mag, e),
{
    let x = BigFloat::from_words(&[mag], if neg { Sign::Neg } else { Sign::Pos }, e);
    let mut cc = Consts::new().unwrap();
    let y = x.sin(128, RoundingMode::ToEven, &mut cc);
    match y.as_raw_parts() {
        Some((w, _, s2, e2, inx)) => (0, s2 == Sign::Neg, w[0], w[1], e2, inx),
        None => (if y.is_inf_pos() { 1 } else if y.is_inf_neg() { 2 } else { 3 }, false, 0, 0, 0, false),
    }
}

/// Relies on astro-float's `BigFloat::cos` at 128-bit precision: a pure
/// function of the argument's sign, mantissa and exponent.
#[verifier::external_body]
fn ast_cos(neg: bool, mag: u64, e: i32) -> (r: (u8, bool, u64, u64, i32, bool))
    ensures
        r == cos_parts(neg, mag, e),
{
    let x = BigFloat::from_words(&[mag], if neg { Sign::Neg } else { Sign::Pos }, e);
    let mut cc = Consts::new().unwrap();
    let y = x.cos(128, RoundingMode::ToEven, &mut cc);
    match y.as_raw_parts() {
        Some((w, _, s2, e2, inx)) => (0, s2 == Sign::Neg, w[0], w[1], e2, inx),
        None => (if y.is_inf_pos() { 1 } else if y.is_inf_neg() { 2 } else { 3 }, false, 0, 0, 0, false),
    }
}

/// Relies on astro-float's `BigFloat::tan` at 128-bit precision: a pure
/// function of the argument's sign, mantissa and exponent.
#[verifier::external_body]
fn ast_tan(neg: bool, mag: u64, e: i32) -> (r: (u8, bool, u64, u64, i32, bool))
    ensures
        r == tan_parts(neg, mag, e),
{
    let x = BigFloat::from_words(&[mag], if neg { Sign::Neg } else { Sign::Pos }, e);
    let mut cc = Consts::new().unwrap();
    let y = x.tan(128, RoundingMode::ToEven, &mut cc);
    match y.as_raw_parts() {
        Some((w, _, s2, e2, inx)) => (0, s2 == Sign::Neg, w[0], w[1], e2, inx),
        None => (if y.is_inf_pos() { 1 } else if y.is_inf_neg() { 2 } else { 3 }, false, 0, 0, 0, false),
    }
}

/// Relies on astro-float's `BigFloat::sinh` at 128-bit precision: a pure
/// function of the argument's sign, mantissa and exponent.
#[verifier::external_body]
fn ast_sinh(neg: bool, mag: u64, e: i32) -> (r: (u8, bool, u64, u64, i32, bool))
    ensures
        r == sinh_parts(neg, mag, e),
{
    let x = BigFloat::from_words(&[mag], if neg { Sign::Neg } else { Sign::Pos }, e);
    let mut cc = Consts::new().unwrap();
    let y = x.sinh(128, RoundingMode::ToEven, &mut cc);
    match y.as_raw_parts() {
        Some((w, _, s2, e2, inx)) => (0, s2 == Sign::Neg, w[0], w[1], e2, inx),
        None => (if y.is_inf_pos() { 1 } else if y.is_inf_neg() { 2 } else { 3 }, false, 0, 0, 0, false),
    }
}

/// Relies on astro-float's `BigFloat::cosh` at 128-bit precision: a pure
/// function of the argument's sign, mantissa and exponent.
#[verifier::external_body]
fn ast_cosh(neg: bool, mag: u64, e: i32) -> (r: (u8, bool, u64, u64, i32, bool))
    ensures
        r == cosh_parts(neg, mag, e),
{
    let x = BigFloat::from_words(&[mag], if neg { Sign::Neg } else { Sign::Pos }, e);
    let mut cc = Consts::new().unwrap();
    let y = x.cosh(128, RoundingMode::ToEven, &mut cc);
    match y.as_raw_parts() {
        Some((w, _, s2, e2, inx)) => (0, s2 == Sign::Neg, w[0], w[1], e2, inx),
        None => (if y.is_inf_pos() { 1 } else if y.is_inf_neg() { 2 } else { 3 }, false, 0, 0, 0, false),
    }
}

/// Relies on astro-float's `BigFloat::tanh` at 128-bit precision: a pure
/// function of the argument's sign, mantissa and exponent.
#[verifier::external_body]
fn ast_tanh(neg: bool, mag: u64, e: i32) -> (r: (u8, bool, u64, u64, i32, bool))
    ensures
        r == tanh_parts(neg, mag, e),
{
    let x = BigFloat::from_words(&[mag], if neg { Sign::Neg } else { Sign::Pos }, e);
    let mut cc = Consts::new().unwrap();
    let y = x.tanh(128, RoundingMode::ToEven, &mut cc);
    match y.as_raw_parts() {
        Some((w, _, s2, e2, inx)) => (0, s2 == Sign::Neg, w[0], w[1], e2, inx),
        None => (if y.is_inf_pos() { 1 } else if y.is_inf_neg() { 2 } else { 3 }, false, 0, 0, 0, false),
    }
}

/// Relies on astro-float's `BigFloat::asinh` at 128-bit precision: a pure
/// function of the argument's sign, mantissa and exponent.
#[verifier::external_body]
fn ast_asinh(neg: bool, mag: u64, e: i32) -> (r: (u8, bool, u64, u64, i32, bool))
    ensures
        r == asinh_parts(neg, mag, e),
{
    let x = BigFloat::from_words(&[mag], if neg { Sign::Neg } else { Sign::Pos }, e);
    let mut cc = Consts::new().unwrap();
    let y = x.asinh(128, RoundingMode::ToEven, &mut cc);
    match y.as_raw_parts() {
        Some((w, _, s2, e2, inx)) => (0, s2 == Sign::Neg, w[0], w[1], e2, inx),
        None => (if y.is_inf_pos() { 1 } else if y.is_inf_neg() { 2 } else { 3 }, false, 0, 0, 0, false),
    }
}

/// Relies on astro-float's `BigFloat::sqrt` at 128-bit precision: a pure
/// function of the argument's sign, mantissa and exponent.
#[verifier::external_body]
fn ast_sqrt(neg: bool, mag: u64, e: i32) -> (r: (u8, bool, u64, u64, i32, bool))
    ensures
        r == sqrt_parts(neg, mag, e),
{
    let x = BigFloat::from_words(&[mag], if neg { Sign::Neg } else { Sign::Pos }, e);
    let y = x.sqrt(128, RoundingMode::ToEven);
    match y.as_raw_parts() {
        Some((w, _, s2, e2, inx)) => (0, s2 == Sign::Neg, w[0], w[1], e2, inx),
        None => (if y.is_inf_pos() { 1 } else if y.is_inf_neg() { 2 } else { 3 }, false, 0, 0, 0, false),
    }
}

/// Relies on astro-float's `BigFloat::pow` at 128-bit precision: a pure
/// function of the two arguments' signs, mantissas and exponents.
#[verifier::external_body]
fn ast_pow(bneg: bool, bmag: u64, be: i32, eneg: bool, emag: u64, ee: i32) -> (r: (u8, bool, u64, u64, i32, bool))
    ensures
        r == pow_parts(bneg, bmag, be, eneg, emag, ee),
{
    let b = BigFloat::from_words(&[bmag], if bneg { Sign::Neg } else { Sign::Pos }, be);
    let n = BigFloat::from_words(&[emag], if eneg { Sign::Neg } else { Sign::Pos }, ee);
    let mut cc = Consts::new().unwrap();
    let y = b.pow(&n, 128, RoundingMode::ToEven, &mut cc);
    match y.as_raw_parts() {
        Some((w, _, s2, e2, inx)) => (0, s2 == Sign::Neg, w[0], w[1], e2, inx),
        None => (if y.is_inf_pos() { 1 } else if y.is_inf_neg() { 2 } else { 3 }, false, 0, 0, 0, false),
    }
}

/// The parts of a finite bit pattern, as handed to the big-float boundary.
pub open spec fn spec_parts_of(a: u64) -> (bool, u64, i32) {
    (spec_decode_neg(a), spec_decode_mag(a), spec_decode_exp(a))
}

/// The recorded value of `exp`: NaN stays NaN, `exp(+inf)` is `+inf`,
/// `exp(-inf)` is `+0`, and a finite argument goes to the software library.
pub open spec fn spec_exp_bits(a: u64) -> u64 {
    if spec_is_nan_bits(a) {
        NAN_BITS
    } else if a == POS_INF_BITS {
        POS_INF_BITS
    } else if a == NEG_INF_BITS {
        ZERO_BITS
    } else {
        parts_to_bits(exp_parts(spec_decode_neg(a), spec_decode_mag(a), spec_decode_exp(a)))
    }
}

/// The exponential of a scalar bit pattern.
pub fn exp_value(a: u64) -> (r: u64)
    ensures
        r == spec_exp_bits(a),
{
    if is_non_finite(a) {
        if a == POS_INF_BITS {
            POS_INF_BITS
        } else if a == NEG_INF_BITS {
            ZERO_BITS
        } else {
            NAN_BITS
        }
    } else {
        let (n, m, e) = decode(a);
        parts_value(ast_exp(n, m, e))
    }
}

/// The recorded value of `ln`: NaN stays NaN, `ln(+inf)` is `+inf`,
/// `ln(-inf)` is NaN, and a finite argument goes to the software library
/// (which yields `-inf` at zero and NaN for negative arguments).
pub open spec fn spec_ln_bits(a: u64) -> u64 {
    if spec_is_nan_bits(a) {
        NAN_BITS
    } else if a == POS_INF_BITS {
        POS_INF_BITS
    } else if a == NEG_INF_BITS {
        NAN_BITS
    } else {
        parts_to_bits(ln_parts(spec_decode_neg(a), spec_decode_mag(a), spec_decode_exp(a)))
    }
}

/// The natural logarithm of a scalar bit pattern.
pub fn ln_value(a: u64) -> (r: u64)
    ensures
        r == spec_ln_bits(a),
{
    if is_non_finite(a) {
        if a == POS_INF_BITS {
            POS_INF_BITS
        } else {
            NAN_BITS
        }
    } else {
        let (n, m, e) = decode(a);
        parts_value(ast_ln(n, m, e))
    }
}

/// The recorded value of `sin`: NaN for NaN or infinite arguments, the
/// software library otherwise.
pub open spec fn spec_sin_bits(a: u64) -> u64 {
    if spec_is_nan_bits(a) || spec_is_inf_bits(a) {
        NAN_BITS
    } else {
        parts_to_bits(sin_parts(spec_decode_neg(a), spec_decode_mag(a), spec_decode_exp(a)))
    }
}

/// The sine of a scalar bit pattern.
pub fn sin_value(a: u64) -> (r: u64)
    ensures
        r == spec_sin_bits(a),
{
    if is_non_finite(a) {
        NAN_BITS
    } else {
        let (n, m, e) = decode(a);
        parts_value(ast_sin(n, m, e))
    }
}

/// The recorded value of `cos`: NaN for NaN or infinite arguments, the
/// software library otherwise.
pub open spec fn spec_cos_bits(a: u64) -> u64 {
    if spec_is_nan_bits(a) || spec_is_inf_bits(a) {
        NAN_BITS
    } else {
        parts_to_bits(cos_parts(spec_decode_neg(a), spec_decode_mag(a), spec_decode_exp(a)))
    }
}

/// The cosine of a scalar bit pattern.
pub fn cos_value(a: u64) -> (r: u64)
    ensures
        r == spec_cos_bits(a),
{
    if is_non_finite(a) {
        NAN_BITS
    } else {
        let (n, m, e) = decode(a);
        parts_value(ast_cos(n, m, e))
    }
}

/// The recorded value of `tan`: NaN for NaN or infinite arguments, the
/// software library otherwise.
pub open spec fn spec_tan_bits(a: u64) -> u64 {
    if spec_is_nan_bits(a) || spec_is_inf_bits(a) {
        NAN_BITS
    } else {
        parts_to_bits(tan_parts(spec_decode_neg(a), spec_decode_mag(a), spec_decode_exp(a)))
    }
}

/// The tangent of a scalar bit pattern.
pub fn tan_value(a: u64) -> (r: u64)
    ensures
        r == spec_tan_bits(a),
{
    if is_non_finite(a) {
        NAN_BITS
    } else {
        let (n, m, e) = decode(a);
        parts_value(ast_tan(n, m, e))
    }
}

/// The recorded value of `sinh`: NaN stays NaN, infinities keep their sign,
/// the software library otherwise.
pub open spec fn spec_sinh_bits(a: u64) -> u64 {
    if spec_is_nan_bits(a) {
        NAN_BITS
    } else if spec_is_inf_bits(a) {
        a
    } else {
        parts_to_bits(sinh_parts(spec_decode_neg(a), spec_decode_mag(a), spec_decode_exp(a)))
    }
}

/// The hyperbolic sine of a scalar bit pattern.
pub fn sinh_value(a: u64) -> (r: u64)
    ensures
        r == spec_sinh_bits(a),
{
    if is_non_finite(a) {
        if abs_bits(a) == EXP_MASK {
            a
        } else {
            NAN_BITS
        }
    } else {
        let (n, m, e) = decode(a);
        parts_value(ast_sinh(n, m, e))
    }
}

/// The recorded value of `cosh`: NaN stays NaN, either infinity gives
/// `+inf`, the software library otherwise.
pub open spec fn spec_cosh_bits(a: u64) -> u64 {
    if spec_is_nan_bits(a) {
        NAN_BITS
    } else if spec_is_inf_bits(a) {
        POS_INF_BITS
    } else {
        parts_to_bits(cosh_parts(spec_decode_neg(a), spec_decode_mag(a), spec_decode_exp(a)))
    }
}

/// The hyperbolic cosine of a scalar bit pattern.
pub fn cosh_value(a: u64) -> (r: u64)
    ensures
        r == spec_cosh_bits(a),
{
    if is_non_finite(a) {
        if abs_bits(a) == EXP_MASK {
            POS_INF_BITS
        } else {
            NAN_BITS
        }
    } else {
        let (n, m, e) = decode(a);
        parts_value(ast_cosh(n, m, e))
    }
}

/// The recorded value of `tanh`: NaN stays NaN, infinities saturate to
/// `-1.0` or `+1.0`, the software library otherwise.
pub open spec fn spec_tanh_bits(a: u64) -> u64 {
    if spec_is_nan_bits(a) {
        NAN_BITS
    } else if a == POS_INF_BITS {
        ONE_BITS
    } else if a == NEG_INF_BITS {
        NEG_ONE_BITS
    } else {
        parts_to_bits(tanh_parts(spec_decode_neg(a), spec_decode_mag(a), spec_decode_exp(a)))
    }
}

/// The hyperbolic tangent of a scalar bit pattern.
pub fn tanh_value(a: u64) -> (r: u64)
    ensures
        r == spec_tanh_bits(a),
{
    if is_non_finite(a) {
        if a == POS_INF_BITS {
            ONE_BITS
        } else if a == NEG_INF_BITS {
            NEG_ONE_BITS
        } else {
            NAN_BITS
        }
    } else {
        let (n, m, e) = decode(a);
        parts_value(ast_tanh(n, m, e))
    }
}

/// The recorded value of `asinh`: NaN stays NaN, infinities keep their
/// sign, the software library otherwise.
pub open spec fn spec_asinh_bits(a: u64) -> u64 {
    if spec_is_nan_bits(a) {
        NAN_BITS
    } else if spec_is_inf_bits(a) {
        a
    } else {
        parts_to_bits(asinh_parts(spec_decode_neg(a), spec_decode_mag(a), spec_decode_exp(a)))
    }
}

/// The inverse hyperbolic sine of a scalar bit pattern.
pub fn asinh_value(a: u64) -> (r: u64)
    ensures
        r == spec_asinh_bits(a),
{
    if is_non_finite(a) {
        if abs_bits(a) == EXP_MASK {
            a
        } else {
            NAN_BITS
        }
    } else {
        let (n, m, e) = decode(a);
        parts_value(ast_asinh(n, m, e))
    }
}

/// The recorded value of `pow`: NaN as soon as either operand is NaN or
/// infinite (a deliberate simplification of the IEEE special cases); the
/// exponent one half goes through the dedicated square-root routine, and
/// any other finite pair goes through the general power routine.
pub open spec fn spec_pow_bits(a: u64, b: u64) -> u64 {
    if spec_is_nan_bits(a) || spec_is_inf_bits(a) || spec_is_nan_bits(b) || spec_is_inf_bits(b) {
        NAN_BITS
    } else if b == HALF_BITS {
        parts_to_bits(sqrt_parts(spec_decode_neg(a), spec_decode_mag(a), spec_decode_exp(a)))
    } else {
        parts_to_bits(
            pow_parts(
                spec_decode_neg(a),
                spec_decode_mag(a),
                spec_decode_exp(a),
                spec_decode_neg(b),
                spec_decode_mag(b),
                spec_decode_exp(b),
            ),
        )
    }
}

/// The power `a ^ b` of two scalar bit patterns.
pub fn pow_value(a: u64, b: u64) -> (r: u64)
    ensures
        r == spec_pow_bits(a, b),
{
    if is_non_finite(a) || is_non_finite(b) {
        NAN_BITS
    } else if b == HALF_BITS {
        let (an, am, ae) = decode(a);
        parts_value(ast_sqrt(an, am, ae))
    } else {
        let (an, am, ae) = decode(a);
        let (bn, bm, be) = decode(b);
        parts_value(ast_pow(an, am, ae, bn, bm, be))
    }
}

} // verus!
