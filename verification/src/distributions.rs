//! Exponential distribution: X ~ Exp(lambda).
//!
//! All quantities are scalar bit patterns; the closed forms are stated
//! exactly over the named scalar operations.  Sampling draws raw 64-bit
//! words from the process random number generator and inverts the
//! distribution function, so nothing is promised of the values beyond how
//! many there are.

use vstd::prelude::*;
use crate::bits::spec_neg_bits;
use crate::bits::neg_bits;
use crate::bits::spec_lt_bits;
use crate::bits::ONE_BITS;
use crate::bits::TWO_BITS;
use crate::bits::SIX_BITS;
use crate::bits::ZERO_BITS;
use crate::bits::EXP_MASK;
use crate::scalar::add_of;
use crate::scalar::sub_of;
use crate::scalar::mul_of;
use crate::scalar::div_of;
use crate::scalar::add_bits;
use crate::scalar::sub_bits;
use crate::scalar::mul_bits;
use crate::scalar::div_bits;
use crate::scalar::int_bits;
use crate::scalar::spec_exp_bits;
use crate::scalar::spec_ln_bits;
use crate::scalar::exp_value;
use crate::scalar::ln_value;

verus! {

/// Exponential distribution: X ~ Exp(lambda).
pub struct Exponential {
    /// Rate (inverse scale).
    lambda: u64,
}

/// Relies on rand::random: one uniformly distributed 64-bit word from the
/// process generator; nothing is promised of its value.
#[verifier::external_body]
fn random_word() -> (r: u64) {
    rand::random::<u64>()
}

impl Exponential {
    /// The stored rate.
    pub closed spec fn spec_lambda(&self) -> u64 {
        self.lambda
    }

    /// New instance of a Exponential distribution.  The rate must be a
    /// positive number.
    pub fn new(lambda: u64) -> (r: Exponential)
        requires
            0 < lambda <= EXP_MASK,
        ensures
            r.spec_lambda() == lambda,
    {
        Exponential { lambda }
    }

    /// The characteristic function `1 / (1 - i t / lambda)`, as its real
    /// and imaginary parts, computed from the analytic form
    /// `(1, s) / (1 + s^2)` with `s = t / lambda`.
    pub fn cf(&self, t: u64) -> (r: (u64, u64))
        ensures
            r.0 == div_of(
                ONE_BITS,
                add_of(
                    ONE_BITS,
                    mul_of(div_of(t, self.spec_lambda()), div_of(t, self.spec_lambda())),
                ),
            ),
            r.1 == div_of(
                div_of(t, self.spec_lambda()),
                add_of(
                    ONE_BITS,
                    mul_of(div_of(t, self.spec_lambda()), div_of(t, self.spec_lambda())),
                ),
            ),
    {
        let s = div_bits(t, self.lambda);
        let norm = add_bits(ONE_BITS, mul_bits(s, s));
        (div_bits(ONE_BITS, norm), div_bits(s, norm))
    }

    /// The density `lambda * exp(-lambda * x)`, for a non-negative `x`.
    pub fn pdf(&self, x: u64) -> (r: u64)
        requires
            x <= EXP_MASK,
        ensures
            r == mul_of(
                self.spec_lambda(),
                spec_exp_bits(spec_neg_bits(mul_of(self.spec_lambda(), x))),
            ),
    {
        mul_bits(self.lambda, exp_value(neg_bits(mul_bits(self.lambda, x))))
    }

    /// The mass function coincides with the density.
    pub fn pmf(&self, x: u64) -> (r: u64)
        requires
            x <= EXP_MASK,
        ensures
            r == mul_of(
                self.spec_lambda(),
                spec_exp_bits(spec_neg_bits(mul_of(self.spec_lambda(), x))),
            ),
    {
        self.pdf(x)
    }

    /// The distribution function `1 - exp(-lambda * x)`, for a
    /// non-negative `x`.
    pub fn cdf(&self, x: u64) -> (r: u64)
        requires
            x <= EXP_MASK,
        ensures
            r == sub_of(
                ONE_BITS,
                spec_exp_bits(spec_neg_bits(mul_of(self.spec_lambda(), x))),
            ),
    {
        sub_bits(ONE_BITS, exp_value(neg_bits(mul_bits(self.lambda, x))))
    }

    /// The quantile function `-ln(1 - p) / lambda`.
    pub fn inv_cdf(&self, p: u64) -> (r: u64)
        ensures
            r == div_of(
                spec_neg_bits(spec_ln_bits(sub_of(ONE_BITS, p))),
                self.spec_lambda(),
            ),
    {
        div_bits(neg_bits(ln_value(sub_bits(ONE_BITS, p))), self.lambda)
    }

    /// The mean `1 / lambda`.
    pub fn mean(&self) -> (r: u64)
        ensures
            r == div_of(ONE_BITS, self.spec_lambda()),
    {
        div_bits(ONE_BITS, self.lambda)
    }

    /// The median `ln(2) / lambda`.
    pub fn median(&self) -> (r: u64)
        ensures
            r == div_of(spec_ln_bits(TWO_BITS), self.spec_lambda()),
    {
        div_bits(ln_value(TWO_BITS), self.lambda)
    }

    /// The mode, zero.
    pub fn mode(&self) -> (r: u64)
        ensures
            r == ZERO_BITS,
    {
        ZERO_BITS
    }

    /// The variance `(1 / lambda)^2`.
    pub fn variance(&self) -> (r: u64)
        ensures
            r == mul_of(
                div_of(ONE_BITS, self.spec_lambda()),
                div_of(ONE_BITS, self.spec_lambda()),
            ),
    {
        let m = div_bits(ONE_BITS, self.lambda);
        mul_bits(m, m)
    }

    /// The skewness, 2.
    pub fn skewness(&self) -> (r: u64)
        ensures
            r == TWO_BITS,
    {
        TWO_BITS
    }

    /// The kurtosis, 6.
    pub fn kurtosis(&self) -> (r: u64)
        ensures
            r == SIX_BITS,
    {
        SIX_BITS
    }

    /// The entropy `1 - ln(lambda)`.
    pub fn entropy(&self) -> (r: u64)
        ensures
            r == sub_of(ONE_BITS, spec_ln_bits(self.spec_lambda())),
    {
        sub_bits(ONE_BITS, ln_value(self.lambda))
    }

    /// The moment generating function `lambda / (lambda - t)`, defined for
    /// `t` below the rate.
    pub fn mgf(&self, t: u64) -> (r: u64)
        requires
            spec_lt_bits(t, self.spec_lambda()),
        ensures
            r == mul_of(
                self.spec_lambda(),
                div_of(ONE_BITS, sub_of(self.spec_lambda(), t)),
            ),
    {
        mul_bits(self.lambda, div_bits(ONE_BITS, sub_bits(self.lambda, t)))
    }

    /// Draws `n` variates by inverse-transform sampling: each variate is
    /// `-ln(1 - u) / lambda` for a fresh uniform `u` in `[0, 1)` built
    /// from the top 53 bits of a random word.
    pub fn sample(&self, n: usize) -> (r: Vec<u64>)
        requires
            n > 0,
        ensures
            r@.len() == n,
    {
        let mut out: Vec<u64> = Vec::new();
        let mut i: usize = 0;
        let scale = int_bits(9007199254740992i64);
        while i < n
            invariant
                i <= n,
                out@.len() == i,
            decreases n - i,
        {
            let w = random_word();
            let u = div_bits(int_bits((w / 2048) as i64), scale);
            out.push(div_bits(neg_bits(ln_value(sub_bits(ONE_BITS, u))), self.lambda));
            i = i + 1;
        }
        out
    }
}

} // verus!
