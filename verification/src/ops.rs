//! The operator set on `Variable` handles.
//!
//! Every operation computes its forward value and the local partial
//! derivative with respect to each operand, both evaluated at the operands'
//! current forward values, and appends one node to the graph.  The
//! postcondition of each operation pins the appended node exactly, so the
//! whole recorded tape of an expression is determined by its build sequence.

use vstd::prelude::*;
use crate::tape::Graph;
use crate::tape::Variable;
use crate::tape::Parents;
use crate::tape::unary_node;
use crate::tape::binary_node;
use crate::bits::spec_neg_bits;
use crate::bits::spec_abs_bits;
use crate::bits::spec_sign_bits;
use crate::bits::neg_bits;
use crate::bits::abs_bits;
use crate::bits::sign_bits;
use crate::bits::ONE_BITS;
use crate::bits::NEG_ONE_BITS;
use crate::bits::HALF_BITS;
use crate::scalar::add_of;
use crate::scalar::sub_of;
use crate::scalar::mul_of;
use crate::scalar::div_of;
use crate::scalar::int_of;
use crate::scalar::add_bits;
use crate::scalar::sub_bits;
use crate::scalar::mul_bits;
use crate::scalar::div_bits;
use crate::scalar::int_bits;
use crate::scalar::spec_exp_bits;
use crate::scalar::spec_ln_bits;
use crate::scalar::spec_sin_bits;
use crate::scalar::spec_cos_bits;
use crate::scalar::spec_tan_bits;
use crate::scalar::spec_sinh_bits;
use crate::scalar::spec_cosh_bits;
use crate::scalar::spec_tanh_bits;
use crate::scalar::spec_asinh_bits;
use crate::scalar::spec_pow_bits;
use crate::scalar::exp_value;
use crate::scalar::ln_value;
use crate::scalar::sin_value;
use crate::scalar::cos_value;
use crate::scalar::tan_value;
use crate::scalar::sinh_value;
use crate::scalar::cosh_value;
use crate::scalar::tanh_value;
use crate::scalar::asinh_value;
use crate::scalar::pow_value;

verus! {

/// Appends a unary node and returns the handle to it.
fn push_unary(g: &mut Graph, value: u64, p: usize, w: u64) -> (r: Variable)
    requires
        old(g).wf(),
        p < old(g)@.len(),
    ensures
        final(g).wf(),
        final(g)@ == old(g)@.push(unary_node(value, p, w)),
        r.index == old(g)@.len(),
        r.value == value,
        final(g).owns(r),
{
    let i = g.push(value, Parents::One { p, w });
    Variable { index: i, value }
}

/// Appends a binary node and returns the handle to it.
fn push_binary(g: &mut Graph, value: u64, p0: usize, w0: u64, p1: usize, w1: u64) -> (r: Variable)
    requires
        old(g).wf(),
        p0 < old(g)@.len(),
        p1 < old(g)@.len(),
    ensures
        final(g).wf(),
        final(g)@ == old(g)@.push(binary_node(value, p0, w0, p1, w1)),
        r.index == old(g)@.len(),
        r.value == value,
        final(g).owns(r),
{
    let i = g.push(value, Parents::Two { p0, w0, p1, w1 });
    Variable { index: i, value }
}

/// The value recorded for an integer power: `n` successive products for a
/// non-negative `n`, and the reciprocal of `|n|` successive products for a
/// negative `n`.
pub open spec fn spec_powi_mag(a: u64, k: nat) -> u64
    decreases k,
{
    if k == 0 {
        ONE_BITS
    } else {
        mul_of(spec_powi_mag(a, (k - 1) as nat), a)
    }
}

/// The value recorded for `powi` with a possibly negative exponent.
pub open spec fn spec_powi_bits(a: u64, n: int) -> u64 {
    if n >= 0 {
        spec_powi_mag(a, n as nat)
    } else {
        div_of(ONE_BITS, spec_powi_mag(a, (-n) as nat))
    }
}

/// Computes the integer power of a scalar bit pattern by successive
/// products.
fn powi_value(a: u64, n: i64) -> (r: u64)
    ensures
        r == spec_powi_bits(a, n as int),
{
    let k: u64 = if n >= 0 {
        n as u64
    } else {
        (-(n as i128)) as u64
    };
    let mut acc: u64 = ONE_BITS;
    let mut i: u64 = 0;
    while i < k
        invariant
            i <= k,
            acc == spec_powi_mag(a, i as nat),
        decreases k - i,
    {
        acc = mul_bits(acc, a);
        i = i + 1;
    }
    if n >= 0 {
        acc
    } else {
        div_bits(ONE_BITS, acc)
    }
}

impl Variable {
    /// Records `self + other`: partials 1 and 1.
    pub fn add(self, other: Variable, g: &mut Graph) -> (r: Variable)
        requires
            old(g).wf(),
            old(g).owns(self),
            old(g).owns(other),
        ensures
            final(g).wf(),
            final(g)@ == old(g)@.push(
                binary_node(
                    add_of(self.value, other.value),
                    self.index,
                    ONE_BITS,
                    other.index,
                    ONE_BITS,
                ),
            ),
            r.index == old(g)@.len(),
            r.value == add_of(self.value, other.value),
            final(g).owns(r),
    {
        let v = add_bits(self.value, other.value);
        push_binary(g, v, self.index, ONE_BITS, other.index, ONE_BITS)
    }

    /// Records `self - other`: partials 1 and -1.
    pub fn sub(self, other: Variable, g: &mut Graph) -> (r: Variable)
        requires
            old(g).wf(),
            old(g).owns(self),
            old(g).owns(other),
        ensures
            final(g).wf(),
            final(g)@ == old(g)@.push(
                binary_node(
                    sub_of(self.value, other.value),
                    self.index,
                    ONE_BITS,
                    other.index,
                    NEG_ONE_BITS,
                ),
            ),
            r.index == old(g)@.len(),
            r.value == sub_of(self.value, other.value),
            final(g).owns(r),
    {
        let v = sub_bits(self.value, other.value);
        push_binary(g, v, self.index, ONE_BITS, other.index, NEG_ONE_BITS)
    }

    /// Records `self * other`: partials `other` and `self`.
    pub fn mul(self, other: Variable, g: &mut Graph) -> (r: Variable)
        requires
            old(g).wf(),
            old(g).owns(self),
            old(g).owns(other),
        ensures
            final(g).wf(),
            final(g)@ == old(g)@.push(
                binary_node(
                    mul_of(self.value, other.value),
                    self.index,
                    other.value,
                    other.index,
                    self.value,
                ),
            ),
            r.index == old(g)@.len(),
            r.value == mul_of(self.value, other.value),
            final(g).owns(r),
    {
        let v = mul_bits(self.value, other.value);
        push_binary(g, v, self.index, other.value, other.index, self.value)
    }

    /// Records `self / other`: partials `1 / other` and
    /// `-(self / other^2)`.
    pub fn div(self, other: Variable, g: &mut Graph) -> (r: Variable)
        requires
            old(g).wf(),
            old(g).owns(self),
            old(g).owns(other),
        ensures
            final(g).wf(),
            final(g)@ == old(g)@.push(
                binary_node(
                    div_of(self.value, other.value),
                    self.index,
                    div_of(ONE_BITS, other.value),
                    other.index,
                    spec_neg_bits(div_of(self.value, mul_of(other.value, other.value))),
                ),
            ),
            r.index == old(g)@.len(),
            r.value == div_of(self.value, other.value),
            final(g).owns(r),
    {
        let v = div_bits(self.value, other.value);
        let w0 = div_bits(ONE_BITS, other.value);
        let den = mul_bits(other.value, other.value);
        let w1 = neg_bits(div_bits(self.value, den));
        push_binary(g, v, self.index, w0, other.index, w1)
    }

    /// Records `-self`: an exact sign flip, with partial -1.
    pub fn neg(self, g: &mut Graph) -> (r: Variable)
        requires
            old(g).wf(),
            old(g).owns(self),
        ensures
            final(g).wf(),
            final(g)@ == old(g)@.push(
                unary_node(spec_neg_bits(self.value), self.index, NEG_ONE_BITS),
            ),
            r.index == old(g)@.len(),
            r.value == spec_neg_bits(self.value),
            final(g).owns(r),
    {
        let v = neg_bits(self.value);
        push_unary(g, v, self.index, NEG_ONE_BITS)
    }

    /// Records `1 / self`: partial `-(1 / self^2)`.
    pub fn recip(self, g: &mut Graph) -> (r: Variable)
        requires
            old(g).wf(),
            old(g).owns(self),
        ensures
            final(g).wf(),
            final(g)@ == old(g)@.push(
                unary_node(
                    div_of(ONE_BITS, self.value),
                    self.index,
                    spec_neg_bits(div_of(ONE_BITS, mul_of(self.value, self.value))),
                ),
            ),
            r.index == old(g)@.len(),
            r.value == div_of(ONE_BITS, self.value),
            final(g).owns(r),
    {
        let v = div_bits(ONE_BITS, self.value);
        let sq = mul_bits(self.value, self.value);
        let w = neg_bits(div_bits(ONE_BITS, sq));
        push_unary(g, v, self.index, w)
    }

    /// Records `|self|`: an exact sign clear, with the sign of `self` as
    /// partial (zero at zero, by convention).
    pub fn abs(self, g: &mut Graph) -> (r: Variable)
        requires
            old(g).wf(),
            old(g).owns(self),
        ensures
            final(g).wf(),
            final(g)@ == old(g)@.push(
                unary_node(spec_abs_bits(self.value), self.index, spec_sign_bits(self.value)),
            ),
            r.index == old(g)@.len(),
            r.value == spec_abs_bits(self.value),
            final(g).owns(r),
    {
        let v = abs_bits(self.value);
        let w = sign_bits(self.value);
        push_unary(g, v, self.index, w)
    }

    /// Records `self^n` for an integer exponent: partial
    /// `n * self^(n - 1)`.
    pub fn powi(self, n: i32, g: &mut Graph) -> (r: Variable)
        requires
            old(g).wf(),
            old(g).owns(self),
        ensures
            final(g).wf(),
            final(g)@ == old(g)@.push(
                unary_node(
                    spec_powi_bits(self.value, n as int),
                    self.index,
                    mul_of(int_of(n as i64), spec_powi_bits(self.value, n as int - 1)),
                ),
            ),
            r.index == old(g)@.len(),
            r.value == spec_powi_bits(self.value, n as int),
            final(g).owns(r),
    {
        let v = powi_value(self.value, n as i64);
        let lower = powi_value(self.value, (n as i64) - 1);
        let w = mul_bits(int_bits(n as i64), lower);
        push_unary(g, v, self.index, w)
    }

    /// Records `self^other` with a variable exponent: partials
    /// `p * self^(p - 1)` and `self^p * ln(self)`.
    pub fn powf(self, other: Variable, g: &mut Graph) -> (r: Variable)
        requires
            old(g).wf(),
            old(g).owns(self),
            old(g).owns(other),
        ensures
            final(g).wf(),
            final(g)@ == old(g)@.push(
                binary_node(
                    spec_pow_bits(self.value, other.value),
                    self.index,
                    mul_of(
                        other.value,
                        spec_pow_bits(self.value, sub_of(other.value, ONE_BITS)),
                    ),
                    other.index,
                    mul_of(spec_pow_bits(self.value, other.value), spec_ln_bits(self.value)),
                ),
            ),
            r.index == old(g)@.len(),
            r.value == spec_pow_bits(self.value, other.value),
            final(g).owns(r),
    {
        let v = pow_value(self.value, other.value);
        let pm1 = sub_bits(other.value, ONE_BITS);
        let w0 = mul_bits(other.value, pow_value(self.value, pm1));
        let w1 = mul_bits(v, ln_value(self.value));
        push_binary(g, v, self.index, w0, other.index, w1)
    }

    /// Records `self^p` for a constant exponent: partial
    /// `p * self^(p - 1)`.
    pub fn powf_scalar(self, p: u64, g: &mut Graph) -> (r: Variable)
        requires
            old(g).wf(),
            old(g).owns(self),
        ensures
            final(g).wf(),
            final(g)@ == old(g)@.push(
                unary_node(
                    spec_pow_bits(self.value, p),
                    self.index,
                    mul_of(p, spec_pow_bits(self.value, sub_of(p, ONE_BITS))),
                ),
            ),
            r.index == old(g)@.len(),
            r.value == spec_pow_bits(self.value, p),
            final(g).owns(r),
    {
        let v = pow_value(self.value, p);
        let pm1 = sub_bits(p, ONE_BITS);
        let w = mul_bits(p, pow_value(self.value, pm1));
        push_unary(g, v, self.index, w)
    }

    /// Records `exp(self)`: the partial is the value itself.
    pub fn exp(self, g: &mut Graph) -> (r: Variable)
        requires
            old(g).wf(),
            old(g).owns(self),
        ensures
            final(g).wf(),
            final(g)@ == old(g)@.push(
                unary_node(spec_exp_bits(self.value), self.index, spec_exp_bits(self.value)),
            ),
            r.index == old(g)@.len(),
            r.value == spec_exp_bits(self.value),
            final(g).owns(r),
    {
        let v = exp_value(self.value);
        push_unary(g, v, self.index, v)
    }

    /// Records `ln(self)`: partial `1 / self`.
    pub fn ln(self, g: &mut Graph) -> (r: Variable)
        requires
            old(g).wf(),
            old(g).owns(self),
        ensures
            final(g).wf(),
            final(g)@ == old(g)@.push(
                unary_node(
                    spec_ln_bits(self.value),
                    self.index,
                    div_of(ONE_BITS, self.value),
                ),
            ),
            r.index == old(g)@.len(),
            r.value == spec_ln_bits(self.value),
            final(g).owns(r),
    {
        let v = ln_value(self.value);
        let w = div_bits(ONE_BITS, self.value);
        push_unary(g, v, self.index, w)
    }

    /// Records `sin(self)`: partial `cos(self)`.
    pub fn sin(self, g: &mut Graph) -> (r: Variable)
        requires
            old(g).wf(),
            old(g).owns(self),
        ensures
            final(g).wf(),
            final(g)@ == old(g)@.push(
                unary_node(spec_sin_bits(self.value), self.index, spec_cos_bits(self.value)),
            ),
            r.index == old(g)@.len(),
            r.value == spec_sin_bits(self.value),
            final(g).owns(r),
    {
        let v = sin_value(self.value);
        let w = cos_value(self.value);
        push_unary(g, v, self.index, w)
    }

    /// Records `cos(self)`: partial `-sin(self)`.
    pub fn cos(self, g: &mut Graph) -> (r: Variable)
        requires
            old(g).wf(),
            old(g).owns(self),
        ensures
            final(g).wf(),
            final(g)@ == old(g)@.push(
                unary_node(
                    spec_cos_bits(self.value),
                    self.index,
                    spec_neg_bits(spec_sin_bits(self.value)),
                ),
            ),
            r.index == old(g)@.len(),
            r.value == spec_cos_bits(self.value),
            final(g).owns(r),
    {
        let v = cos_value(self.value);
        let w = neg_bits(sin_value(self.value));
        push_unary(g, v, self.index, w)
    }

    /// Records `tan(self)`: partial `1 / cos(self)^2`.
    pub fn tan(self, g: &mut Graph) -> (r: Variable)
        requires
            old(g).wf(),
            old(g).owns(self),
        ensures
            final(g).wf(),
            final(g)@ == old(g)@.push(
                unary_node(
                    spec_tan_bits(self.value),
                    self.index,
                    div_of(
                        ONE_BITS,
                        mul_of(spec_cos_bits(self.value), spec_cos_bits(self.value)),
                    ),
                ),
            ),
            r.index == old(g)@.len(),
            r.value == spec_tan_bits(self.value),
            final(g).owns(r),
    {
        let v = tan_value(self.value);
        let c = cos_value(self.value);
        let w = div_bits(ONE_BITS, mul_bits(c, c));
        push_unary(g, v, self.index, w)
    }

    /// Records `sinh(self)`: partial `cosh(self)`.
    pub fn sinh(self, g: &mut Graph) -> (r: Variable)
        requires
            old(g).wf(),
            old(g).owns(self),
        ensures
            final(g).wf(),
            final(g)@ == old(g)@.push(
                unary_node(spec_sinh_bits(self.value), self.index, spec_cosh_bits(self.value)),
            ),
            r.index == old(g)@.len(),
            r.value == spec_sinh_bits(self.value),
            final(g).owns(r),
    {
        let v = sinh_value(self.value);
        let w = cosh_value(self.value);
        push_unary(g, v, self.index, w)
    }

    /// Records `cosh(self)`: partial `sinh(self)`.
    pub fn cosh(self, g: &mut Graph) -> (r: Variable)
        requires
            old(g).wf(),
            old(g).owns(self),
        ensures
            final(g).wf(),
            final(g)@ == old(g)@.push(
                unary_node(spec_cosh_bits(self.value), self.index, spec_sinh_bits(self.value)),
            ),
            r.index == old(g)@.len(),
            r.value == spec_cosh_bits(self.value),
            final(g).owns(r),
    {
        let v = cosh_value(self.value);
        let w = sinh_value(self.value);
        push_unary(g, v, self.index, w)
    }

    /// Records `tanh(self)`: partial `1 / cosh(self)^2`.
    pub fn tanh(self, g: &mut Graph) -> (r: Variable)
        requires
            old(g).wf(),
            old(g).owns(self),
        ensures
            final(g).wf(),
            final(g)@ == old(g)@.push(
                unary_node(
                    spec_tanh_bits(self.value),
                    self.index,
                    div_of(
                        ONE_BITS,
                        mul_of(spec_cosh_bits(self.value), spec_cosh_bits(self.value)),
                    ),
                ),
            ),
            r.index == old(g)@.len(),
            r.value == spec_tanh_bits(self.value),
            final(g).owns(r),
    {
        let v = tanh_value(self.value);
        let c = cosh_value(self.value);
        let w = div_bits(ONE_BITS, mul_bits(c, c));
        push_unary(g, v, self.index, w)
    }

    /// Records `asinh(self)`: partial `1 / sqrt(self^2 + 1)`.
    pub fn asinh(self, g: &mut Graph) -> (r: Variable)
        requires
            old(g).wf(),
            old(g).owns(self),
        ensures
            final(g).wf(),
            final(g)@ == old(g)@.push(
                unary_node(
                    spec_asinh_bits(self.value),
                    self.index,
                    div_of(
                        ONE_BITS,
                        spec_pow_bits(
                            add_of(mul_of(self.value, self.value), ONE_BITS),
                            HALF_BITS,
                        ),
                    ),
                ),
            ),
            r.index == old(g)@.len(),
            r.value == spec_asinh_bits(self.value),
            final(g).owns(r),
    {
        let v = asinh_value(self.value);
        let sq1 = add_bits(mul_bits(self.value, self.value), ONE_BITS);
        let w = div_bits(ONE_BITS, pow_value(sq1, HALF_BITS));
        push_unary(g, v, self.index, w)
    }

    /// Records `self + c` for a plain scalar `c`: one parent, partial 1.
    pub fn add_scalar(self, c: u64, g: &mut Graph) -> (r: Variable)
        requires
            old(g).wf(),
            old(g).owns(self),
        ensures
            final(g).wf(),
            final(g)@ == old(g)@.push(
                unary_node(add_of(self.value, c), self.index, ONE_BITS),
            ),
            r.index == old(g)@.len(),
            r.value == add_of(self.value, c),
            final(g).owns(r),
    {
        let v = add_bits(self.value, c);
        push_unary(g, v, self.index, ONE_BITS)
    }

    /// Records `self - c` for a plain scalar `c`: one parent, partial 1.
    pub fn sub_scalar(self, c: u64, g: &mut Graph) -> (r: Variable)
        requires
            old(g).wf(),
            old(g).owns(self),
        ensures
            final(g).wf(),
            final(g)@ == old(g)@.push(
                unary_node(sub_of(self.value, c), self.index, ONE_BITS),
            ),
            r.index == old(g)@.len(),
            r.value == sub_of(self.value, c),
            final(g).owns(r),
    {
        let v = sub_bits(self.value, c);
        push_unary(g, v, self.index, ONE_BITS)
    }

    /// Records `c - self` for a plain scalar `c`: one parent, partial -1.
    pub fn scalar_sub(self, c: u64, g: &mut Graph) -> (r: Variable)
        requires
            old(g).wf(),
            old(g).owns(self),
        ensures
            final(g).wf(),
            final(g)@ == old(g)@.push(
                unary_node(sub_of(c, self.value), self.index, NEG_ONE_BITS),
            ),
            r.index == old(g)@.len(),
            r.value == sub_of(c, self.value),
            final(g).owns(r),
    {
        let v = sub_bits(c, self.value);
        push_unary(g, v, self.index, NEG_ONE_BITS)
    }

    /// Records `self * c` for a plain scalar `c`: one parent, partial `c`.
    pub fn mul_scalar(self, c: u64, g: &mut Graph) -> (r: Variable)
        requires
            old(g).wf(),
            old(g).owns(self),
        ensures
            final(g).wf(),
            final(g)@ == old(g)@.push(
                unary_node(mul_of(self.value, c), self.index, c),
            ),
            r.index == old(g)@.len(),
            r.value == mul_of(self.value, c),
            final(g).owns(r),
    {
        let v = mul_bits(self.value, c);
        push_unary(g, v, self.index, c)
    }

    /// Records `self / c` for a plain scalar `c`: one parent, partial
    /// `1 / c`.
    pub fn div_scalar(self, c: u64, g: &mut Graph) -> (r: Variable)
        requires
            old(g).wf(),
            old(g).owns(self),
        ensures
            final(g).wf(),
            final(g)@ == old(g)@.push(
                unary_node(div_of(self.value, c), self.index, div_of(ONE_BITS, c)),
            ),
            r.index == old(g)@.len(),
            r.value == div_of(self.value, c),
            final(g).owns(r),
    {
        let v = div_bits(self.value, c);
        let w = div_bits(ONE_BITS, c);
        push_unary(g, v, self.index, w)
    }

    /// Records `c / self` for a plain scalar `c`: one parent, partial
    /// `-(c / self^2)`.
    pub fn scalar_div(self, c: u64, g: &mut Graph) -> (r: Variable)
        requires
            old(g).wf(),
            old(g).owns(self),
        ensures
            final(g).wf(),
            final(g)@ == old(g)@.push(
                unary_node(
                    div_of(c, self.value),
                    self.index,
                    spec_neg_bits(div_of(c, mul_of(self.value, self.value))),
                ),
            ),
            r.index == old(g)@.len(),
            r.value == div_of(c, self.value),
            final(g).owns(r),
    {
        let v = div_bits(c, self.value);
        let sq = mul_bits(self.value, self.value);
        let w = neg_bits(div_bits(c, sq));
        push_unary(g, v, self.index, w)
    }
}

} // verus!
