//! Closed-form option pricers on the scalar bit patterns.
//!
//! Both pricers below follow the same split: the library computes the time
//! to maturity from timestamps and the `d1`/`d2` arguments, the caller
//! evaluates the standard normal distribution function on them (that is the
//! one step whose implementation lives outside), and the library combines
//! those distribution values into the call and put prices.  Every step has
//! an exact contract over the named scalar operations.

use vstd::prelude::*;
use crate::bits::spec_neg_bits;
use crate::bits::neg_bits;
use crate::bits::ONE_BITS;
use crate::bits::HALF_BITS;
use crate::bits::TWO_BITS;
use crate::bits::THREE_BITS;
use crate::bits::SIX_BITS;
use crate::scalar::add_of;
use crate::scalar::sub_of;
use crate::scalar::mul_of;
use crate::scalar::div_of;
use crate::scalar::int_of;
use crate::scalar::add_bits;
use crate::scalar::sub_bits;
use crate::scalar::mul_bits;
use crate::scalar::div_bits;
use crate::scalar::int_bits;
use crate::scalar::spec_exp_bits;
use crate::scalar::spec_ln_bits;
use crate::scalar::spec_pow_bits;
use crate::scalar::exp_value;
use crate::scalar::ln_value;
use crate::scalar::pow_value;

verus! {

/// The widest timestamp (seconds) the pricers accept; it keeps every date
/// difference inside `i64`.
pub const MAX_STAMP: i64 = 0x1000_0000_0000_0000;

/// Signed division that truncates toward zero, as machine division does.
pub open spec fn trunc_div(a: int, b: int) -> int {
    if a >= 0 {
        a / b
    } else {
        -((-a) / b)
    }
}

/// The Actual/365 year fraction between two timestamps in seconds: whole
/// elapsed days over 365.
pub open spec fn spec_year_fraction(start: i64, end: i64) -> u64 {
    div_of(int_of(trunc_div(end - start, 86400) as i64), int_of(365))
}

/// Computes the Actual/365 year fraction between two timestamps.
pub fn year_fraction(start: i64, end: i64) -> (r: u64)
    requires
        -MAX_STAMP < start < MAX_STAMP,
        -MAX_STAMP < end < MAX_STAMP,
    ensures
        r == spec_year_fraction(start, end),
{
    let diff: i64 = end - start;
    let days: i64 = if diff >= 0 {
        diff / 86400
    } else {
        -((-diff) / 86400)
    };
    div_bits(int_bits(days), int_bits(365))
}

/// Asian option parameters: prices and rates are scalar bit patterns,
/// dates are timestamps in seconds.
#[derive(Clone, Copy, Debug)]
pub struct AsianOption {
    /// `S` - Initial price of the underlying.
    pub initial_price: u64,
    /// `K` - Strike price.
    pub strike_price: u64,
    /// `r` - Risk-free rate parameter.
    pub risk_free_rate: u64,
    /// `v` - Volatility parameter.
    pub volatility: u64,
    /// `q` - Dividend rate.
    pub dividend_rate: u64,
    /// Valuation date, if fixed; the current time is used otherwise.
    pub valuation_date: Option<i64>,
    /// Expiry date.
    pub expiry_date: i64,
}

/// Asian option parameters (the name the bindings use).
pub type PyAsianOption = AsianOption;

/// The adjusted volatility `v / sqrt(3)` of the geometric average.
pub open spec fn spec_asian_va(v: u64) -> u64 {
    div_of(v, spec_pow_bits(THREE_BITS, HALF_BITS))
}

/// The adjusted cost of carry `0.5 * ((r - q) - v^2 / 6)`.
pub open spec fn spec_asian_ba(r: u64, v: u64, q: u64) -> u64 {
    mul_of(HALF_BITS, sub_of(sub_of(r, q), div_of(mul_of(v, v), SIX_BITS)))
}

/// The `d1` argument of the geometric-average pricer.
pub open spec fn spec_asian_d1(s: u64, k: u64, r: u64, v: u64, q: u64, t: u64) -> u64 {
    let va = spec_asian_va(v);
    let ba = spec_asian_ba(r, v, q);
    div_of(
        add_of(
            spec_ln_bits(div_of(s, k)),
            mul_of(add_of(ba, mul_of(HALF_BITS, mul_of(va, va))), t),
        ),
        mul_of(va, spec_pow_bits(t, HALF_BITS)),
    )
}

/// The `d2` argument of the geometric-average pricer.
pub open spec fn spec_asian_d2(s: u64, k: u64, r: u64, v: u64, q: u64, t: u64) -> u64 {
    sub_of(
        spec_asian_d1(s, k, r, v, q, t),
        mul_of(spec_asian_va(v), spec_pow_bits(t, HALF_BITS)),
    )
}

/// The geometric-average call price, given the distribution values
/// `N(d1)` and `N(d2)`.
pub open spec fn spec_asian_call(s: u64, k: u64, r: u64, v: u64, q: u64, t: u64, nd1: u64, nd2: u64) -> u64 {
    let ba = spec_asian_ba(r, v, q);
    sub_of(
        mul_of(mul_of(s, spec_exp_bits(mul_of(sub_of(ba, r), t))), nd1),
        mul_of(mul_of(k, spec_exp_bits(spec_neg_bits(mul_of(r, t)))), nd2),
    )
}

/// The geometric-average put price, given the distribution values
/// `N(-d1)` and `N(-d2)`.
pub open spec fn spec_asian_put(s: u64, k: u64, r: u64, v: u64, q: u64, t: u64, nd1n: u64, nd2n: u64) -> u64 {
    let ba = spec_asian_ba(r, v, q);
    add_of(
        mul_of(mul_of(spec_neg_bits(s), spec_exp_bits(mul_of(sub_of(ba, r), t))), nd1n),
        mul_of(mul_of(k, spec_exp_bits(spec_neg_bits(mul_of(r, t)))), nd2n),
    )
}

impl AsianOption {
    /// New Asian Option.
    pub fn new(
        initial_price: u64,
        strike_price: u64,
        risk_free_rate: u64,
        volatility: u64,
        dividend_rate: u64,
        valuation_date: Option<i64>,
        expiry_date: i64,
    ) -> (r: AsianOption)
        ensures
            r.initial_price == initial_price,
            r.strike_price == strike_price,
            r.risk_free_rate == risk_free_rate,
            r.volatility == volatility,
            r.dividend_rate == dividend_rate,
            r.valuation_date == valuation_date,
            r.expiry_date == expiry_date,
    {
        AsianOption {
            initial_price,
            strike_price,
            risk_free_rate,
            volatility,
            dividend_rate,
            valuation_date,
            expiry_date,
        }
    }

    /// The Actual/365 time to maturity: from the valuation date if one is
    /// set, else from the given current time.
    pub open spec fn spec_maturity(&self, now: i64) -> u64 {
        match self.valuation_date {
            Some(d) => spec_year_fraction(d, self.expiry_date),
            None => spec_year_fraction(now, self.expiry_date),
        }
    }

    /// Computes the time to maturity.
    pub fn maturity(&self, now: i64) -> (r: u64)
        requires
            -MAX_STAMP < now < MAX_STAMP,
            -MAX_STAMP < self.expiry_date < MAX_STAMP,
            self.valuation_date matches Some(d) ==> -MAX_STAMP < d < MAX_STAMP,
        ensures
            r == self.spec_maturity(now),
    {
        match self.valuation_date {
            Some(d) => year_fraction(d, self.expiry_date),
            None => year_fraction(now, self.expiry_date),
        }
    }

    /// Computes the `(d1, d2)` arguments whose standard normal
    /// distribution values the pricer needs.
    pub fn d_values(&self, now: i64) -> (r: (u64, u64))
        requires
            -MAX_STAMP < now < MAX_STAMP,
            -MAX_STAMP < self.expiry_date < MAX_STAMP,
            self.valuation_date matches Some(d) ==> -MAX_STAMP < d < MAX_STAMP,
        ensures
            r.0 == spec_asian_d1(
                self.initial_price,
                self.strike_price,
                self.risk_free_rate,
                self.volatility,
                self.dividend_rate,
                self.spec_maturity(now),
            ),
            r.1 == spec_asian_d2(
                self.initial_price,
                self.strike_price,
                self.risk_free_rate,
                self.volatility,
                self.dividend_rate,
                self.spec_maturity(now),
            ),
    {
        let t = self.maturity(now);
        let v = self.volatility;
        let va = div_bits(v, pow_value(THREE_BITS, HALF_BITS));
        let ba = mul_bits(
            HALF_BITS,
            sub_bits(
                sub_bits(self.risk_free_rate, self.dividend_rate),
                div_bits(mul_bits(v, v), SIX_BITS),
            ),
        );
        let sqrt_t = pow_value(t, HALF_BITS);
        let d1 = div_bits(
            add_bits(
                ln_value(div_bits(self.initial_price, self.strike_price)),
                mul_bits(add_bits(ba, mul_bits(HALF_BITS, mul_bits(va, va))), t),
            ),
            mul_bits(va, sqrt_t),
        );
        let d2 = sub_bits(d1, mul_bits(va, sqrt_t));
        (d1, d2)
    }

    /// Geometric Continuous Average-Rate Price, given the standard normal
    /// distribution values at `d1`, `d2`, `-d1` and `-d2`.  Returns the
    /// pair `(call_price, put_price)`.
    pub fn price_geometric_average(&self, now: i64, nd1: u64, nd2: u64, nd1n: u64, nd2n: u64) -> (r: (u64, u64))
        requires
            -MAX_STAMP < now < MAX_STAMP,
            -MAX_STAMP < self.expiry_date < MAX_STAMP,
            self.valuation_date matches Some(d) ==> -MAX_STAMP < d < MAX_STAMP,
        ensures
            r.0 == spec_asian_call(
                self.initial_price,
                self.strike_price,
                self.risk_free_rate,
                self.volatility,
                self.dividend_rate,
                self.spec_maturity(now),
                nd1,
                nd2,
            ),
            r.1 == spec_asian_put(
                self.initial_price,
                self.strike_price,
                self.risk_free_rate,
                self.volatility,
                self.dividend_rate,
                self.spec_maturity(now),
                nd1n,
                nd2n,
            ),
    {
        let t = self.maturity(now);
        let s = self.initial_price;
        let k = self.strike_price;
        let rr = self.risk_free_rate;
        let v = self.volatility;
        let ba = mul_bits(
            HALF_BITS,
            sub_bits(
                sub_bits(rr, self.dividend_rate),
                div_bits(mul_bits(v, v), SIX_BITS),
            ),
        );
        let growth = exp_value(mul_bits(sub_bits(ba, rr), t));
        let discount = exp_value(neg_bits(mul_bits(rr, t)));
        let c = sub_bits(mul_bits(mul_bits(s, growth), nd1), mul_bits(mul_bits(k, discount), nd2));
        let p = add_bits(
            mul_bits(mul_bits(neg_bits(s), growth), nd1n),
            mul_bits(mul_bits(k, discount), nd2n),
        );
        (c, p)
    }
}

/// Forward Start Option parameters struct.
#[derive(Clone, Copy, Debug)]
pub struct ForwardStartOption {
    /// `S` - Initial price of the underlying.
    pub initial_price: u64,
    /// `alpha` - The proportion of S to set the strike price.
    /// Three possibilities:
    ///     - alpha < 1: call (put) will start (1 - alpha)% in-the-money (out-of-the-money).
    ///     - alpha = 1: the option starts at-the-money.
    ///     - alpha > 1: call (put) will start (alpha - 1)% out-of-the-money (in-the-money).
    pub alpha: u64,
    /// `r` - Risk-free rate parameter.
    pub risk_free_rate: u64,
    /// `v` - Volatility parameter.
    pub volatility: u64,
    /// `q` - Dividend rate.
    pub dividend_rate: u64,
    /// Valuation date, if fixed; the current time is used otherwise.
    pub valuation_date: Option<i64>,
    /// Time until the start of the option (`T` in most literature).
    pub start: i64,
    /// Time until the end of the option (`t` in most literature).
    pub end: i64,
}

/// The `d1` argument of the forward-start pricer, over the two year
/// fractions `tt` (to the end) and `ts` (to the start).
pub open spec fn spec_fs_d1(alpha: u64, r: u64, v: u64, q: u64, tt: u64, ts: u64) -> u64 {
    let b = sub_of(r, q);
    let dt = sub_of(tt, ts);
    div_of(
        add_of(
            spec_ln_bits(div_of(ONE_BITS, alpha)),
            mul_of(add_of(b, div_of(mul_of(v, v), TWO_BITS)), dt),
        ),
        mul_of(v, spec_pow_bits(dt, HALF_BITS)),
    )
}

/// The `d2` argument of the forward-start pricer.
pub open spec fn spec_fs_d2(alpha: u64, r: u64, v: u64, q: u64, tt: u64, ts: u64) -> u64 {
    sub_of(
        spec_fs_d1(alpha, r, v, q, tt, ts),
        mul_of(v, spec_pow_bits(sub_of(tt, ts), HALF_BITS)),
    )
}

/// The forward-start call price, given `N(d1)` and `N(d2)`.
pub open spec fn spec_fs_call(s: u64, alpha: u64, r: u64, v: u64, q: u64, tt: u64, ts: u64, nd1: u64, nd2: u64) -> u64 {
    let b = sub_of(r, q);
    let dt = sub_of(tt, ts);
    mul_of(
        mul_of(s, spec_exp_bits(mul_of(sub_of(b, r), ts))),
        sub_of(
            mul_of(spec_exp_bits(mul_of(sub_of(b, r), dt)), nd1),
            mul_of(alpha, mul_of(spec_exp_bits(spec_neg_bits(mul_of(r, dt))), nd2)),
        ),
    )
}

/// The forward-start put price, given `N(-d1)` and `N(-d2)`.
pub open spec fn spec_fs_put(s: u64, alpha: u64, r: u64, v: u64, q: u64, tt: u64, ts: u64, nd1n: u64, nd2n: u64) -> u64 {
    let b = sub_of(r, q);
    let dt = sub_of(tt, ts);
    mul_of(
        mul_of(s, spec_exp_bits(mul_of(sub_of(b, r), ts))),
        add_of(
            mul_of(spec_neg_bits(spec_exp_bits(mul_of(sub_of(b, r), dt))), nd1n),
            mul_of(alpha, mul_of(spec_exp_bits(spec_neg_bits(mul_of(r, dt))), nd2n)),
        ),
    )
}

impl ForwardStartOption {
    /// The Actual/365 year fraction to the option's end.
    pub open spec fn spec_tt(&self, now: i64) -> u64 {
        match self.valuation_date {
            Some(d) => spec_year_fraction(d, self.end),
            None => spec_year_fraction(now, self.end),
        }
    }

    /// The Actual/365 year fraction to the option's start.
    pub open spec fn spec_ts(&self, now: i64) -> u64 {
        match self.valuation_date {
            Some(d) => spec_year_fraction(d, self.start),
            None => spec_year_fraction(now, self.start),
        }
    }

    /// Computes the `(d1, d2)` arguments whose standard normal
    /// distribution values the pricer needs.
    pub fn d_values(&self, now: i64) -> (r: (u64, u64))
        requires
            -MAX_STAMP < now < MAX_STAMP,
            -MAX_STAMP < self.start < MAX_STAMP,
            -MAX_STAMP < self.end < MAX_STAMP,
            self.valuation_date matches Some(d) ==> -MAX_STAMP < d < MAX_STAMP,
        ensures
            r.0 == spec_fs_d1(
                self.alpha,
                self.risk_free_rate,
                self.volatility,
                self.dividend_rate,
                self.spec_tt(now),
                self.spec_ts(now),
            ),
            r.1 == spec_fs_d2(
                self.alpha,
                self.risk_free_rate,
                self.volatility,
                self.dividend_rate,
                self.spec_tt(now),
                self.spec_ts(now),
            ),
    {
        let tt = match self.valuation_date {
            Some(d) => year_fraction(d, self.end),
            None => year_fraction(now, self.end),
        };
        let ts = match self.valuation_date {
            Some(d) => year_fraction(d, self.start),
            None => year_fraction(now, self.start),
        };
        let v = self.volatility;
        let b = sub_bits(self.risk_free_rate, self.dividend_rate);
        let dt = sub_bits(tt, ts);
        let sq = pow_value(dt, HALF_BITS);
        let d1 = div_bits(
            add_bits(
                ln_value(div_bits(ONE_BITS, self.alpha)),
                mul_bits(add_bits(b, div_bits(mul_bits(v, v), TWO_BITS)), dt),
            ),
            mul_bits(v, sq),
        );
        let d2 = sub_bits(d1, mul_bits(v, sq));
        (d1, d2)
    }

    /// Rubinstein (1990) Forward Start Option Price formula, given the
    /// standard normal distribution values at `d1`, `d2`, `-d1` and `-d2`.
    /// Returns a tuple: `(call_price, put_price)`.
    /// # Note:
    /// * `b = r - q` - The cost of carry.
    pub fn price(&self, now: i64, nd1: u64, nd2: u64, nd1n: u64, nd2n: u64) -> (r: (u64, u64))
        requires
            -MAX_STAMP < now < MAX_STAMP,
            -MAX_STAMP < self.start < MAX_STAMP,
            -MAX_STAMP < self.end < MAX_STAMP,
            self.valuation_date matches Some(d) ==> -MAX_STAMP < d < MAX_STAMP,
        ensures
            r.0 == spec_fs_call(
                self.initial_price,
                self.alpha,
                self.risk_free_rate,
                self.volatility,
                self.dividend_rate,
                self.spec_tt(now),
                self.spec_ts(now),
                nd1,
                nd2,
            ),
            r.1 == spec_fs_put(
                self.initial_price,
                self.alpha,
                self.risk_free_rate,
                self.volatility,
                self.dividend_rate,
                self.spec_tt(now),
                self.spec_ts(now),
                nd1n,
                nd2n,
            ),
    {
        let tt = match self.valuation_date {
            Some(d) => year_fraction(d, self.end),
            None => year_fraction(now, self.end),
        };
        let ts = match self.valuation_date {
            Some(d) => year_fraction(d, self.start),
            None => year_fraction(now, self.start),
        };
        let s = self.initial_price;
        let a = self.alpha;
        let b = sub_bits(self.risk_free_rate, self.dividend_rate);
        let dt = sub_bits(tt, ts);
        let br = sub_bits(b, self.risk_free_rate);
        let outer = mul_bits(s, exp_value(mul_bits(br, ts)));
        let e_dt = exp_value(mul_bits(br, dt));
        let e_r = exp_value(neg_bits(mul_bits(self.risk_free_rate, dt)));
        let c = mul_bits(outer, sub_bits(mul_bits(e_dt, nd1), mul_bits(a, mul_bits(e_r, nd2))));
        let p = mul_bits(
            outer,
            add_bits(mul_bits(neg_bits(e_dt), nd1n), mul_bits(a, mul_bits(e_r, nd2n))),
        );
        (c, p)
    }
}

} // verus!
