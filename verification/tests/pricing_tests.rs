use quantgrad::pricing::AsianOption;
use quantgrad::pricing::ForwardStartOption;

fn b(x: f64) -> u64 {
    x.to_bits()
}

fn f(x: u64) -> f64 {
    f64::from_bits(x)
}

fn norm_cdf(x: f64) -> f64 {
    0.5 * (1.0 + statrs::function::erf::erf(x / 2.0f64.sqrt()))
}

#[test]
fn test_asian_geometric() {
    // The expiry is fixed 92 days ahead, and the clock has moved on by a
    // second when the option is priced, so a whole-day count sees 91 days.
    let fixed: i64 = 1_700_000_000;
    let now = fixed + 1;
    let expiry_date = fixed + 92 * 86400;

    let option = AsianOption {
        initial_price: b(80.0),
        strike_price: b(85.0),
        risk_free_rate: b(0.05),
        volatility: b(0.2),
        valuation_date: None,
        expiry_date,
        dividend_rate: b(-0.03),
    };

    let (d1, d2) = option.d_values(now);
    let nd1 = b(norm_cdf(f(d1)));
    let nd2 = b(norm_cdf(f(d2)));
    let nd1n = b(norm_cdf(-f(d1)));
    let nd2n = b(norm_cdf(-f(d2)));

    let prices = option.price_geometric_average(now, nd1, nd2, nd1n, nd2n);

    // Value from Haug's book.
    assert!((f(prices.1) - 4.6922).abs() < 0.0001);
}

#[allow(non_snake_case)]
#[test]
fn TEST_forward_start_option() {
    // The dates are fixed 91 and 365 days ahead, and the clock has moved on
    // by a second when the option is priced, so a whole-day count sees 90
    // and 364 days.
    let fixed: i64 = 1_700_000_000;
    let now = fixed + 1;
    let start = fixed + 91 * 86400;
    let end = fixed + 365 * 86400;

    let option = ForwardStartOption {
        initial_price: b(60.0),
        alpha: b(1.1),
        risk_free_rate: b(0.08),
        volatility: b(0.3),
        dividend_rate: b(0.04),
        valuation_date: None,
        start,
        end,
    };

    let (d1, d2) = option.d_values(now);
    let nd1 = b(norm_cdf(f(d1)));
    let nd2 = b(norm_cdf(f(d2)));
    let nd1n = b(norm_cdf(-f(d1)));
    let nd2n = b(norm_cdf(-f(d2)));

    let prices = option.price(now, nd1, nd2, nd1n, nd2n);

    // Call price example from Haug's book.
    assert!((f(prices.0) - 4.4102).abs() < 0.0001);
}

#[test]
fn asian_option_constructor_keeps_fields() {
    let option = AsianOption::new(b(100.0), b(95.0), b(0.02), b(0.25), b(0.0), Some(7), 1000);
    assert_eq!(option.initial_price, b(100.0));
    assert_eq!(option.strike_price, b(95.0));
    assert_eq!(option.risk_free_rate, b(0.02));
    assert_eq!(option.volatility, b(0.25));
    assert_eq!(option.dividend_rate, b(0.0));
    assert_eq!(option.valuation_date, Some(7));
    assert_eq!(option.expiry_date, 1000);
}

#[test]
fn fixed_valuation_date_overrides_now() {
    let valuation: i64 = 1_600_000_000;
    let expiry = valuation + 365 * 86400;
    let option = AsianOption::new(b(80.0), b(85.0), b(0.05), b(0.2), b(0.0), Some(valuation), expiry);
    let (d1_a, _) = option.d_values(0);
    let (d1_b, _) = option.d_values(1_999_999_999);
    assert_eq!(d1_a, d1_b);
}
