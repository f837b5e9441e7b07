use quantgrad::distributions::Exponential;

fn b(x: f64) -> u64 {
    x.to_bits()
}

fn f(x: u64) -> f64 {
    f64::from_bits(x)
}

#[test]
fn test_exponential_characteristic_function() {
    let dist: Exponential = Exponential::new(b(1.0));

    let cf = dist.cf(b(1.0));
    assert!((f(cf.0) - 0.5).abs() < 1e-10);
    assert!((f(cf.1) - 0.5).abs() < 1e-10);
}

#[test]
fn test_exponential_density_function() {
    let dist: Exponential = Exponential::new(b(1.0));

    assert!((f(dist.pdf(b(0.0))) - 1.00000000).abs() < 1e-8);
    assert!((f(dist.pdf(b(1.0))) - 0.36787944).abs() < 1e-8);
    assert!((f(dist.pdf(b(2.0))) - 0.13533528).abs() < 1e-8);
    assert!((f(dist.pdf(b(3.0))) - 0.04978707).abs() < 1e-8);
    assert!((f(dist.pdf(b(4.0))) - 0.01831564).abs() < 1e-8);
}

#[test]
fn test_exponential_distribution_function() {
    let dist: Exponential = Exponential::new(b(1.0));

    assert!((f(dist.cdf(b(0.0))) - 0.0000000).abs() < 1e-7);
    assert!((f(dist.cdf(b(1.0))) - 0.6321206).abs() < 1e-7);
    assert!((f(dist.cdf(b(2.0))) - 0.8646647).abs() < 1e-7);
    assert!((f(dist.cdf(b(3.0))) - 0.9502129).abs() < 1e-7);
    assert!((f(dist.cdf(b(4.0))) - 0.9816844).abs() < 1e-7);
}

#[test]
fn exponential_moments_and_quantiles() {
    let dist = Exponential::new(b(2.0));
    assert_eq!(f(dist.mean()), 0.5);
    assert_eq!(f(dist.variance()), 0.25);
    assert_eq!(f(dist.mode()), 0.0);
    assert_eq!(f(dist.skewness()), 2.0);
    assert_eq!(f(dist.kurtosis()), 6.0);

    let unit = Exponential::new(b(1.0));
    assert!((f(unit.median()) - 0.6931472).abs() < 1e-7);
    assert!((f(unit.inv_cdf(b(0.5))) - 0.6931472).abs() < 1e-7);
    assert!((f(unit.entropy()) - 1.0).abs() < 1e-10);
    assert_eq!(f(unit.mgf(b(0.5))), 2.0);
    assert!((f(unit.pmf(b(1.0))) - 0.36787944).abs() < 1e-8);
}

#[test]
fn exponential_sampling_yields_finite_nonnegative_variates() {
    let dist = Exponential::new(b(1.5));
    let draws = dist.sample(100);
    assert_eq!(draws.len(), 100);
    for d in draws {
        let v = f(d);
        assert!(v.is_finite());
        assert!(v >= 0.0);
    }
}
