use quantgrad::gradient::Gradient;
use quantgrad::tape::Graph;
use quantgrad::tape::Variable;

fn b(x: f64) -> u64 {
    x.to_bits()
}

fn f(x: u64) -> f64 {
    f64::from_bits(x)
}

#[test]
fn test_borrowed_vector() {
    let mut g = Graph::new();

    let x = g.var(b(1.0));
    let y = g.var(b(2.0));

    let z = x.mul(y, &mut g);

    let grad = z.accumulate(&g);

    assert!((f(z.value) - 2.0).abs() < 1e-15);
    assert_eq!(grad.wrt(&vec![x, y]), vec![b(2.0), b(1.0)]);
}

#[test]
fn test_borrowed_slice() {
    let mut g = Graph::new();

    let v: Vec<Variable> = vec![g.var(b(1.0)), g.var(b(2.0))];

    let z = v[0].mul(v[1], &mut g);

    let grad = z.accumulate(&g);

    assert!((f(z.value) - 2.0).abs() < 1e-15);
    assert_eq!(grad.wrt(&v[..]), vec![b(2.0), b(1.0)]);
}

#[test]
fn test_array() {
    let mut g = Graph::new();

    let x = g.var(b(1.0));
    let y = g.var(b(2.0));

    let z = x.mul(y, &mut g);

    let grad = z.accumulate(&g);

    assert!((f(z.value) - 2.0).abs() < 1e-15);
    assert_eq!(grad.wrt([x, y]), vec![b(2.0), b(1.0)]);
}

#[test]
fn test_borrowd_array() {
    let mut g = Graph::new();

    let x = g.var(b(1.0));
    let y = g.var(b(2.0));

    let z = x.mul(y, &mut g);

    let grad = z.accumulate(&g);

    assert!((f(z.value) - 2.0).abs() < 1e-15);
    assert_eq!(grad.wrt(&[x, y]), vec![b(2.0), b(1.0)]);
}

#[test]
fn x_times_y_plus_sin_x() {
    let mut g = Graph::new();

    let x = g.var(b(69.0));
    let y = g.var(b(420.0));

    let z = x.mul(y, &mut g).add(x.sin(&mut g), &mut g);

    let grad = z.accumulate(&g);

    assert!((f(z.value) - 28979.885215).abs() < 1e-6);
    assert!((f(grad.wrt(&x)) - (f(y.value) + f(x.value).cos())).abs() < 1e-15);
    assert!((f(grad.wrt(&y)) - f(x.value)).abs() < 1e-15);
}

#[test]
fn x_times_y_plus_tan_x() {
    let mut g = Graph::new();

    let x = g.var(b(1.0));
    let y = g.var(b(2.0));

    let z = x.mul(y, &mut g).add(x.tan(&mut g), &mut g);

    let grad = z.accumulate(&g);

    assert!((f(z.value) - 3.5574077246549).abs() < 1e-14);
    assert!((f(grad.wrt(&x)) - 5.425_518_820_814_76).abs() < 1e-15);
    assert!((f(grad.wrt(&y)) - 1.0).abs() < 1e-15);
}

#[test]
fn cosh_x_times_y() {
    let mut g = Graph::new();

    let x = g.var(b(1.0));
    let y = g.var(b(2.0));

    let z = x.mul(y, &mut g).cosh(&mut g);

    let grad = z.accumulate(&g);

    println!("{}", f(grad.wrt(&x)));

    assert!((f(z.value) - 3.762_195_691_083_631_4).abs() < 1e-10);
    assert!((f(grad.wrt(&x)) - 7.253_720_815_694_037).abs() < 1e-10);
    assert!((f(grad.wrt(&y)) - 3.62686040784701).abs() < 1e-10);
}

#[test]
fn cosh_xy_div_tanh_x_times_sinh_y() {
    let mut g = Graph::new();

    let x = g.var(b(1.0));
    let y = g.var(b(2.0));

    let num = x.mul(y, &mut g).cosh(&mut g);
    let den = x.tanh(&mut g).mul(y.sinh(&mut g), &mut g);
    let z = num.div(den, &mut g);

    let grad = z.accumulate(&g);

    assert!((f(z.value) - 1.3620308304831552).abs() < 1e-8);
    assert!((f(grad.wrt(&x)) - 1.874_990_751_363_869_7).abs() < 1e-15);
    assert!((f(grad.wrt(&y)) - (-0.099_819_345_045_613_27)).abs() < 1e-15);
}

#[test]
fn test_block_assign() {
    let mut g = Graph::new();

    let x = g.var(b(1.0));
    let y = g.var(b(2.0));

    let fv = {
        let z = x.sin(&mut g).add(y.tan(&mut g), &mut g);
        z.exp(&mut g)
    };

    let grad = fv.accumulate(&g);

    println!("Grad wrt x = 1.0: \t{}", f(grad.wrt(&x)));
    println!("Grad wrt y = 2.0: \t{}", f(grad.wrt(&y)));

    assert!((f(grad.wrt(&x)) - 0.140_971_808_425_461_7).abs() < 1e-15);
    assert!((f(grad.wrt(&y)) - 1.506_614_888_597_196_4).abs() < 1e-15);
}

#[test]
fn test_closure() {
    let mut g = Graph::new();

    let x = g.var(b(1.0));
    let y = g.var(b(2.0));

    let z = |g: &mut Graph| {
        let num = x.mul(y, g).cosh(g);
        let den = x.tanh(g).mul(y.sinh(g), g);
        num.div(den, g)
    };

    let grad = z(&mut g).accumulate(&g);

    assert!((f(z(&mut g).value) - 1.3620308304831552).abs() < 1e-8);
    assert!((f(grad.wrt(&x)) - 1.874_990_751_363_869_7).abs() < 1e-15);
    assert!((f(grad.wrt(&y)) - (-0.099_819_345_045_613_27)).abs() < 1e-15);
}

#[test]
fn test_function_input() {
    fn diff_fn(params: &[Variable], data: &[f64], g: &mut Graph) -> Variable {
        let power = params[0].powf(params[1], g);
        let with_sin = power.add_scalar(data[0].sin().to_bits(), g);
        let ratio = params[2].asinh(g).div_scalar(data[1].to_bits(), g);
        with_sin.sub(ratio, g)
    }

    let mut graph = Graph::new();
    let params = graph.vars(&vec![b(3.0), b(2.0), b(1.0)]);
    let data = [1., 2.];
    let result = diff_fn(&params, &data, &mut graph);
    let gradients = result.accumulate(&graph);
    println!("{:?}", gradients.wrt(&params));
    println!("{:?}", gradients);
}
