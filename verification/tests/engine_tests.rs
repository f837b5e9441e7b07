use quantgrad::gradient::Gradient;
use quantgrad::tape::Graph;

fn b(x: f64) -> u64 {
    x.to_bits()
}

fn f(x: u64) -> f64 {
    f64::from_bits(x)
}

#[test]
fn neg_and_abs_are_exact_sign_operations() {
    let mut g = Graph::new();
    let x = g.var(b(-3.5));
    let n = x.neg(&mut g);
    let a = x.abs(&mut g);
    assert_eq!(n.value, b(3.5));
    assert_eq!(a.value, b(3.5));

    let z = g.var(b(-0.0));
    let az = z.abs(&mut g);
    assert_eq!(az.value, b(0.0));
}

#[test]
fn abs_partial_is_the_sign() {
    let mut g = Graph::new();
    let x = g.var(b(-2.0));
    let a = x.abs(&mut g);
    let grad = a.accumulate(&g);
    assert_eq!(grad.wrt(&x), b(-1.0));

    let mut g2 = Graph::new();
    let z = g2.var(b(0.0));
    let az = z.abs(&mut g2);
    let grad2 = az.accumulate(&g2);
    assert_eq!(grad2.wrt(&z), b(0.0));
}

#[test]
fn powi_value_and_partial() {
    let mut g = Graph::new();
    let x = g.var(b(3.0));
    let p = x.powi(2, &mut g);
    let grad = p.accumulate(&g);
    assert_eq!(p.value, b(9.0));
    assert_eq!(grad.wrt(&x), b(6.0));

    let mut g2 = Graph::new();
    let y = g2.var(b(3.0));
    let q = y.powi(-2, &mut g2);
    assert!((f(q.value) - 1.0 / 9.0).abs() < 1e-16);
}

#[test]
fn scalar_operand_forms() {
    let mut g = Graph::new();
    let x = g.var(b(1.5));
    let s1 = x.add_scalar(b(2.25), &mut g);
    let s2 = x.sub_scalar(b(0.5), &mut g);
    let s3 = x.scalar_sub(b(10.0), &mut g);
    let s4 = x.mul_scalar(b(4.0), &mut g);
    let s5 = x.div_scalar(b(2.0), &mut g);
    let s6 = x.scalar_div(b(3.0), &mut g);
    assert_eq!(s1.value, b(3.75));
    assert_eq!(s2.value, b(1.0));
    assert_eq!(s3.value, b(8.5));
    assert_eq!(s4.value, b(6.0));
    assert_eq!(s5.value, b(0.75));
    assert_eq!(s6.value, b(2.0));

    let grad = s4.accumulate(&g);
    assert_eq!(grad.wrt(&x), b(4.0));
}

#[test]
fn exp_and_ln_round_trip_values() {
    let mut g = Graph::new();
    let x = g.var(b(1.0));
    let e = x.exp(&mut g);
    assert!((f(e.value) - 1.0f64.exp()).abs() < 1e-15);

    let y = g.var(b(2.0));
    let l = y.ln(&mut g);
    assert!((f(l.value) - 2.0f64.ln()).abs() < 1e-15);

    let grad = l.accumulate(&g);
    assert_eq!(grad.wrt(&y), b(0.5));
}

#[test]
fn recip_and_div_partials() {
    let mut g = Graph::new();
    let x = g.var(b(4.0));
    let r = x.recip(&mut g);
    assert_eq!(r.value, b(0.25));
    let grad = r.accumulate(&g);
    assert_eq!(grad.wrt(&x), b(-0.0625));

    let mut g2 = Graph::new();
    let a = g2.var(b(1.0));
    let c = g2.var(b(2.0));
    let q = a.div(c, &mut g2);
    assert_eq!(q.value, b(0.5));
    let grad2 = q.accumulate(&g2);
    assert_eq!(grad2.wrt(&a), b(0.5));
    assert_eq!(grad2.wrt(&c), b(-0.25));
}

#[test]
fn selector_shapes_agree() {
    let mut g = Graph::new();
    let x = g.var(b(1.0));
    let y = g.var(b(2.0));
    let z = x.mul(y, &mut g);
    let grad = z.accumulate(&g);

    let singles = vec![grad.wrt(&x), grad.wrt(&y)];
    let from_vec = grad.wrt(&vec![x, y]);
    let from_slice = grad.wrt(&vec![x, y][..]);
    let from_array = grad.wrt([x, y]);
    let from_borrowed_array = grad.wrt(&[x, y]);

    assert_eq!(singles, from_vec);
    assert_eq!(singles, from_slice);
    assert_eq!(singles, from_array);
    assert_eq!(singles, from_borrowed_array);

    let dup = grad.wrt(&vec![y, x, y]);
    assert_eq!(dup, vec![grad.wrt(&y), grad.wrt(&x), grad.wrt(&y)]);
}

#[test]
fn rebuilding_reproduces_values_and_gradients() {
    let build = |g: &mut Graph| {
        let x = g.var(b(0.7));
        let y = g.var(b(1.9));
        let z = x.mul(y, g).sin(g).add(y.exp(g), g).div(x.cosh(g), g);
        (x, y, z)
    };

    let mut g1 = Graph::new();
    let (x1, y1, z1) = build(&mut g1);
    let grad1 = z1.accumulate(&g1);

    let mut g2 = Graph::new();
    let (x2, y2, z2) = build(&mut g2);
    let grad2 = z2.accumulate(&g2);

    assert_eq!(z1.value, z2.value);
    assert_eq!(grad1, grad2);
    assert_eq!(grad1.wrt(&x1), grad2.wrt(&x2));
    assert_eq!(grad1.wrt(&y1), grad2.wrt(&y2));
}

#[test]
fn gradient_length_equals_arena_size() {
    let mut g = Graph::new();
    let x = g.var(b(1.0));
    let grad0 = x.accumulate(&g);
    assert_eq!(grad0.len(), g.node_count());
    assert_eq!(grad0.len(), 1);

    let y = g.var(b(2.0));
    let z = x.mul(y, &mut g).sin(&mut g);
    let grad1 = z.accumulate(&g);
    assert_eq!(grad1.len(), g.node_count());
    assert_eq!(grad1.len(), 4);

    // Nodes recorded after the output still occupy entries.
    let _tail = z.exp(&mut g);
    let grad2 = z.accumulate(&g);
    assert_eq!(grad2.len(), g.node_count());
    assert_eq!(grad2.len(), 5);
    assert_eq!(grad2[4], b(0.0));
}

#[test]
fn non_finite_values_propagate() {
    let mut g = Graph::new();
    let x = g.var(b(-1.0));
    let l = x.ln(&mut g);
    assert!(f(l.value).is_nan());

    let zero = g.var(b(0.0));
    let lz = zero.ln(&mut g);
    assert_eq!(lz.value, b(f64::NEG_INFINITY));

    let inf = g.var(b(f64::INFINITY));
    let e = inf.exp(&mut g);
    assert_eq!(e.value, b(f64::INFINITY));
    let en = inf.neg(&mut g).exp(&mut g);
    assert_eq!(en.value, b(0.0));
}

#[test]
fn asinh_value_and_partial() {
    let mut g = Graph::new();
    let x = g.var(b(1.0));
    let a = x.asinh(&mut g);
    let grad = a.accumulate(&g);
    assert!((f(a.value) - 1.0f64.asinh()).abs() < 1e-15);
    assert!((f(grad.wrt(&x)) - 1.0 / 2.0f64.sqrt()).abs() < 1e-15);
}

#[test]
fn powf_with_variable_exponent() {
    let mut g = Graph::new();
    let x = g.var(b(3.0));
    let p = g.var(b(2.0));
    let z = x.powf(p, &mut g);
    let grad = z.accumulate(&g);
    assert!((f(z.value) - 9.0).abs() < 1e-12);
    assert!((f(grad.wrt(&x)) - 6.0).abs() < 1e-12);
    assert!((f(grad.wrt(&p)) - 9.0 * 3.0f64.ln()).abs() < 1e-12);
}

#[test]
fn powf_with_scalar_exponent() {
    let mut g = Graph::new();
    let x = g.var(b(5.0));
    let z = x.powf_scalar(b(0.5), &mut g);
    let grad = z.accumulate(&g);
    assert!((f(z.value) - 5.0f64.sqrt()).abs() < 1e-15);
    assert!((f(grad.wrt(&x)) - 0.5 / 5.0f64.sqrt()).abs() < 1e-15);
}

#[test]
fn half_exponent_is_exact_on_perfect_squares() {
    let mut g = Graph::new();
    let x = g.var(b(4.0));
    let z = x.powf_scalar(b(0.5), &mut g);
    assert_eq!(z.value, b(2.0));
}
