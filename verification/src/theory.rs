//! Why the reverse sweep is the chain rule.
//!
//! The recorded tape stores scalar bit patterns, and floating-point
//! arithmetic obeys no algebraic laws, so the correctness of the sweep is
//! stated here over exact integer arithmetic: pick any reading `f` of bit
//! patterns as exact numbers, run the same sweep with exact sums and
//! products, and the adjoint it leaves at a leaf equals the forward-mode
//! (tangent) derivative of the output with respect to that leaf.  This
//! holds for every well-formed tape and every reading, which is precisely
//! the claim that sweeping positions in decreasing construction order
//! composes the chain rule correctly; the floating-point sweep of
//! `accumulate` performs the same schedule with rounded arithmetic.

use vstd::prelude::*;
use vstd::arithmetic::mul::lemma_mul_is_distributive_add_other_way;
use crate::tape::Node;
use crate::tape::Parents;
use crate::tape::node_wf;
use crate::tape::tape_wf;
use crate::tape::leaf_node;
use crate::tape::binary_node;
use crate::sweep::spec_accumulate;
use crate::scalar::mul_of;

verus! {

/// The forward-mode tangent of node `i`: seeded at the leaves, and
/// propagated through each recorded partial, all in exact arithmetic.
pub open spec fn tangent(t: Seq<Node>, f: spec_fn(u64) -> int, seeds: Seq<int>, i: int) -> int
    decreases i,
{
    if i < 0 || i >= t.len() {
        0
    } else {
        match t[i].parents {
            Parents::Leaf => seeds[i],
            Parents::One { p, w } => if p < i {
                f(w) * tangent(t, f, seeds, p as int)
            } else {
                0
            },
            Parents::Two { p0, w0, p1, w1 } => (
            if p0 < i {
                f(w0) * tangent(t, f, seeds, p0 as int)
            } else {
                0
            }) + (
            if p1 < i {
                f(w1) * tangent(t, f, seeds, p1 as int)
            } else {
                0
            }),
        }
    }
}

/// One exact sweep step: the adjoint of node `i` flows into its parents.
pub open spec fn apply_parents_exact(
    t: Seq<Node>,
    f: spec_fn(u64) -> int,
    adj: Seq<int>,
    i: int,
) -> Seq<int> {
    match t[i].parents {
        Parents::Leaf => adj,
        Parents::One { p, w } => adj.update(p as int, adj[p as int] + adj[i] * f(w)),
        Parents::Two { p0, w0, p1, w1 } => {
            let ai = adj[i];
            let a1 = adj.update(p0 as int, adj[p0 as int] + ai * f(w0));
            a1.update(p1 as int, a1[p1 as int] + ai * f(w1))
        },
    }
}

/// The exact sweep over positions `i` down to 0.
pub open spec fn sweep_exact(t: Seq<Node>, f: spec_fn(u64) -> int, adj: Seq<int>, i: int) -> Seq<
    int,
>
    decreases i + 1,
{
    if i < 0 {
        adj
    } else {
        sweep_exact(t, f, apply_parents_exact(t, f, adj, i), i - 1)
    }
}

/// A seed vector: 1 at position `l`, 0 elsewhere.
pub open spec fn unit_seed(n: nat, l: int) -> Seq<int> {
    Seq::new(
        n,
        |j: int|
            if j == l {
                1
            } else {
                0
            },
    )
}

/// The exact-arithmetic gradient vector of output `k`: the unit seed at
/// `k`, swept from `k` down to 0.
pub open spec fn exact_gradient(t: Seq<Node>, f: spec_fn(u64) -> int, k: int) -> Seq<int> {
    sweep_exact(t, f, unit_seed(t.len(), k), k)
}

/// The weighted sum of adjoints against tangents over positions below `m`.
pub open spec fn wsum(
    t: Seq<Node>,
    f: spec_fn(u64) -> int,
    seeds: Seq<int>,
    adj: Seq<int>,
    m: int,
) -> int
    decreases m,
{
    if m <= 0 {
        0
    } else {
        wsum(t, f, seeds, adj, m - 1) + adj[m - 1] * tangent(t, f, seeds, m - 1)
    }
}

/// The weighted sum of adjoints against seeds over the leaves at positions
/// `m` and above.
pub open spec fn lsum(t: Seq<Node>, seeds: Seq<int>, adj: Seq<int>, m: int) -> int
    decreases t.len() - m,
{
    if m < 0 || m >= t.len() {
        0
    } else {
        (if t[m].parents is Leaf {
            adj[m] * seeds[m]
        } else {
            0
        }) + lsum(t, seeds, adj, m + 1)
    }
}

/// The conserved quantity of the sweep, when node `i` is the next position
/// to process.
pub open spec fn conserved(
    t: Seq<Node>,
    f: spec_fn(u64) -> int,
    seeds: Seq<int>,
    adj: Seq<int>,
    i: int,
) -> int {
    wsum(t, f, seeds, adj, i + 1) + lsum(t, seeds, adj, i + 1)
}

proof fn lemma_wsum_same(
    t: Seq<Node>,
    f: spec_fn(u64) -> int,
    seeds: Seq<int>,
    a: Seq<int>,
    b: Seq<int>,
    m: int,
)
    requires
        forall|j: int| 0 <= j < m ==> a[j] == b[j],
    ensures
        wsum(t, f, seeds, a, m) == wsum(t, f, seeds, b, m),
    decreases m,
{
    if m > 0 {
        lemma_wsum_same(t, f, seeds, a, b, m - 1);
    }
}

proof fn lemma_lsum_same(t: Seq<Node>, seeds: Seq<int>, a: Seq<int>, b: Seq<int>, m: int)
    requires
        forall|j: int| m <= j < t.len() ==> a[j] == b[j],
    ensures
        lsum(t, seeds, a, m) == lsum(t, seeds, b, m),
    decreases t.len() - m,
{
    if 0 <= m < t.len() {
        lemma_lsum_same(t, seeds, a, b, m + 1);
    }
}

proof fn lemma_wsum_update(
    t: Seq<Node>,
    f: spec_fn(u64) -> int,
    seeds: Seq<int>,
    adj: Seq<int>,
    m: int,
    p: int,
    d: int,
)
    requires
        0 <= p < m,
        m <= adj.len(),
    ensures
        wsum(t, f, seeds, adj.update(p, adj[p] + d), m) == wsum(t, f, seeds, adj, m) + d * tangent(
            t,
            f,
            seeds,
            p,
        ),
    decreases m,
{
    let a2 = adj.update(p, adj[p] + d);
    if m - 1 == p {
        lemma_wsum_same(t, f, seeds, a2, adj, m - 1);
        lemma_mul_is_distributive_add_other_way(tangent(t, f, seeds, p), adj[p], d);
    } else {
        lemma_wsum_update(t, f, seeds, adj, m - 1, p, d);
    }
}

proof fn lemma_lsum_zero_above(t: Seq<Node>, seeds: Seq<int>, adj: Seq<int>, m: int)
    requires
        forall|j: int| m <= j < t.len() ==> adj[j] == 0,
    ensures
        lsum(t, seeds, adj, m) == 0,
    decreases t.len() - m,
{
    if 0 <= m < t.len() {
        lemma_lsum_zero_above(t, seeds, adj, m + 1);
    }
}

proof fn lemma_wsum_unit(
    t: Seq<Node>,
    f: spec_fn(u64) -> int,
    seeds: Seq<int>,
    n: nat,
    k: int,
    m: int,
)
    requires
        m <= n,
    ensures
        wsum(t, f, seeds, unit_seed(n, k), m) == if 0 <= k < m {
            tangent(t, f, seeds, k)
        } else {
            0
        },
    decreases m,
{
    if m > 0 {
        lemma_wsum_unit(t, f, seeds, n, k, m - 1);
    }
}

proof fn lemma_lsum_unit_seed(t: Seq<Node>, adj: Seq<int>, l: int, m: int)
    requires
        0 <= m,
        0 <= l < t.len(),
        t[l].parents is Leaf,
    ensures
        lsum(t, unit_seed(t.len(), l), adj, m) == if m <= l {
            adj[l]
        } else {
            0
        },
    decreases t.len() - m,
{
    if 0 <= m < t.len() {
        lemma_lsum_unit_seed(t, adj, l, m + 1);
    }
}

proof fn lemma_apply_len(t: Seq<Node>, f: spec_fn(u64) -> int, adj: Seq<int>, i: int)
    requires
        tape_wf(t),
        0 <= i < t.len(),
        adj.len() == t.len(),
    ensures
        apply_parents_exact(t, f, adj, i).len() == adj.len(),
{
    assert(node_wf(t[i], i));
}

proof fn lemma_sweep_len(t: Seq<Node>, f: spec_fn(u64) -> int, adj: Seq<int>, i: int)
    requires
        tape_wf(t),
        i < t.len(),
        adj.len() == t.len(),
    ensures
        sweep_exact(t, f, adj, i).len() == adj.len(),
    decreases i + 1,
{
    if i >= 0 {
        lemma_apply_len(t, f, adj, i);
        lemma_sweep_len(t, f, apply_parents_exact(t, f, adj, i), i - 1);
    }
}

/// One sweep step conserves the invariant quantity: folding node `i` into
/// its parents moves its weighted tangent term down into theirs.
proof fn lemma_step_conserves(
    t: Seq<Node>,
    f: spec_fn(u64) -> int,
    seeds: Seq<int>,
    adj: Seq<int>,
    i: int,
)
    requires
        tape_wf(t),
        0 <= i < t.len(),
        adj.len() == t.len(),
        seeds.len() == t.len(),
    ensures
        conserved(t, f, seeds, apply_parents_exact(t, f, adj, i), i - 1) == conserved(
            t,
            f,
            seeds,
            adj,
            i,
        ),
{
    assert(node_wf(t[i], i));
    let a2 = apply_parents_exact(t, f, adj, i);
    assert(wsum(t, f, seeds, adj, i + 1) == wsum(t, f, seeds, adj, i) + adj[i] * tangent(
        t,
        f,
        seeds,
        i,
    ));
    match t[i].parents {
        Parents::Leaf => {
            assert(a2 == adj);
            assert(tangent(t, f, seeds, i) == seeds[i]);
            assert(lsum(t, seeds, adj, i) == adj[i] * seeds[i] + lsum(t, seeds, adj, i + 1));
        },
        Parents::One { p, w } => {
            lemma_wsum_update(t, f, seeds, adj, i, p as int, adj[i] * f(w));
            assert forall|j: int| i <= j < t.len() implies a2[j] == adj[j] by {}
            lemma_lsum_same(t, seeds, a2, adj, i);
            assert(lsum(t, seeds, adj, i) == lsum(t, seeds, adj, i + 1));
            assert(adj[i] * (f(w) * tangent(t, f, seeds, p as int)) == (adj[i] * f(w)) * tangent(
                t,
                f,
                seeds,
                p as int,
            )) by (nonlinear_arith);
            assert(tangent(t, f, seeds, i) == f(w) * tangent(t, f, seeds, p as int));
            assert(wsum(t, f, seeds, a2, i) == wsum(t, f, seeds, adj, i) + adj[i] * tangent(
                t,
                f,
                seeds,
                i,
            ));
        },
        Parents::Two { p0, w0, p1, w1 } => {
            let ai = adj[i];
            let a1 = adj.update(p0 as int, adj[p0 as int] + ai * f(w0));
            lemma_wsum_update(t, f, seeds, adj, i, p0 as int, ai * f(w0));
            assert(a2 == a1.update(p1 as int, a1[p1 as int] + ai * f(w1)));
            lemma_wsum_update(t, f, seeds, a1, i, p1 as int, ai * f(w1));
            assert(wsum(t, f, seeds, a2, i) == wsum(t, f, seeds, adj, i) + ai * f(w0) * tangent(
                t,
                f,
                seeds,
                p0 as int,
            ) + ai * f(w1) * tangent(t, f, seeds, p1 as int));
            assert forall|j: int| i <= j < t.len() implies a2[j] == adj[j] by {}
            lemma_lsum_same(t, seeds, a2, adj, i);
            assert(lsum(t, seeds, adj, i) == lsum(t, seeds, adj, i + 1));
            assert(ai * (f(w0) * tangent(t, f, seeds, p0 as int)) == ai * f(w0) * tangent(
                t,
                f,
                seeds,
                p0 as int,
            )) by (nonlinear_arith);
            assert(ai * (f(w1) * tangent(t, f, seeds, p1 as int)) == ai * f(w1) * tangent(
                t,
                f,
                seeds,
                p1 as int,
            )) by (nonlinear_arith);
            assert(tangent(t, f, seeds, i) == f(w0) * tangent(t, f, seeds, p0 as int) + f(w1)
                * tangent(t, f, seeds, p1 as int));
            let ta = f(w0) * tangent(t, f, seeds, p0 as int);
            let tb = f(w1) * tangent(t, f, seeds, p1 as int);
            assert(ai * (ta + tb) == ai * ta + ai * tb) by (nonlinear_arith);
        },
    }
}

/// The invariant holds along the whole sweep.
proof fn lemma_sweep_conserves(
    t: Seq<Node>,
    f: spec_fn(u64) -> int,
    seeds: Seq<int>,
    adj: Seq<int>,
    i: int,
)
    requires
        tape_wf(t),
        -1 <= i < t.len(),
        adj.len() == t.len(),
        seeds.len() == t.len(),
    ensures
        conserved(t, f, seeds, sweep_exact(t, f, adj, i), -1) == conserved(t, f, seeds, adj, i),
    decreases i + 1,
{
    if i >= 0 {
        assert(node_wf(t[i], i));
        lemma_step_conserves(t, f, seeds, adj, i);
        lemma_sweep_conserves(t, f, seeds, apply_parents_exact(t, f, adj, i), i - 1);
    }
}

/// Chain rule correctness of the reverse sweep, in exact arithmetic: for
/// any well-formed tape, any reading `f` of the recorded bit patterns as
/// exact numbers, any output position `k` and any seed vector, the sum over
/// the leaves of (final adjoint times seed) equals the forward-mode tangent
/// of the output under those seeds.
pub proof fn lemma_sweep_is_chain_rule(
    t: Seq<Node>,
    f: spec_fn(u64) -> int,
    seeds: Seq<int>,
    k: int,
)
    requires
        tape_wf(t),
        0 <= k < t.len(),
        seeds.len() == t.len(),
    ensures
        lsum(t, seeds, sweep_exact(t, f, unit_seed(t.len(), k), k), 0) == tangent(t, f, seeds, k),
{
    let init = unit_seed(t.len(), k);
    lemma_sweep_conserves(t, f, seeds, init, k);
    lemma_wsum_unit(t, f, seeds, t.len(), k, k + 1);
    lemma_lsum_zero_above(t, seeds, init, k + 1);
    let fin = sweep_exact(t, f, init, k);
    lemma_sweep_len(t, f, init, k);
    assert(wsum(t, f, seeds, fin, 0) == 0);
}

/// Chain rule correctness, read at one leaf: the entry the reverse sweep
/// leaves at a leaf equals the forward-mode derivative of the output with
/// respect to that leaf (the tangent under the unit seed at the leaf).
/// This is the reverse-mode/forward-mode agreement behind `accumulate`:
/// one backward pass computes every such derivative simultaneously.
pub proof fn lemma_reverse_equals_forward(t: Seq<Node>, f: spec_fn(u64) -> int, l: int, k: int)
    requires
        tape_wf(t),
        0 <= k < t.len(),
        0 <= l < t.len(),
        t[l].parents is Leaf,
    ensures
        exact_gradient(t, f, k)[l] == tangent(t, f, unit_seed(t.len(), l), k),
{
    let seeds = unit_seed(t.len(), l);
    lemma_sweep_is_chain_rule(t, f, seeds, k);
    let fin = sweep_exact(t, f, unit_seed(t.len(), k), k);
    lemma_sweep_len(t, f, unit_seed(t.len(), k), k);
    lemma_lsum_unit_seed(t, fin, l, 0);
}

/// The gradient of one recorded product: on the three-node tape
/// "leaf, leaf, product", whose recorded partials are the co-factors, the
/// sweep leaves each leaf holding the other leaf's value — the derivative
/// of `x * y` with respect to `x` is `y`, and with respect to `y` is `x`,
/// for every pair of recorded values and every exact reading of them.
pub proof fn lemma_product_gradient(va: u64, vb: u64, f: spec_fn(u64) -> int)
    ensures
        ({
            let t = seq![
                leaf_node(va),
                leaf_node(vb),
                binary_node(mul_of(va, vb), 0usize, vb, 1usize, va),
            ];
            exact_gradient(t, f, 2) =~= seq![f(vb), f(va), 1int]
        }),
{
    let t = seq![
        leaf_node(va),
        leaf_node(vb),
        binary_node(mul_of(va, vb), 0usize, vb, 1usize, va),
    ];
    let init = unit_seed(3, 2);
    let a1 = apply_parents_exact(t, f, init, 2);
    assert(init =~= seq![0int, 0int, 1int]);
    assert(a1 =~= seq![f(vb), f(va), 1int]);
    assert(apply_parents_exact(t, f, a1, 1) == a1);
    assert(apply_parents_exact(t, f, a1, 0) == a1);
    assert(sweep_exact(t, f, a1, 0) == sweep_exact(t, f, a1, -1));
    assert(sweep_exact(t, f, a1, 1) == sweep_exact(t, f, a1, 0));
    assert(sweep_exact(t, f, init, 2) == sweep_exact(t, f, a1, 1));
}

/// Determinism across rebuilds: the gradient specified by `accumulate` is
/// a function of the recorded tape and the output position alone, and each
/// recording operation pins the tape it appends to exactly, so re-running
/// one build sequence on a fresh graph reproduces identical values and
/// gradients.
pub proof fn lemma_rebuild_determinism(t1: Seq<Node>, t2: Seq<Node>, k1: int, k2: int)
    requires
        t1 == t2,
        k1 == k2,
    ensures
        spec_accumulate(t1, k1) == spec_accumulate(t2, k2),
{
}

} // verus!
