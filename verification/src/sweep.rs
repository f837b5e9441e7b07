//! The reverse accumulator: one backward sweep over the arena.
//!
//! Given an output node `k` in an arena of `n` nodes, the sweep seeds a
//! dense adjoint vector with 1.0 at `k` and walks the node positions from
//! `k` down to 0, folding each node's adjoint into its parents through the
//! recorded partials.  Because parents always precede their node, every node
//! is visited only after all nodes that used it, which is exactly
//! reverse-mode chain-rule composition in a single linear pass.  The
//! postcondition pins the returned vector to the mathematical mirror of
//! this sweep, `spec_accumulate`, and its length to the arena size.

use vstd::prelude::*;
use crate::tape::Graph;
use crate::tape::Variable;
use crate::tape::Node;
use crate::tape::Parents;
use crate::tape::node_wf;
use crate::bits::ONE_BITS;
use crate::bits::ZERO_BITS;
use crate::scalar::add_of;
use crate::scalar::mul_of;
use crate::scalar::add_bits;
use crate::scalar::mul_bits;

verus! {

/// Folds the adjoint of node `i` into its parents: for each recorded
/// parent, the parent's adjoint grows by `adj[i]` times the recorded
/// partial.  For a node with two equal parents the two contributions
/// accumulate, while the factor `adj[i]` is the value read before either
/// update.
pub open spec fn apply_parents(t: Seq<Node>, adj: Seq<u64>, i: int) -> Seq<u64> {
    match t[i].parents {
        Parents::Leaf => adj,
        Parents::One { p, w } => adj.update(
            p as int,
            add_of(adj[p as int], mul_of(adj[i], w)),
        ),
        Parents::Two { p0, w0, p1, w1 } => {
            let ai = adj[i];
            let a1 = adj.update(p0 as int, add_of(adj[p0 as int], mul_of(ai, w0)));
            a1.update(p1 as int, add_of(a1[p1 as int], mul_of(ai, w1)))
        },
    }
}

/// The adjoint vector after sweeping node positions `i` down to 0.
pub open spec fn sweep_from(t: Seq<Node>, adj: Seq<u64>, i: int) -> Seq<u64>
    decreases i + 1,
{
    if i < 0 {
        adj
    } else {
        sweep_from(t, apply_parents(t, adj, i), i - 1)
    }
}

/// The seed vector: as many entries as nodes, all 0.0 except a 1.0 at the
/// output position.
pub open spec fn init_adj(n: nat, k: int) -> Seq<u64> {
    Seq::new(
        n,
        |j: int|
            if j == k {
                ONE_BITS
            } else {
                ZERO_BITS
            },
    )
}

/// The gradient vector of the output at position `k`: the seed vector after
/// the full backward sweep from `k`.
pub open spec fn spec_accumulate(t: Seq<Node>, k: int) -> Seq<u64> {
    sweep_from(t, init_adj(t.len(), k), k)
}

impl Variable {
    /// Performs the reverse sweep from this output and returns the dense
    /// adjoint vector, one entry per node recorded in the graph at the time
    /// of the call; the entries at leaf positions are the partial
    /// derivatives of this output with respect to those leaves.  That this
    /// schedule composes the chain rule correctly is proved, over exact
    /// arithmetic, in `crate::theory`.
    pub fn accumulate(&self, g: &Graph) -> (r: Vec<u64>)
        requires
            g.wf(),
            g.owns(*self),
        ensures
            r@ == spec_accumulate(g@, self.index as int),
            r@.len() == g@.len(),
    {
        let k = self.index;
        let n = g.node_count();
        let mut adj: Vec<u64> = Vec::new();
        let mut j: usize = 0;
        while j < n
            invariant
                j <= n,
                adj@ == Seq::new(j as nat, |x: int| ZERO_BITS),
            decreases n - j,
        {
            adj.push(ZERO_BITS);
            proof {
                assert(adj@ =~= Seq::new((j + 1) as nat, |x: int| ZERO_BITS));
            }
            j = j + 1;
        }
        adj.set(k, ONE_BITS);
        proof {
            assert(adj@ =~= init_adj(g@.len(), k as int));
        }
        let mut i: usize = k + 1;
        while i > 0
            invariant
                g.wf(),
                i <= k + 1,
                k < g@.len(),
                adj@.len() == g@.len(),
                sweep_from(g@, adj@, i - 1) == spec_accumulate(g@, k as int),
            decreases i,
        {
            i = i - 1;
            let ghost pre = adj@;
            let node = g.node_at(i);
            proof {
                assert(node_wf(g@[i as int], i as int));
            }
            match node.parents {
                Parents::Leaf => {},
                Parents::One { p, w } => {
                    let ai = adj[i];
                    let upd = add_bits(adj[p], mul_bits(ai, w));
                    adj.set(p, upd);
                },
                Parents::Two { p0, w0, p1, w1 } => {
                    let ai = adj[i];
                    let u0 = add_bits(adj[p0], mul_bits(ai, w0));
                    adj.set(p0, u0);
                    let u1 = add_bits(adj[p1], mul_bits(ai, w1));
                    adj.set(p1, u1);
                },
            }
            proof {
                assert(adj@ == apply_parents(g@, pre, i as int));
            }
        }
        adj
    }
}

} // verus!
