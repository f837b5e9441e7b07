//! The `Gradient` trait: read-only selection of partial derivatives out of
//! a completed adjoint vector.
//!
//! `wrt` can be asked for a single variable, a borrowed vector, a borrowed
//! slice, an owned fixed-size array or a borrowed fixed-size array of
//! variables.  Every sequence-shaped selector returns, position by
//! position, exactly the entry the single-variable selector returns, which
//! is what `selected` states once for all of them.

use vstd::prelude::*;
use crate::tape::Variable;

verus! {

/// The sequence of adjoint entries selected by a sequence of variables, in
/// the variables' order, duplicates preserved.
pub open spec fn selected(adj: Seq<u64>, vars: Seq<Variable>) -> Seq<u64> {
    Seq::new(vars.len(), |i: int| adj[vars[i].index as int])
}

/// Whether every selecting variable points inside the adjoint vector.
pub open spec fn selectable(adj: Seq<u64>, vars: Seq<Variable>) -> bool {
    forall|i: int| 0 <= i < vars.len() ==> (#[trigger] vars[i]).index < adj.len()
}

/// Returns the derivative(s) with respect to the chosen variables: a single
/// variable, a subset of the variables, or all of them.
pub trait Gradient<IN, OUT> {
    /// Whether the chosen variables all point inside this adjoint vector;
    /// a variable from a different or later graph is a caller error.
    spec fn wrt_ok(&self, x: IN) -> bool;

    /// What the returned selection is, entry by entry.
    spec fn wrt_view(&self, x: IN, r: OUT) -> bool;

    /// Returns the derivative(s) with respect to the chosen variables.
    fn wrt(&self, x: IN) -> (r: OUT)
        requires
            self.wrt_ok(x),
        ensures
            self.wrt_view(x, r),
    ;
}

/// `wrt` a single variable.
impl<'v> Gradient<&'v Variable, u64> for Vec<u64> {
    open spec fn wrt_ok(&self, x: &'v Variable) -> bool {
        x.index < self@.len()
    }

    open spec fn wrt_view(&self, x: &'v Variable, r: u64) -> bool {
        r == self@[x.index as int]
    }

    fn wrt(&self, x: &'v Variable) -> (r: u64) {
        self[x.index]
    }
}

/// `wrt` a borrowed vector of variables.
impl<'v> Gradient<&'v Vec<Variable>, Vec<u64>> for Vec<u64> {
    open spec fn wrt_ok(&self, x: &'v Vec<Variable>) -> bool {
        selectable(self@, x@)
    }

    open spec fn wrt_view(&self, x: &'v Vec<Variable>, r: Vec<u64>) -> bool {
        r@ == selected(self@, x@)
    }

    fn wrt(&self, x: &'v Vec<Variable>) -> (r: Vec<u64>) {
        let mut out: Vec<u64> = Vec::new();
        let mut i: usize = 0;
        while i < x.len()
            invariant
                i <= x@.len(),
                selectable(self@, x@),
                out@ == selected(self@, x@).subrange(0, i as int),
            decreases x@.len() - i,
        {
            out.push(self[x[i].index]);
            i = i + 1;
            proof {
                assert(out@ =~= selected(self@, x@).subrange(0, i as int));
            }
        }
        proof {
            assert(out@ =~= selected(self@, x@));
        }
        out
    }
}

/// `wrt` a borrowed slice of variables.
impl<'v> Gradient<&'v [Variable], Vec<u64>> for Vec<u64> {
    open spec fn wrt_ok(&self, x: &'v [Variable]) -> bool {
        selectable(self@, x@)
    }

    open spec fn wrt_view(&self, x: &'v [Variable], r: Vec<u64>) -> bool {
        r@ == selected(self@, x@)
    }

    fn wrt(&self, x: &'v [Variable]) -> (r: Vec<u64>) {
        let mut out: Vec<u64> = Vec::new();
        let mut i: usize = 0;
        while i < x.len()
            invariant
                i <= x@.len(),
                selectable(self@, x@),
                out@ == selected(self@, x@).subrange(0, i as int),
            decreases x@.len() - i,
        {
            out.push(self[x[i].index]);
            i = i + 1;
            proof {
                assert(out@ =~= selected(self@, x@).subrange(0, i as int));
            }
        }
        proof {
            assert(out@ =~= selected(self@, x@));
        }
        out
    }
}

/// `wrt` an owned fixed-size array of variables.
impl<const N: usize> Gradient<[Variable; N], Vec<u64>> for Vec<u64> {
    open spec fn wrt_ok(&self, x: [Variable; N]) -> bool {
        selectable(self@, x@)
    }

    open spec fn wrt_view(&self, x: [Variable; N], r: Vec<u64>) -> bool {
        r@ == selected(self@, x@)
    }

    fn wrt(&self, x: [Variable; N]) -> (r: Vec<u64>) {
        let mut out: Vec<u64> = Vec::new();
        let mut i: usize = 0;
        while i < N
            invariant
                i <= x@.len(),
                x@.len() == N,
                selectable(self@, x@),
                out@ == selected(self@, x@).subrange(0, i as int),
            decreases N - i,
        {
            out.push(self[x[i].index]);
            i = i + 1;
            proof {
                assert(out@ =~= selected(self@, x@).subrange(0, i as int));
            }
        }
        proof {
            assert(out@ =~= selected(self@, x@));
        }
        out
    }
}

/// `wrt` a borrowed fixed-size array of variables.
impl<'v, const N: usize> Gradient<&'v [Variable; N], Vec<u64>> for Vec<u64> {
    open spec fn wrt_ok(&self, x: &'v [Variable; N]) -> bool {
        selectable(self@, x@)
    }

    open spec fn wrt_view(&self, x: &'v [Variable; N], r: Vec<u64>) -> bool {
        r@ == selected(self@, x@)
    }

    fn wrt(&self, x: &'v [Variable; N]) -> (r: Vec<u64>) {
        let mut out: Vec<u64> = Vec::new();
        let mut i: usize = 0;
        while i < N
            invariant
                i <= x@.len(),
                x@.len() == N,
                selectable(self@, x@),
                out@ == selected(self@, x@).subrange(0, i as int),
            decreases N - i,
        {
            out.push(self[x[i].index]);
            i = i + 1;
            proof {
                assert(out@ =~= selected(self@, x@).subrange(0, i as int));
            }
        }
        proof {
            assert(out@ =~= selected(self@, x@));
        }
        out
    }
}

/// Selector equivalence: whatever shape the selection takes, position `i`
/// of a sequence-shaped result is exactly the entry the single-variable
/// selector returns for the variable at position `i`.
pub proof fn lemma_selector_equivalence(adj: Seq<u64>, vars: Seq<Variable>, i: int)
    requires
        0 <= i < vars.len(),
    ensures
        selected(adj, vars)[i] == adj[vars[i].index as int],
{
}

} // verus!
