//! The node arena ("tape"): an append-only record of the computation.
//!
//! Every operation appends one `Node` holding its eagerly computed forward
//! value and its parents, each with the local partial derivative evaluated at
//! construction time.  A node's identity is its position in the arena, and
//! parents always have strictly smaller positions, so the recording order is
//! itself a topological order of the computation graph.

use vstd::prelude::*;

verus! {

/// The parents of a recorded node, each with the local partial derivative
/// of the node with respect to that parent (as a scalar bit pattern).
#[derive(Clone, Copy)]
pub enum Parents {
    /// A leaf: an input created directly from a scalar.
    Leaf,
    /// The result of a unary operation.
    One { p: usize, w: u64 },
    /// The result of a binary operation.
    Two { p0: usize, w0: u64, p1: usize, w1: u64 },
}

/// One recorded operation: its forward value (a scalar bit pattern) and its
/// parents with their partials.
#[derive(Clone, Copy)]
pub struct Node {
    /// The forward value, computed eagerly at construction time.
    pub value: u64,
    /// The parents, with the local partials.
    pub parents: Parents,
}

/// A leaf node carrying the given value.
pub open spec fn leaf_node(value: u64) -> Node {
    Node { value, parents: Parents::Leaf }
}

/// A unary node: value, one parent and one partial.
pub open spec fn unary_node(value: u64, p: usize, w: u64) -> Node {
    Node { value, parents: Parents::One { p, w } }
}

/// A binary node: value, two parents, each with its partial.
pub open spec fn binary_node(value: u64, p0: usize, w0: u64, p1: usize, w1: u64) -> Node {
    Node { value, parents: Parents::Two { p0, w0, p1, w1 } }
}

/// Whether a node stored at position `i` refers only to strictly earlier
/// positions.
pub open spec fn node_wf(n: Node, i: int) -> bool {
    match n.parents {
        Parents::Leaf => true,
        Parents::One { p, w } => p < i,
        Parents::Two { p0, w0, p1, w1 } => p0 < i && p1 < i,
    }
}

/// Whether every node of a tape refers only to strictly earlier positions:
/// the construction-order topological invariant.
pub open spec fn tape_wf(t: Seq<Node>) -> bool {
    forall|i: int| 0 <= i < t.len() ==> node_wf(#[trigger] t[i], i)
}

/// The computation graph: it owns the append-only node arena.  Expressions
/// are built by appending nodes through `var` and the operator methods of
/// `Variable`, and a later reverse sweep reads the arena back to front.
pub struct Graph {
    nodes: Vec<Node>,
}

/// A lightweight handle to one recorded node: its position in the arena and
/// a copy of its forward value.  It does not own the arena; every operation
/// on it takes the `Graph` it came from.
#[derive(Clone, Copy)]
pub struct Variable {
    /// The position of the node in the arena.
    pub index: usize,
    /// The cached forward value, a scalar bit pattern.
    pub value: u64,
}

impl View for Graph {
    type V = Seq<Node>;

    closed spec fn view(&self) -> Seq<Node> {
        self.nodes@
    }
}

impl Graph {
    /// Whether the arena satisfies the topological invariant.
    pub open spec fn wf(&self) -> bool {
        tape_wf(self@)
    }

    /// Whether `v` is a handle into this graph: its position exists and its
    /// cached value agrees with the recorded node.
    pub open spec fn owns(&self, v: Variable) -> bool {
        v.index < self@.len() && self@[v.index as int].value == v.value
    }

    /// Creates a graph with an empty arena.
    pub fn new() -> (g: Graph)
        ensures
            g@ === Seq::<Node>::empty(),
            g.wf(),
    {
        Graph { nodes: Vec::new() }
    }

    /// The number of recorded nodes.
    pub fn node_count(&self) -> (n: usize)
        ensures
            n == self@.len(),
    {
        self.nodes.len()
    }

    /// Reads the node at a position.
    pub fn node_at(&self, i: usize) -> (n: Node)
        requires
            i < self@.len(),
        ensures
            n == self@[i as int],
    {
        self.nodes[i]
    }

    /// Appends a node, returning its position.  This is the single mutation
    /// point of the arena, used by `var` and by every operator.
    pub(crate) fn push(&mut self, value: u64, parents: Parents) -> (i: usize)
        requires
            node_wf(Node { value, parents }, old(self)@.len() as int),
        ensures
            final(self)@ == old(self)@.push(Node { value, parents }),
            i == old(self)@.len(),
            old(self).wf() ==> final(self).wf(),
    {
        let i = self.nodes.len();
        self.nodes.push(Node { value, parents });
        proof {
            if tape_wf(old(self)@) {
                assert forall|j: int| 0 <= j < self@.len() implies node_wf(#[trigger] self@[j], j) by {
                    if j < old(self)@.len() {
                        assert(self@[j] == old(self)@[j]);
                    }
                }
            }
        }
        i
    }

    /// Records a new leaf ("variable") with the given forward value and
    /// returns a handle to it.  It always succeeds.
    pub fn var(&mut self, value: u64) -> (v: Variable)
        ensures
            final(self)@ == old(self)@.push(leaf_node(value)),
            v.index == old(self)@.len(),
            v.value == value,
            final(self).owns(v),
            old(self).wf() ==> final(self).wf(),
    {
        let i = self.push(value, Parents::Leaf);
        Variable { index: i, value }
    }

    /// Records one leaf per given value, in order.
    pub fn vars(&mut self, values: &Vec<u64>) -> (vs: Vec<Variable>)
        ensures
            final(self)@ == old(self)@ + Seq::new(values@.len(), |i: int| leaf_node(values@[i])),
            vs@.len() == values@.len(),
            forall|i: int|
                0 <= i < values@.len() ==> (#[trigger] vs@[i]).index == old(self)@.len() + i
                    && vs@[i].value == values@[i] && final(self).owns(vs@[i]),
            old(self).wf() ==> final(self).wf(),
    {
        let ghost orig = self@;
        let mut vs: Vec<Variable> = Vec::new();
        let n = values.len();
        let mut k: usize = 0;
        while k < n
            invariant
                n == values@.len(),
                k <= n,
                self@ == orig + Seq::new(k as nat, |i: int| leaf_node(values@[i])),
                vs@.len() == k,
                forall|i: int|
                    0 <= i < k ==> (#[trigger] vs@[i]).index == orig.len() + i && vs@[i].value
                        == values@[i],
                tape_wf(orig) ==> tape_wf(self@),
            decreases n - k,
        {
            let v = self.var(values[k]);
            vs.push(v);
            k = k + 1;
            proof {
                assert(self@ =~= orig + Seq::new(k as nat, |i: int| leaf_node(values@[i])));
            }
        }
        proof {
            assert forall|i: int| 0 <= i < values@.len() implies self.owns(#[trigger] vs@[i]) by {}
        }
        vs
    }
}

} // verus!
