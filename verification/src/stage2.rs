//! Grouped expression graphs: nodes bucketed by the choices enabling them,
//! with the group graph made explicit.
//!
//! A grouped graph arrives with each node assigned to a group (all nodes of
//! a group are enabled by the same set of `min`/`max` choices).  This module
//! adds the links between groups — which groups feed which — and renders the
//! whole structure as graphviz text.

use vstd::prelude::*;

verus! {

/// A one-operand operator of the expression graph.
#[derive(Copy, Clone, Debug, PartialEq, Eq, Structural)]
pub enum UnaryOpcode {
    /// Negation.
    Neg,
    /// Absolute value.
    Abs,
    /// Reciprocal.
    Recip,
    /// Square root.
    Sqrt,
    /// A value multiplied by itself.
    Square,
}

/// A two-operand operator without choices.
#[derive(Copy, Clone, Debug, PartialEq, Eq, Structural)]
pub enum BinaryOpcode {
    /// Sum.
    Add,
    /// Product.
    Mul,
    /// Difference.
    Sub,
}

/// A two-operand operator that makes a left/right choice.
#[derive(Copy, Clone, Debug, PartialEq, Eq, Structural)]
pub enum BinaryChoiceOpcode {
    /// Minimum.
    Min,
    /// Maximum.
    Max,
}

/// Why a group of nodes is enabled: unconditionally (the root), or because
/// a given choice node kept its left side, its right side, or both.
#[derive(Copy, Clone, Debug, PartialEq, Eq, Structural)]
pub enum Source {
    /// The root group, always enabled.
    Root,
    /// Enabled when the given choice keeps the left side.
    Left(usize),
    /// Enabled when the given choice keeps the right side.
    Right(usize),
    /// Enabled when the given choice keeps both sides.
    Both(usize),
}

/// One node of the expression graph.  Child operands are indexes into the
/// graph's node array; a constant carries the bit pattern of its `f32`.
#[derive(Copy, Clone, Debug, PartialEq, Eq, Structural)]
pub enum Op {
    /// A named variable, by index into the variable table.
    Var(usize),
    /// A constant, as the bit pattern of an `f32`.
    Const(u32),
    /// A one-operand operator.
    Unary(UnaryOpcode, usize),
    /// A two-operand operator.
    Binary(BinaryOpcode, usize, usize),
    /// A choice operator, carrying its choice index.
    BinaryChoice(BinaryChoiceOpcode, usize, usize, usize),
}

/// The child node indexes of one node, left to right.
pub open spec fn op_children(op: Op) -> Seq<usize> {
    match op {
        Op::Var(_) => Seq::empty(),
        Op::Const(_) => Seq::empty(),
        Op::Unary(_, a) => seq![a],
        Op::Binary(_, a, b) => seq![a, b],
        Op::BinaryChoice(_, a, b, _) => seq![a, b],
    }
}

impl Op {
    /// The child node indexes of this node, left to right.
    pub fn iter_children(&self) -> (r: Vec<usize>)
        ensures
            r@ == op_children(*self),
    {
        let r = match *self {
            Op::Var(_) => vec![],
            Op::Const(_) => vec![],
            Op::Unary(_, a) => vec![a],
            Op::Binary(_, a, b) => vec![a, b],
            Op::BinaryChoice(_, a, b, _) => vec![a, b],
        };
        proof {
            assert(r@ =~= op_children(*self));
        }
        r
    }
}

/// A group of nodes as it arrives, before group links are known: the
/// choices that enable it and the nodes it holds.
pub struct SourceGroup {
    /// Choices which enable this group of nodes, sorted and unique: if any
    /// of them is live, the group is enabled.
    pub choices: Vec<Source>,
    /// Nodes in this group, as indexes into the graph's node array.
    pub nodes: Vec<usize>,
}

/// A grouped expression graph before group links are computed.
pub struct Stage1 {
    /// The nodes, each with the index of the group holding it.
    pub ops: Vec<(Op, usize)>,
    /// Root node of the tree.
    pub root: usize,
    /// The groups, in arbitrary order.
    pub groups: Vec<SourceGroup>,
    /// Number of nodes in the tree which make left/right choices.
    pub num_choices: usize,
    /// Variable names, by variable index.
    pub vars: Vec<String>,
}

/// Internal consistency of an incoming graph: every group index, node index
/// and variable index stays in range.
pub open spec fn stage1_wf(t: Stage1) -> bool {
    &&& forall|i: int| 0 <= i < t.ops@.len() ==> (#[trigger] t.ops@[i]).1 < t.groups@.len()
    &&& forall|i: int, j: int|
        0 <= i < t.ops@.len() && 0 <= j < op_children(t.ops@[i].0).len()
            ==> (#[trigger] op_children(t.ops@[i].0)[j]) < t.ops@.len()
    &&& forall|g: int, k: int|
        0 <= g < t.groups@.len() && 0 <= k < t.groups@[g].nodes@.len()
            ==> (#[trigger] t.groups@[g].nodes@[k]) < t.ops@.len()
    &&& forall|i: int| 0 <= i < t.ops@.len() ==> var_in_range(#[trigger] t.ops@[i].0, t.vars@.len())
}

/// Whether a node's variable index, if it has one, is within the table.
pub open spec fn var_in_range(op: Op, nvars: nat) -> bool {
    match op {
        Op::Var(v) => v < nvars,
        _ => true,
    }
}

/// A strictly increasing (hence duplicate-free) index sequence.
pub open spec fn sorted_unique(s: Seq<usize>) -> bool {
    forall|i: int, j: int| 0 <= i < j < s.len() ==> s[i] < s[j]
}

/// Membership in a sequence extended by one element.
proof fn lemma_contains_push<A>(s: Seq<A>, x: A, y: A)
    ensures
        s.push(x).contains(y) <==> (s.contains(y) || y == x),
{
    if s.push(x).contains(y) {
        let w = choose|w: int| 0 <= w < s.push(x).len() && s.push(x)[w] == y;
        if w < s.len() {
            assert(s[w] == y);
        }
    }
    if s.contains(y) {
        let w = choose|w: int| 0 <= w < s.len() && s[w] == y;
        assert(s.push(x)[w] == y);
    }
    if y == x {
        assert(s.push(x)[s.len() as int] == y);
    }
}

/// Inserts `x` into a sorted duplicate-free vector, keeping it so.
fn insert_sorted(v: &mut Vec<usize>, x: usize)
    requires
        sorted_unique(old(v)@),
    ensures
        sorted_unique(final(v)@),
        forall|y: usize| final(v)@.contains(y) <==> (old(v)@.contains(y) || y == x),
{
    let mut i: usize = 0;
    while i < v.len() && v[i] < x
        invariant
            i <= v@.len(),
            v == old(v),
            forall|k: int| 0 <= k < i ==> v@[k] < x,
        decreases v@.len() - i,
    {
        i = i + 1;
    }
    if i < v.len() && v[i] == x {
        proof {
            assert(v@.contains(x)) by {
                assert(v@[i as int] == x);
            }
        }
        return;
    }
    v.insert(i, x);
    proof {
        assert forall|a: int, b: int| 0 <= a < b < v@.len() implies v@[a] < v@[b] by {
            if b < i {
            } else if a < i && b == i {
            } else if a < i {
                assert(v@[b] == old(v)@[b - 1]);
                assert(old(v)@[i as int] >= x || i == old(v)@.len());
                assert(old(v)@[i as int] != x || i == old(v)@.len());
            } else if a == i {
                assert(v@[b] == old(v)@[b - 1]);
                assert(old(v)@[i as int] > x);
            } else {
                assert(v@[a] == old(v)@[a - 1] && v@[b] == old(v)@[b - 1]);
            }
        }
        assert forall|y: usize| final(v)@.contains(y) <==> (old(v)@.contains(y) || y == x) by {
            if v@.contains(y) {
                let w = choose|w: int| 0 <= w < v@.len() && v@[w] == y;
                if w < i {
                    assert(old(v)@[w] == y);
                } else if w == i {
                } else {
                    assert(old(v)@[w - 1] == y);
                }
            }
            if old(v)@.contains(y) {
                let w = choose|w: int| 0 <= w < old(v)@.len() && old(v)@[w] == y;
                if w < i {
                    assert(v@[w] == y);
                } else {
                    assert(v@[w + 1] == y);
                }
            }
            if y == x {
                assert(v@[i as int] == y);
            }
        }
    }
}

/// Group-to-group edges contributed by the first `j` children of node `n`,
/// which lives in group `g`: one `(g, child group)` pair per child stored in
/// a different group.
pub open spec fn node_edges(ops: Seq<(Op, usize)>, g: usize, n: usize, j: int) -> Seq<
    (usize, usize),
>
    decreases j,
{
    if j <= 0 {
        Seq::empty()
    } else {
        node_edges(ops, g, n, j - 1) + {
            let c = op_children(ops[n as int].0)[j - 1];
            let cg = ops[c as int].1;
            if cg != g {
                seq![(g, cg)]
            } else {
                Seq::empty()
            }
        }
    }
}

/// Edges contributed by the first `k` nodes of group `g`.
pub open spec fn group_edges(
    ops: Seq<(Op, usize)>,
    nodes: Seq<usize>,
    g: usize,
    k: int,
) -> Seq<(usize, usize)>
    decreases k,
{
    if k <= 0 {
        Seq::empty()
    } else {
        group_edges(ops, nodes, g, k - 1) + node_edges(
            ops,
            g,
            nodes[k - 1],
            op_children(ops[nodes[k - 1] as int].0).len() as int,
        )
    }
}

/// Edges contributed by the first `g` groups.
pub open spec fn edges_upto(t: Stage1, g: int) -> Seq<(usize, usize)>
    decreases g,
{
    if g <= 0 {
        Seq::empty()
    } else {
        edges_upto(t, g - 1) + group_edges(
            t.ops@,
            t.groups@[g - 1].nodes@,
            (g - 1) as usize,
            t.groups@[g - 1].nodes@.len() as int,
        )
    }
}

/// All group-to-group edges of the graph: `(g, h)` appears (possibly more
/// than once) exactly when some node of group `g` has a child stored in the
/// different group `h`.
pub open spec fn edge_seq(t: Stage1) -> Seq<(usize, usize)> {
    edges_upto(t, t.groups@.len() as int)
}

/// The group a node's `j`-th child is stored in.
pub open spec fn child_group(ops: Seq<(Op, usize)>, n: usize, j: int) -> usize {
    ops[op_children(ops[n as int].0)[j] as int].1
}

/// Membership in a concatenation.
proof fn lemma_contains_concat<A>(a: Seq<A>, b: Seq<A>, y: A)
    ensures
        (a + b).contains(y) <==> (a.contains(y) || b.contains(y)),
{
    if (a + b).contains(y) {
        let w = choose|w: int| 0 <= w < (a + b).len() && (a + b)[w] == y;
        if w < a.len() {
            assert(a[w] == y);
        } else {
            assert(b[w - a.len()] == y);
        }
    }
    if a.contains(y) {
        let w = choose|w: int| 0 <= w < a.len() && a[w] == y;
        assert((a + b)[w] == y);
    }
    if b.contains(y) {
        let w = choose|w: int| 0 <= w < b.len() && b[w] == y;
        assert((a + b)[a.len() + w] == y);
    }
}

proof fn lemma_node_edges_contains(
    ops: Seq<(Op, usize)>,
    g: usize,
    n: usize,
    j: int,
    p: (usize, usize),
)
    ensures
        node_edges(ops, g, n, j).contains(p) <==> (p.0 == g && p.1 != g && exists|jj: int|
            0 <= jj < j && #[trigger] child_group(ops, n, jj) == p.1),
    decreases j,
{
    if j <= 0 {
    } else {
        lemma_node_edges_contains(ops, g, n, j - 1, p);
        let cg = child_group(ops, n, j - 1);
        let tail: Seq<(usize, usize)> = if cg != g {
            seq![(g, cg)]
        } else {
            Seq::empty()
        };
        lemma_contains_concat(node_edges(ops, g, n, j - 1), tail, p);
        if p.0 == g && p.1 != g && cg == p.1 {
            assert(tail.contains(p)) by {
                assert(tail[0] == p);
            }
        }
        if tail.contains(p) {
            assert(p == (g, cg));
        }
    }
}

proof fn lemma_group_edges_contains(
    ops: Seq<(Op, usize)>,
    nodes: Seq<usize>,
    g: usize,
    k: int,
    p: (usize, usize),
)
    ensures
        group_edges(ops, nodes, g, k).contains(p) <==> (p.0 == g && p.1 != g && exists|kk: int,
        jj: int|
            0 <= kk < k && 0 <= jj < op_children(ops[nodes[kk] as int].0).len()
                && #[trigger] child_group(ops, nodes[kk], jj) == p.1),
    decreases k,
{
    if k <= 0 {
    } else {
        lemma_group_edges_contains(ops, nodes, g, k - 1, p);
        let n = nodes[k - 1];
        let cnt = op_children(ops[n as int].0).len() as int;
        lemma_node_edges_contains(ops, g, n, cnt, p);
        lemma_contains_concat(
            group_edges(ops, nodes, g, k - 1),
            node_edges(ops, g, n, cnt),
            p,
        );
        if node_edges(ops, g, n, cnt).contains(p) {
            let jj = choose|jj: int| 0 <= jj < cnt && #[trigger] child_group(ops, n, jj) == p.1;
            assert(0 <= k - 1 < k && 0 <= jj < op_children(ops[nodes[k - 1] as int].0).len()
                && child_group(ops, nodes[k - 1], jj) == p.1);
        }
        if exists|kk: int, jj: int|
            0 <= kk < k && 0 <= jj < op_children(ops[nodes[kk] as int].0).len()
                && #[trigger] child_group(ops, nodes[kk], jj) == p.1 {
            let (kk, jj) = choose|kk: int, jj: int|
                0 <= kk < k && 0 <= jj < op_children(ops[nodes[kk] as int].0).len()
                    && #[trigger] child_group(ops, nodes[kk], jj) == p.1;
            if kk < k - 1 {
            } else {
                assert(child_group(ops, n, jj) == p.1);
            }
        }
    }
}

proof fn lemma_edges_upto_contains(t: Stage1, g: int, p: (usize, usize))
    requires
        0 <= g <= t.groups@.len(),
    ensures
        edges_upto(t, g).contains(p) <==> (p.1 != p.0 && exists|gg: int, kk: int, jj: int|
            0 <= gg < g && gg == p.0 && 0 <= kk < t.groups@[gg].nodes@.len()
                && 0 <= jj < op_children(t.ops@[t.groups@[gg].nodes@[kk] as int].0).len()
                && #[trigger] child_group(t.ops@, t.groups@[gg].nodes@[kk], jj) == p.1),
    decreases g,
{
    vstd::std_specs::vec::axiom_spec_len(&t.groups);
    if g <= 0 {
    } else {
        lemma_edges_upto_contains(t, g - 1, p);
        let nodes = t.groups@[g - 1].nodes@;
        let tail = group_edges(t.ops@, nodes, (g - 1) as usize, nodes.len() as int);
        lemma_group_edges_contains(t.ops@, nodes, (g - 1) as usize, nodes.len() as int, p);
        lemma_contains_concat(edges_upto(t, g - 1), tail, p);
        if tail.contains(p) {
            let (kk, jj) = choose|kk: int, jj: int|
                0 <= kk < nodes.len() && 0 <= jj < op_children(
                    t.ops@[nodes[kk] as int].0,
                ).len() && #[trigger] child_group(t.ops@, nodes[kk], jj) == p.1;
            assert(0 <= g - 1 < g && g - 1 == p.0 && 0 <= kk < t.groups@[g - 1].nodes@.len()
                && 0 <= jj < op_children(t.ops@[t.groups@[g - 1].nodes@[kk] as int].0).len()
                && child_group(t.ops@, t.groups@[g - 1].nodes@[kk], jj) == p.1);
        }
        if p.1 != p.0 && exists|gg: int, kk: int, jj: int|
            0 <= gg < g && gg == p.0 && 0 <= kk < t.groups@[gg].nodes@.len()
                && 0 <= jj < op_children(t.ops@[t.groups@[gg].nodes@[kk] as int].0).len()
                && #[trigger] child_group(t.ops@, t.groups@[gg].nodes@[kk], jj) == p.1 {
            let (gg, kk, jj) = choose|gg: int, kk: int, jj: int|
                0 <= gg < g && gg == p.0 && 0 <= kk < t.groups@[gg].nodes@.len()
                    && 0 <= jj < op_children(t.ops@[t.groups@[gg].nodes@[kk] as int].0).len()
                    && #[trigger] child_group(t.ops@, t.groups@[gg].nodes@[kk], jj) == p.1;
            if gg == g - 1 {
                assert(0 <= kk < nodes.len() && 0 <= jj < op_children(
                    t.ops@[nodes[kk] as int].0,
                ).len() && child_group(t.ops@, nodes[kk], jj) == p.1);
            } else {
                assert(0 <= gg < g - 1 && gg == p.0 && 0 <= kk < t.groups@[gg].nodes@.len()
                    && 0 <= jj < op_children(t.ops@[t.groups@[gg].nodes@[kk] as int].0).len()
                    && child_group(t.ops@, t.groups@[gg].nodes@[kk], jj) == p.1);
            }
        }
    }
}

/// What an edge means: `(g, h)` appears in the edge sequence exactly when
/// some node of group `g` has a child stored in the different group `h`.
/// Through the contract of [`Stage2::from`], this characterizes the
/// `downstream` and `upstream` sets.
pub proof fn lemma_edge_seq_iff(t: Stage1, g: usize, h: usize)
    ensures
        edge_seq(t).contains((g, h)) <==> (h != g && (g as int) < t.groups@.len()
            && exists|kk: int, jj: int|
            0 <= kk < t.groups@[g as int].nodes@.len()
                && 0 <= jj < op_children(t.ops@[t.groups@[g as int].nodes@[kk] as int].0).len()
                && #[trigger] child_group(t.ops@, t.groups@[g as int].nodes@[kk], jj) == h),
{
    vstd::std_specs::vec::axiom_spec_len(&t.groups);
    lemma_edges_upto_contains(t, t.groups@.len() as int, (g, h));
}

/// A group with its graph links made explicit.
///
/// Unlike [`SourceGroup`], this includes the connections to upstream and
/// downstream groups.
pub struct Group {
    /// Choices which enable this group of nodes, sorted and unique: if any
    /// of them is live, the group is enabled.
    pub choices: Vec<Source>,
    /// Nodes in this group, as indexes into the parent graph's node array.
    pub nodes: Vec<usize>,
    /// Downstream groups (farther from the root): the distinct groups that
    /// hold a child of one of this group's nodes, sorted.
    pub downstream: Vec<usize>,
    /// Upstream groups (closer to the root): the distinct groups holding a
    /// node with a child in this group, sorted.
    pub upstream: Vec<usize>,
}

/// A grouped expression graph with the group graph made explicit.
pub struct Stage2 {
    /// The nodes, each with the index of the group holding it.
    pub ops: Vec<(Op, usize)>,
    /// Root node of the tree.
    pub root: usize,
    /// Groups of nodes and group graph links.
    pub groups: Vec<Group>,
    /// Number of nodes in the tree which make left/right choices.
    pub num_choices: usize,
    /// Variable names, by variable index.
    pub vars: Vec<String>,
}

impl Stage2 {
    /// Builds the group graph: every field of the incoming graph carries
    /// over, and each group learns its sorted, duplicate-free sets of
    /// downstream and upstream neighbors, found by noticing child nodes
    /// stored in a different group than their parent.
    #[verifier::rlimit(50)]
    pub fn from(t: &Stage1) -> (r: Stage2)
        requires
            stage1_wf(*t),
        ensures
            r.ops@ == t.ops@,
            r.root == t.root,
            r.num_choices == t.num_choices,
            r.vars@ == t.vars@,
            r.groups@.len() == t.groups@.len(),
            forall|g: int| 0 <= g < r.groups@.len()
                ==> (#[trigger] r.groups@[g]).choices@ == t.groups@[g].choices@
                    && r.groups@[g].nodes@ == t.groups@[g].nodes@
                    && sorted_unique(r.groups@[g].downstream@)
                    && sorted_unique(r.groups@[g].upstream@),
            forall|g: int, h: usize| 0 <= g < r.groups@.len()
                ==> ((#[trigger] r.groups@[g].downstream@.contains(h))
                    <==> edge_seq(*t).contains((g as usize, h))),
            forall|g: int, h: usize| 0 <= g < r.groups@.len()
                ==> ((#[trigger] r.groups@[g].upstream@.contains(h))
                    <==> edge_seq(*t).contains((h, g as usize))),
    {
        let ngroups = t.groups.len();

        // Collect the group-to-group edges, one pair per cross-group child.
        let mut edges: Vec<(usize, usize)> = Vec::new();
        let mut g: usize = 0;
        while g < ngroups
            invariant
                stage1_wf(*t),
                ngroups == t.groups@.len(),
                g <= ngroups,
                edges@ == edges_upto(*t, g as int),
                forall|p: int| 0 <= p < edges@.len()
                    ==> (#[trigger] edges@[p]).0 < ngroups && edges@[p].1 < ngroups,
            decreases ngroups - g,
        {
            let nodes = &t.groups[g].nodes;
            let mut k: usize = 0;
            while k < nodes.len()
                invariant
                    stage1_wf(*t),
                    ngroups == t.groups@.len(),
                    g < ngroups,
                    nodes@ == t.groups@[g as int].nodes@,
                    k <= nodes@.len(),
                    edges@ == edges_upto(*t, g as int)
                        + group_edges(t.ops@, nodes@, g, k as int),
                    forall|p: int| 0 <= p < edges@.len()
                    ==> (#[trigger] edges@[p]).0 < ngroups && edges@[p].1 < ngroups,
                decreases nodes@.len() - k,
            {
                let n = nodes[k];
                let children = t.ops[n].0.iter_children();
                let mut j: usize = 0;
                while j < children.len()
                    invariant
                        stage1_wf(*t),
                        ngroups == t.groups@.len(),
                        g < ngroups,
                        nodes@ == t.groups@[g as int].nodes@,
                        k < nodes@.len(),
                        n == nodes@[k as int],
                        n < t.ops@.len(),
                        children@ == op_children(t.ops@[n as int].0),
                        j <= children@.len(),
                        edges@ == edges_upto(*t, g as int)
                            + group_edges(t.ops@, nodes@, g, k as int)
                            + node_edges(t.ops@, g, n, j as int),
                        forall|p: int| 0 <= p < edges@.len()
                    ==> (#[trigger] edges@[p]).0 < ngroups && edges@[p].1 < ngroups,
                    decreases children@.len() - j,
                {
                    let c = children[j];
                    let cg = t.ops[c].1;
                    if cg != g {
                        edges.push((g, cg));
                    }
                    proof {
                        assert(edges@ =~= edges_upto(*t, g as int)
                            + group_edges(t.ops@, nodes@, g, k as int)
                            + node_edges(t.ops@, g, n, j as int + 1));
                    }
                    j = j + 1;
                }
                proof {
                    assert(edges@ =~= edges_upto(*t, g as int)
                        + group_edges(t.ops@, nodes@, g, k as int + 1));
                }
                k = k + 1;
            }
            proof {
                assert(edges@ =~= edges_upto(*t, g as int + 1));
            }
            g = g + 1;
        }
        proof {
            assert(edges@ == edge_seq(*t));
        }

        // Fold the edges into sorted neighbor sets.
        let mut down: Vec<Vec<usize>> = Vec::new();
        let mut up: Vec<Vec<usize>> = Vec::new();
        let mut i: usize = 0;
        while i < ngroups
            invariant
                i <= ngroups,
                down@.len() == i,
                up@.len() == i,
                forall|a: int| 0 <= a < i ==> (#[trigger] down@[a])@ == Seq::<usize>::empty(),
                forall|a: int| 0 <= a < i ==> (#[trigger] up@[a])@ == Seq::<usize>::empty(),
            decreases ngroups - i,
        {
            down.push(Vec::new());
            up.push(Vec::new());
            i = i + 1;
        }
        let mut e: usize = 0;
        proof {
            assert(edges@.take(0) =~= Seq::<(usize, usize)>::empty());
        }
        while e < edges.len()
            invariant
                stage1_wf(*t),
                ngroups == t.groups@.len(),
                edges@ == edge_seq(*t),
                e <= edges@.len(),
                down@.len() == ngroups,
                up@.len() == ngroups,
                forall|p: int| 0 <= p < edges@.len()
                    ==> (#[trigger] edges@[p]).0 < ngroups && edges@[p].1 < ngroups,
                forall|a: int| 0 <= a < ngroups ==> sorted_unique((#[trigger] down@[a])@),
                forall|a: int| 0 <= a < ngroups ==> sorted_unique((#[trigger] up@[a])@),
                forall|a: int, h: usize| 0 <= a < ngroups
                    ==> ((#[trigger] down@[a]@.contains(h))
                        <==> edges@.take(e as int).contains((a as usize, h))),
                forall|a: int, h: usize| 0 <= a < ngroups
                    ==> ((#[trigger] up@[a]@.contains(h))
                        <==> edges@.take(e as int).contains((h, a as usize))),
            decreases edges@.len() - e,
        {
            let ghost down0 = down@;
            let ghost up0 = up@;
            let (a, b) = edges[e];
            let mut da = down.remove(a);
            let ghost da0 = da@;
            insert_sorted(&mut da, b);
            let ghost da1 = da@;
            down.insert(a, da);
            let mut ub = up.remove(b);
            let ghost ub0 = ub@;
            insert_sorted(&mut ub, a);
            let ghost ub1 = ub@;
            up.insert(b, ub);
            proof {
                assert(da0 == down0[a as int]@);
                assert(ub0 == up0[b as int]@);
                assert(edges@.take(e as int + 1) =~= edges@.take(e as int).push(edges@[e as int]));
                assert forall|q: int| 0 <= q < ngroups && q != a
                    implies down@[q] == down0[q] by {
                    assert(down@ =~= down0.remove(a as int).insert(a as int, down@[a as int]));
                }
                assert(down@[a as int]@ == da1);
                assert forall|q: int| 0 <= q < ngroups && q != b
                    implies up@[q] == up0[q] by {
                    assert(up@ =~= up0.remove(b as int).insert(b as int, up@[b as int]));
                }
                assert(up@[b as int]@ == ub1);
                assert forall|q: int, h: usize| 0 <= q < ngroups
                    implies ((down@[q]@.contains(h))
                        <==> edges@.take(e as int + 1).contains((q as usize, h))) by {
                    lemma_contains_push(edges@.take(e as int), edges@[e as int], (q as usize, h));
                }
                assert forall|q: int, h: usize| 0 <= q < ngroups
                    implies ((up@[q]@.contains(h))
                        <==> edges@.take(e as int + 1).contains((h, q as usize))) by {
                    lemma_contains_push(edges@.take(e as int), edges@[e as int], (h, q as usize));
                }
            }
            e = e + 1;
        }
        proof {
            assert(edges@.take(edges@.len() as int) =~= edges@);
        }

        // Assemble the result.
        let mut groups: Vec<Group> = Vec::new();
        let mut gi: usize = 0;
        while gi < ngroups
            invariant
                stage1_wf(*t),
                ngroups == t.groups@.len(),
                gi <= ngroups,
                down@.len() == ngroups,
                up@.len() == ngroups,
                groups@.len() == gi,
                forall|a: int| 0 <= a < ngroups ==> sorted_unique((#[trigger] down@[a])@),
                forall|a: int| 0 <= a < ngroups ==> sorted_unique((#[trigger] up@[a])@),
                forall|a: int, h: usize| 0 <= a < ngroups
                    ==> ((#[trigger] down@[a]@.contains(h))
                        <==> edge_seq(*t).contains((a as usize, h))),
                forall|a: int, h: usize| 0 <= a < ngroups
                    ==> ((#[trigger] up@[a]@.contains(h))
                        <==> edge_seq(*t).contains((h, a as usize))),
                forall|a: int| 0 <= a < gi
                    ==> (#[trigger] groups@[a]).choices@ == t.groups@[a].choices@
                        && groups@[a].nodes@ == t.groups@[a].nodes@
                        && groups@[a].downstream@ == down@[a]@
                        && groups@[a].upstream@ == up@[a]@,
            decreases ngroups - gi,
        {
            let choices = copy_sources(&t.groups[gi].choices);
            let nodes = copy_indexes(&t.groups[gi].nodes);
            let downstream = copy_indexes(&down[gi]);
            let upstream = copy_indexes(&up[gi]);
            groups.push(Group { choices, nodes, downstream, upstream });
            gi = gi + 1;
        }

        let ops = copy_ops(&t.ops);
        let vars = copy_strings(&t.vars);
        Stage2 { ops, root: t.root, groups, num_choices: t.num_choices, vars }
    }
}

/// Copies a vector of sources.
fn copy_sources(v: &Vec<Source>) -> (r: Vec<Source>)
    ensures
        r@ == v@,
{
    let mut r: Vec<Source> = Vec::new();
    let mut i: usize = 0;
    while i < v.len()
        invariant
            i <= v@.len(),
            r@ =~= v@.take(i as int),
        decreases v@.len() - i,
    {
        r.push(v[i]);
        proof {
            assert(r@ =~= v@.take(i as int + 1));
        }
        i = i + 1;
    }
    proof {
        assert(v@.take(v@.len() as int) =~= v@);
    }
    r
}

/// Copies a vector of indexes.
fn copy_indexes(v: &Vec<usize>) -> (r: Vec<usize>)
    ensures
        r@ == v@,
{
    let mut r: Vec<usize> = Vec::new();
    let mut i: usize = 0;
    while i < v.len()
        invariant
            i <= v@.len(),
            r@ =~= v@.take(i as int),
        decreases v@.len() - i,
    {
        r.push(v[i]);
        proof {
            assert(r@ =~= v@.take(i as int + 1));
        }
        i = i + 1;
    }
    proof {
        assert(v@.take(v@.len() as int) =~= v@);
    }
    r
}

/// Copies the node array.
fn copy_ops(v: &Vec<(Op, usize)>) -> (r: Vec<(Op, usize)>)
    ensures
        r@ == v@,
{
    let mut r: Vec<(Op, usize)> = Vec::new();
    let mut i: usize = 0;
    while i < v.len()
        invariant
            i <= v@.len(),
            r@ =~= v@.take(i as int),
        decreases v@.len() - i,
    {
        r.push(v[i]);
        proof {
            assert(r@ =~= v@.take(i as int + 1));
        }
        i = i + 1;
    }
    proof {
        assert(v@.take(v@.len() as int) =~= v@);
    }
    r
}

/// Copies the variable table.
fn copy_strings(v: &Vec<String>) -> (r: Vec<String>)
    ensures
        r@ == v@,
{
    let mut r: Vec<String> = Vec::new();
    let mut i: usize = 0;
    while i < v.len()
        invariant
            i <= v@.len(),
            r@ =~= v@.take(i as int),
        decreases v@.len() - i,
    {
        r.push(v[i].clone());
        proof {
            assert(r@ =~= v@.take(i as int + 1));
        }
        i = i + 1;
    }
    proof {
        assert(v@.take(v@.len() as int) =~= v@);
    }
    r
}

} // verus!

use vstd::string::StringExecFns;

verus! {

/// The decimal digit character for a value below ten.
pub open spec fn digit_char(d: nat) -> char {
    if d == 0 {
        '0'
    } else if d == 1 {
        '1'
    } else if d == 2 {
        '2'
    } else if d == 3 {
        '3'
    } else if d == 4 {
        '4'
    } else if d == 5 {
        '5'
    } else if d == 6 {
        '6'
    } else if d == 7 {
        '7'
    } else if d == 8 {
        '8'
    } else {
        '9'
    }
}

/// The decimal numeral of `n`, most significant digit first.
pub open spec fn dec_digits(n: nat) -> Seq<char>
    decreases n,
{
    if n < 10 {
        seq![digit_char(n)]
    } else {
        dec_digits(n / 10) + seq![digit_char(n % 10)]
    }
}

/// Appends one decimal digit character.
fn push_digit(s: &mut String, d: usize)
    requires
        d < 10,
    ensures
        final(s)@ == old(s)@ + seq![digit_char(d as nat)],
{
    let t: &str = if d == 0 {
        "0"
    } else if d == 1 {
        "1"
    } else if d == 2 {
        "2"
    } else if d == 3 {
        "3"
    } else if d == 4 {
        "4"
    } else if d == 5 {
        "5"
    } else if d == 6 {
        "6"
    } else if d == 7 {
        "7"
    } else if d == 8 {
        "8"
    } else {
        "9"
    };
    proof {
        reveal_strlit("0");
        reveal_strlit("1");
        reveal_strlit("2");
        reveal_strlit("3");
        reveal_strlit("4");
        reveal_strlit("5");
        reveal_strlit("6");
        reveal_strlit("7");
        reveal_strlit("8");
        reveal_strlit("9");
        assert(t@ =~= seq![digit_char(d as nat)]);
    }
    s.append(t);
}

/// Appends the decimal numeral of `n`.
fn push_number(s: &mut String, n: usize)
    ensures
        final(s)@ == old(s)@ + dec_digits(n as nat),
    decreases n,
{
    if n >= 10 {
        push_number(s, n / 10);
    }
    push_digit(s, n % 10);
    proof {
        if n >= 10 {
            assert(final(s)@ =~= old(s)@ + dec_digits(n as nat));
        }
    }
}

/// The label text of one node.
pub open spec fn op_label(op: Op, vars: Seq<String>) -> Seq<char> {
    match op {
        Op::Var(v) => vars[v as int]@,
        Op::Const(bits) => "const "@ + dec_digits(bits as nat),
        Op::Unary(UnaryOpcode::Neg, _) => "neg"@,
        Op::Unary(UnaryOpcode::Abs, _) => "abs"@,
        Op::Unary(UnaryOpcode::Recip, _) => "recip"@,
        Op::Unary(UnaryOpcode::Sqrt, _) => "sqrt"@,
        Op::Unary(UnaryOpcode::Square, _) => "square"@,
        Op::Binary(BinaryOpcode::Add, _, _) => "add"@,
        Op::Binary(BinaryOpcode::Mul, _, _) => "mul"@,
        Op::Binary(BinaryOpcode::Sub, _, _) => "sub"@,
        Op::BinaryChoice(BinaryChoiceOpcode::Min, _, _, _) => "min"@,
        Op::BinaryChoice(BinaryChoiceOpcode::Max, _, _, _) => "max"@,
    }
}

/// The declaration line of one node.
pub open spec fn node_line(n: usize, ops: Seq<(Op, usize)>, vars: Seq<String>) -> Seq<char> {
    "n"@ + dec_digits(n as nat) + " [label=\""@ + op_label(ops[n as int].0, vars) + "\"]\n"@
}

/// The declaration lines of the first `k` nodes of a group.
pub open spec fn nodes_text(
    ops: Seq<(Op, usize)>,
    vars: Seq<String>,
    nodes: Seq<usize>,
    k: int,
) -> Seq<char>
    decreases k,
{
    if k <= 0 {
        Seq::empty()
    } else {
        nodes_text(ops, vars, nodes, k - 1) + node_line(nodes[k - 1], ops, vars)
    }
}

/// The subgraph block of group `g`: its nodes plus the invisible rank
/// anchors that group edges attach to.
pub open spec fn cluster_text(
    ops: Seq<(Op, usize)>,
    vars: Seq<String>,
    nodes: Seq<usize>,
    g: usize,
) -> Seq<char> {
    "subgraph cluster_"@ + dec_digits(g as nat) + " {\n"@
        + nodes_text(ops, vars, nodes, nodes.len() as int)
        + "SINK_"@ + dec_digits(g as nat) + " [shape=point style=invis]\n"@
        + "SOURCE_"@ + dec_digits(g as nat) + " [shape=point style=invis]\n"@
        + "{ rank = min; SINK_"@ + dec_digits(g as nat) + " }\n"@
        + "{ rank = max; SOURCE_"@ + dec_digits(g as nat) + " }\n"@
        + "}\n"@
}

/// The subgraph blocks of the first `g` groups.
pub open spec fn clusters_text(
    ops: Seq<(Op, usize)>,
    vars: Seq<String>,
    groups: Seq<Group>,
    g: int,
) -> Seq<char>
    decreases g,
{
    if g <= 0 {
        Seq::empty()
    } else {
        clusters_text(ops, vars, groups, g - 1)
            + cluster_text(ops, vars, groups[g - 1].nodes@, (g - 1) as usize)
    }
}

/// One node-to-node edge line; edges that cross groups are drawn faded.
pub open spec fn edge_line(ops: Seq<(Op, usize)>, i: usize, c: usize) -> Seq<char> {
    "n"@ + dec_digits(i as nat) + " -> n"@ + dec_digits(c as nat) + " [color=\"#000000"@
        + (if ops[c as int].1 == ops[i as int].1 {
        "FF"@
    } else {
        "40"@
    }) + "\"]\n"@
}

/// The edge lines from the first `j` children of node `i`.
pub open spec fn node_edges_text(ops: Seq<(Op, usize)>, i: usize, j: int) -> Seq<char>
    decreases j,
{
    if j <= 0 {
        Seq::empty()
    } else {
        node_edges_text(ops, i, j - 1) + edge_line(ops, i, op_children(ops[i as int].0)[j - 1])
    }
}

/// The edge lines of the first `i` nodes.
pub open spec fn edges_text(ops: Seq<(Op, usize)>, i: int) -> Seq<char>
    decreases i,
{
    if i <= 0 {
        Seq::empty()
    } else {
        edges_text(ops, i - 1) + node_edges_text(
            ops,
            (i - 1) as usize,
            op_children(ops[i - 1].0).len() as int,
        )
    }
}

/// One group-to-group edge line, anchored on the invisible rank nodes.
pub open spec fn group_edge_line(i: usize, d: usize) -> Seq<char> {
    "SOURCE_"@ + dec_digits(i as nat) + " -> SINK_"@ + dec_digits(d as nat)
        + " [ltail=cluster_"@ + dec_digits(i as nat) + ", lhead=cluster_"@
        + dec_digits(d as nat) + "];\n"@
}

/// The group edge lines from the first `d` downstream links of group `i`.
pub open spec fn group_edges_text_one(downstream: Seq<usize>, i: usize, d: int) -> Seq<char>
    decreases d,
{
    if d <= 0 {
        Seq::empty()
    } else {
        group_edges_text_one(downstream, i, d - 1) + group_edge_line(i, downstream[d - 1])
    }
}

/// The group edge lines of the first `i` groups.
pub open spec fn group_edges_text(groups: Seq<Group>, i: int) -> Seq<char>
    decreases i,
{
    if i <= 0 {
        Seq::empty()
    } else {
        group_edges_text(groups, i - 1) + group_edges_text_one(
            groups[i - 1].downstream@,
            (i - 1) as usize,
            groups[i - 1].downstream@.len() as int,
        )
    }
}

/// The complete graphviz text of a grouped graph: a cluster per group, node
/// edges (faded where they cross groups), then the group edges.
pub open spec fn dot_text(
    ops: Seq<(Op, usize)>,
    vars: Seq<String>,
    groups: Seq<Group>,
) -> Seq<char> {
    "digraph mygraph {\ncompound=true\n"@
        + clusters_text(ops, vars, groups, groups.len() as int)
        + edges_text(ops, ops.len() as int)
        + group_edges_text(groups, groups.len() as int)
        + "}\n"@
}

impl Stage2 {
    /// Internal consistency: every node, child, variable and downstream
    /// index stays in range.
    pub open spec fn wf(&self) -> bool {
        &&& forall|i: int, j: int|
            0 <= i < self.ops@.len() && 0 <= j < op_children(self.ops@[i].0).len()
                ==> (#[trigger] op_children(self.ops@[i].0)[j]) < self.ops@.len()
        &&& forall|g: int, k: int|
            0 <= g < self.groups@.len() && 0 <= k < self.groups@[g].nodes@.len()
                ==> (#[trigger] self.groups@[g].nodes@[k]) < self.ops@.len()
        &&& forall|i: int|
            0 <= i < self.ops@.len() ==> var_in_range(#[trigger] self.ops@[i].0, self.vars@.len())
    }

    /// Renders the graph as graphviz text: one cluster per group, node edges
    /// faded where they cross groups, and the group links anchored on
    /// invisible rank nodes.
    #[verifier::rlimit(50)]
    pub fn write_dot(&self) -> (r: String)
        requires
            self.wf(),
        ensures
            r@ == dot_text(self.ops@, self.vars@, self.groups@),
    {
        let mut out = String::new();
        out.append("digraph mygraph {\ncompound=true\n");
        let ghost head = "digraph mygraph {\ncompound=true\n"@;

        let mut g: usize = 0;
        while g < self.groups.len()
            invariant
                self.wf(),
                g <= self.groups@.len(),
                out@ == head + clusters_text(self.ops@, self.vars@, self.groups@, g as int),
            decreases self.groups@.len() - g,
        {
            push_cluster(&mut out, &self.ops, &self.vars, &self.groups[g].nodes, g);
            proof {
                assert(out@ =~= head
                    + clusters_text(self.ops@, self.vars@, self.groups@, g as int + 1));
            }
            g = g + 1;
        }

        let ghost mid1 = out@;
        let mut i: usize = 0;
        while i < self.ops.len()
            invariant
                self.wf(),
                i <= self.ops@.len(),
                out@ == mid1 + edges_text(self.ops@, i as int),
            decreases self.ops@.len() - i,
        {
            let ghost pre = out@;
            let children = self.ops[i].0.iter_children();
            let mut j: usize = 0;
            while j < children.len()
                invariant
                    self.wf(),
                    i < self.ops@.len(),
                    children@ == op_children(self.ops@[i as int].0),
                    j <= children@.len(),
                    out@ == pre + node_edges_text(self.ops@, i, j as int),
                decreases children@.len() - j,
            {
                let c = children[j];
                proof {
                    assert(op_children(self.ops@[i as int].0)[j as int] < self.ops@.len());
                }
                push_edge_line(&mut out, &self.ops, i, c);
                proof {
                    assert(out@ =~= pre + node_edges_text(self.ops@, i, j as int + 1));
                }
                j = j + 1;
            }
            proof {
                assert(out@ =~= mid1 + edges_text(self.ops@, i as int + 1));
            }
            i = i + 1;
        }

        let ghost mid2 = out@;
        let mut gi: usize = 0;
        while gi < self.groups.len()
            invariant
                self.wf(),
                gi <= self.groups@.len(),
                out@ == mid2 + group_edges_text(self.groups@, gi as int),
            decreases self.groups@.len() - gi,
        {
            let ghost pre = out@;
            let downstream = &self.groups[gi].downstream;
            let mut d: usize = 0;
            while d < downstream.len()
                invariant
                    gi < self.groups@.len(),
                    downstream@ == self.groups@[gi as int].downstream@,
                    d <= downstream@.len(),
                    out@ == pre + group_edges_text_one(downstream@, gi, d as int),
                decreases downstream@.len() - d,
            {
                let dd = downstream[d];
                push_group_edge(&mut out, gi, dd);
                proof {
                    assert(out@ =~= pre + group_edges_text_one(downstream@, gi, d as int + 1));
                }
                d = d + 1;
            }
            proof {
                assert(out@ =~= mid2 + group_edges_text(self.groups@, gi as int + 1));
            }
            gi = gi + 1;
        }

        out.append("}\n");
        proof {
            assert(out@ =~= dot_text(self.ops@, self.vars@, self.groups@));
        }
        out
    }
}


/// Appends one node-to-node edge line.
fn push_edge_line(out: &mut String, ops: &Vec<(Op, usize)>, i: usize, c: usize)
    requires
        i < ops@.len(),
        c < ops@.len(),
    ensures
        final(out)@ == old(out)@ + edge_line(ops@, i, c),
{
    out.append("n");
    push_number(out, i);
    out.append(" -> n");
    push_number(out, c);
    out.append(" [color=\"#000000");
    if ops[c].1 == ops[i].1 {
        out.append("FF");
    } else {
        out.append("40");
    }
    out.append("\"]\n");
    proof {
        assert(final(out)@ =~= old(out)@ + edge_line(ops@, i, c));
    }
}

/// Appends one group-to-group edge line.
fn push_group_edge(out: &mut String, i: usize, d: usize)
    ensures
        final(out)@ == old(out)@ + group_edge_line(i, d),
{
    out.append("SOURCE_");
    push_number(out, i);
    out.append(" -> SINK_");
    push_number(out, d);
    out.append(" [ltail=cluster_");
    push_number(out, i);
    out.append(", lhead=cluster_");
    push_number(out, d);
    out.append("];\n");
    proof {
        assert(final(out)@ =~= old(out)@ + group_edge_line(i, d));
    }
}

/// Appends the declaration line of one node.
fn push_node_line(out: &mut String, ops: &Vec<(Op, usize)>, vars: &Vec<String>, n: usize)
    requires
        n < ops@.len(),
        var_in_range(ops@[n as int].0, vars@.len()),
    ensures
        final(out)@ == old(out)@ + node_line(n, ops@, vars@),
{
    out.append("n");
    push_number(out, n);
    out.append(" [label=\"");
    match ops[n].0 {
        Op::Var(v) => {
            out.append(vars[v].as_str());
        }
        Op::Const(bits) => {
            out.append("const ");
            push_number_u32(out, bits);
        }
        Op::Unary(UnaryOpcode::Neg, _) => out.append("neg"),
        Op::Unary(UnaryOpcode::Abs, _) => out.append("abs"),
        Op::Unary(UnaryOpcode::Recip, _) => out.append("recip"),
        Op::Unary(UnaryOpcode::Sqrt, _) => out.append("sqrt"),
        Op::Unary(UnaryOpcode::Square, _) => out.append("square"),
        Op::Binary(BinaryOpcode::Add, _, _) => out.append("add"),
        Op::Binary(BinaryOpcode::Mul, _, _) => out.append("mul"),
        Op::Binary(BinaryOpcode::Sub, _, _) => out.append("sub"),
        Op::BinaryChoice(BinaryChoiceOpcode::Min, _, _, _) => out.append("min"),
        Op::BinaryChoice(BinaryChoiceOpcode::Max, _, _, _) => out.append("max"),
    }
    out.append("\"]\n");
    proof {
        assert(final(out)@ =~= old(out)@ + node_line(n, ops@, vars@));
    }
}

/// Appends the subgraph block of one group.
#[verifier::rlimit(50)]
fn push_cluster(
    out: &mut String,
    ops: &Vec<(Op, usize)>,
    vars: &Vec<String>,
    nodes: &Vec<usize>,
    g: usize,
)
    requires
        forall|k: int| 0 <= k < nodes@.len() ==> (#[trigger] nodes@[k]) < ops@.len(),
        forall|i: int| 0 <= i < ops@.len() ==> var_in_range(#[trigger] ops@[i].0, vars@.len()),
    ensures
        final(out)@ == old(out)@ + cluster_text(ops@, vars@, nodes@, g),
{
    let ghost pre = out@;
    out.append("subgraph cluster_");
    push_number(out, g);
    out.append(" {\n");
    let mut k: usize = 0;
    while k < nodes.len()
        invariant
            forall|kk: int| 0 <= kk < nodes@.len() ==> (#[trigger] nodes@[kk]) < ops@.len(),
            forall|i: int| 0 <= i < ops@.len() ==> var_in_range(#[trigger] ops@[i].0, vars@.len()),
            k <= nodes@.len(),
            out@ == pre + "subgraph cluster_"@ + dec_digits(g as nat) + " {\n"@
                + nodes_text(ops@, vars@, nodes@, k as int),
        decreases nodes@.len() - k,
    {
        push_node_line(out, ops, vars, nodes[k]);
        proof {
            assert(out@ =~= pre + "subgraph cluster_"@ + dec_digits(g as nat) + " {\n"@
                + nodes_text(ops@, vars@, nodes@, k as int + 1));
        }
        k = k + 1;
    }
    out.append("SINK_");
    push_number(out, g);
    out.append(" [shape=point style=invis]\n");
    out.append("SOURCE_");
    push_number(out, g);
    out.append(" [shape=point style=invis]\n");
    out.append("{ rank = min; SINK_");
    push_number(out, g);
    out.append(" }\n");
    out.append("{ rank = max; SOURCE_");
    push_number(out, g);
    out.append(" }\n");
    out.append("}\n");
    proof {
        assert(final(out)@ =~= old(out)@ + cluster_text(ops@, vars@, nodes@, g));
    }
}

/// Appends the decimal numeral of a 32-bit value (constants carry their bit
/// pattern as `u32`).
fn push_number_u32(s: &mut String, n: u32)
    ensures
        final(s)@ == old(s)@ + dec_digits(n as nat),
    decreases n,
{
    if n >= 10 {
        push_number_u32(s, n / 10);
    }
    push_digit(s, (n % 10) as usize);
    proof {
        if n >= 10 {
            assert(final(s)@ =~= old(s)@ + dec_digits(n as nat));
        }
    }
}

} // verus!
