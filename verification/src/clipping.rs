//! Which overflow ancestors clip an element.
//!
//! An ancestor that is not a containing block does not clip the element when the
//! chain of positioned elements below it escapes it: a `fixed` chain escapes every
//! ancestor up to the next containing block, an `absolute` chain escapes `static`
//! ancestors. The caller walks the DOM from the element (or, for a `fixed` element,
//! from its parent) upwards and describes each node; ancestors are named by integers.
use vstd::prelude::*;

use crate::text::str_equal;

verus! {

/// The CSS `position` of an element, as far as clipping is concerned.
#[derive(Copy, Clone, Debug, PartialEq, Eq, Structural)]
pub enum CssPosition {
    Static,
    Absolute,
    Fixed,
    /// Any other value (`relative`, `sticky`, or none known).
    Other,
}

/// The position named by a computed `position` value.
pub fn css_position(value: &str) -> (r: CssPosition)
    ensures
        r == (if value@ == "static"@ {
            CssPosition::Static
        } else if value@ == "absolute"@ {
            CssPosition::Absolute
        } else if value@ == "fixed"@ {
            CssPosition::Fixed
        } else {
            CssPosition::Other
        }),
{
    if str_equal(value, "static") {
        CssPosition::Static
    } else if str_equal(value, "absolute") {
        CssPosition::Absolute
    } else if str_equal(value, "fixed") {
        CssPosition::Fixed
    } else {
        CssPosition::Other
    }
}

/// A node on the walk from the element towards the root.
#[derive(Copy, Clone, Debug, PartialEq, Eq, Structural)]
pub struct ChainNode {
    /// The node, named as in the list of overflow ancestors.
    pub node: u64,
    /// Whether the node is a containing block.
    pub is_containing_block: bool,
    /// The node's computed `position`.
    pub position: CssPosition,
}

/// Whether a node is dropped, given the position carried by the chain below it.
pub open spec fn drops_node(n: ChainNode, last: CssPosition) -> bool {
    !n.is_containing_block && (last == CssPosition::Fixed || (last == CssPosition::Absolute
        && n.position == CssPosition::Static))
}

/// After walking the first `i` nodes of `chain`, starting with position `start`: the
/// nodes dropped so far, and the position carried by the chain (that of the last
/// kept node).
pub open spec fn walk(chain: Seq<ChainNode>, i: int, start: CssPosition) -> (Set<u64>, CssPosition)
    decreases i,
{
    if i <= 0 {
        (Set::empty(), start)
    } else {
        let (dropped, last) = walk(chain, i - 1, start);
        let n = chain[i - 1];
        if drops_node(n, last) {
            (dropped.insert(n.node), last)
        } else {
            (dropped, n.position)
        }
    }
}

/// The position the walk starts with: `fixed` for a fixed element, none otherwise.
pub open spec fn start_position(element_is_fixed: bool) -> CssPosition {
    if element_is_fixed {
        CssPosition::Fixed
    } else {
        CssPosition::Other
    }
}

/// The ancestors that are not dropped on the walk.
pub open spec fn not_dropped(dropped: Set<u64>) -> spec_fn(u64) -> bool {
    |a: u64| !dropped.contains(a)
}

/// The overflow ancestors that clip the element.
pub open spec fn clipping_ancestors(
    ancestors: Seq<u64>,
    element_is_fixed: bool,
    chain: Seq<ChainNode>,
) -> Seq<u64> {
    ancestors.filter(not_dropped(walk(chain, chain.len() as int, start_position(element_is_fixed)).0))
}

proof fn lemma_filter_and(s: Seq<u64>, p: spec_fn(u64) -> bool, q: spec_fn(u64) -> bool, pq: spec_fn(u64) -> bool)
    requires
        forall|a: u64| #[trigger] pq(a) == (p(a) && q(a)),
    ensures
        s.filter(p).filter(q) == s.filter(pq),
    decreases s.len(),
{
    reveal(Seq::filter);
    if s.len() > 0 {
        lemma_filter_and(s.drop_last(), p, q, pq);
        let sp = s.drop_last().filter(p);
        if p(s.last()) {
            assert(s.filter(p) == sp.push(s.last()));
            assert(s.filter(p).drop_last() =~= sp);
            assert(s.filter(p).last() == s.last());
        } else {
            assert(s.filter(p) == sp);
        }
    } else {
        assert(s.filter(p) =~= s);
        assert(s.filter(p).filter(q) =~= s);
    }
}

/// Elements other than `node`.
pub open spec fn other_than(node: u64) -> spec_fn(u64) -> bool {
    |a: u64| a != node
}

proof fn lemma_take_filter_step<A>(s: Seq<A>, pred: spec_fn(A) -> bool, i: int)
    requires
        0 <= i < s.len(),
    ensures
        s.take(i + 1).filter(pred) == (if pred(s[i]) {
            s.take(i).filter(pred).push(s[i])
        } else {
            s.take(i).filter(pred)
        }),
{
    reveal(Seq::filter);
    assert(s.take(i + 1).drop_last() =~= s.take(i));
    assert(s.take(i + 1).last() == s[i]);
}

/// Removes every occurrence of `node` from `list`.
fn remove_node(list: Vec<u64>, node: u64) -> (r: Vec<u64>)
    ensures
        r@ == list@.filter(other_than(node)),
{
    let ghost pred = other_than(node);
    let n = list.len();
    let mut r: Vec<u64> = Vec::new();
    let mut i: usize = 0;
    while i < n
        invariant
            n == list@.len(),
            i <= n,
            pred == other_than(node),
            r@ == list@.take(i as int).filter(pred),
        decreases n - i,
    {
        proof {
            lemma_take_filter_step(list@, pred, i as int);
        }
        if list[i] != node {
            r.push(list[i]);
        }
        i = i + 1;
    }
    assert(list@.take(n as int) =~= list@);
    r
}

/// Filters the overflow `ancestors` of an element down to those that clip it, walking
/// `chain` from the element (or its parent, for a `fixed` element) to the root.
pub fn filter_clipping_ancestors(
    ancestors: Vec<u64>,
    element_is_fixed: bool,
    chain: &Vec<ChainNode>,
) -> (r: Vec<u64>)
    ensures
        r@ == clipping_ancestors(ancestors@, element_is_fixed, chain@),
{
    let ghost start = start_position(element_is_fixed);
    let mut result = ancestors;
    let ghost given = result@;
    let mut last = if element_is_fixed {
        CssPosition::Fixed
    } else {
        CssPosition::Other
    };
    let n = chain.len();
    let mut i: usize = 0;
    proof {
        reveal(Seq::filter);
        assert(given.filter(not_dropped(Set::empty())) =~= given) by {
            lemma_filter_all(given, not_dropped(Set::empty()));
        }
    }
    while i < n
        invariant
            n == chain@.len(),
            i <= n,
            last == walk(chain@, i as int, start).1,
            result@ == given.filter(not_dropped(walk(chain@, i as int, start).0)),
        decreases n - i,
    {
        let node = chain[i];
        let drop = !node.is_containing_block && (last == CssPosition::Fixed || (last
            == CssPosition::Absolute && node.position == CssPosition::Static));
        let ghost dropped = walk(chain@, i as int, start).0;
        if drop {
            result = remove_node(result, node.node);
            proof {
                lemma_filter_and(
                    given,
                    not_dropped(dropped),
                    other_than(node.node),
                    not_dropped(dropped.insert(node.node)),
                );
            }
        } else {
            last = node.position;
        }
        i = i + 1;
    }
    result
}

proof fn lemma_filter_all(s: Seq<u64>, p: spec_fn(u64) -> bool)
    requires
        forall|a: u64| #[trigger] p(a),
    ensures
        s.filter(p) == s,
    decreases s.len(),
{
    reveal(Seq::filter);
    if s.len() > 0 {
        lemma_filter_all(s.drop_last(), p);
        assert(s.drop_last().push(s.last()) =~= s);
    }
}

/// Only nodes on the walk that are not containing blocks are ever dropped.
pub proof fn lemma_walk_drops_only_non_containing(
    chain: Seq<ChainNode>,
    i: int,
    start: CssPosition,
    x: u64,
)
    requires
        0 <= i <= chain.len(),
        walk(chain, i, start).0.contains(x),
    ensures
        exists|j: int| 0 <= j < i && (#[trigger] chain[j]).node == x && !chain[j].is_containing_block,
    decreases i,
{
    let (dropped, last) = walk(chain, i - 1, start);
    let n = chain[i - 1];
    if drops_node(n, last) && n.node == x {
        assert(chain[i - 1].node == x);
    } else {
        lemma_walk_drops_only_non_containing(chain, i - 1, start, x);
        let j = choose|j: int| 0 <= j < i - 1 && (#[trigger] chain[j]).node == x && !chain[j].is_containing_block;
        assert(chain[j].node == x);
    }
}

/// The clipping ancestors are overflow ancestors, in their order; an ancestor that is
/// not on the walk, or that only appears on it as a containing block, always clips.
pub proof fn lemma_clipping_ancestors_kept(
    ancestors: Seq<u64>,
    element_is_fixed: bool,
    chain: Seq<ChainNode>,
    k: int,
)
    requires
        0 <= k < ancestors.len(),
        forall|j: int| 0 <= j < chain.len() && (#[trigger] chain[j]).node == ancestors[k]
            ==> chain[j].is_containing_block,
    ensures
        clipping_ancestors(ancestors, element_is_fixed, chain).contains(ancestors[k]),
        forall|a: u64| clipping_ancestors(ancestors, element_is_fixed, chain).contains(a)
            ==> ancestors.contains(a),
{
    broadcast use Seq::lemma_filter_contains, Seq::lemma_filter_contains_rev;
    let start = start_position(element_is_fixed);
    let dropped = walk(chain, chain.len() as int, start).0;
    if dropped.contains(ancestors[k]) {
        lemma_walk_drops_only_non_containing(chain, chain.len() as int, start, ancestors[k]);
    }
    assert(not_dropped(dropped)(ancestors[k]));
}

/// Without a `fixed` element and without `fixed` or `absolute` nodes on the walk,
/// every overflow ancestor clips.
pub proof fn lemma_static_chain_keeps_all(ancestors: Seq<u64>, chain: Seq<ChainNode>)
    requires
        forall|j: int| 0 <= j < chain.len() ==> (#[trigger] chain[j]).position != CssPosition::Fixed
            && chain[j].position != CssPosition::Absolute,
    ensures
        clipping_ancestors(ancestors, false, chain) == ancestors,
{
    lemma_static_walk(chain, chain.len() as int);
    lemma_filter_all(ancestors, not_dropped(walk(chain, chain.len() as int, CssPosition::Other).0));
}

proof fn lemma_static_walk(chain: Seq<ChainNode>, i: int)
    requires
        0 <= i <= chain.len(),
        forall|j: int| 0 <= j < chain.len() ==> (#[trigger] chain[j]).position != CssPosition::Fixed
            && chain[j].position != CssPosition::Absolute,
    ensures
        walk(chain, i, CssPosition::Other).0 == Set::<u64>::empty(),
        walk(chain, i, CssPosition::Other).1 != CssPosition::Fixed,
        walk(chain, i, CssPosition::Other).1 != CssPosition::Absolute,
    decreases i,
{
    if i > 0 {
        lemma_static_walk(chain, i - 1);
        assert(chain[i - 1].position != CssPosition::Fixed);
    }
}

} // verus!
