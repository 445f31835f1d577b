//! Which ancestor is an element's offset parent: the closest positioned ancestor,
//! skipping static table elements, with the window as the fallback.
//!
//! The caller reads the DOM and describes the candidates; the decision is made here.
use vstd::prelude::*;

verus! {

/// A parent node met while looking for the offset parent of a non-HTML (SVG) element.
#[derive(Copy, Clone, Debug, PartialEq, Eq, Structural)]
pub struct ParentNode {
    /// The node is the last node of the walk (`html`, `body` or the document).
    pub is_last_traversable: bool,
    /// The node is an element.
    pub is_element: bool,
    /// The element's computed `position` is `static`.
    pub is_static_positioned: bool,
}

/// An element returned by the browser as the offset parent of the previous one.
#[derive(Copy, Clone, Debug, PartialEq, Eq, Structural)]
pub struct OffsetParentNode {
    /// The element is a table element (`table`, `td`, `th`).
    pub is_table_element: bool,
    /// The element's computed `position` is `static`.
    pub is_static_positioned: bool,
    /// The element is the last node of the walk.
    pub is_last_traversable: bool,
    /// The element is a containing block.
    pub is_containing_block: bool,
}

/// The chosen offset parent.
#[derive(Copy, Clone, Debug, PartialEq, Eq, Structural)]
pub enum OffsetParent {
    /// The window.
    Window,
    /// The SVG ancestor at this index of the walk.
    Ancestor(usize),
    /// The browser's offset parent at this index of the chain.
    OffsetParent(usize),
    /// The element's containing block.
    ContainingBlock,
}

/// A parent that ends the SVG walk as the offset parent.
pub open spec fn positioned_parent(p: ParentNode) -> bool {
    !p.is_last_traversable && p.is_element && !p.is_static_positioned
}

/// Finds the first positioned element among the parents of an SVG element, stopping
/// at the last traversable node.
pub fn find_svg_offset_parent(parents: &Vec<ParentNode>) -> (r: Option<usize>)
    ensures
        match r {
            Some(i) => i < parents@.len() && positioned_parent(parents@[i as int]) && forall|j: int|
                0 <= j < i ==> !(#[trigger] parents@[j]).is_last_traversable && !positioned_parent(
                    parents@[j],
                ),
            None => forall|i: int|
                0 <= i < parents@.len() && positioned_parent(#[trigger] parents@[i]) ==> exists|j: int|
                    0 <= j < i && (#[trigger] parents@[j]).is_last_traversable,
        },
{
    let n = parents.len();
    let mut i: usize = 0;
    while i < n
        invariant
            n == parents@.len(),
            i <= n,
            forall|j: int|
                0 <= j < i ==> !(#[trigger] parents@[j]).is_last_traversable && !positioned_parent(
                    parents@[j],
                ),
        decreases n - i,
    {
        let p = parents[i];
        if p.is_last_traversable {
            proof {
                assert forall|k: int|
                    0 <= k < parents@.len() && positioned_parent(#[trigger] parents@[k]) implies exists|j: int|
                    0 <= j < k && (#[trigger] parents@[j]).is_last_traversable by {
                    assert(k > i);
                    assert(parents@[i as int].is_last_traversable);
                }
            }
            return None;
        }
        if p.is_element && !p.is_static_positioned {
            return Some(i);
        }
        i = i + 1;
    }
    None
}

/// A static table element, which is skipped in the chain of offset parents.
pub open spec fn static_table(p: OffsetParentNode) -> bool {
    p.is_table_element && p.is_static_positioned
}

/// The index of the first element of `chain` that is not a static table element.
pub open spec fn first_non_static_table(chain: Seq<OffsetParentNode>) -> Option<int> {
    if exists|i: int| 0 <= i < chain.len() && !static_table(#[trigger] chain[i]) {
        Some(
            choose|i: int|
                0 <= i < chain.len() && !static_table(chain[i]) && forall|j: int|
                    0 <= j < i ==> static_table(#[trigger] chain[j]),
        )
    } else {
        None
    }
}

proof fn lemma_first_non_static_table(chain: Seq<OffsetParentNode>, i: int)
    requires
        0 <= i < chain.len(),
        !static_table(chain[i]),
        forall|j: int| 0 <= j < i ==> static_table(#[trigger] chain[j]),
    ensures
        first_non_static_table(chain) == Some(i),
{
    assert(!static_table(chain[i]));
    let k = choose|k: int|
        0 <= k < chain.len() && !static_table(chain[k]) && forall|j: int|
            0 <= j < k ==> static_table(#[trigger] chain[j]);
    assert(0 <= i < chain.len() && !static_table(chain[i]) && forall|j: int|
        0 <= j < i ==> static_table(#[trigger] chain[j]));
    if k < i {
        assert(static_table(chain[k]));
    } else if k > i {
        assert(static_table(chain[i]));
    }
}

/// Skips static table elements in the chain of browser offset parents: the index of
/// the first element that is not a static table element.
pub fn skip_static_tables(chain: &Vec<OffsetParentNode>) -> (r: Option<usize>)
    ensures
        match r {
            Some(i) => i < chain@.len() && first_non_static_table(chain@) == Some(i as int),
            None => first_non_static_table(chain@) is None,
        },
{
    let n = chain.len();
    let mut i: usize = 0;
    while i < n
        invariant
            n == chain@.len(),
            i <= n,
            forall|j: int| 0 <= j < i ==> static_table(#[trigger] chain@[j]),
        decreases n - i,
    {
        let p = chain[i];
        if !(p.is_table_element && p.is_static_positioned) {
            proof {
                lemma_first_non_static_table(chain@, i as int);
            }
            return Some(i);
        }
        i = i + 1;
    }
    None
}

/// The offset parent of an HTML element, from the chain of browser offset parents
/// (each the offset parent of the previous one; empty when there is none, and ending
/// where there is none) and whether the element has a containing block: the first
/// non-static-table element of the chain, unless it is a static last traversable node
/// that is no containing block; else the containing block; else the window.
pub open spec fn html_offset_parent(chain: Seq<OffsetParentNode>, has_containing_block: bool, first: Option<int>) -> OffsetParent {
    match first {
        Some(i) => {
            let p = chain[i];
            if p.is_last_traversable && p.is_static_positioned && !p.is_containing_block {
                OffsetParent::Window
            } else {
                OffsetParent::OffsetParent(i as usize)
            }
        },
        None => if has_containing_block {
            OffsetParent::ContainingBlock
        } else {
            OffsetParent::Window
        },
    }
}

/// Chooses the offset parent of an element. A top-layer element is positioned
/// against the window; an SVG element against its closest positioned ancestor.
pub fn choose_offset_parent(
    is_top_layer: bool,
    is_html_element: bool,
    svg_parents: &Vec<ParentNode>,
    offset_parents: &Vec<OffsetParentNode>,
    has_containing_block: bool,
) -> (r: OffsetParent)
    ensures
        is_top_layer ==> r == OffsetParent::Window,
        !is_top_layer && !is_html_element ==> match r {
            OffsetParent::Ancestor(i) => i < svg_parents@.len() && positioned_parent(
                svg_parents@[i as int],
            ) && forall|j: int|
                0 <= j < i ==> !(#[trigger] svg_parents@[j]).is_last_traversable
                    && !positioned_parent(svg_parents@[j]),
            OffsetParent::Window => forall|i: int|
                0 <= i < svg_parents@.len() && positioned_parent(#[trigger] svg_parents@[i])
                    ==> exists|j: int| 0 <= j < i && (#[trigger] svg_parents@[j]).is_last_traversable,
            _ => false,
        },
        !is_top_layer && is_html_element ==> r == html_offset_parent(
            offset_parents@,
            has_containing_block,
            first_non_static_table(offset_parents@),
        ),
{
    if is_top_layer {
        return OffsetParent::Window;
    }
    if !is_html_element {
        return match find_svg_offset_parent(svg_parents) {
            Some(i) => OffsetParent::Ancestor(i),
            None => OffsetParent::Window,
        };
    }
    let first = skip_static_tables(offset_parents);
    let r = match first {
        Some(i) => {
            let p = offset_parents[i];
            if p.is_last_traversable && p.is_static_positioned && !p.is_containing_block {
                OffsetParent::Window
            } else {
                OffsetParent::OffsetParent(i)
            }
        },
        None => if has_containing_block {
            OffsetParent::ContainingBlock
        } else {
            OffsetParent::Window
        },
    };
    r
}

proof fn lemma_first_non_static_table_exists(chain: Seq<OffsetParentNode>, k: int)
    requires
        0 <= k < chain.len(),
        !static_table(chain[k]),
    ensures
        ({
            let f = first_non_static_table(chain);
            &&& f is Some
            &&& 0 <= f->0 < chain.len()
            &&& !static_table(chain[f->0])
            &&& forall|j: int| 0 <= j < f->0 ==> static_table(#[trigger] chain[j])
        }),
    decreases k,
{
    if forall|j: int| 0 <= j < k ==> static_table(#[trigger] chain[j]) {
        lemma_first_non_static_table(chain, k);
    } else {
        let j = choose|j: int| 0 <= j < k && !static_table(#[trigger] chain[j]);
        lemma_first_non_static_table_exists(chain, j);
    }
}

/// The offset parent of an HTML element is the first element of the chain that is
/// not a static table element, passing over the static tables before it, unless that
/// element is a static last traversable node that is no containing block, in which
/// case it is the window; when every element of the chain is a static table, it is
/// the containing block if there is one, and the window otherwise.
pub proof fn lemma_html_offset_parent(chain: Seq<OffsetParentNode>, has_containing_block: bool)
    requires
        chain.len() <= usize::MAX,
    ensures
        match html_offset_parent(chain, has_containing_block, first_non_static_table(chain)) {
            OffsetParent::OffsetParent(i) => {
                &&& i < chain.len()
                &&& !static_table(chain[i as int])
                &&& forall|j: int| 0 <= j < i ==> static_table(#[trigger] chain[j])
                &&& !(chain[i as int].is_last_traversable && chain[i as int].is_static_positioned
                    && !chain[i as int].is_containing_block)
            },
            OffsetParent::ContainingBlock => has_containing_block && forall|j: int|
                0 <= j < chain.len() ==> static_table(#[trigger] chain[j]),
            OffsetParent::Window => (!has_containing_block && forall|j: int|
                0 <= j < chain.len() ==> static_table(#[trigger] chain[j])) || exists|i: int|
                0 <= i < chain.len() && !static_table(#[trigger] chain[i])
                    && chain[i].is_last_traversable && chain[i].is_static_positioned
                    && !chain[i].is_containing_block && forall|j: int|
                    0 <= j < i ==> static_table(#[trigger] chain[j]),
            OffsetParent::Ancestor(_) => false,
        },
{
    if exists|k: int| 0 <= k < chain.len() && !static_table(#[trigger] chain[k]) {
        let k = choose|k: int| 0 <= k < chain.len() && !static_table(#[trigger] chain[k]);
        lemma_first_non_static_table_exists(chain, k);
        let f = first_non_static_table(chain)->0;
        assert(!static_table(chain[f]));
    } else {
        assert forall|j: int| 0 <= j < chain.len() implies static_table(#[trigger] chain[j]) by {
            if !static_table(chain[j]) {
                assert(exists|k: int| 0 <= k < chain.len() && !static_table(#[trigger] chain[k]));
            }
        }
        assert(first_non_static_table(chain) is None);
    }
}

} // verus!
