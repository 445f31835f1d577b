//! Which element and boundary `detect_overflow` measures.
use vstd::prelude::*;

verus! {

/// The element in which overflow is checked.
#[derive(Copy, Clone, Debug, PartialEq, Eq, Structural)]
pub enum ElementContext {
    Reference,
    Floating,
}

impl ElementContext {
    /// The other element.
    pub fn alternate(self) -> (r: ElementContext)
        ensures
            r != self,
    {
        match self {
            ElementContext::Reference => ElementContext::Floating,
            ElementContext::Floating => ElementContext::Reference,
        }
    }
}

/// The clipping element(s) in which overflow is checked.
#[derive(Clone, Debug, PartialEq)]
pub enum Boundary<Element> {
    ClippingAncestors,
    Element(Element),
    Elements(Vec<Element>),
}

/// The element whose rect is measured, and the element whose clipping boundary is
/// used, for the given `element_context` (default `Floating`) and `alt_boundary`
/// (default `false`: the boundary of the measured element itself).
pub open spec fn overflow_contexts(element_context: Option<ElementContext>, alt_boundary: Option<bool>) -> (ElementContext, ElementContext) {
    let context = match element_context {
        Some(c) => c,
        None => ElementContext::Floating,
    };
    let alt = match context {
        ElementContext::Reference => ElementContext::Floating,
        ElementContext::Floating => ElementContext::Reference,
    };
    (context, if alt_boundary == Some(true) {
        alt
    } else {
        context
    })
}

/// Resolves the measured element and the element whose boundary is used.
pub fn get_overflow_contexts(element_context: Option<ElementContext>, alt_boundary: Option<bool>) -> (r: (ElementContext, ElementContext))
    ensures
        r == overflow_contexts(element_context, alt_boundary),
        (alt_boundary == Some(true)) <==> r.0 != r.1,
{
    let context = match element_context {
        Some(c) => c,
        None => ElementContext::Floating,
    };
    let boundary_context = match alt_boundary {
        Some(true) => context.alternate(),
        _ => context,
    };
    (context, boundary_context)
}

/// By default the floating element is measured against its own clipping boundary;
/// the measured element is the one asked for, and the boundary belongs to the other
/// element exactly when `alt_boundary` is set.
pub proof fn lemma_overflow_contexts(
    element_context: Option<ElementContext>,
    alt_boundary: Option<bool>,
)
    ensures
        overflow_contexts(None, None) == (ElementContext::Floating, ElementContext::Floating),
        element_context == Some(ElementContext::Reference) ==> overflow_contexts(
            element_context,
            alt_boundary,
        ).0 == ElementContext::Reference,
        element_context != Some(ElementContext::Reference) ==> overflow_contexts(
            element_context,
            alt_boundary,
        ).0 == ElementContext::Floating,
        (overflow_contexts(element_context, alt_boundary).1 == overflow_contexts(
            element_context,
            alt_boundary,
        ).0) <==> alt_boundary != Some(true),
{
}

} // verus!
