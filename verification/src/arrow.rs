//! Options of the `arrow` middleware.
use vstd::prelude::*;

verus! {

/// Name under which the `arrow` middleware stores its data.
pub const ARROW_NAME: &'static str = "arrow";

/// Options for the `arrow` middleware; `P` is the type of the padding.
#[derive(Clone, Debug, PartialEq)]
pub struct ArrowOptions<Element, P> {
    /// The arrow element to be positioned.
    pub element: Element,
    /// The padding between the arrow element and the floating element edges.
    ///
    /// Defaults to `0` on all sides.
    pub padding: Option<P>,
}

impl<Element, P> ArrowOptions<Element, P> {
    pub fn new(element: Element) -> (r: Self)
        ensures
            r.element == element,
            r.padding is None,
    {
        ArrowOptions { element, padding: None }
    }

    /// Set `element` option.
    pub fn element(self, value: Element) -> (r: Self)
        ensures
            r == (ArrowOptions { element: value, ..self }),
    {
        ArrowOptions { element: value, ..self }
    }

    /// Set `padding` option.
    pub fn padding(self, value: P) -> (r: Self)
        ensures
            r == (ArrowOptions { padding: Some(value), ..self }),
    {
        ArrowOptions { padding: Some(value), ..self }
    }
}

} // verus!
