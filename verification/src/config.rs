//! Options for `compute_position`.
use vstd::prelude::*;

use crate::placement::{Placement, Strategy};

verus! {

/// Options for `compute_position`; `P` is the type of the platform interface, `M`
/// the type of the middleware list.
#[derive(Clone)]
pub struct ComputePositionConfig<P, M> {
    /// Object to interface with the current platform.
    pub platform: P,
    /// Where to place the floating element relative to the reference element.
    ///
    /// Defaults to [`Placement::Bottom`].
    pub placement: Option<Placement>,
    /// The strategy to use when positioning the floating element.
    ///
    /// Defaults to [`Strategy::Absolute`].
    pub strategy: Option<Strategy>,
    /// Middleware to modify the positioning or provide data for rendering.
    ///
    /// Defaults to no middleware.
    pub middleware: Option<M>,
}

impl<P, M> ComputePositionConfig<P, M> {
    pub fn new(platform: P) -> (r: Self)
        ensures
            r.platform == platform,
            r.placement is None,
            r.strategy is None,
            r.middleware is None,
    {
        ComputePositionConfig { platform, placement: None, strategy: None, middleware: None }
    }

    /// Set `platform` option.
    pub fn platform(self, value: P) -> (r: Self)
        ensures
            r == (ComputePositionConfig { platform: value, ..self }),
    {
        ComputePositionConfig { platform: value, ..self }
    }

    /// Set `placement` option.
    pub fn placement(self, value: Placement) -> (r: Self)
        ensures
            r == (ComputePositionConfig { placement: Some(value), ..self }),
    {
        ComputePositionConfig { placement: Some(value), ..self }
    }

    /// Set `strategy` option.
    pub fn strategy(self, value: Strategy) -> (r: Self)
        ensures
            r == (ComputePositionConfig { strategy: Some(value), ..self }),
    {
        ComputePositionConfig { strategy: Some(value), ..self }
    }

    /// Set `middleware` option.
    pub fn middleware(self, value: M) -> (r: Self)
        ensures
            r == (ComputePositionConfig { middleware: Some(value), ..self }),
    {
        ComputePositionConfig { middleware: Some(value), ..self }
    }
}

} // verus!
