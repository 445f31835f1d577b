//! Which viewport measurements make up the viewport rect.
use vstd::prelude::*;

use crate::placement::Strategy;

verus! {

/// Which viewport a viewport rect is taken from.
#[derive(Copy, Clone, Debug, PartialEq, Eq, Structural)]
pub enum ViewportRootBoundary {
    /// The visual viewport.
    Viewport,
    /// The layout viewport.
    LayoutViewport,
}

/// The origin of the viewport rect.
#[derive(Copy, Clone, Debug, PartialEq, Eq, Structural)]
pub enum ViewportOrigin {
    /// `(0, 0)`.
    Zero,
    /// The offset of the visual viewport.
    VisualOffset,
    /// The negated offset of the visual viewport.
    NegatedVisualOffset,
}

/// The measurements the viewport rect is made of.
#[derive(Copy, Clone, Debug, PartialEq, Eq, Structural)]
pub struct ViewportSource {
    /// Take width and height from the visual viewport (else from `<html>`).
    pub visual_size: bool,
    /// Where the rect starts.
    pub origin: ViewportOrigin,
}

/// The measurements for `root_boundary`. Client coordinates are relative to the
/// layout viewport, except in WebKit with the `Absolute` strategy, where they are
/// relative to the visual viewport.
pub open spec fn viewport_source(
    root_boundary: ViewportRootBoundary,
    strategy: Strategy,
    is_web_kit: bool,
    has_visual_viewport: bool,
) -> ViewportSource {
    let layout_relative = !is_web_kit || strategy == Strategy::Fixed;
    if !has_visual_viewport {
        ViewportSource { visual_size: false, origin: ViewportOrigin::Zero }
    } else if root_boundary == ViewportRootBoundary::LayoutViewport {
        ViewportSource {
            visual_size: false,
            origin: if layout_relative {
                ViewportOrigin::Zero
            } else {
                ViewportOrigin::NegatedVisualOffset
            },
        }
    } else {
        ViewportSource {
            visual_size: true,
            origin: if layout_relative {
                ViewportOrigin::VisualOffset
            } else {
                ViewportOrigin::Zero
            },
        }
    }
}

/// Chooses the measurements that make up the viewport rect.
pub fn get_viewport_source(
    root_boundary: ViewportRootBoundary,
    strategy: Strategy,
    is_web_kit: bool,
    has_visual_viewport: bool,
) -> (r: ViewportSource)
    ensures
        r == viewport_source(root_boundary, strategy, is_web_kit, has_visual_viewport),
{
    let layout_relative = !is_web_kit || strategy == Strategy::Fixed;
    if !has_visual_viewport {
        return ViewportSource { visual_size: false, origin: ViewportOrigin::Zero };
    }
    match root_boundary {
        ViewportRootBoundary::LayoutViewport => ViewportSource {
            visual_size: false,
            origin: if layout_relative {
                ViewportOrigin::Zero
            } else {
                ViewportOrigin::NegatedVisualOffset
            },
        },
        ViewportRootBoundary::Viewport => ViewportSource {
            visual_size: true,
            origin: if layout_relative {
                ViewportOrigin::VisualOffset
            } else {
                ViewportOrigin::Zero
            },
        },
    }
}

/// The offset of an origin from `(0, 0)`, in units of the visual viewport's offset.
pub open spec fn origin_offset(origin: ViewportOrigin) -> int {
    match origin {
        ViewportOrigin::Zero => 0,
        ViewportOrigin::VisualOffset => 1,
        ViewportOrigin::NegatedVisualOffset => -1,
    }
}

/// With a visual viewport, the visual viewport starts exactly the visual viewport's
/// offset after the layout viewport, whatever the browser and strategy, and only the
/// visual viewport takes its size from the visual viewport; the viewport whose
/// coordinates the client rects use starts at `(0, 0)`. Without a visual viewport,
/// the rect starts at `(0, 0)` and takes its size from `<html>`.
pub proof fn lemma_viewport_origins(strategy: Strategy, is_web_kit: bool, has_visual_viewport: bool)
    ensures
        has_visual_viewport ==> origin_offset(
            viewport_source(ViewportRootBoundary::Viewport, strategy, is_web_kit, true).origin,
        ) - origin_offset(
            viewport_source(ViewportRootBoundary::LayoutViewport, strategy, is_web_kit, true).origin,
        ) == 1,
        viewport_source(ViewportRootBoundary::Viewport, strategy, is_web_kit, true).visual_size,
        !viewport_source(ViewportRootBoundary::LayoutViewport, strategy, is_web_kit, true).visual_size,
        (!is_web_kit || strategy == Strategy::Fixed) ==> viewport_source(
            ViewportRootBoundary::LayoutViewport,
            strategy,
            is_web_kit,
            true,
        ).origin == ViewportOrigin::Zero,
        (is_web_kit && strategy != Strategy::Fixed) ==> viewport_source(
            ViewportRootBoundary::Viewport,
            strategy,
            is_web_kit,
            true,
        ).origin == ViewportOrigin::Zero,
        forall|b: ViewportRootBoundary|
            #[trigger] viewport_source(b, strategy, is_web_kit, false) == (ViewportSource {
                visual_size: false,
                origin: ViewportOrigin::Zero,
            }),
{
}

} // verus!
