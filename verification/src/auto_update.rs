//! Options of `auto_update` and the updates they switch on.
use vstd::prelude::*;

verus! {

/// Options for `auto_update`.
#[derive(Clone, Copy, Debug, PartialEq, Eq, Structural)]
pub struct AutoUpdateOptions {
    /// Whether to update the position when an overflow ancestor is scrolled.
    ///
    /// Defaults to `true`.
    pub ancestor_scroll: Option<bool>,
    /// Whether to update the position when an overflow ancestor is resized.
    ///
    /// Defaults to `true`.
    pub ancestor_resize: Option<bool>,
    /// Whether to update the position when the reference or floating element is resized.
    ///
    /// Defaults to `true`.
    pub element_resize: Option<bool>,
    /// Whether to update the position when the reference moved due to a layout shift.
    ///
    /// Defaults to `true`.
    pub layout_shift: Option<bool>,
    /// Whether to update on every animation frame if necessary.
    ///
    /// Defaults to `false`.
    pub animation_frame: Option<bool>,
}

impl Default for AutoUpdateOptions {
    fn default() -> (r: Self)
        ensures
            r.ancestor_scroll is None,
            r.ancestor_resize is None,
            r.element_resize is None,
            r.layout_shift is None,
            r.animation_frame is None,
    {
        AutoUpdateOptions {
            ancestor_scroll: None,
            ancestor_resize: None,
            element_resize: None,
            layout_shift: None,
            animation_frame: None,
        }
    }
}

impl AutoUpdateOptions {
    /// Set `ancestor_scroll` option.
    pub fn ancestor_scroll(self, value: bool) -> (r: Self)
        ensures
            r == (AutoUpdateOptions { ancestor_scroll: Some(value), ..self }),
    {
        AutoUpdateOptions { ancestor_scroll: Some(value), ..self }
    }

    /// Set `ancestor_resize` option.
    pub fn ancestor_resize(self, value: bool) -> (r: Self)
        ensures
            r == (AutoUpdateOptions { ancestor_resize: Some(value), ..self }),
    {
        AutoUpdateOptions { ancestor_resize: Some(value), ..self }
    }

    /// Set `element_resize` option.
    pub fn element_resize(self, value: bool) -> (r: Self)
        ensures
            r == (AutoUpdateOptions { element_resize: Some(value), ..self }),
    {
        AutoUpdateOptions { element_resize: Some(value), ..self }
    }

    /// Set `layout_shift` option.
    pub fn layout_shift(self, value: bool) -> (r: Self)
        ensures
            r == (AutoUpdateOptions { layout_shift: Some(value), ..self }),
    {
        AutoUpdateOptions { layout_shift: Some(value), ..self }
    }

    /// Set `animation_frame` option.
    pub fn animation_frame(self, value: bool) -> (r: Self)
        ensures
            r == (AutoUpdateOptions { animation_frame: Some(value), ..self }),
    {
        AutoUpdateOptions { animation_frame: Some(value), ..self }
    }
}

/// The updates `auto_update` sets up.
#[derive(Clone, Copy, Debug, PartialEq, Eq, Structural)]
pub struct AutoUpdatePlan {
    /// Listen to `scroll` on the overflow ancestors.
    pub ancestor_scroll: bool,
    /// Listen to `resize` on the overflow ancestors.
    pub ancestor_resize: bool,
    /// Collect the overflow ancestors of the reference and floating elements.
    pub collect_ancestors: bool,
    /// Observe the reference element for layout shifts.
    pub observe_move: bool,
    /// Create a resize observer.
    pub element_resize: bool,
    /// Let the resize observer watch the reference element.
    pub observe_reference_resize: bool,
    /// Let the resize observer watch the floating element.
    pub observe_floating_resize: bool,
    /// Compare the reference rect on every animation frame.
    pub animation_frame: bool,
}

/// `value`, or `default` when it is unset.
pub open spec fn or_default(value: Option<bool>, default: bool) -> bool {
    match value {
        Some(v) => v,
        None => default,
    }
}

/// The updates switched on by `options`; `has_reference_element` tells whether the
/// reference resolves to a DOM element (a virtual element may not).
pub open spec fn auto_update_plan(options: AutoUpdateOptions, has_reference_element: bool) -> AutoUpdatePlan {
    let ancestor_scroll = or_default(options.ancestor_scroll, true);
    let ancestor_resize = or_default(options.ancestor_resize, true);
    let element_resize = or_default(options.element_resize, true);
    let layout_shift = or_default(options.layout_shift, true);
    let animation_frame = or_default(options.animation_frame, false);
    AutoUpdatePlan {
        ancestor_scroll,
        ancestor_resize,
        collect_ancestors: ancestor_scroll || ancestor_resize,
        observe_move: has_reference_element && layout_shift,
        element_resize,
        observe_reference_resize: element_resize && has_reference_element && !animation_frame,
        observe_floating_resize: element_resize,
        animation_frame,
    }
}

fn unwrap_or(value: Option<bool>, default: bool) -> (r: bool)
    ensures
        r == or_default(value, default),
{
    match value {
        Some(v) => v,
        None => default,
    }
}

/// Decides which updates `auto_update` sets up for `options`.
pub fn plan_auto_update(options: &AutoUpdateOptions, has_reference_element: bool) -> (r: AutoUpdatePlan)
    ensures
        r == auto_update_plan(*options, has_reference_element),
{
    let ancestor_scroll = unwrap_or(options.ancestor_scroll, true);
    let ancestor_resize = unwrap_or(options.ancestor_resize, true);
    let element_resize = unwrap_or(options.element_resize, true);
    let layout_shift = unwrap_or(options.layout_shift, true);
    let animation_frame = unwrap_or(options.animation_frame, false);
    AutoUpdatePlan {
        ancestor_scroll,
        ancestor_resize,
        collect_ancestors: ancestor_scroll || ancestor_resize,
        observe_move: has_reference_element && layout_shift,
        element_resize,
        observe_reference_resize: element_resize && has_reference_element && !animation_frame,
        observe_floating_resize: element_resize,
        animation_frame,
    }
}

/// With default options, every update but the animation frame loop is on.
pub proof fn lemma_default_plan(options: AutoUpdateOptions, has_reference_element: bool)
    requires
        options.ancestor_scroll is None,
        options.ancestor_resize is None,
        options.element_resize is None,
        options.layout_shift is None,
        options.animation_frame is None,
    ensures
        ({
            let p = auto_update_plan(options, has_reference_element);
            &&& p.ancestor_scroll && p.ancestor_resize && p.collect_ancestors
            &&& p.element_resize && p.observe_floating_resize
            &&& p.observe_move == has_reference_element
            &&& p.observe_reference_resize == has_reference_element
            &&& !p.animation_frame
        }),
{
}

/// Observers are only set up for what is switched on: ancestors are collected only
/// when scroll or resize listeners need them, and the reference is never watched by
/// the resize observer while the animation frame loop compares its rect.
pub proof fn lemma_plan_consistent(options: AutoUpdateOptions, has_reference_element: bool)
    ensures
        ({
            let p = auto_update_plan(options, has_reference_element);
            &&& p.collect_ancestors <==> (p.ancestor_scroll || p.ancestor_resize)
            &&& p.observe_reference_resize ==> p.element_resize && !p.animation_frame
                && has_reference_element
            &&& p.observe_move ==> has_reference_element
            &&& p.observe_floating_resize == p.element_resize
        }),
{
}

/// Setting an option through its builder is what the plan then follows.
pub proof fn lemma_builder_sets_option(options: AutoUpdateOptions, value: bool, has_reference_element: bool)
    ensures
        auto_update_plan(AutoUpdateOptions { ancestor_scroll: Some(value), ..options }, has_reference_element).ancestor_scroll == value,
        auto_update_plan(AutoUpdateOptions { ancestor_resize: Some(value), ..options }, has_reference_element).ancestor_resize == value,
        auto_update_plan(AutoUpdateOptions { element_resize: Some(value), ..options }, has_reference_element).element_resize == value,
        auto_update_plan(AutoUpdateOptions { layout_shift: Some(value), ..options }, has_reference_element).observe_move == (value && has_reference_element),
        auto_update_plan(AutoUpdateOptions { animation_frame: Some(value), ..options }, has_reference_element).animation_frame == value,
{
}

} // verus!
