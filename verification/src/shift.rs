//! Decisions of the `shift` middleware and its limiters.
use vstd::prelude::*;

use crate::placement::{
    get_opposite_axis, get_side_axis, opposite_axis, side_axis, Axis, Placement, Side,
};

verus! {

/// Name under which the `shift` middleware stores its data.
pub const SHIFT_NAME: &'static str = "shift";

/// Axes on which `shift` was enabled.
#[derive(Clone, Copy, Debug, PartialEq, Eq, Structural)]
pub struct ShiftDataEnabled {
    pub x: bool,
    pub y: bool,
}

impl Default for ShiftDataEnabled {
    fn default() -> (r: Self)
        ensures
            !r.x && !r.y,
    {
        ShiftDataEnabled { x: false, y: false }
    }
}

impl ShiftDataEnabled {
    /// Sets whether shifting is enabled on `axis`.
    pub fn set_axis(self, axis: Axis, enabled: bool) -> (r: Self)
        ensures
            r == (match axis {
                Axis::X => ShiftDataEnabled { x: enabled, ..self },
                Axis::Y => ShiftDataEnabled { y: enabled, ..self },
            }),
    {
        match axis {
            Axis::X => ShiftDataEnabled { x: enabled, ..self },
            Axis::Y => ShiftDataEnabled { y: enabled, ..self },
        }
    }
}

/// The `shift` main axis: the alignment axis of the placement.
pub open spec fn shift_main_axis(placement: Placement) -> Axis {
    opposite_axis(side_axis(placement@.0))
}

/// Which axes `shift` reports as enabled: the main axis when `check_main_axis`, the
/// cross axis (the side axis) when `check_cross_axis`.
pub fn shift_enabled(placement: Placement, check_main_axis: bool, check_cross_axis: bool) -> (r:
    ShiftDataEnabled)
    ensures
        (match shift_main_axis(placement) {
            Axis::X => r.x == check_main_axis && r.y == check_cross_axis,
            Axis::Y => r.y == check_main_axis && r.x == check_cross_axis,
        }),
{
    let cross_axis = get_side_axis(placement);
    let main_axis = get_opposite_axis(cross_axis);
    ShiftDataEnabled::default().set_axis(main_axis, check_main_axis).set_axis(
        cross_axis,
        check_cross_axis,
    )
}

/// The sides bounding `axis`: the lower one (`Left`/`Top`) and the upper one
/// (`Right`/`Bottom`).
pub fn get_axis_sides(axis: Axis) -> (r: (Side, Side))
    ensures
        r == (match axis {
            Axis::X => (Side::Left, Side::Right),
            Axis::Y => (Side::Top, Side::Bottom),
        }),
        side_axis(r.0) == axis && side_axis(r.1) == axis,
{
    match axis {
        Axis::X => (Side::Left, Side::Right),
        Axis::Y => (Side::Top, Side::Bottom),
    }
}

/// Whether the placement is on a side where coordinates grow away from the
/// reference (`Top` or `Left`), as `limitShift` distinguishes.
pub fn is_origin_side(placement: Placement) -> (r: bool)
    ensures
        r == (placement@.0 == Side::Top || placement@.0 == Side::Left),
{
    match placement.side() {
        Side::Top | Side::Left => true,
        Side::Bottom | Side::Right => false,
    }
}

/// The default limiter, which does not limit shifting.
#[derive(Clone, Copy, Debug, PartialEq, Eq, Structural)]
pub struct DefaultLimiter;

impl Default for DefaultLimiter {
    fn default() -> (r: Self) {
        DefaultLimiter
    }
}

/// Options for the `shift` middleware; `O` is the type of the options passed on to
/// overflow detection, `L` the type of the limiter.
#[derive(Clone, PartialEq)]
pub struct ShiftOptions<O, L> {
    /// Options for overflow detection.
    pub detect_overflow: Option<O>,
    /// Whether overflow along the alignment axis is checked to perform shifting.
    ///
    /// Defaults to `true`.
    pub main_axis: Option<bool>,
    /// Whether overflow along the side axis is checked to perform shifting.
    ///
    /// Defaults to `false`.
    pub cross_axis: Option<bool>,
    /// Limits the shifting done in order to prevent detachment.
    ///
    /// Defaults to [`DefaultLimiter`].
    pub limiter: Option<L>,
}

impl<O, L> Default for ShiftOptions<O, L> {
    fn default() -> (r: Self)
        ensures
            r.detect_overflow is None,
            r.main_axis is None,
            r.cross_axis is None,
            r.limiter is None,
    {
        ShiftOptions { detect_overflow: None, main_axis: None, cross_axis: None, limiter: None }
    }
}

impl<O, L> ShiftOptions<O, L> {
    /// Set `detect_overflow` option.
    pub fn detect_overflow(self, value: O) -> (r: Self)
        ensures
            r == (ShiftOptions { detect_overflow: Some(value), ..self }),
    {
        ShiftOptions { detect_overflow: Some(value), ..self }
    }

    /// Set `main_axis` option.
    pub fn main_axis(self, value: bool) -> (r: Self)
        ensures
            r == (ShiftOptions { main_axis: Some(value), ..self }),
    {
        ShiftOptions { main_axis: Some(value), ..self }
    }

    /// Set `cross_axis` option.
    pub fn cross_axis(self, value: bool) -> (r: Self)
        ensures
            r == (ShiftOptions { cross_axis: Some(value), ..self }),
    {
        ShiftOptions { cross_axis: Some(value), ..self }
    }

    /// Set `limiter` option.
    pub fn limiter(self, value: L) -> (r: Self)
        ensures
            r == (ShiftOptions { limiter: Some(value), ..self }),
    {
        ShiftOptions { limiter: Some(value), ..self }
    }
}

/// Which axes `shift` checks: the main axis by default, the cross axis only when
/// asked for.
pub fn shift_checks<O, L>(options: &ShiftOptions<O, L>) -> (r: (bool, bool))
    ensures
        r.0 == (match options.main_axis {
            Some(b) => b,
            None => true,
        }),
        r.1 == (match options.cross_axis {
            Some(b) => b,
            None => false,
        }),
{
    let main = match options.main_axis {
        Some(b) => b,
        None => true,
    };
    let cross = match options.cross_axis {
        Some(b) => b,
        None => false,
    };
    (main, cross)
}

/// Options for the `limitShift` limiter; `D` is the type of the offset.
#[derive(Clone, PartialEq)]
pub struct LimitShiftOptions<D> {
    /// How far the limits are moved inwards.
    pub offset: Option<D>,
    /// Whether the main axis is limited.
    ///
    /// Defaults to `true`.
    pub main_axis: Option<bool>,
    /// Whether the cross axis is limited.
    ///
    /// Defaults to `true`.
    pub cross_axis: Option<bool>,
}

impl<D> Default for LimitShiftOptions<D> {
    fn default() -> (r: Self)
        ensures
            r.offset is None,
            r.main_axis is None,
            r.cross_axis is None,
    {
        LimitShiftOptions { offset: None, main_axis: None, cross_axis: None }
    }
}

impl<D> LimitShiftOptions<D> {
    /// Set `offset` option.
    pub fn offset(self, value: D) -> (r: Self)
        ensures
            r == (LimitShiftOptions { offset: Some(value), ..self }),
    {
        LimitShiftOptions { offset: Some(value), ..self }
    }

    /// Set `main_axis` option.
    pub fn main_axis(self, value: bool) -> (r: Self)
        ensures
            r == (LimitShiftOptions { main_axis: Some(value), ..self }),
    {
        LimitShiftOptions { main_axis: Some(value), ..self }
    }

    /// Set `cross_axis` option.
    pub fn cross_axis(self, value: bool) -> (r: Self)
        ensures
            r == (LimitShiftOptions { cross_axis: Some(value), ..self }),
    {
        LimitShiftOptions { cross_axis: Some(value), ..self }
    }
}

/// The `limitShift` limiter, which stops `shift` at a certain point.
#[derive(Clone, PartialEq)]
pub struct LimitShift<D> {
    options: LimitShiftOptions<D>,
}

impl<D> LimitShift<D> {
    pub fn new(options: LimitShiftOptions<D>) -> (r: Self)
        ensures
            r.options_spec() == options,
    {
        LimitShift { options }
    }

    pub closed spec fn options_spec(&self) -> LimitShiftOptions<D> {
        self.options
    }

    /// The options of this limiter.
    pub fn options(&self) -> (r: &LimitShiftOptions<D>)
        ensures
            *r == self.options_spec(),
    {
        &self.options
    }
}

} // verus!
