//! Decisions of the `size` middleware.
use vstd::prelude::*;

use crate::placement::{side_axis, Alignment, Axis, Placement, Side};

verus! {

/// Name under which the `size` middleware stores its data.
pub const SIZE_NAME: &'static str = "size";

/// The sides whose overflow limits the available height and width of the floating
/// element, in that order.
pub open spec fn size_sides(placement: Placement, rtl: Option<bool>) -> (Side, Side) {
    let side = placement@.0;
    let alignment = placement@.1;
    if side_axis(side) == Axis::Y {
        let width_side = match alignment {
            Some(a) => if a == (if rtl == Some(true) {
                Alignment::Start
            } else {
                Alignment::End
            }) {
                Side::Left
            } else {
                Side::Right
            },
            None => Side::Right,
        };
        (side, width_side)
    } else {
        let height_side = match alignment {
            Some(Alignment::End) => Side::Top,
            _ => Side::Bottom,
        };
        (height_side, side)
    }
}

/// Chooses the sides whose overflow limits the available height and width.
pub fn get_size_sides(placement: Placement, rtl: Option<bool>) -> (r: (Side, Side))
    ensures
        r == size_sides(placement, rtl),
        side_axis(r.0) == Axis::Y,
        side_axis(r.1) == Axis::X,
{
    let side = placement.side();
    let alignment = placement.alignment();
    match side {
        Side::Top | Side::Bottom => {
            let width_side = match alignment {
                Some(a) => {
                    let reference = match rtl {
                        Some(true) => Alignment::Start,
                        _ => Alignment::End,
                    };
                    if a == reference {
                        Side::Left
                    } else {
                        Side::Right
                    }
                },
                None => Side::Right,
            };
            (side, width_side)
        },
        Side::Right | Side::Left => {
            let height_side = match alignment {
                Some(Alignment::End) => Side::Top,
                _ => Side::Bottom,
            };
            (height_side, side)
        },
    }
}

/// How `size` derives the available width and height.
#[derive(Clone, Copy, Debug, PartialEq, Eq, Structural)]
pub struct SizePlan {
    /// The side whose overflow limits the available height.
    pub height_side: Side,
    /// The side whose overflow limits the available width.
    pub width_side: Side,
    /// Limit the length on the alignment axis by the overflow on its side as well as
    /// by the clipping area (else only by the clipping area).
    pub limit_alignment_axis_by_side: bool,
    /// Derive the length on the alignment axis from the overflow on both of its sides,
    /// keeping the floating element centered.
    pub symmetric: bool,
}

/// The plan of `size` for `placement`; `has_shift_data` tells whether the `shift`
/// middleware has stored data.
pub open spec fn size_plan(placement: Placement, rtl: Option<bool>, has_shift_data: bool) -> SizePlan {
    let sides = size_sides(placement, rtl);
    let no_shift = !has_shift_data;
    SizePlan {
        height_side: sides.0,
        width_side: sides.1,
        limit_alignment_axis_by_side: placement@.1 is Some || no_shift,
        symmetric: no_shift && placement@.1 is None,
    }
}

/// Decides how `size` derives the available width and height.
pub fn get_size_plan(placement: Placement, rtl: Option<bool>, has_shift_data: bool) -> (r: SizePlan)
    ensures
        r == size_plan(placement, rtl, has_shift_data),
        r.symmetric ==> r.limit_alignment_axis_by_side,
{
    let sides = get_size_sides(placement, rtl);
    let aligned = placement.alignment().is_some();
    SizePlan {
        height_side: sides.0,
        width_side: sides.1,
        limit_alignment_axis_by_side: aligned || !has_shift_data,
        symmetric: !has_shift_data && !aligned,
    }
}

/// Options for the `size` middleware; `O` is the type of the options passed on to
/// overflow detection, `A` the type of the function that applies the size.
#[derive(Clone)]
pub struct SizeOptions<O, A> {
    /// Options for overflow detection.
    pub detect_overflow: Option<O>,
    /// Called to change the size of the floating element.
    pub apply: Option<A>,
}

impl<O, A> SizeOptions<O, A> {
    pub fn new() -> (r: Self)
        ensures
            r.detect_overflow is None,
            r.apply is None,
    {
        SizeOptions { detect_overflow: None, apply: None }
    }

    /// Set `detect_overflow` option.
    pub fn detect_overflow(self, value: O) -> (r: Self)
        ensures
            r == (SizeOptions { detect_overflow: Some(value), ..self }),
    {
        SizeOptions { detect_overflow: Some(value), ..self }
    }

    /// Set `apply` option.
    pub fn apply(self, value: A) -> (r: Self)
        ensures
            r == (SizeOptions { apply: Some(value), ..self }),
    {
        SizeOptions { apply: Some(value), ..self }
    }
}

impl<O, A> Default for SizeOptions<O, A> {
    fn default() -> (r: Self)
        ensures
            r.detect_overflow is None,
            r.apply is None,
    {
        SizeOptions::new()
    }
}

/// The sides that limit the size follow the placement: the side of the placement
/// limits its own axis; across it, an element aligned to the end of a side placement
/// grows upwards (the top limits its height) and otherwise downwards (the bottom
/// does), and an element on the top or bottom grows towards the side away from its
/// aligned edge, which right-to-left mirrors. Swapping the alignment swaps the
/// limiting side across the axis.
pub proof fn lemma_size_sides_follow_growth(p: Placement, rtl: Option<bool>)
    ensures
        side_axis(p@.0) == Axis::X ==> size_sides(p, rtl).1 == p@.0,
        side_axis(p@.0) == Axis::X ==> (size_sides(p, rtl).0 == Side::Top <==> p@.1 == Some(
            Alignment::End,
        )),
        side_axis(p@.0) == Axis::X ==> (size_sides(p, rtl).0 == Side::Bottom <==> p@.1 != Some(
            Alignment::End,
        )),
        side_axis(p@.0) == Axis::Y ==> size_sides(p, rtl).0 == p@.0,
        side_axis(p@.0) == Axis::Y && p@.1 is None ==> size_sides(p, rtl).1 == Side::Right,
        p@.1 is Some ==> ({
            let q = crate::placement::opposite_alignment_placement(p);
            if side_axis(p@.0) == Axis::X {
                size_sides(q, rtl).0 == crate::placement::opposite_side(size_sides(p, rtl).0)
                    && size_sides(q, rtl).1 == size_sides(p, rtl).1
            } else {
                size_sides(q, rtl).1 == crate::placement::opposite_side(size_sides(p, rtl).1)
                    && size_sides(q, rtl).0 == size_sides(p, rtl).0
            }
        }),
        side_axis(p@.0) == Axis::Y && p@.1 is Some ==> size_sides(p, Some(true)).1
            == crate::placement::opposite_side(size_sides(p, None).1),
        side_axis(p@.0) == Axis::Y && p@.1 == Some(Alignment::End) ==> size_sides(p, None).1
            == Side::Left,
{
}

/// How `size` derives the lengths: the alignment-axis length is limited by the
/// overflow on its own side as well whenever the placement is aligned or `shift`
/// has not run; it is kept symmetric around the reference exactly when `shift` has
/// not run and the placement is not aligned.
pub proof fn lemma_size_plan_shift(p: Placement, rtl: Option<bool>, has_shift_data: bool)
    ensures
        size_plan(p, rtl, has_shift_data).symmetric <==> (!has_shift_data && p@.1 is None),
        size_plan(p, rtl, has_shift_data).limit_alignment_axis_by_side <==> (p@.1 is Some
            || !has_shift_data),
        has_shift_data && p@.1 is None ==> !size_plan(p, rtl, has_shift_data).limit_alignment_axis_by_side,
        size_plan(p, rtl, has_shift_data).height_side == size_sides(p, rtl).0,
        size_plan(p, rtl, has_shift_data).width_side == size_sides(p, rtl).1,
{
}

} // verus!
