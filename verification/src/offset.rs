//! Decisions of the `offset` middleware.
use vstd::prelude::*;

use crate::placement::{side_axis, Alignment, Axis, Placement, Side};

verus! {

/// Name under which the `offset` middleware stores its data.
pub const OFFSET_NAME: &'static str = "offset";

/// How the offset values are turned into coordinates for a placement.
#[derive(Clone, Copy, Debug, PartialEq, Eq, Structural)]
pub struct OffsetDirections {
    /// The main axis is `y` (the placement is on the top or bottom side).
    pub is_vertical: bool,
    /// The main-axis offset moves towards smaller coordinates (`Top`, `Left`).
    pub main_axis_negated: bool,
    /// The cross-axis offset is mirrored (right-to-left on a vertical placement).
    pub cross_axis_negated: bool,
    /// For an aligned placement: whether an alignment-axis offset is negated
    /// (`End` alignment); `None` for a base placement, where it is ignored.
    pub alignment_axis_negated: Option<bool>,
}

/// The directions in which `offset` moves the floating element for `placement`.
pub open spec fn offset_directions(placement: Placement, rtl: bool) -> OffsetDirections {
    let is_vertical = side_axis(placement@.0) == Axis::Y;
    OffsetDirections {
        is_vertical,
        main_axis_negated: placement@.0 == Side::Left || placement@.0 == Side::Top,
        cross_axis_negated: rtl && is_vertical,
        alignment_axis_negated: match placement@.1 {
            Some(Alignment::Start) => Some(false),
            Some(Alignment::End) => Some(true),
            None => None,
        },
    }
}

/// Computes the directions in which `offset` moves the floating element.
pub fn get_offset_directions(placement: Placement, rtl: bool) -> (r: OffsetDirections)
    ensures
        r == offset_directions(placement, rtl),
{
    let side = placement.side();
    let is_vertical = match side {
        Side::Top | Side::Bottom => true,
        Side::Left | Side::Right => false,
    };
    OffsetDirections {
        is_vertical,
        main_axis_negated: match side {
            Side::Left | Side::Top => true,
            Side::Right | Side::Bottom => false,
        },
        cross_axis_negated: rtl && is_vertical,
        alignment_axis_negated: match placement.alignment() {
            Some(Alignment::Start) => Some(false),
            Some(Alignment::End) => Some(true),
            None => None,
        },
    }
}

/// Whether `offset` leaves the coordinates as they are: when the placement is the one
/// it last offset (`previous_placement`, from its stored data) and the arrow has
/// shifted the floating element for alignment.
pub open spec fn offset_skipped(
    previous_placement: Option<Placement>,
    placement: Placement,
    arrow_aligned: bool,
) -> bool {
    previous_placement == Some(placement) && arrow_aligned
}

/// Decides whether `offset` leaves the coordinates as they are (see [`offset_skipped`]).
pub fn offset_skips(previous_placement: Option<Placement>, placement: Placement, arrow_aligned: bool) -> (r:
    bool)
    ensures
        r == offset_skipped(previous_placement, placement, arrow_aligned),
{
    match previous_placement {
        Some(p) => p == placement && arrow_aligned,
        None => false,
    }
}

/// Opposite placements move the floating element in opposite main-axis directions,
/// on the same axis; opposite alignments negate the alignment-axis offset.
pub proof fn lemma_offset_directions_opposite(p: Placement, rtl: bool)
    ensures
        offset_directions(crate::placement::opposite_placement(p), rtl).main_axis_negated
            != offset_directions(p, rtl).main_axis_negated,
        offset_directions(crate::placement::opposite_placement(p), rtl).is_vertical
            == offset_directions(p, rtl).is_vertical,
        p@.1 is Some ==> offset_directions(
            crate::placement::opposite_alignment_placement(p),
            rtl,
        ).alignment_axis_negated != offset_directions(p, rtl).alignment_axis_negated,
{
}

/// A cross-axis offset is mirrored only in a right-to-left layout, and there exactly
/// for placements on the top or bottom; the layout direction changes nothing else.
/// The main-axis offset moves away from the reference: towards smaller coordinates
/// on the top and left sides, towards larger ones on the bottom and right.
pub proof fn lemma_offset_cross_axis_only_mirrored_in_rtl(p: Placement)
    ensures
        !offset_directions(p, false).cross_axis_negated,
        offset_directions(p, true).cross_axis_negated <==> (p@.0 == Side::Top || p@.0
            == Side::Bottom),
        offset_directions(p, true).is_vertical == offset_directions(p, false).is_vertical,
        offset_directions(p, true).main_axis_negated == offset_directions(p, false).main_axis_negated,
        offset_directions(p, true).alignment_axis_negated == offset_directions(
            p,
            false,
        ).alignment_axis_negated,
        offset_directions(p, false).is_vertical <==> (p@.0 == Side::Top || p@.0 == Side::Bottom),
        offset_directions(p, false).main_axis_negated <==> (p@.0 == Side::Top || p@.0
            == Side::Left),
        offset_directions(p, false).alignment_axis_negated == Some(true) <==> p@.1 == Some(
            Alignment::End,
        ),
        offset_directions(p, false).alignment_axis_negated is None <==> p@.1 is None,
{
}

} // verus!
