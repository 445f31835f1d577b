//! How the coordinates next to the reference element are derived from a placement.
use vstd::prelude::*;

use crate::placement::{opposite_axis, side_axis, Alignment, Axis, Placement};

verus! {

/// The direction in which an aligned placement moves the floating element along its
/// alignment axis, away from the centered position: `-1` for `Start`, `1` for `End`,
/// mirrored in right-to-left layouts on the `x` alignment axis, `0` when unaligned.
pub open spec fn alignment_shift_sign(placement: Placement, rtl: Option<bool>) -> int {
    let mirrored = rtl == Some(true) && side_axis(placement@.0) == Axis::Y;
    match placement@.1 {
        None => 0,
        Some(Alignment::Start) => if mirrored {
            1
        } else {
            -1
        },
        Some(Alignment::End) => if mirrored {
            -1
        } else {
            1
        },
    }
}

/// Computes [`alignment_shift_sign`]; the caller moves the centered coordinate on the
/// alignment axis by this sign times half the difference of the element lengths.
pub fn get_alignment_shift_sign(placement: Placement, rtl: Option<bool>) -> (r: i8)
    ensures
        r == alignment_shift_sign(placement, rtl),
        -1 <= r <= 1,
        (r == 0) <==> placement@.1 is None,
{
    let is_vertical = match placement.side().axis() {
        Axis::Y => true,
        Axis::X => false,
    };
    let mirrored = match rtl {
        Some(true) => is_vertical,
        _ => false,
    };
    match placement.alignment() {
        None => 0,
        Some(Alignment::Start) => if mirrored {
            1
        } else {
            -1
        },
        Some(Alignment::End) => if mirrored {
            -1
        } else {
            1
        },
    }
}

/// Opposite alignments move the floating element in opposite directions, and the
/// opposite placement moves it in the same direction as the placement.
pub proof fn lemma_alignment_shift_opposite(p: Placement, rtl: Option<bool>)
    ensures
        alignment_shift_sign(crate::placement::opposite_alignment_placement(p), rtl)
            == -alignment_shift_sign(p, rtl),
        alignment_shift_sign(crate::placement::opposite_placement(p), rtl)
            == alignment_shift_sign(p, rtl),
        side_axis(p@.0) == Axis::X ==> alignment_shift_sign(p, Some(true))
            == alignment_shift_sign(p, None),
{
}

/// An aligned floating element is moved towards the start of the alignment axis for
/// `Start` and towards its end for `End`: towards smaller coordinates for `Start` in
/// a left-to-right layout and on a vertical alignment axis, and the other way round
/// on the horizontal alignment axis of a right-to-left layout.
pub proof fn lemma_alignment_shift_direction(p: Placement, rtl: Option<bool>)
    ensures
        (rtl != Some(true) || side_axis(p@.0) == Axis::X) ==> (alignment_shift_sign(p, rtl) == -1
            <==> p@.1 == Some(Alignment::Start)),
        (rtl != Some(true) || side_axis(p@.0) == Axis::X) ==> (alignment_shift_sign(p, rtl) == 1
            <==> p@.1 == Some(Alignment::End)),
        side_axis(p@.0) == Axis::Y ==> alignment_shift_sign(p, Some(true)) == -alignment_shift_sign(
            p,
            None,
        ),
        alignment_shift_sign(p, rtl) == 0 <==> p@.1 is None,
{
}

} // verus!
