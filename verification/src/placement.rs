//! Sides, alignments, axes and placements, and the combinatorics between them.
use vstd::prelude::*;

verus! {

/// Alignment of a floating element along the side it is placed on.
#[derive(Copy, Clone, Debug, PartialEq, Eq, Structural)]
pub enum Alignment {
    Start,
    End,
}

/// Side of the reference element.
#[derive(Copy, Clone, Debug, PartialEq, Eq, Structural)]
pub enum Side {
    Top,
    Right,
    Bottom,
    Left,
}

/// Positioning strategy (CSS `position`).
#[derive(Copy, Clone, Debug, PartialEq, Eq, Structural)]
pub enum Strategy {
    Absolute,
    Fixed,
}

/// Coordinate axis.
#[derive(Copy, Clone, Debug, PartialEq, Eq, Structural)]
pub enum Axis {
    X,
    Y,
}

/// Length measured along an axis.
#[derive(Copy, Clone, Debug, PartialEq, Eq, Structural)]
pub enum Length {
    Width,
    Height,
}

/// Where a floating element is placed relative to its reference element:
/// a side, optionally followed by an alignment.
#[derive(Copy, Clone, Debug, PartialEq, Eq, Structural)]
pub enum Placement {
    Top,
    TopStart,
    TopEnd,
    Right,
    RightStart,
    RightEnd,
    Bottom,
    BottomStart,
    BottomEnd,
    Left,
    LeftStart,
    LeftEnd,
}

/// The side across from `side`.
pub open spec fn opposite_side(side: Side) -> Side {
    match side {
        Side::Top => Side::Bottom,
        Side::Right => Side::Left,
        Side::Bottom => Side::Top,
        Side::Left => Side::Right,
    }
}

/// The axis along which a side lies across the reference element.
pub open spec fn side_axis(side: Side) -> Axis {
    match side {
        Side::Top | Side::Bottom => Axis::Y,
        Side::Right | Side::Left => Axis::X,
    }
}

pub open spec fn opposite_axis(axis: Axis) -> Axis {
    match axis {
        Axis::X => Axis::Y,
        Axis::Y => Axis::X,
    }
}

pub open spec fn axis_length(axis: Axis) -> Length {
    match axis {
        Axis::X => Length::Width,
        Axis::Y => Length::Height,
    }
}

/// Swaps `Start` and `End`; no alignment stays no alignment.
pub open spec fn opposite_alignment(alignment: Option<Alignment>) -> Option<Alignment> {
    match alignment {
        Some(Alignment::Start) => Some(Alignment::End),
        Some(Alignment::End) => Some(Alignment::Start),
        None => None,
    }
}

/// The placement made of a side and an optional alignment.
pub open spec fn placement_of(side: Side, alignment: Option<Alignment>) -> Placement {
    match (side, alignment) {
        (Side::Top, None) => Placement::Top,
        (Side::Top, Some(Alignment::Start)) => Placement::TopStart,
        (Side::Top, Some(Alignment::End)) => Placement::TopEnd,
        (Side::Right, None) => Placement::Right,
        (Side::Right, Some(Alignment::Start)) => Placement::RightStart,
        (Side::Right, Some(Alignment::End)) => Placement::RightEnd,
        (Side::Bottom, None) => Placement::Bottom,
        (Side::Bottom, Some(Alignment::Start)) => Placement::BottomStart,
        (Side::Bottom, Some(Alignment::End)) => Placement::BottomEnd,
        (Side::Left, None) => Placement::Left,
        (Side::Left, Some(Alignment::Start)) => Placement::LeftStart,
        (Side::Left, Some(Alignment::End)) => Placement::LeftEnd,
    }
}

impl View for Placement {
    /// A placement is its side together with its optional alignment.
    type V = (Side, Option<Alignment>);

    open spec fn view(&self) -> (Side, Option<Alignment>) {
        match *self {
            Placement::Top => (Side::Top, None),
            Placement::TopStart => (Side::Top, Some(Alignment::Start)),
            Placement::TopEnd => (Side::Top, Some(Alignment::End)),
            Placement::Right => (Side::Right, None),
            Placement::RightStart => (Side::Right, Some(Alignment::Start)),
            Placement::RightEnd => (Side::Right, Some(Alignment::End)),
            Placement::Bottom => (Side::Bottom, None),
            Placement::BottomStart => (Side::Bottom, Some(Alignment::Start)),
            Placement::BottomEnd => (Side::Bottom, Some(Alignment::End)),
            Placement::Left => (Side::Left, None),
            Placement::LeftStart => (Side::Left, Some(Alignment::Start)),
            Placement::LeftEnd => (Side::Left, Some(Alignment::End)),
        }
    }
}

/// The placement on the opposite side, with the same alignment.
pub open spec fn opposite_placement(p: Placement) -> Placement {
    placement_of(opposite_side(p@.0), p@.1)
}

/// The placement on the same side, with the opposite alignment.
pub open spec fn opposite_alignment_placement(p: Placement) -> Placement {
    placement_of(p@.0, opposite_alignment(p@.1))
}

/// The side pair used to look for placements on the perpendicular axis.
pub open spec fn side_list(side: Side, is_start: bool, rtl: Option<bool>) -> Seq<Side> {
    if side_axis(side) == Axis::Y {
        if is_start != (rtl == Some(true)) {
            seq![Side::Left, Side::Right]
        } else {
            seq![Side::Right, Side::Left]
        }
    } else {
        if is_start {
            seq![Side::Top, Side::Bottom]
        } else {
            seq![Side::Bottom, Side::Top]
        }
    }
}

/// Placements on the axis perpendicular to the side of `p`, keeping its alignment,
/// followed (when `flip_alignment`) by the same placements with the opposite alignment.
pub open spec fn opposite_axis_placements(
    p: Placement,
    flip_alignment: bool,
    direction: Option<Alignment>,
    rtl: Option<bool>,
) -> Seq<Placement> {
    let sides = side_list(p@.0, direction == Some(Alignment::Start), rtl);
    let list = seq![placement_of(sides[0], p@.1), placement_of(sides[1], p@.1)];
    if flip_alignment {
        list + seq![opposite_alignment_placement(list[0]), opposite_alignment_placement(list[1])]
    } else {
        list
    }
}

/// The side on the alignment axis that an aligned floating element overflows first,
/// for a reference element that is shorter (`reference_exceeds == false`) or longer
/// than the floating element on that axis.
pub open spec fn main_alignment_side(p: Placement, reference_exceeds: bool, rtl: Option<bool>) -> Side {
    let base = if opposite_axis(side_axis(p@.0)) == Axis::X {
        if (p@.1 == Some(Alignment::Start)) != (rtl == Some(true)) {
            Side::Right
        } else {
            Side::Left
        }
    } else {
        if p@.1 == Some(Alignment::Start) {
            Side::Bottom
        } else {
            Side::Top
        }
    };
    if reference_exceeds {
        opposite_side(base)
    } else {
        base
    }
}

/// Every placement, in declaration order.
pub open spec fn all_placements_spec() -> Seq<Placement> {
    seq![
        Placement::Top,
        Placement::TopStart,
        Placement::TopEnd,
        Placement::Right,
        Placement::RightStart,
        Placement::RightEnd,
        Placement::Bottom,
        Placement::BottomStart,
        Placement::BottomEnd,
        Placement::Left,
        Placement::LeftStart,
        Placement::LeftEnd,
    ]
}

impl Side {
    pub fn opposite(&self) -> (r: Side)
        ensures
            r == opposite_side(*self),
    {
        match self {
            Side::Top => Side::Bottom,
            Side::Right => Side::Left,
            Side::Bottom => Side::Top,
            Side::Left => Side::Right,
        }
    }

    pub fn axis(&self) -> (r: Axis)
        ensures
            r == side_axis(*self),
    {
        match self {
            Side::Top => Axis::Y,
            Side::Right => Axis::X,
            Side::Bottom => Axis::Y,
            Side::Left => Axis::X,
        }
    }
}

impl Axis {
    pub fn opposite(&self) -> (r: Axis)
        ensures
            r == opposite_axis(*self),
    {
        match self {
            Axis::X => Axis::Y,
            Axis::Y => Axis::X,
        }
    }

    pub fn length(&self) -> (r: Length)
        ensures
            r == axis_length(*self),
    {
        match self {
            Axis::X => Length::Width,
            Axis::Y => Length::Height,
        }
    }
}

impl Placement {
    pub fn alignment(&self) -> (r: Option<Alignment>)
        ensures
            r == self@.1,
    {
        match self {
            Placement::Top => None,
            Placement::TopStart => Some(Alignment::Start),
            Placement::TopEnd => Some(Alignment::End),
            Placement::Right => None,
            Placement::RightStart => Some(Alignment::Start),
            Placement::RightEnd => Some(Alignment::End),
            Placement::Bottom => None,
            Placement::BottomStart => Some(Alignment::Start),
            Placement::BottomEnd => Some(Alignment::End),
            Placement::Left => None,
            Placement::LeftStart => Some(Alignment::Start),
            Placement::LeftEnd => Some(Alignment::End),
        }
    }

    pub fn side(&self) -> (r: Side)
        ensures
            r == self@.0,
    {
        match self {
            Placement::Top | Placement::TopStart | Placement::TopEnd => Side::Top,
            Placement::Right | Placement::RightStart | Placement::RightEnd => Side::Right,
            Placement::Bottom | Placement::BottomStart | Placement::BottomEnd => Side::Bottom,
            Placement::Left | Placement::LeftStart | Placement::LeftEnd => Side::Left,
        }
    }

    pub fn opposite(&self) -> (r: Placement)
        ensures
            r == opposite_placement(*self),
    {
        match self {
            Placement::Top => Placement::Bottom,
            Placement::TopStart => Placement::BottomStart,
            Placement::TopEnd => Placement::BottomEnd,
            Placement::Right => Placement::Left,
            Placement::RightStart => Placement::LeftStart,
            Placement::RightEnd => Placement::LeftEnd,
            Placement::Bottom => Placement::Top,
            Placement::BottomStart => Placement::TopStart,
            Placement::BottomEnd => Placement::TopEnd,
            Placement::Left => Placement::Right,
            Placement::LeftStart => Placement::RightStart,
            Placement::LeftEnd => Placement::RightEnd,
        }
    }

    pub fn opposite_alignment(&self) -> (r: Placement)
        ensures
            r == opposite_alignment_placement(*self),
    {
        match self {
            Placement::Top => Placement::Top,
            Placement::TopStart => Placement::TopEnd,
            Placement::TopEnd => Placement::TopStart,
            Placement::Right => Placement::Right,
            Placement::RightStart => Placement::RightEnd,
            Placement::RightEnd => Placement::RightStart,
            Placement::Bottom => Placement::Bottom,
            Placement::BottomStart => Placement::BottomEnd,
            Placement::BottomEnd => Placement::BottomStart,
            Placement::Left => Placement::Left,
            Placement::LeftStart => Placement::LeftEnd,
            Placement::LeftEnd => Placement::LeftStart,
        }
    }
}

/// Every placement, in declaration order.
pub fn all_placements() -> (r: Vec<Placement>)
    ensures
        r@ == all_placements_spec(),
{
    let r = vec![
        Placement::Top,
        Placement::TopStart,
        Placement::TopEnd,
        Placement::Right,
        Placement::RightStart,
        Placement::RightEnd,
        Placement::Bottom,
        Placement::BottomStart,
        Placement::BottomEnd,
        Placement::Left,
        Placement::LeftStart,
        Placement::LeftEnd,
    ];
    assert(r@ =~= all_placements_spec());
    r
}

pub fn get_side(placement: Placement) -> (r: Side)
    ensures
        r == placement@.0,
{
    placement.side()
}

pub fn get_alignment(placement: Placement) -> (r: Option<Alignment>)
    ensures
        r == placement@.1,
{
    placement.alignment()
}

pub fn get_placement(side: Side, alignment: Option<Alignment>) -> (r: Placement)
    ensures
        r == placement_of(side, alignment),
        r@ == (side, alignment),
{
    match (side, alignment) {
        (Side::Top, None) => Placement::Top,
        (Side::Top, Some(Alignment::Start)) => Placement::TopStart,
        (Side::Top, Some(Alignment::End)) => Placement::TopEnd,
        (Side::Right, None) => Placement::Right,
        (Side::Right, Some(Alignment::Start)) => Placement::RightStart,
        (Side::Right, Some(Alignment::End)) => Placement::RightEnd,
        (Side::Bottom, None) => Placement::Bottom,
        (Side::Bottom, Some(Alignment::Start)) => Placement::BottomStart,
        (Side::Bottom, Some(Alignment::End)) => Placement::BottomEnd,
        (Side::Left, None) => Placement::Left,
        (Side::Left, Some(Alignment::Start)) => Placement::LeftStart,
        (Side::Left, Some(Alignment::End)) => Placement::LeftEnd,
    }
}

pub fn get_opposite_axis(axis: Axis) -> (r: Axis)
    ensures
        r == opposite_axis(axis),
{
    axis.opposite()
}

pub fn get_axis_length(axis: Axis) -> (r: Length)
    ensures
        r == axis_length(axis),
{
    axis.length()
}

pub fn get_side_axis(placement: Placement) -> (r: Axis)
    ensures
        r == side_axis(placement@.0),
{
    placement.side().axis()
}

pub fn get_alignment_axis(placement: Placement) -> (r: Axis)
    ensures
        r == opposite_axis(side_axis(placement@.0)),
{
    get_opposite_axis(get_side_axis(placement))
}

pub fn get_opposite_side(side: Side) -> (r: Side)
    ensures
        r == opposite_side(side),
{
    side.opposite()
}

pub fn get_opposite_placement(placement: Placement) -> (r: Placement)
    ensures
        r == opposite_placement(placement),
{
    placement.opposite()
}

pub fn get_opposite_alignment_placement(placement: Placement) -> (r: Placement)
    ensures
        r == opposite_alignment_placement(placement),
{
    placement.opposite_alignment()
}

/// The sides on the alignment axis of `placement`, the one overflowed first leading.
/// `reference_exceeds` tells whether the reference element is longer than the
/// floating element along that axis.
pub fn get_alignment_sides(placement: Placement, reference_exceeds: bool, rtl: Option<bool>) -> (r: (
    Side,
    Side,
))
    ensures
        r.0 == main_alignment_side(placement, reference_exceeds, rtl),
        r.1 == opposite_side(r.0),
{
    let alignment = get_alignment(placement);
    let alignment_axis = get_alignment_axis(placement);
    let is_rtl = match rtl {
        Some(true) => true,
        _ => false,
    };
    let is_start = match alignment {
        Some(Alignment::Start) => true,
        _ => false,
    };
    let mut main_side = match alignment_axis {
        Axis::X => {
            if is_start != is_rtl {
                Side::Right
            } else {
                Side::Left
            }
        },
        Axis::Y => {
            if is_start {
                Side::Bottom
            } else {
                Side::Top
            }
        },
    };
    if reference_exceeds {
        main_side = get_opposite_side(main_side);
    }
    (main_side, get_opposite_side(main_side))
}

/// The opposite-alignment placement, the opposite placement, and the opposite placement
/// with the opposite alignment.
pub fn get_expanded_placements(placement: Placement) -> (r: Vec<Placement>)
    ensures
        r@ == seq![
            opposite_alignment_placement(placement),
            opposite_placement(placement),
            opposite_alignment_placement(opposite_placement(placement)),
        ],
{
    let opposite = get_opposite_placement(placement);
    let r = vec![
        get_opposite_alignment_placement(placement),
        opposite,
        get_opposite_alignment_placement(opposite),
    ];
    r
}

pub fn get_side_list(side: Side, is_start: bool, rtl: Option<bool>) -> (r: [Side; 2])
    ensures
        r@ == side_list(side, is_start, rtl),
{
    let is_rtl = match rtl {
        Some(true) => true,
        _ => false,
    };
    let r = match side {
        Side::Top | Side::Bottom => {
            if is_start != is_rtl {
                [Side::Left, Side::Right]
            } else {
                [Side::Right, Side::Left]
            }
        },
        Side::Right | Side::Left => {
            if is_start {
                [Side::Top, Side::Bottom]
            } else {
                [Side::Bottom, Side::Top]
            }
        },
    };
    assert(r@ =~= side_list(side, is_start, rtl));
    r
}

pub fn get_opposite_axis_placements(
    placement: Placement,
    flip_alignment: bool,
    direction: Option<Alignment>,
    rtl: Option<bool>,
) -> (r: Vec<Placement>)
    ensures
        r@ == opposite_axis_placements(placement, flip_alignment, direction, rtl),
{
    let alignment = get_alignment(placement);
    let is_start = match direction {
        Some(Alignment::Start) => true,
        _ => false,
    };
    let sides = get_side_list(get_side(placement), is_start, rtl);
    let first = get_placement(sides[0], alignment);
    let second = get_placement(sides[1], alignment);
    let mut list = vec![first, second];
    if flip_alignment {
        list.push(get_opposite_alignment_placement(first));
        list.push(get_opposite_alignment_placement(second));
    }
    assert(list@ =~= opposite_axis_placements(placement, flip_alignment, direction, rtl));
    list
}

} // verus!

verus! {

/// A placement is determined by its side and alignment, and every side and
/// alignment make a placement.
pub proof fn lemma_placement_side_alignment(p: Placement, side: Side, alignment: Option<Alignment>)
    ensures
        placement_of(p@.0, p@.1) == p,
        placement_of(side, alignment)@ == (side, alignment),
{
}

/// Taking the opposite placement twice gives the placement back; the opposite
/// placement is on the opposite side, on the same axis, with the same alignment.
pub proof fn lemma_opposite_placement(p: Placement)
    ensures
        opposite_placement(opposite_placement(p)) == p,
        opposite_placement(p)@.0 == opposite_side(p@.0),
        opposite_placement(p)@.1 == p@.1,
        side_axis(opposite_placement(p)@.0) == side_axis(p@.0),
        opposite_placement(p) != p,
{
}

/// Swapping the alignment twice gives the placement back; it keeps the side, and
/// changes the placement exactly when the placement is aligned.
pub proof fn lemma_opposite_alignment_placement(p: Placement)
    ensures
        opposite_alignment_placement(opposite_alignment_placement(p)) == p,
        opposite_alignment_placement(p)@.0 == p@.0,
        (opposite_alignment_placement(p) == p) <==> p@.1 is None,
        opposite_alignment_placement(opposite_placement(p)) == opposite_placement(
            opposite_alignment_placement(p),
        ),
{
}

/// For an aligned placement, the placement and its three expanded placements are
/// four different placements.
pub proof fn lemma_expanded_placements_distinct(p: Placement)
    requires
        p@.1 is Some,
    ensures
        ({
            let e = seq![
                p,
                opposite_alignment_placement(p),
                opposite_placement(p),
                opposite_alignment_placement(opposite_placement(p)),
            ];
            forall|i: int, j: int| 0 <= i < j < 4 ==> e[i] != e[j]
        }),
{
}

/// The alignment sides are two opposite sides on the alignment axis of the placement.
pub proof fn lemma_alignment_sides_on_alignment_axis(
    p: Placement,
    reference_exceeds: bool,
    rtl: Option<bool>,
)
    ensures
        side_axis(main_alignment_side(p, reference_exceeds, rtl)) == opposite_axis(
            side_axis(p@.0),
        ),
        main_alignment_side(p, !reference_exceeds, rtl) == opposite_side(
            main_alignment_side(p, reference_exceeds, rtl),
        ),
{
}

/// The placements on the opposite axis lie on the axis perpendicular to the
/// placement's side and are all different; the first two keep the placement's
/// alignment and lie on opposite sides.
pub proof fn lemma_opposite_axis_placements(
    p: Placement,
    flip_alignment: bool,
    direction: Option<Alignment>,
    rtl: Option<bool>,
)
    ensures
        ({
            let l = opposite_axis_placements(p, flip_alignment, direction, rtl);
            &&& l.len() == (if flip_alignment {
                4int
            } else {
                2int
            })
            &&& forall|i: int| 0 <= i < l.len() ==> side_axis(#[trigger] l[i]@.0) == opposite_axis(side_axis(p@.0))
            &&& l[0]@.1 == p@.1 && l[1]@.1 == p@.1
            &&& l[1]@.0 == opposite_side(l[0]@.0)
            &&& p@.1 is Some ==> forall|i: int, j: int| 0 <= i < j < l.len() ==> l[i] != l[j]
        }),
{
    let l = opposite_axis_placements(p, flip_alignment, direction, rtl);
    assert forall|i: int| 0 <= i < l.len() implies side_axis(#[trigger] l[i]@.0) == opposite_axis(side_axis(p@.0)) by {
        if i >= 2 {
            assert(l[i] == opposite_alignment_placement(l[i - 2]));
        }
    }
}

} // verus!
