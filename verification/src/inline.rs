//! Decisions of the `inline` middleware: how the client rects of an inline reference
//! are grouped into lines, and how the rect the floating element is placed against is
//! measured from those lines.
use vstd::prelude::*;

use crate::placement::{side_axis, Axis, Placement, Side};

verus! {

/// Name under which the `inline` middleware stores its data.
pub const INLINE_NAME: &'static str = "inline";

/// Whether `ranges` splits `0..n` into consecutive non-empty ranges `(start, end)`
/// that start exactly at index `0` and at the indices `i > 0` where `starts_line[i]`.
pub open spec fn is_line_partition(ranges: Seq<(usize, usize)>, starts_line: Seq<bool>) -> bool {
    let n = starts_line.len();
    &&& n == 0 ==> ranges.len() == 0
    &&& n > 0 ==> {
        &&& ranges.len() > 0
        &&& ranges[0].0 == 0
        &&& ranges[ranges.len() - 1].1 == n
    }
    &&& forall|k: int| 0 <= k < ranges.len() ==> #[trigger] ranges[k].0 < ranges[k].1
    &&& forall|k: int, l: int|
        #![trigger ranges[k], ranges[l]]
        0 <= k && l == k + 1 && l < ranges.len() ==> ranges[k].1 == ranges[l].0
    &&& forall|k: int| 0 < k < ranges.len() ==> starts_line[#[trigger] ranges[k].0 as int]
    &&& forall|k: int|
        0 <= k < ranges.len() ==> no_line_starts_within(starts_line, #[trigger] ranges[k])
}

/// No rect strictly inside `range` starts a line.
pub open spec fn no_line_starts_within(starts_line: Seq<bool>, range: (usize, usize)) -> bool {
    forall|i: int| range.0 < i < range.1 ==> !#[trigger] starts_line[i]
}

/// Groups client rects, sorted by their `y`, into lines.
///
/// `starts_line[i]` tells whether rect `i` lies more than half the height of rect
/// `i - 1` below it; rect `0` always starts a line. The result holds, for each line,
/// the range `(start, end)` of the rects on it.
pub fn group_lines(starts_line: &Vec<bool>) -> (r: Vec<(usize, usize)>)
    ensures
        is_line_partition(r@, starts_line@),
{
    let n = starts_line.len();
    let mut ranges: Vec<(usize, usize)> = Vec::new();
    if n == 0 {
        return ranges;
    }
    let mut start: usize = 0;
    let mut i: usize = 1;
    while i < n
        invariant
            n == starts_line.len(),
            0 <= start < i <= n,
            ranges.len() == 0 ==> start == 0,
            ranges.len() > 0 ==> ranges[0].0 == 0 && ranges[ranges.len() - 1].1 == start,
            start > 0 ==> starts_line[start as int],
            forall|k: int| 0 <= k < ranges.len() ==> #[trigger] ranges[k].0 < ranges[k].1,
            forall|k: int, l: int|
                #![trigger ranges[k], ranges[l]]
                0 <= k && l == k + 1 && l < ranges.len() ==> ranges[k].1 == ranges[l].0,
            forall|k: int| 0 < k < ranges.len() ==> starts_line[#[trigger] ranges[k].0 as int],
            forall|k: int|
                0 <= k < ranges.len() ==> no_line_starts_within(starts_line@, #[trigger] ranges[k]),
            forall|j: int| start < j < i ==> !#[trigger] starts_line[j],
        decreases n - i,
    {
        if starts_line[i] {
            let ghost old_ranges = ranges@;
            ranges.push((start, i));
            assert(ranges@ == old_ranges.push((start, i)));
            assert forall|k: int| 0 < k < ranges.len() implies starts_line[#[trigger] ranges[k].0 as int] by {
                if k < old_ranges.len() {
                    assert(ranges[k] == old_ranges[k]);
                } else {
                    assert(old_ranges[old_ranges.len() - 1].0 < old_ranges[old_ranges.len() - 1].1);
                }
            }
            start = i;
        }
        i = i + 1;
    }
    let ghost old_ranges = ranges@;
    ranges.push((start, n));
    assert(ranges@ == old_ranges.push((start, n)));
    assert forall|k: int| 0 < k < ranges.len() implies starts_line[#[trigger] ranges[k].0 as int] by {
        if k < old_ranges.len() {
            assert(ranges[k] == old_ranges[k]);
        } else {
            assert(old_ranges[old_ranges.len() - 1].0 < old_ranges[old_ranges.len() - 1].1);
        }
    }
    assert forall|k: int| 0 <= k < ranges.len() implies no_line_starts_within(
        starts_line@,
        #[trigger] ranges[k],
    ) by {
        if k < old_ranges.len() {
            assert(ranges[k] == old_ranges[k]);
        }
    }
    assert forall|k: int, l: int|
        #![trigger ranges[k], ranges[l]]
        0 <= k && l == k + 1 && l < ranges.len() implies ranges[k].1 == ranges[l].0 by {
        assert(ranges[k] == old_ranges[k]);
        if l < old_ranges.len() {
            assert(ranges[l] == old_ranges[l]);
        }
    }
    ranges
}

/// How the rect that the floating element is placed against is measured from the
/// lines of an inline reference.
#[derive(Copy, Clone, Debug, PartialEq, Eq, Structural)]
pub enum InlineMeasure {
    /// Two lines where the first starts right of the end of the second, and a point
    /// given: the line that contains the point, else the bounding rect of all rects.
    HitTest,
    /// Placed above or below: from the top of the first line to the bottom of the last,
    /// horizontally spanning the first line (`from_first_line`) or the last.
    Vertical { from_first_line: bool },
    /// Placed left or right: spanning all lines horizontally, vertically spanning the
    /// lines that touch the leftmost edge (`at_left_edge`) or the rightmost one.
    Horizontal { at_left_edge: bool },
    /// A single line or none: the bounding rect of all client rects.
    Bounding,
}

/// The way `inline` measures its rect from `line_count` lines, where
/// `first_right_of_second` tells whether the first line starts right of the end of the
/// second and `has_point` whether both coordinates were given.
pub open spec fn inline_measure(
    line_count: usize,
    first_right_of_second: bool,
    has_point: bool,
    placement: Placement,
) -> InlineMeasure {
    if line_count == 2 && first_right_of_second && has_point {
        InlineMeasure::HitTest
    } else if line_count >= 2 {
        if side_axis(placement@.0) == Axis::Y {
            InlineMeasure::Vertical { from_first_line: placement@.0 == Side::Top }
        } else {
            InlineMeasure::Horizontal { at_left_edge: placement@.0 == Side::Left }
        }
    } else {
        InlineMeasure::Bounding
    }
}

/// Chooses how `inline` measures its rect (see [`inline_measure`]).
pub fn choose_inline_measure(
    line_count: usize,
    first_right_of_second: bool,
    has_point: bool,
    placement: Placement,
) -> (r: InlineMeasure)
    ensures
        r == inline_measure(line_count, first_right_of_second, has_point, placement),
{
    if line_count == 2 && first_right_of_second && has_point {
        return InlineMeasure::HitTest;
    }
    if line_count >= 2 {
        let side = placement.side();
        match side {
            Side::Top => InlineMeasure::Vertical { from_first_line: true },
            Side::Bottom => InlineMeasure::Vertical { from_first_line: false },
            Side::Left => InlineMeasure::Horizontal { at_left_edge: true },
            Side::Right => InlineMeasure::Horizontal { at_left_edge: false },
        }
    } else {
        InlineMeasure::Bounding
    }
}

/// The line ranges split `0..n`: every rect lies on exactly one line, in order.
pub proof fn lemma_line_partition_covers(
    ranges: Seq<(usize, usize)>,
    starts_line: Seq<bool>,
    i: int,
)
    requires
        is_line_partition(ranges, starts_line),
        0 <= i < starts_line.len(),
    ensures
        exists|k: int| 0 <= k < ranges.len() && ranges[k].0 <= i < #[trigger] ranges[k].1,
        forall|k: int, l: int|
            #![trigger ranges[k], ranges[l]]
            0 <= k < ranges.len() && 0 <= l < ranges.len() && ranges[k].0 <= i < ranges[k].1
                && ranges[l].0 <= i < ranges[l].1 ==> k == l,
    decreases ranges.len(),
{
    assert forall|k: int, l: int|
        #![trigger ranges[k], ranges[l]]
        0 <= k < ranges.len() && 0 <= l < ranges.len() && ranges[k].0 <= i < ranges[k].1
            && ranges[l].0 <= i < ranges[l].1 implies k == l by {
        if k < l {
            lemma_range_ends_ordered(ranges, starts_line, k, l - 1);
            assert(ranges[l - 1].1 == ranges[l].0);
        } else if l < k {
            lemma_range_ends_ordered(ranges, starts_line, l, k - 1);
            assert(ranges[k - 1].1 == ranges[k].0);
        }
    }
    let m = ranges.len() - 1;
    if ranges[m].0 <= i {
        assert(ranges[m].0 <= i < ranges[m].1);
    } else {
        assert(m > 0) by {
            if m == 0 {
                assert(ranges[0].0 == 0);
            }
        }
        assert(ranges[m - 1].1 == ranges[m].0);
        let shorter = ranges.drop_last();
        assert(shorter[shorter.len() - 1].1 == ranges[m].0);
        let limited = starts_line.take(ranges[m].0 as int);
        assert forall|k: int| 0 <= k < shorter.len() implies no_line_starts_within(
            limited,
            #[trigger] shorter[k],
        ) by {
            assert(shorter[k] == ranges[k]);
            assert(no_line_starts_within(starts_line, ranges[k]));
            assert(ranges[k].1 <= ranges[m].0) by {
                lemma_range_ends_ordered(ranges, starts_line, k, m - 1);
            }
        }
        assert forall|k: int| 0 < k < shorter.len() implies limited[#[trigger] shorter[k].0 as int] by {
            assert(shorter[k] == ranges[k]);
            assert(ranges[k].1 <= ranges[m].0) by {
                lemma_range_ends_ordered(ranges, starts_line, k, m - 1);
            }
        }
        assert(is_line_partition(shorter, limited));
        lemma_line_partition_covers(shorter, limited, i);
        let k = choose|k: int| 0 <= k < shorter.len() && shorter[k].0 <= i < #[trigger] shorter[k].1;
        assert(ranges[k] == shorter[k]);
    }
}

proof fn lemma_range_ends_ordered(ranges: Seq<(usize, usize)>, starts_line: Seq<bool>, k: int, m: int)
    requires
        is_line_partition(ranges, starts_line),
        0 <= k <= m < ranges.len(),
    ensures
        ranges[k].1 <= ranges[m].1,
    decreases m - k,
{
    if k < m {
        lemma_range_ends_ordered(ranges, starts_line, k + 1, m);
        assert(ranges[k].1 == ranges[k + 1].0);
        assert(ranges[k + 1].0 < ranges[k + 1].1);
    }
}

/// With two or more lines and no hit test, the measure depends only on the side of
/// the placement, never on its alignment: above the reference the first line gives
/// the horizontal extent, below it the last line does; on the left the lines at the
/// leftmost edge give the vertical extent, on the right those at the rightmost edge.
/// With fewer than two lines the bounding rect is used whatever the placement.
pub proof fn lemma_inline_measure_by_side(
    line_count: usize,
    first_right_of_second: bool,
    has_point: bool,
    p: Placement,
    q: Placement,
)
    ensures
        line_count >= 2 && !(line_count == 2 && first_right_of_second && has_point) ==> {
            let m = inline_measure(line_count, first_right_of_second, has_point, p);
            &&& p@.0 == Side::Top ==> m == InlineMeasure::Vertical { from_first_line: true }
            &&& p@.0 == Side::Bottom ==> m == InlineMeasure::Vertical { from_first_line: false }
            &&& p@.0 == Side::Left ==> m == InlineMeasure::Horizontal { at_left_edge: true }
            &&& p@.0 == Side::Right ==> m == InlineMeasure::Horizontal { at_left_edge: false }
        },
        p@.0 == q@.0 ==> inline_measure(line_count, first_right_of_second, has_point, p)
            == inline_measure(line_count, first_right_of_second, has_point, q),
        line_count < 2 ==> inline_measure(line_count, first_right_of_second, has_point, p)
            == InlineMeasure::Bounding,
        line_count == 2 && first_right_of_second && has_point ==> inline_measure(
            line_count,
            first_right_of_second,
            has_point,
            p,
        ) == InlineMeasure::HitTest,
{
}

} // verus!
