use floating_ui::inline::{choose_inline_measure, group_lines, InlineMeasure, INLINE_NAME};
use floating_ui::placement::Placement;

#[test]
fn inline_name() {
    assert_eq!(INLINE_NAME, "inline");
}

#[test]
fn no_rects_no_lines() {
    assert_eq!(group_lines(&vec![]), vec![]);
}

#[test]
fn first_rect_always_starts_a_line() {
    assert_eq!(group_lines(&vec![false]), vec![(0, 1)]);
    assert_eq!(group_lines(&vec![true]), vec![(0, 1)]);
}

#[test]
fn lines_split_where_a_rect_starts_one() {
    assert_eq!(
        group_lines(&vec![true, false, true, true, false, false]),
        vec![(0, 2), (2, 3), (3, 6)]
    );
    assert_eq!(group_lines(&vec![true, false, false]), vec![(0, 3)]);
}

#[test]
fn two_wrapped_lines_with_point_hit_test() {
    assert_eq!(
        choose_inline_measure(2, true, true, Placement::Top),
        InlineMeasure::HitTest
    );
    assert_eq!(
        choose_inline_measure(2, true, false, Placement::Top),
        InlineMeasure::Vertical {
            from_first_line: true
        }
    );
    assert_eq!(
        choose_inline_measure(3, true, true, Placement::Top),
        InlineMeasure::Vertical {
            from_first_line: true
        }
    );
}

#[test]
fn several_lines_measure_by_side() {
    assert_eq!(
        choose_inline_measure(2, false, true, Placement::BottomStart),
        InlineMeasure::Vertical {
            from_first_line: false
        }
    );
    assert_eq!(
        choose_inline_measure(4, false, false, Placement::LeftEnd),
        InlineMeasure::Horizontal { at_left_edge: true }
    );
    assert_eq!(
        choose_inline_measure(2, false, false, Placement::Right),
        InlineMeasure::Horizontal {
            at_left_edge: false
        }
    );
}

#[test]
fn single_line_uses_bounding_rect() {
    assert_eq!(
        choose_inline_measure(1, false, true, Placement::Top),
        InlineMeasure::Bounding
    );
    assert_eq!(
        choose_inline_measure(0, false, false, Placement::Left),
        InlineMeasure::Bounding
    );
}
