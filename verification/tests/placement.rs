use floating_ui::placement::{
    all_placements, get_alignment, get_alignment_axis, get_alignment_sides, get_axis_length,
    get_expanded_placements, get_opposite_alignment_placement, get_opposite_axis,
    get_opposite_axis_placements, get_opposite_placement, get_opposite_side, get_placement,
    get_side, get_side_axis, get_side_list, Alignment, Axis, Length, Placement, Side,
};

#[test]
fn side_and_alignment_round_trip() {
    for p in all_placements() {
        assert_eq!(get_placement(get_side(p), get_alignment(p)), p);
    }
    assert_eq!(all_placements().len(), 12);
    assert_eq!(get_placement(Side::Left, Some(Alignment::End)), Placement::LeftEnd);
}

#[test]
fn opposite_placement_is_an_involution() {
    for p in all_placements() {
        let o = get_opposite_placement(p);
        assert_ne!(o, p);
        assert_eq!(get_opposite_placement(o), p);
        assert_eq!(get_side(o), get_opposite_side(get_side(p)));
        assert_eq!(get_alignment(o), get_alignment(p));
    }
    assert_eq!(get_opposite_placement(Placement::TopStart), Placement::BottomStart);
}

#[test]
fn opposite_alignment_placement_is_an_involution() {
    for p in all_placements() {
        let o = get_opposite_alignment_placement(p);
        assert_eq!(get_opposite_alignment_placement(o), p);
        assert_eq!(get_side(o), get_side(p));
        assert_eq!(o == p, get_alignment(p).is_none());
    }
    assert_eq!(get_opposite_alignment_placement(Placement::RightEnd), Placement::RightStart);
}

#[test]
fn axes_and_lengths() {
    assert_eq!(get_side_axis(Placement::Top), Axis::Y);
    assert_eq!(get_side_axis(Placement::LeftEnd), Axis::X);
    assert_eq!(get_alignment_axis(Placement::Top), Axis::X);
    assert_eq!(get_opposite_axis(Axis::X), Axis::Y);
    assert_eq!(get_axis_length(Axis::X), Length::Width);
    assert_eq!(get_axis_length(Axis::Y), Length::Height);
}

#[test]
fn expanded_placements_of_an_aligned_placement() {
    assert_eq!(
        get_expanded_placements(Placement::TopStart),
        vec![Placement::TopEnd, Placement::BottomStart, Placement::BottomEnd]
    );
    assert_eq!(
        get_expanded_placements(Placement::Left),
        vec![Placement::Left, Placement::Right, Placement::Right]
    );
}

#[test]
fn alignment_sides() {
    assert_eq!(
        get_alignment_sides(Placement::BottomStart, false, None),
        (Side::Right, Side::Left)
    );
    assert_eq!(
        get_alignment_sides(Placement::BottomStart, false, Some(true)),
        (Side::Left, Side::Right)
    );
    assert_eq!(
        get_alignment_sides(Placement::BottomStart, true, None),
        (Side::Left, Side::Right)
    );
    assert_eq!(get_alignment_sides(Placement::RightStart, false, None), (Side::Bottom, Side::Top));
    assert_eq!(get_alignment_sides(Placement::Right, false, None), (Side::Top, Side::Bottom));
}

#[test]
fn side_lists() {
    assert_eq!(get_side_list(Side::Top, true, None), [Side::Left, Side::Right]);
    assert_eq!(get_side_list(Side::Top, true, Some(true)), [Side::Right, Side::Left]);
    assert_eq!(get_side_list(Side::Bottom, false, None), [Side::Right, Side::Left]);
    assert_eq!(get_side_list(Side::Left, true, Some(true)), [Side::Top, Side::Bottom]);
    assert_eq!(get_side_list(Side::Right, false, None), [Side::Bottom, Side::Top]);
}

#[test]
fn opposite_axis_placements() {
    assert_eq!(
        get_opposite_axis_placements(Placement::TopStart, true, Some(Alignment::Start), None),
        vec![
            Placement::LeftStart,
            Placement::RightStart,
            Placement::LeftEnd,
            Placement::RightEnd
        ]
    );
    assert_eq!(
        get_opposite_axis_placements(Placement::Left, false, None, None),
        vec![Placement::Bottom, Placement::Top]
    );
}
