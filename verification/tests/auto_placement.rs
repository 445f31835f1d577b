use floating_ui::auto_placement::{
    decide_auto_placement, get_auto_placements, get_placement_list, AutoPlacement,
    AutoPlacementOptions,
};
use floating_ui::placement::{Alignment, Placement};

fn allowed() -> Vec<Placement> {
    vec![
        Placement::Top,
        Placement::Bottom,
        Placement::Left,
        Placement::Right,
        Placement::TopStart,
        Placement::RightEnd,
        Placement::LeftStart,
    ]
}

#[test]
fn test_base_placement() {
    assert_eq!(
        get_placement_list(
            None,
            false,
            vec![
                Placement::Top,
                Placement::Bottom,
                Placement::Left,
                Placement::Right,
                Placement::TopStart,
                Placement::RightEnd,
            ]
        ),
        vec![
            Placement::Top,
            Placement::Bottom,
            Placement::Left,
            Placement::Right,
        ]
    )
}

#[test]
fn test_start_alignment_without_auto_alignment() {
    assert_eq!(
        get_placement_list(Some(Alignment::Start), false, allowed()),
        vec![Placement::TopStart, Placement::LeftStart]
    )
}

#[test]
fn test_start_alignment_with_auto_alignment() {
    assert_eq!(
        get_placement_list(Some(Alignment::Start), true, allowed()),
        vec![
            Placement::TopStart,
            Placement::LeftStart,
            Placement::RightEnd,
        ]
    )
}

#[test]
fn test_end_alignment_without_auto_alignment() {
    assert_eq!(
        get_placement_list(Some(Alignment::End), false, allowed()),
        vec![Placement::RightEnd,]
    )
}

#[test]
fn test_end_alignment_with_auto_alignment() {
    assert_eq!(
        get_placement_list(Some(Alignment::End), true, allowed()),
        vec![
            Placement::RightEnd,
            Placement::TopStart,
            Placement::LeftStart
        ]
    )
}

#[test]
fn placement_list_of_empty_allowed_is_empty() {
    assert_eq!(get_placement_list(Some(Alignment::Start), true, vec![]), vec![]);
    assert_eq!(get_placement_list(None, true, vec![]), vec![]);
}

#[test]
fn placement_list_only_holds_allowed_placements() {
    let list = get_placement_list(Some(Alignment::End), true, allowed());
    for p in &list {
        assert!(allowed().contains(p));
    }
}

#[test]
fn default_auto_placements_are_all_placements_with_auto_alignment() {
    let options: AutoPlacementOptions<()> = AutoPlacementOptions::default();
    let list = get_auto_placements(&options);
    // Without an alignment only the base placements remain.
    assert_eq!(
        list,
        vec![Placement::Top, Placement::Right, Placement::Bottom, Placement::Left]
    );
}

#[test]
fn auto_placement_resets_to_first_then_next() {
    let list = vec![Placement::Top, Placement::Right];
    assert_eq!(decide_auto_placement(&list, Placement::Bottom), Some(Placement::Top));
    assert_eq!(decide_auto_placement(&list, Placement::Top), Some(Placement::Right));
    assert_eq!(decide_auto_placement(&vec![Placement::Left], Placement::Left), None);
}

#[test]
fn auto_placement_middleware_name() {
    let middleware: AutoPlacement<()> = AutoPlacement::new(AutoPlacementOptions::new());
    assert_eq!(middleware.name(), "autoPlacement");
}

#[test]
fn detect_overflow_options_unset_by_default() {
    let options: AutoPlacementOptions<u8> = AutoPlacementOptions::new();
    assert_eq!(options.detect_overflow_options(), None);
}
