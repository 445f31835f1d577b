use floating_ui::flip::{
    any_side_overflows, best_fit_candidate, decide_flip, flip_reset, get_checked_sides,
    get_flip_placements, get_flip_placements_for, get_flip_settings, FallbackStrategy, FlipAction,
    FlipOptions, FlipSettings,
};
use floating_ui::lifecycle::{RectsReset, ResetRequest};
use floating_ui::placement::{Alignment, Placement, Side};

#[test]
fn base_placement_falls_back_to_opposite() {
    assert_eq!(
        get_flip_placements(Placement::Top, None, true, None, None),
        vec![Placement::Top, Placement::Bottom]
    );
}

#[test]
fn aligned_placement_falls_back_to_expanded_placements() {
    assert_eq!(
        get_flip_placements(Placement::TopStart, None, true, None, None),
        vec![
            Placement::TopStart,
            Placement::TopEnd,
            Placement::BottomStart,
            Placement::BottomEnd
        ]
    );
    assert_eq!(
        get_flip_placements(Placement::TopStart, None, false, None, None),
        vec![Placement::TopStart, Placement::BottomStart]
    );
}

#[test]
fn fallback_axis_side_direction_adds_perpendicular_placements() {
    assert_eq!(
        get_flip_placements(Placement::Bottom, None, true, Some(Alignment::End), None),
        vec![
            Placement::Bottom,
            Placement::Top,
            Placement::Right,
            Placement::Left,
            Placement::Right,
            Placement::Left
        ]
    );
    assert_eq!(
        get_flip_placements(Placement::Bottom, None, false, Some(Alignment::Start), None),
        vec![Placement::Bottom, Placement::Top, Placement::Left, Placement::Right]
    );
}

#[test]
fn specified_fallbacks_are_used_as_given() {
    assert_eq!(
        get_flip_placements(
            Placement::Top,
            Some(vec![Placement::Right, Placement::Left]),
            true,
            Some(Alignment::Start),
            None
        ),
        vec![Placement::Top, Placement::Right, Placement::Left]
    );
}

#[test]
fn options_builders_and_defaults() {
    let options: FlipOptions<()> = FlipOptions::default()
        .main_axis(false)
        .cross_axis(true)
        .fallback_strategy(FallbackStrategy::InitialPlacement)
        .fallback_axis_side_direction(Alignment::End)
        .flip_alignment(false);
    assert_eq!(options.main_axis, Some(false));
    assert_eq!(options.cross_axis, Some(true));
    assert_eq!(options.fallback_strategy, Some(FallbackStrategy::InitialPlacement));
    assert_eq!(options.fallback_placements, None);
    assert_eq!(
        get_flip_placements_for(&options, Placement::TopStart, None),
        vec![
            Placement::TopStart,
            Placement::BottomStart,
            Placement::RightStart,
            Placement::LeftStart
        ]
    );
    let defaults: FlipOptions<()> = FlipOptions::default();
    assert_eq!(
        get_flip_placements_for(&defaults, Placement::RightEnd, None),
        vec![
            Placement::RightEnd,
            Placement::RightStart,
            Placement::LeftEnd,
            Placement::LeftStart
        ]
    );
    assert_eq!(FallbackStrategy::default(), FallbackStrategy::BestFit);
}

#[test]
fn flip_keeps_when_nothing_overflows() {
    let placements = vec![Placement::Top, Placement::Bottom];
    let action = decide_flip(
        false,
        false,
        0,
        &placements,
        Placement::Top,
        None,
        None,
        FallbackStrategy::BestFit,
        Placement::Top,
    );
    assert_eq!(action, FlipAction::Keep);
    let skipped = decide_flip(
        true,
        true,
        0,
        &placements,
        Placement::Top,
        None,
        None,
        FallbackStrategy::BestFit,
        Placement::Top,
    );
    assert_eq!(skipped, FlipAction::Keep);
}

#[test]
fn flip_tries_the_next_placement() {
    let placements = vec![Placement::Top, Placement::Bottom];
    assert_eq!(
        decide_flip(
            false,
            true,
            0,
            &placements,
            Placement::Top,
            None,
            None,
            FallbackStrategy::BestFit,
            Placement::Top,
        ),
        FlipAction::TryNext { index: 1, placement: Placement::Bottom }
    );
}

#[test]
fn flip_falls_back_when_every_placement_overflows() {
    let placements = vec![Placement::Top, Placement::Bottom];
    assert_eq!(
        decide_flip(
            false,
            true,
            1,
            &placements,
            Placement::Bottom,
            Some(Placement::Top),
            Some(Placement::Bottom),
            FallbackStrategy::BestFit,
            Placement::Top,
        ),
        FlipAction::Reset { placement: Placement::Top }
    );
    assert_eq!(
        decide_flip(
            false,
            true,
            1,
            &placements,
            Placement::Bottom,
            None,
            Some(Placement::Bottom),
            FallbackStrategy::BestFit,
            Placement::Top,
        ),
        FlipAction::Keep
    );
    assert_eq!(
        decide_flip(
            false,
            true,
            1,
            &placements,
            Placement::Bottom,
            None,
            None,
            FallbackStrategy::InitialPlacement,
            Placement::Top,
        ),
        FlipAction::Reset { placement: Placement::Top }
    );
}

#[test]
fn best_fit_candidates_favour_the_y_axis() {
    assert!(best_fit_candidate(false, Placement::Left, Placement::Top));
    assert!(best_fit_candidate(true, Placement::Bottom, Placement::Left));
    assert!(best_fit_candidate(true, Placement::Right, Placement::Left));
    assert!(!best_fit_candidate(true, Placement::Left, Placement::Top));
}

#[test]
fn checked_sides_follow_the_axes_checked() {
    assert_eq!(
        get_checked_sides(Placement::TopStart, true, true, false, None),
        vec![Side::Top, Side::Right, Side::Left]
    );
    assert_eq!(
        get_checked_sides(Placement::TopStart, true, true, true, None),
        vec![Side::Top, Side::Left, Side::Right]
    );
    assert_eq!(
        get_checked_sides(Placement::TopStart, true, true, false, Some(true)),
        vec![Side::Top, Side::Left, Side::Right]
    );
    assert_eq!(
        get_checked_sides(Placement::RightEnd, false, true, false, None),
        vec![Side::Top, Side::Bottom]
    );
    assert_eq!(
        get_checked_sides(Placement::Bottom, true, false, false, None),
        vec![Side::Bottom]
    );
    assert_eq!(get_checked_sides(Placement::Left, false, false, false, None), vec![]);
}

#[test]
fn overflowing_when_some_side_overflows() {
    assert!(!any_side_overflows(&vec![]));
    assert!(!any_side_overflows(&vec![false, false, false]));
    assert!(any_side_overflows(&vec![false, false, true]));
    assert!(any_side_overflows(&vec![true]));
}

#[test]
fn flip_resets_only_to_a_placement() {
    assert_eq!(flip_reset(FlipAction::Keep), ResetRequest::NoReset);
    assert_eq!(
        flip_reset(FlipAction::TryNext {
            index: 1,
            placement: Placement::Top
        }),
        ResetRequest::Value {
            placement: Some(Placement::Top),
            rects: RectsReset::Keep
        }
    );
    assert_eq!(
        flip_reset(FlipAction::Reset {
            placement: Placement::LeftStart
        }),
        ResetRequest::Value {
            placement: Some(Placement::LeftStart),
            rects: RectsReset::Keep
        }
    );
}

#[test]
fn flip_option_defaults() {
    let options: FlipOptions<u8> = FlipOptions::default();
    assert_eq!(
        get_flip_settings(&options),
        FlipSettings {
            check_main_axis: true,
            check_cross_axis: true,
            fallback_strategy: FallbackStrategy::BestFit,
            flip_alignment: true,
            has_fallback_axis_side_direction: false,
        }
    );
    let options: FlipOptions<u8> = FlipOptions::default()
        .main_axis(false)
        .cross_axis(false)
        .fallback_strategy(FallbackStrategy::InitialPlacement)
        .flip_alignment(false)
        .fallback_axis_side_direction(Alignment::End);
    assert_eq!(
        get_flip_settings(&options),
        FlipSettings {
            check_main_axis: false,
            check_cross_axis: false,
            fallback_strategy: FallbackStrategy::InitialPlacement,
            flip_alignment: false,
            has_fallback_axis_side_direction: true,
        }
    );
}
