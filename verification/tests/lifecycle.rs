use floating_ui::lifecycle::{
    record_middleware_data, resolve_strategy, start_lifecycle, step_lifecycle, Lifecycle,
    LifecycleAction, RectsReset, ResetRequest, MAX_RESETS,
};
use floating_ui::middleware_data::MiddlewareData;
use floating_ui::placement::{Placement, Strategy};

const NOTHING: LifecycleAction = LifecycleAction {
    refetch_rects: false,
    replace_rects: false,
    recompute_coords: false,
};

#[test]
fn defaults() {
    let s = start_lifecycle(None);
    assert_eq!(s, Lifecycle { index: 0, reset_count: 0, placement: Placement::Bottom });
    assert_eq!(start_lifecycle(Some(Placement::Top)).placement, Placement::Top);
    assert_eq!(resolve_strategy(None), Strategy::Absolute);
    assert_eq!(resolve_strategy(Some(Strategy::Fixed)), Strategy::Fixed);
}

#[test]
fn no_reset_moves_to_the_next_middleware() {
    let s = start_lifecycle(Some(Placement::Top));
    let (t, action) = step_lifecycle(s, ResetRequest::NoReset, 2);
    assert_eq!(t, Lifecycle { index: 1, reset_count: 0, placement: Placement::Top });
    assert_eq!(action, NOTHING);
}

#[test]
fn reset_with_placement_reruns_the_middleware() {
    let s = Lifecycle { index: 1, reset_count: 0, placement: Placement::Top };
    let (t, action) = step_lifecycle(
        s,
        ResetRequest::Value { placement: Some(Placement::Bottom), rects: RectsReset::Refetch },
        2,
    );
    assert_eq!(t, Lifecycle { index: 1, reset_count: 1, placement: Placement::Bottom });
    assert_eq!(
        action,
        LifecycleAction { refetch_rects: true, replace_rects: false, recompute_coords: true }
    );
    let (_, replace) = step_lifecycle(
        s,
        ResetRequest::Value { placement: None, rects: RectsReset::Replace },
        2,
    );
    assert_eq!(
        replace,
        LifecycleAction { refetch_rects: false, replace_rects: true, recompute_coords: true }
    );
    let (rerun, plain) = step_lifecycle(s, ResetRequest::Rerun, 2);
    assert_eq!(rerun, Lifecycle { index: 1, reset_count: 1, placement: Placement::Top });
    assert_eq!(plain, NOTHING);
}

#[test]
fn resets_beyond_the_limit_are_ignored() {
    let s = Lifecycle { index: 1, reset_count: MAX_RESETS + 1, placement: Placement::Top };
    let (t, action) = step_lifecycle(s, ResetRequest::Rerun, 3);
    assert_eq!(t, Lifecycle { index: 2, reset_count: MAX_RESETS + 1, placement: Placement::Top });
    assert_eq!(action, NOTHING);
}

#[test]
fn a_middleware_that_always_resets_is_run_a_bounded_number_of_times() {
    let mut s = start_lifecycle(None);
    s = step_lifecycle(s, ResetRequest::NoReset, 2).0;
    let mut runs = 0;
    while s.index < 2 {
        s = step_lifecycle(s, ResetRequest::Rerun, 2).0;
        runs += 1;
    }
    assert_eq!(runs, MAX_RESETS + 2);
    assert_eq!(s.reset_count, MAX_RESETS + 1);
}

#[test]
fn whole_run_makes_a_bounded_number_of_calls() {
    for count in 1usize..4 {
        let mut s = start_lifecycle(Some(Placement::Left));
        let mut calls = 0usize;
        while s.index < count {
            let request = if s.index == 0 {
                ResetRequest::NoReset
            } else {
                ResetRequest::Value {
                    placement: Some(Placement::Right),
                    rects: RectsReset::Keep,
                }
            };
            s = step_lifecycle(s, request, count).0;
            calls += 1;
        }
        assert!(calls <= count + MAX_RESETS + 1);
        assert!(calls <= (MAX_RESETS + 2) * count);
        assert_eq!(s.index + s.reset_count, calls);
        assert!(s.reset_count <= MAX_RESETS + 1);
    }
}

#[test]
fn returned_data_is_kept_under_the_middleware_name() {
    let mut store = MiddlewareData::new();
    record_middleware_data(&mut store, "offset", Some(serde_json::Value::from(1)));
    record_middleware_data(&mut store, "flip", None);
    assert_eq!(store.get("offset"), Some(&serde_json::Value::from(1)));
    assert_eq!(store.get("flip"), None);
    record_middleware_data(&mut store, "flip", Some(serde_json::Value::from("a")));
    record_middleware_data(&mut store, "offset", None);
    assert_eq!(store.get("offset"), Some(&serde_json::Value::from(1)));
    assert_eq!(store.get("flip"), Some(&serde_json::Value::from("a")));
    record_middleware_data(&mut store, "offset", Some(serde_json::Value::from(2)));
    assert_eq!(store.get("offset"), Some(&serde_json::Value::from(2)));
}
