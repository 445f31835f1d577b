use floating_ui::move_observer::{cleanup_move_observer, MoveCleanup, MoveResources};
use floating_ui::move_observer::{
    frame_needs_update, new_observer_state, on_intersection, on_resize, on_retry_timeout,
    refresh_observes, start_move_observer, IntersectionResponse, MoveObserverState, MoveThreshold,
    Refresh, ResizeResponse,
};

#[test]
fn observation_starts_silently_with_full_threshold() {
    assert_eq!(
        start_move_observer(),
        Refresh {
            notify: false,
            threshold: MoveThreshold::Full
        }
    );
    assert!(new_observer_state().first_update);
}

#[test]
fn ratio_equal_to_threshold_is_ignored() {
    let state = MoveObserverState { first_update: true };
    assert_eq!(
        on_intersection(state, true, false),
        (IntersectionResponse::Ignore, state)
    );
    let state = MoveObserverState { first_update: false };
    assert_eq!(
        on_intersection(state, true, true),
        (IntersectionResponse::Ignore, state)
    );
}

#[test]
fn first_change_refreshes_with_observed_ratio() {
    let (response, next) = on_intersection(MoveObserverState { first_update: true }, false, false);
    assert_eq!(
        response,
        IntersectionResponse::Refresh(Refresh {
            notify: true,
            threshold: MoveThreshold::Observed
        })
    );
    assert!(!next.first_update);
}

#[test]
fn clipped_reference_retries_later() {
    let (response, next) = on_intersection(MoveObserverState { first_update: true }, false, true);
    assert_eq!(response, IntersectionResponse::RetryLater);
    assert!(!next.first_update);
    assert_eq!(
        on_retry_timeout(),
        Refresh {
            notify: true,
            threshold: MoveThreshold::Minimal
        }
    );
}

#[test]
fn later_change_refreshes_with_full_threshold() {
    for zero in [false, true] {
        let (response, next) =
            on_intersection(MoveObserverState { first_update: false }, false, zero);
        assert_eq!(
            response,
            IntersectionResponse::Refresh(Refresh {
                notify: true,
                threshold: MoveThreshold::Full
            })
        );
        assert!(!next.first_update);
    }
}

#[test]
fn only_references_with_area_are_observed() {
    assert!(refresh_observes(true, true));
    assert!(!refresh_observes(false, true));
    assert!(!refresh_observes(true, false));
    assert!(!refresh_observes(false, false));
}

#[test]
fn resize_of_reference_replaces_pending_frame() {
    assert_eq!(
        on_resize(true, true),
        ResizeResponse {
            cancel_pending_frame: true,
            request_frame: true,
            update: true
        }
    );
    assert_eq!(
        on_resize(true, false),
        ResizeResponse {
            cancel_pending_frame: false,
            request_frame: true,
            update: true
        }
    );
    assert_eq!(
        on_resize(false, true),
        ResizeResponse {
            cancel_pending_frame: false,
            request_frame: false,
            update: true
        }
    );
}

#[test]
fn frame_loop_updates_only_on_change() {
    assert!(frame_needs_update(true, true));
    assert!(!frame_needs_update(true, false));
    assert!(!frame_needs_update(false, true));
}

#[test]
fn cleanup_releases_what_is_held() {
    let nothing = MoveResources {
        timeout_pending: false,
        has_observer: false,
    };
    assert_eq!(
        cleanup_move_observer(MoveResources {
            timeout_pending: true,
            has_observer: true
        }),
        (
            MoveCleanup {
                clear_timeout: true,
                disconnect: true
            },
            nothing
        )
    );
    assert_eq!(
        cleanup_move_observer(MoveResources {
            timeout_pending: false,
            has_observer: true
        }),
        (
            MoveCleanup {
                clear_timeout: false,
                disconnect: true
            },
            nothing
        )
    );
    assert_eq!(
        cleanup_move_observer(nothing),
        (
            MoveCleanup {
                clear_timeout: false,
                disconnect: false
            },
            nothing
        )
    );
}
