//! Decisions of the layout-shift observer that `auto_update` sets up on the
//! reference element, and of its resize observer and animation frame loop.
//!
//! The observer watches how much of the reference intersects the viewport. Each
//! refresh drops the current intersection observer and, when the reference has an
//! area, creates a new one whose threshold is given by [`MoveThreshold`]. The caller
//! compares the reported intersection ratio with that threshold and with zero, and
//! hands the outcome to [`on_intersection`]; the decision says whether to refresh,
//! to retry after a delay, or to do nothing.
use vstd::prelude::*;

verus! {

/// The threshold with which a new intersection observer is created.
#[derive(Copy, Clone, Debug, PartialEq, Eq, Structural)]
pub enum MoveThreshold {
    /// Report when the reference is fully visible again (`1`).
    Full,
    /// Report on the slightest change (a tiny positive ratio), used after a retry.
    Minimal,
    /// Report when the ratio leaves the one just observed.
    Observed,
}

/// A refresh of the observer: drop the current intersection observer, notify the
/// caller of a move if `notify`, and observe again with `threshold`.
#[derive(Copy, Clone, Debug, PartialEq, Eq, Structural)]
pub struct Refresh {
    /// Call the update callback.
    pub notify: bool,
    /// Threshold of the new intersection observer.
    pub threshold: MoveThreshold,
}

/// What the observer does when its intersection observer reports.
#[derive(Copy, Clone, Debug, PartialEq, Eq, Structural)]
pub enum IntersectionResponse {
    /// The ratio is the one observed for: nothing to do.
    Ignore,
    /// Refresh the observer.
    Refresh(Refresh),
    /// The reference is clipped on the first report: refresh with
    /// [`MoveThreshold::Minimal`] after a delay instead of at once.
    RetryLater,
}

/// State of the current intersection observer.
#[derive(Copy, Clone, Debug, PartialEq, Eq, Structural)]
pub struct MoveObserverState {
    /// No change of ratio has been reported by the current observer yet.
    pub first_update: bool,
}

/// The refresh made when the observer starts: no notification, full threshold.
pub open spec fn start_refresh() -> Refresh {
    Refresh { notify: false, threshold: MoveThreshold::Full }
}

/// The refresh made when the delay of a retry has passed.
pub open spec fn retry_refresh() -> Refresh {
    Refresh { notify: true, threshold: MoveThreshold::Minimal }
}

/// The refresh that observation starts with.
pub fn start_move_observer() -> (r: Refresh)
    ensures
        r == start_refresh(),
{
    Refresh { notify: false, threshold: MoveThreshold::Full }
}

/// The refresh made when the delay of a retry has passed.
pub fn on_retry_timeout() -> (r: Refresh)
    ensures
        r == retry_refresh(),
{
    Refresh { notify: true, threshold: MoveThreshold::Minimal }
}

/// The response of the observer in `state` to a report whose ratio equals the
/// threshold observed for (`ratio_is_threshold`) or is zero (`ratio_is_zero`), and the
/// state of the observer afterwards.
pub open spec fn intersection_response(
    state: MoveObserverState,
    ratio_is_threshold: bool,
    ratio_is_zero: bool,
) -> (IntersectionResponse, MoveObserverState) {
    if ratio_is_threshold {
        (IntersectionResponse::Ignore, state)
    } else if !state.first_update {
        (
            IntersectionResponse::Refresh(Refresh { notify: true, threshold: MoveThreshold::Full }),
            state,
        )
    } else if ratio_is_zero {
        (IntersectionResponse::RetryLater, MoveObserverState { first_update: false })
    } else {
        (
            IntersectionResponse::Refresh(
                Refresh { notify: true, threshold: MoveThreshold::Observed },
            ),
            MoveObserverState { first_update: false },
        )
    }
}

/// Decides what the observer does when its intersection observer reports.
pub fn on_intersection(state: MoveObserverState, ratio_is_threshold: bool, ratio_is_zero: bool) -> (r:
    (IntersectionResponse, MoveObserverState))
    ensures
        r == intersection_response(state, ratio_is_threshold, ratio_is_zero),
{
    if ratio_is_threshold {
        return (IntersectionResponse::Ignore, state);
    }
    if !state.first_update {
        return (
            IntersectionResponse::Refresh(Refresh { notify: true, threshold: MoveThreshold::Full }),
            state,
        );
    }
    if ratio_is_zero {
        (IntersectionResponse::RetryLater, MoveObserverState { first_update: false })
    } else {
        (
            IntersectionResponse::Refresh(
                Refresh { notify: true, threshold: MoveThreshold::Observed },
            ),
            MoveObserverState { first_update: false },
        )
    }
}

/// Whether a refresh creates a new intersection observer: only a reference with a
/// non-empty area is observed. When it does, the new observer starts in
/// `MoveObserverState { first_update: true }`.
pub fn refresh_observes(has_width: bool, has_height: bool) -> (r: bool)
    ensures
        r == (has_width && has_height),
{
    has_width && has_height
}

/// The state of a newly created intersection observer.
pub fn new_observer_state() -> (r: MoveObserverState)
    ensures
        r.first_update,
{
    MoveObserverState { first_update: true }
}

/// What the observer holds between two events: a retry waiting for its delay, and an
/// intersection observer.
#[derive(Copy, Clone, Debug, PartialEq, Eq, Structural)]
pub struct MoveResources {
    /// A retry is scheduled and its delay has not passed.
    pub timeout_pending: bool,
    /// An intersection observer is watching the reference.
    pub has_observer: bool,
}

/// What a cleanup releases.
#[derive(Copy, Clone, Debug, PartialEq, Eq, Structural)]
pub struct MoveCleanup {
    /// Clear the scheduled retry.
    pub clear_timeout: bool,
    /// Disconnect the intersection observer.
    pub disconnect: bool,
}

/// The cleanup of the observer holding `held`, and what it holds afterwards: the
/// pending retry is cleared, the observer disconnected, and nothing is held. Every
/// refresh starts with it, and stopping the observation is it.
pub open spec fn move_cleanup(held: MoveResources) -> (MoveCleanup, MoveResources) {
    (
        MoveCleanup { clear_timeout: held.timeout_pending, disconnect: held.has_observer },
        MoveResources { timeout_pending: false, has_observer: false },
    )
}

/// Decides what a cleanup of the observer releases (see [`move_cleanup`]).
pub fn cleanup_move_observer(held: MoveResources) -> (r: (MoveCleanup, MoveResources))
    ensures
        r == move_cleanup(held),
{
    (
        MoveCleanup { clear_timeout: held.timeout_pending, disconnect: held.has_observer },
        MoveResources { timeout_pending: false, has_observer: false },
    )
}

/// After a cleanup no retry is pending and no intersection observer watches the
/// reference, so nothing can report to the observer or call the update any more;
/// only what was held is released. Since each refresh starts with a cleanup, at most
/// one intersection observer exists at a time.
pub proof fn lemma_cleanup_releases_everything(held: MoveResources)
    ensures
        ({
            let (cleanup, after) = move_cleanup(held);
            &&& !after.timeout_pending && !after.has_observer
            &&& cleanup.clear_timeout == held.timeout_pending
            &&& cleanup.disconnect == held.has_observer
        }),
{
}

/// What the resize observer does with a batch of entries.
#[derive(Copy, Clone, Debug, PartialEq, Eq, Structural)]
pub struct ResizeResponse {
    /// Cancel the pending animation frame that would observe the floating element again.
    pub cancel_pending_frame: bool,
    /// Request an animation frame that observes the floating element again.
    pub request_frame: bool,
    /// Call the update callback.
    pub update: bool,
}

/// The response to a batch of resize entries: when the first entry is the reference
/// element, any pending frame is replaced by a new one; the update always runs.
pub open spec fn resize_response(first_is_reference: bool, frame_pending: bool) -> ResizeResponse {
    ResizeResponse {
        cancel_pending_frame: first_is_reference && frame_pending,
        request_frame: first_is_reference,
        update: true,
    }
}

/// Decides what the resize observer does with a batch of entries whose first entry is
/// (`first_is_reference`) or is not the reference element, while a frame is or is not
/// pending.
pub fn on_resize(first_is_reference: bool, frame_pending: bool) -> (r: ResizeResponse)
    ensures
        r == resize_response(first_is_reference, frame_pending),
{
    if first_is_reference {
        ResizeResponse { cancel_pending_frame: frame_pending, request_frame: true, update: true }
    } else {
        ResizeResponse { cancel_pending_frame: false, request_frame: false, update: true }
    }
}

/// Whether the animation frame loop calls the update: only when a previous rect of the
/// reference was recorded and the new one differs from it in position or size.
pub fn frame_needs_update(has_previous: bool, position_or_size_changed: bool) -> (r: bool)
    ensures
        r == (has_previous && position_or_size_changed),
{
    has_previous && position_or_size_changed
}

/// A report whose ratio is the threshold observed for never causes a refresh; a
/// retry is only scheduled on the first report of an observer, for a clipped
/// reference, so a clipped reference cannot make the observer refresh over and over
/// at once; every refresh after a report notifies the caller of the move; and once an
/// observer has reported a change, it stays past its first update.
pub proof fn lemma_intersection_response(
    state: MoveObserverState,
    ratio_is_threshold: bool,
    ratio_is_zero: bool,
)
    ensures
        ({
            let (response, next) = intersection_response(state, ratio_is_threshold, ratio_is_zero);
            &&& ratio_is_threshold ==> response == IntersectionResponse::Ignore && next == state
            &&& response == IntersectionResponse::RetryLater ==> state.first_update
                && ratio_is_zero && !next.first_update
            &&& response matches IntersectionResponse::Refresh(refresh) ==> refresh.notify
            &&& !ratio_is_threshold ==> !next.first_update
            &&& !state.first_update ==> !next.first_update
        }),
{
}

/// The start of observation does not notify; a retry and every other refresh do.
pub proof fn lemma_only_start_is_silent()
    ensures
        !start_refresh().notify,
        retry_refresh().notify,
{
}

/// A pending frame is only cancelled when a new one replaces it, so at most one frame
/// is pending at a time, and each batch of resize entries runs the update.
pub proof fn lemma_resize_response(first_is_reference: bool, frame_pending: bool)
    ensures
        ({
            let r = resize_response(first_is_reference, frame_pending);
            &&& r.cancel_pending_frame ==> r.request_frame
            &&& frame_pending && r.request_frame ==> r.cancel_pending_frame
            &&& r.update
        }),
{
}

/// The threshold a refresh observes with: the first change an observer reports is
/// followed by observing the newly reported ratio, every later change by observing
/// full visibility, and a retry by observing the slightest change; observation
/// starts with full visibility. A clipped reference on the first report is retried
/// rather than refreshed at once.
pub proof fn lemma_refresh_thresholds(state: MoveObserverState, ratio_is_zero: bool)
    ensures
        state.first_update && !ratio_is_zero ==> intersection_response(state, false, ratio_is_zero).0
            == IntersectionResponse::Refresh(
            Refresh { notify: true, threshold: MoveThreshold::Observed },
        ),
        state.first_update && ratio_is_zero ==> intersection_response(state, false, ratio_is_zero).0
            == IntersectionResponse::RetryLater,
        !state.first_update ==> intersection_response(state, false, ratio_is_zero).0
            == IntersectionResponse::Refresh(
            Refresh { notify: true, threshold: MoveThreshold::Full },
        ),
        start_refresh().threshold == MoveThreshold::Full,
        retry_refresh().threshold == MoveThreshold::Minimal,
        resize_response(true, false).request_frame && !resize_response(false, true).request_frame,
{
}

} // verus!
