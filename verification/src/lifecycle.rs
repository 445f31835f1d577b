//! The middleware lifecycle that `compute_position` runs: which middleware runs
//! next, when a reset requested by a middleware is honoured, and what it changes.
//!
//! The caller runs the loop: it runs the middleware at `index`, reports the reset it
//! asked for, performs the returned action (fetching or replacing the element rects,
//! recomputing the coordinates from the placement), and stops once `index` reaches
//! the number of middleware.
use vstd::prelude::*;

use crate::middleware_data::MiddlewareData;
use crate::placement::{Placement, Strategy};

verus! {

/// How many resets are honoured before further reset requests are ignored.
pub const MAX_RESETS: usize = 50;

/// What happens to the element rects on a reset.
#[derive(Copy, Clone, Debug, PartialEq, Eq, Structural)]
pub enum RectsReset {
    /// Keep the current rects.
    Keep,
    /// Ask the platform for the rects again.
    Refetch,
    /// Use the rects that the middleware returned.
    Replace,
}

/// The reset a middleware asked for.
#[derive(Copy, Clone, Debug, PartialEq, Eq, Structural)]
pub enum ResetRequest {
    /// No reset.
    NoReset,
    /// A plain reset: run the middleware again.
    Rerun,
    /// A reset with a new placement (if any) and a change of the rects.
    Value { placement: Option<Placement>, rects: RectsReset },
}

/// State of the lifecycle between two middleware runs.
#[derive(Copy, Clone, Debug, PartialEq, Eq, Structural)]
pub struct Lifecycle {
    /// Index of the middleware to run next.
    pub index: usize,
    /// Number of resets honoured so far.
    pub reset_count: usize,
    /// The current placement.
    pub placement: Placement,
}

/// What the caller does after a middleware has run.
#[derive(Copy, Clone, Debug, PartialEq, Eq, Structural)]
pub struct LifecycleAction {
    /// Ask the platform for the element rects again.
    pub refetch_rects: bool,
    /// Take the element rects returned by the middleware.
    pub replace_rects: bool,
    /// Recompute the coordinates from the (new) placement and rects.
    pub recompute_coords: bool,
}

/// The state in which the lifecycle starts: first middleware, no reset yet, the
/// configured placement or `Bottom`.
pub open spec fn initial_lifecycle(placement: Option<Placement>) -> Lifecycle {
    Lifecycle {
        index: 0,
        reset_count: 0,
        placement: match placement {
            Some(p) => p,
            None => Placement::Bottom,
        },
    }
}

/// Whether a reset request is honoured in state `s`.
pub open spec fn honours_reset(s: Lifecycle, request: ResetRequest) -> bool {
    request != ResetRequest::NoReset && s.reset_count <= MAX_RESETS
}

/// The state after the middleware at `s.index` asked for `request`: an honoured
/// reset counts, may change the placement, and runs the same middleware again;
/// otherwise the next middleware runs.
pub open spec fn next_lifecycle(s: Lifecycle, request: ResetRequest) -> Lifecycle {
    if honours_reset(s, request) {
        Lifecycle {
            index: s.index,
            reset_count: (s.reset_count + 1) as usize,
            placement: match request {
                ResetRequest::Value { placement: Some(p), .. } => p,
                _ => s.placement,
            },
        }
    } else {
        Lifecycle { index: (s.index + 1) as usize, ..s }
    }
}

/// What the caller does after the middleware at `s.index` asked for `request`.
pub open spec fn lifecycle_action(s: Lifecycle, request: ResetRequest) -> LifecycleAction {
    if honours_reset(s, request) {
        match request {
            ResetRequest::Value { rects, .. } => LifecycleAction {
                refetch_rects: rects == RectsReset::Refetch,
                replace_rects: rects == RectsReset::Replace,
                recompute_coords: true,
            },
            _ => LifecycleAction {
                refetch_rects: false,
                replace_rects: false,
                recompute_coords: false,
            },
        }
    } else {
        LifecycleAction { refetch_rects: false, replace_rects: false, recompute_coords: false }
    }
}

/// The state in which `compute_position` starts its middleware loop.
pub fn start_lifecycle(placement: Option<Placement>) -> (r: Lifecycle)
    ensures
        r == initial_lifecycle(placement),
{
    Lifecycle {
        index: 0,
        reset_count: 0,
        placement: match placement {
            Some(p) => p,
            None => Placement::Bottom,
        },
    }
}

/// The strategy `compute_position` uses: the configured one or `Absolute`.
pub fn resolve_strategy(strategy: Option<Strategy>) -> (r: Strategy)
    ensures
        r == (match strategy {
            Some(s) => s,
            None => Strategy::Absolute,
        }),
{
    match strategy {
        Some(s) => s,
        None => Strategy::Absolute,
    }
}

/// Whether the loop still has a middleware to run.
pub open spec fn lifecycle_running(s: Lifecycle, middleware_count: usize) -> bool {
    s.index < middleware_count
}

/// Advances the lifecycle after the middleware at `state.index` asked for `request`.
///
/// The index is first decreased and then increased again when a reset is honoured,
/// so an honoured reset from the first middleware is refused (`requires`).
pub fn step_lifecycle(state: Lifecycle, request: ResetRequest, middleware_count: usize) -> (r: (
    Lifecycle,
    LifecycleAction,
))
    requires
        lifecycle_running(state, middleware_count),
        honours_reset(state, request) ==> state.index > 0,
    ensures
        r.0 == next_lifecycle(state, request),
        r.1 == lifecycle_action(state, request),
{
    let honoured = match request {
        ResetRequest::NoReset => false,
        _ => state.reset_count <= MAX_RESETS,
    };
    if honoured {
        let placement = match request {
            ResetRequest::Value { placement: Some(p), .. } => p,
            _ => state.placement,
        };
        let action = match request {
            ResetRequest::Value { rects, .. } => LifecycleAction {
                refetch_rects: rects == RectsReset::Refetch,
                replace_rects: rects == RectsReset::Replace,
                recompute_coords: true,
            },
            _ => LifecycleAction {
                refetch_rects: false,
                replace_rects: false,
                recompute_coords: false,
            },
        };
        let index = state.index - 1;
        let next = Lifecycle { index: index + 1, reset_count: state.reset_count + 1, placement };
        (next, action)
    } else {
        let next = Lifecycle { index: state.index + 1, ..state };
        (next, LifecycleAction { refetch_rects: false, replace_rects: false, recompute_coords: false })
    }
}

/// The data store after a middleware named `name` returned `data`: returned data is
/// stored under the middleware's name, replacing what was stored there before;
/// without data the store is unchanged.
pub open spec fn recorded_data(
    store: Map<Seq<char>, serde_json::Value>,
    name: Seq<char>,
    data: Option<serde_json::Value>,
) -> Map<Seq<char>, serde_json::Value> {
    match data {
        Some(d) => store.insert(name, d),
        None => store,
    }
}

/// Stores the data that the middleware named `name` returned, so that the
/// middleware run after it, and the caller of `compute_position`, read it under
/// that name.
pub fn record_middleware_data(
    store: &mut MiddlewareData,
    name: &str,
    data: Option<serde_json::Value>,
)
    ensures
        final(store)@ == recorded_data(old(store)@, name@, data),
{
    match data {
        Some(d) => store.set(name, d),
        None => {},
    }
}

/// The data store after the middleware calls listed in `outputs` (each the name
/// of the middleware and the data it returned, in the order of the calls),
/// starting from an empty store.
pub open spec fn data_after(outputs: Seq<(Seq<char>, Option<serde_json::Value>)>) -> Map<
    Seq<char>,
    serde_json::Value,
>
    decreases outputs.len(),
{
    if outputs.len() == 0 {
        Map::empty()
    } else {
        recorded_data(
            data_after(outputs.drop_last()),
            outputs.last().0,
            outputs.last().1,
        )
    }
}

} // verus!

verus! {

/// The data that a middleware outputs is kept under its name: once call `k` of the
/// middleware named `name` returned `Some(d)`, and no later call of a middleware with
/// that name returned data, every later call reads `d` under `name` (the call at
/// position `j` reads `data_after(outputs.take(j))`), and so does the caller at the
/// end of the loop.
pub proof fn lemma_returned_data_is_kept(
    outputs: Seq<(Seq<char>, Option<serde_json::Value>)>,
    k: int,
    name: Seq<char>,
    d: serde_json::Value,
)
    requires
        0 <= k < outputs.len(),
        outputs[k] == (name, Some(d)),
        forall|j: int|
            k < j < outputs.len() && (#[trigger] outputs[j]).0 == name ==> outputs[j].1 is None,
    ensures
        forall|j: int|
            k < j <= outputs.len() ==> #[trigger] data_after(outputs.take(j)).contains_key(name)
                && data_after(outputs.take(j))[name] == d,
        data_after(outputs).contains_key(name),
        data_after(outputs)[name] == d,
{
    assert forall|j: int| k < j <= outputs.len() implies #[trigger] data_after(
        outputs.take(j),
    ).contains_key(name) && data_after(outputs.take(j))[name] == d by {
        lemma_data_kept_prefix(outputs, k, name, d, j);
    }
    lemma_data_kept_prefix(outputs, k, name, d, outputs.len() as int);
    assert(outputs.take(outputs.len() as int) =~= outputs);
}

proof fn lemma_data_kept_prefix(
    outputs: Seq<(Seq<char>, Option<serde_json::Value>)>,
    k: int,
    name: Seq<char>,
    d: serde_json::Value,
    j: int,
)
    requires
        0 <= k < outputs.len(),
        outputs[k] == (name, Some(d)),
        forall|i: int|
            k < i < outputs.len() && (#[trigger] outputs[i]).0 == name ==> outputs[i].1 is None,
        k < j <= outputs.len(),
    ensures
        data_after(outputs.take(j)).contains_key(name),
        data_after(outputs.take(j))[name] == d,
    decreases j,
{
    let t = outputs.take(j);
    assert(t.drop_last() =~= outputs.take(j - 1));
    assert(t.last() == outputs[j - 1]);
    if j - 1 > k {
        lemma_data_kept_prefix(outputs, k, name, d, j - 1);
    }
}

/// Runs of the middleware loop: `states[i + 1]` is the state after the call made in
/// `states[i]`, which asked for `requests[i]`.
pub open spec fn is_lifecycle_run(
    states: Seq<Lifecycle>,
    requests: Seq<ResetRequest>,
    middleware_count: usize,
    placement: Option<Placement>,
) -> bool {
    &&& states.len() == requests.len() + 1
    &&& states[0] == initial_lifecycle(placement)
    &&& forall|i: int|
        0 <= i < requests.len() ==> lifecycle_running(#[trigger] states[i], middleware_count)
            && states[i + 1] == next_lifecycle(states[i], requests[i])
}

/// However the middleware answer, `compute_position` makes at most
/// `middleware_count + MAX_RESETS + 1` middleware calls, so at most
/// `(MAX_RESETS + 2) * middleware_count`: each call either moves to the next
/// middleware or is followed by an honoured reset, and at most `MAX_RESETS + 1`
/// resets are honoured (later ones are ignored). Every state of a run is valid.
#[verifier::spinoff_prover]
pub proof fn lemma_lifecycle_run_bounded(
    states: Seq<Lifecycle>,
    requests: Seq<ResetRequest>,
    middleware_count: usize,
    placement: Option<Placement>,
)
    requires
        is_lifecycle_run(states, requests, middleware_count, placement),
    ensures
        requests.len() <= middleware_count + MAX_RESETS + 1,
        requests.len() <= (MAX_RESETS + 2) * middleware_count,
        forall|i: int| 0 <= i < states.len() ==> lifecycle_valid(#[trigger] states[i], middleware_count),
        forall|i: int| 0 <= i < states.len() ==> (#[trigger] states[i]).reset_count <= MAX_RESETS + 1,
{
    lemma_run_prefix(states, requests, middleware_count, placement, requests.len() as int);
    assert forall|i: int| 0 <= i < states.len() implies lifecycle_valid(
        #[trigger] states[i],
        middleware_count,
    ) by {
        lemma_run_prefix(states, requests, middleware_count, placement, i);
    }
    let n = requests.len() as int;
    if n > 0 {
        assert(lifecycle_running(states[n - 1], middleware_count));
        assert(middleware_count >= 1);
        assert(middleware_count + MAX_RESETS + 1 <= (MAX_RESETS + 2) * middleware_count);
    }
}

/// One step keeps the state valid and adds one to `index + reset_count`.
proof fn lemma_step_counts(s: Lifecycle, request: ResetRequest, middleware_count: usize)
    requires
        lifecycle_valid(s, middleware_count),
        lifecycle_running(s, middleware_count),
    ensures
        lifecycle_valid(next_lifecycle(s, request), middleware_count),
        next_lifecycle(s, request).index + next_lifecycle(s, request).reset_count == s.index
            + s.reset_count + 1,
{
}

#[verifier::spinoff_prover]
proof fn lemma_run_prefix(
    states: Seq<Lifecycle>,
    requests: Seq<ResetRequest>,
    middleware_count: usize,
    placement: Option<Placement>,
    i: int,
)
    requires
        is_lifecycle_run(states, requests, middleware_count, placement),
        0 <= i <= requests.len(),
    ensures
        lifecycle_valid(states[i], middleware_count),
        states[i].index + states[i].reset_count == i,
    decreases i,
{
    if i > 0 {
        lemma_run_prefix(states, requests, middleware_count, placement, i - 1);
        assert(lifecycle_running(states[i - 1], middleware_count));
        lemma_step_counts(states[i - 1], requests[i - 1], middleware_count);
    }
}

/// A bound on the number of middleware runs left in state `s`.
pub open spec fn lifecycle_measure(s: Lifecycle, middleware_count: usize) -> int {
    (MAX_RESETS + 1 - s.reset_count) * (middleware_count + 1) + (middleware_count - s.index)
}

/// Reachable states: the index stays within the middleware list and at most
/// `MAX_RESETS + 1` resets are ever honoured.
pub open spec fn lifecycle_valid(s: Lifecycle, middleware_count: usize) -> bool {
    s.index <= middleware_count && s.reset_count <= MAX_RESETS + 1
}

/// The lifecycle starts in a valid state.
pub proof fn lemma_initial_lifecycle_valid(placement: Option<Placement>, middleware_count: usize)
    ensures
        lifecycle_valid(initial_lifecycle(placement), middleware_count),
        initial_lifecycle(placement).placement == (match placement {
            Some(p) => p,
            None => Placement::Bottom,
        }),
{
}

/// Every step keeps the state valid and either honours one more reset or moves to
/// the next middleware; the measure drops by at least one, so the middleware loop of
/// `compute_position` always ends, after at most `MAX_RESETS + 1` honoured resets.
pub proof fn lemma_lifecycle_step_terminates(
    s: Lifecycle,
    request: ResetRequest,
    middleware_count: usize,
)
    requires
        lifecycle_valid(s, middleware_count),
        lifecycle_running(s, middleware_count),
    ensures
        ({
            let t = next_lifecycle(s, request);
            &&& lifecycle_valid(t, middleware_count)
            &&& (t.reset_count == s.reset_count + 1 && t.index == s.index) || (t.reset_count
                == s.reset_count && t.index == s.index + 1)
            &&& 0 <= lifecycle_measure(t, middleware_count) < lifecycle_measure(s, middleware_count)
        }),
{
    let t = next_lifecycle(s, request);
    let n = middleware_count as int;
    let r = (MAX_RESETS + 1 - s.reset_count) as int;
    if honours_reset(s, request) {
        assert((r - 1) * (n + 1) + (n - s.index) < r * (n + 1) + (n - s.index)) by (nonlinear_arith)
            requires
                n >= 0,
        ;
        assert(0 <= (r - 1) * (n + 1)) by (nonlinear_arith)
            requires
                r >= 1,
                n >= 0,
        ;
    } else {
        assert(0 <= r * (n + 1)) by (nonlinear_arith)
            requires
                r >= 0,
                n >= 0,
        ;
    }
}

/// An honoured reset with a placement switches to that placement; without a reset,
/// or with an ignored one, the placement stays and the next middleware runs.
pub proof fn lemma_lifecycle_reset_placement(
    s: Lifecycle,
    request: ResetRequest,
    middleware_count: usize,
)
    requires
        lifecycle_running(s, middleware_count),
    ensures
        honours_reset(s, request) ==> (request matches ResetRequest::Value {
            placement: Some(p),
            ..
        } ==> next_lifecycle(s, request).placement == p),
        !honours_reset(s, request) ==> next_lifecycle(s, request).placement == s.placement
            && next_lifecycle(s, request).index == s.index + 1,
        !honours_reset(s, request) ==> lifecycle_action(s, request) == (LifecycleAction {
            refetch_rects: false,
            replace_rects: false,
            recompute_coords: false,
        }),
        s.reset_count > MAX_RESETS ==> !honours_reset(s, request),
{
}

/// What a middleware's reset does: an honoured reset with a value always recomputes
/// the coordinates, whatever happens to the rects, fetches the rects again exactly
/// when asked to and takes the returned rects exactly when given, and moves to the
/// requested placement (keeping the placement when none is given); a plain reset
/// only runs the middleware again; an ignored request, or none, changes nothing but
/// the index.
pub proof fn lemma_reset_effects(s: Lifecycle, request: ResetRequest, middleware_count: usize)
    requires
        lifecycle_running(s, middleware_count),
    ensures
        request is Value && s.reset_count <= MAX_RESETS ==> {
            let a = lifecycle_action(s, request);
            let t = next_lifecycle(s, request);
            &&& a.recompute_coords
            &&& a.refetch_rects <==> request->rects == RectsReset::Refetch
            &&& a.replace_rects <==> request->rects == RectsReset::Replace
            &&& !(a.refetch_rects && a.replace_rects)
            &&& t.placement == (match request->placement {
                Some(p) => p,
                None => s.placement,
            })
            &&& t.index == s.index
            &&& t.reset_count == s.reset_count + 1
        },
        request == ResetRequest::Rerun && s.reset_count <= MAX_RESETS ==> {
            let a = lifecycle_action(s, request);
            let t = next_lifecycle(s, request);
            &&& !a.recompute_coords && !a.refetch_rects && !a.replace_rects
            &&& t.placement == s.placement && t.index == s.index
            &&& t.reset_count == s.reset_count + 1
        },
        (request == ResetRequest::NoReset || s.reset_count > MAX_RESETS) ==> {
            let a = lifecycle_action(s, request);
            let t = next_lifecycle(s, request);
            &&& !a.recompute_coords && !a.refetch_rects && !a.replace_rects
            &&& t.placement == s.placement && t.index == s.index + 1
            &&& t.reset_count == s.reset_count
        },
{
}

} // verus!
