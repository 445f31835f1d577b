//! Decisions of the `flip` middleware: which placements it tries, and what it
//! does once the overflow of the current placement is known.
use vstd::prelude::*;

use crate::lifecycle::{RectsReset, ResetRequest};
use crate::placement::{
    get_alignment, get_alignment_sides, get_expanded_placements, get_opposite_axis_placements,
    get_opposite_placement, main_alignment_side, opposite_alignment_placement,
    opposite_axis_placements, opposite_placement, opposite_side, side_axis, Alignment, Placement,
    Side,
};

verus! {

/// Name under which the `flip` middleware stores its data.
pub const FLIP_NAME: &'static str = "flip";

/// What to do when no placement fits.
#[derive(Copy, Clone, Debug, PartialEq, Eq, Structural)]
pub enum FallbackStrategy {
    /// The placement that overflows least.
    BestFit,
    /// The initial placement.
    InitialPlacement,
}

impl Default for FallbackStrategy {
    fn default() -> (r: Self)
        ensures
            r == FallbackStrategy::BestFit,
    {
        FallbackStrategy::BestFit
    }
}

/// The fallback placements used when none are specified: the opposite placement
/// (for a base placement, or without alignment flipping) or the expanded placements,
/// followed by the placements on the perpendicular axis when a side direction is given.
pub open spec fn default_fallback_placements(
    initial: Placement,
    flip_alignment: bool,
    direction: Option<Alignment>,
    rtl: Option<bool>,
) -> Seq<Placement> {
    let base = if initial@.1 is None || !flip_alignment {
        seq![opposite_placement(initial)]
    } else {
        seq![
            opposite_alignment_placement(initial),
            opposite_placement(initial),
            opposite_alignment_placement(opposite_placement(initial)),
        ]
    };
    if direction is Some {
        base + opposite_axis_placements(initial, flip_alignment, direction, rtl)
    } else {
        base
    }
}

/// The placements that `flip` tries, in order: the initial placement, then the
/// specified fallback placements or the default ones.
pub open spec fn flip_placements(
    initial: Placement,
    specified: Option<Seq<Placement>>,
    flip_alignment: bool,
    direction: Option<Alignment>,
    rtl: Option<bool>,
) -> Seq<Placement> {
    seq![initial] + match specified {
        Some(s) => s,
        None => default_fallback_placements(initial, flip_alignment, direction, rtl),
    }
}

/// Builds the list of placements that `flip` tries, starting with `initial_placement`.
pub fn get_flip_placements(
    initial_placement: Placement,
    fallback_placements: Option<Vec<Placement>>,
    flip_alignment: bool,
    fallback_axis_side_direction: Option<Alignment>,
    rtl: Option<bool>,
) -> (r: Vec<Placement>)
    ensures
        r@ == flip_placements(
            initial_placement,
            match fallback_placements {
                Some(v) => Some(v@),
                None => None,
            },
            flip_alignment,
            fallback_axis_side_direction,
            rtl,
        ),
{
    let has_specified = fallback_placements.is_some();
    let mut placements = match fallback_placements {
        Some(v) => v,
        None => {
            if get_alignment(initial_placement).is_none() || !flip_alignment {
                vec![get_opposite_placement(initial_placement)]
            } else {
                get_expanded_placements(initial_placement)
            }
        },
    };
    if !has_specified && fallback_axis_side_direction.is_some() {
        let mut extra = get_opposite_axis_placements(
            initial_placement,
            flip_alignment,
            fallback_axis_side_direction,
            rtl,
        );
        placements.append(&mut extra);
    }
    let ghost fallbacks = placements@;
    placements.insert(0, initial_placement);
    assert(placements@ =~= seq![initial_placement] + fallbacks);
    placements
}

/// What `flip` answers once the overflow of the current placement is known.
#[derive(Copy, Clone, Debug, PartialEq, Eq, Structural)]
pub enum FlipAction {
    /// Keep the current placement; return no reset.
    Keep,
    /// Record `index` as the index of the placement now tried, and reset to `placement`.
    TryNext { index: usize, placement: Placement },
    /// Reset to `placement`, which differs from the current placement.
    Reset { placement: Placement },
}

/// The placement `flip` falls back to when every placement overflows: the one chosen
/// for fitting on the main axis if any, else the one chosen by `fallback_strategy`.
pub open spec fn fallback_placement(
    main_axis_fit: Option<Placement>,
    best_fit: Option<Placement>,
    fallback_strategy: FallbackStrategy,
    initial_placement: Placement,
) -> Option<Placement> {
    match main_axis_fit {
        Some(p) => Some(p),
        None => match fallback_strategy {
            FallbackStrategy::BestFit => best_fit,
            FallbackStrategy::InitialPlacement => Some(initial_placement),
        },
    }
}

/// The decision `flip` takes for the current `placement`.
///
/// `arrow_aligned` tells whether the arrow middleware has already shifted the floating
/// element for alignment (then `flip` has done its work); `overflowing` whether any
/// checked side overflows; `index` is the index of the current placement among
/// `placements`; `main_axis_fit` is the tried placement that fits on the main axis with
/// the least cross-axis overflow, and `best_fit` the one with the least total overflow.
pub open spec fn flip_action(
    arrow_aligned: bool,
    overflowing: bool,
    index: usize,
    placements: Seq<Placement>,
    placement: Placement,
    main_axis_fit: Option<Placement>,
    best_fit: Option<Placement>,
    fallback_strategy: FallbackStrategy,
    initial_placement: Placement,
) -> FlipAction {
    if arrow_aligned || !overflowing {
        FlipAction::Keep
    } else if index + 1 < placements.len() {
        FlipAction::TryNext { index: (index + 1) as usize, placement: placements[index + 1] }
    } else {
        let reset = fallback_placement(main_axis_fit, best_fit, fallback_strategy, initial_placement)->0;
        if reset != placement {
            FlipAction::Reset { placement: reset }
        } else {
            FlipAction::Keep
        }
    }
}

/// Decides what `flip` answers for the current placement (see [`flip_action`]).
pub fn decide_flip(
    arrow_aligned: bool,
    overflowing: bool,
    index: usize,
    placements: &Vec<Placement>,
    placement: Placement,
    main_axis_fit: Option<Placement>,
    best_fit: Option<Placement>,
    fallback_strategy: FallbackStrategy,
    initial_placement: Placement,
) -> (r: FlipAction)
    requires
        !arrow_aligned && overflowing ==> index < usize::MAX,
        !arrow_aligned && overflowing && index + 1 >= placements.len() ==> fallback_placement(
            main_axis_fit,
            best_fit,
            fallback_strategy,
            initial_placement,
        ) is Some,
    ensures
        r == flip_action(
            arrow_aligned,
            overflowing,
            index,
            placements@,
            placement,
            main_axis_fit,
            best_fit,
            fallback_strategy,
            initial_placement,
        ),
{
    if arrow_aligned || !overflowing {
        return FlipAction::Keep;
    }
    let next_index = index + 1;
    if next_index < placements.len() {
        return FlipAction::TryNext { index: next_index, placement: placements[next_index] };
    }
    let reset = match main_axis_fit {
        Some(p) => p,
        None => match fallback_strategy {
            FallbackStrategy::BestFit => best_fit.unwrap(),
            FallbackStrategy::InitialPlacement => initial_placement,
        },
    };
    if reset != placement {
        FlipAction::Reset { placement: reset }
    } else {
        FlipAction::Keep
    }
}

/// The sides whose overflow `flip` checks for `placement`: the placement's side when
/// the main axis is checked, then the two sides of the alignment axis (the one
/// overflowed first leading) when the cross axis is checked.
pub open spec fn checked_sides(
    placement: Placement,
    check_main_axis: bool,
    check_cross_axis: bool,
    reference_exceeds: bool,
    rtl: Option<bool>,
) -> Seq<Side> {
    let main_side = main_alignment_side(placement, reference_exceeds, rtl);
    (if check_main_axis {
        seq![placement@.0]
    } else {
        Seq::empty()
    }) + (if check_cross_axis {
        seq![main_side, opposite_side(main_side)]
    } else {
        Seq::empty()
    })
}

/// Lists the sides whose overflow `flip` checks (see [`checked_sides`]).
pub fn get_checked_sides(
    placement: Placement,
    check_main_axis: bool,
    check_cross_axis: bool,
    reference_exceeds: bool,
    rtl: Option<bool>,
) -> (r: Vec<Side>)
    ensures
        r@ == checked_sides(placement, check_main_axis, check_cross_axis, reference_exceeds, rtl),
{
    let mut sides: Vec<Side> = Vec::new();
    if check_main_axis {
        sides.push(placement.side());
    }
    if check_cross_axis {
        let alignment_sides = get_alignment_sides(placement, reference_exceeds, rtl);
        sides.push(alignment_sides.0);
        sides.push(alignment_sides.1);
    }
    proof {
        let main_side = main_alignment_side(placement, reference_exceeds, rtl);
        let a: Seq<Side> = if check_main_axis {
            seq![placement@.0]
        } else {
            Seq::empty()
        };
        let b: Seq<Side> = if check_cross_axis {
            seq![main_side, opposite_side(main_side)]
        } else {
            Seq::empty()
        };
        assert(sides@ =~= a + b);
    }
    sides
}

/// Whether some checked side overflows: `side_overflows[i]` tells whether the
/// overflow of the `i`-th checked side is above zero.
pub open spec fn some_side_overflows(side_overflows: Seq<bool>) -> bool {
    exists|i: int| 0 <= i < side_overflows.len() && #[trigger] side_overflows[i]
}

/// Whether some checked side overflows (see [`some_side_overflows`]).
pub fn any_side_overflows(side_overflows: &Vec<bool>) -> (r: bool)
    ensures
        r == some_side_overflows(side_overflows@),
{
    let n = side_overflows.len();
    let mut i: usize = 0;
    while i < n
        invariant
            n == side_overflows@.len(),
            i <= n,
            forall|j: int| 0 <= j < i ==> !#[trigger] side_overflows@[j],
        decreases n - i,
    {
        if side_overflows[i] {
            return true;
        }
        i = i + 1;
    }
    false
}

/// The reset that `flip` asks for after deciding `action`: none when it keeps the
/// placement, else a reset to the chosen placement that keeps the element rects.
pub open spec fn flip_reset_request(action: FlipAction) -> ResetRequest {
    match action {
        FlipAction::Keep => ResetRequest::NoReset,
        FlipAction::TryNext { placement, .. } => ResetRequest::Value {
            placement: Some(placement),
            rects: RectsReset::Keep,
        },
        FlipAction::Reset { placement } => ResetRequest::Value {
            placement: Some(placement),
            rects: RectsReset::Keep,
        },
    }
}

/// The reset that `flip` asks for after deciding `action` (see [`flip_reset_request`]).
pub fn flip_reset(action: FlipAction) -> (r: ResetRequest)
    ensures
        r == flip_reset_request(action),
{
    match action {
        FlipAction::Keep => ResetRequest::NoReset,
        FlipAction::TryNext { placement, .. } => ResetRequest::Value {
            placement: Some(placement),
            rects: RectsReset::Keep,
        },
        FlipAction::Reset { placement } => ResetRequest::Value {
            placement: Some(placement),
            rects: RectsReset::Keep,
        },
    }
}

/// Whether a tried placement takes part in the best-fit fallback: with a fallback side
/// direction, only placements on the initial side axis or on the `y` axis do.
pub fn best_fit_candidate(
    has_fallback_axis_side_direction: bool,
    placement: Placement,
    initial_placement: Placement,
) -> (r: bool)
    ensures
        r == (!has_fallback_axis_side_direction || side_axis(placement@.0) == side_axis(
            initial_placement@.0,
        ) || side_axis(placement@.0) == crate::placement::Axis::Y),
{
    if has_fallback_axis_side_direction {
        let current = crate::placement::get_side_axis(placement);
        current == crate::placement::get_side_axis(initial_placement)
            || current == crate::placement::Axis::Y
    } else {
        true
    }
}

} // verus!

verus! {

/// `flip` tries the initial placement first, and without specified fallback
/// placements it never tries the initial placement again.
pub proof fn lemma_flip_placements_initial_first(
    initial: Placement,
    specified: Option<Seq<Placement>>,
    flip_alignment: bool,
    direction: Option<Alignment>,
    rtl: Option<bool>,
)
    ensures
        flip_placements(initial, specified, flip_alignment, direction, rtl)[0] == initial,
        flip_placements(initial, specified, flip_alignment, direction, rtl).len() >= 1,
        specified is None ==> forall|i: int|
            1 <= i < flip_placements(initial, specified, flip_alignment, direction, rtl).len()
                ==> #[trigger] flip_placements(
                initial,
                specified,
                flip_alignment,
                direction,
                rtl,
            )[i] != initial,
{
    let l = flip_placements(initial, specified, flip_alignment, direction, rtl);
    if specified is None {
        let d = default_fallback_placements(initial, flip_alignment, direction, rtl);
        crate::placement::lemma_opposite_axis_placements(initial, flip_alignment, direction, rtl);
        assert forall|i: int| 1 <= i < l.len() implies #[trigger] l[i] != initial by {
            assert(l[i] == d[i - 1]);
            let base_len: int = if initial@.1 is None || !flip_alignment {
                1
            } else {
                3
            };
            if i - 1 >= base_len {
                let o = opposite_axis_placements(initial, flip_alignment, direction, rtl);
                assert(d[i - 1] == o[i - 1 - base_len]);
            }
        }
    }
}

/// Without specified fallback placements, `flip` tries no placement twice, unless a
/// base placement is expanded with alignment flipping onto the perpendicular axis
/// (where flipping the alignment of a base placement gives it back).
pub proof fn lemma_flip_placements_distinct(
    initial: Placement,
    flip_alignment: bool,
    direction: Option<Alignment>,
    rtl: Option<bool>,
)
    requires
        initial@.1 is Some || !flip_alignment || direction is None,
    ensures
        ({
            let l = flip_placements(initial, None, flip_alignment, direction, rtl);
            forall|i: int, j: int| 0 <= i < j < l.len() ==> l[i] != l[j]
        }),
{
    let l = flip_placements(initial, None, flip_alignment, direction, rtl);
    let o = opposite_axis_placements(initial, flip_alignment, direction, rtl);
    crate::placement::lemma_opposite_axis_placements(initial, flip_alignment, direction, rtl);
    let base_len: int = if initial@.1 is None || !flip_alignment {
        2
    } else {
        4
    };
    assert forall|i: int, j: int| 0 <= i < j < l.len() implies l[i] != l[j] by {
        if j >= base_len && i >= base_len {
            assert(l[i] == o[i - base_len]);
            assert(l[j] == o[j - base_len]);
            if !flip_alignment {
                assert(o[0]@.0 != o[1]@.0);
            }
        } else if j >= base_len {
            assert(l[j] == o[j - base_len]);
            assert(side_axis(l[j]@.0) != side_axis(initial@.0));
        }
    }
}

/// Every step of `flip` either keeps or resets to another placement, or moves
/// strictly forward through the placement list without leaving it.
pub proof fn lemma_flip_action_progress(
    arrow_aligned: bool,
    overflowing: bool,
    index: usize,
    placements: Seq<Placement>,
    placement: Placement,
    main_axis_fit: Option<Placement>,
    best_fit: Option<Placement>,
    fallback_strategy: FallbackStrategy,
    initial_placement: Placement,
)
    requires
        index < usize::MAX,
    ensures
        ({
            let a = flip_action(
                arrow_aligned,
                overflowing,
                index,
                placements,
                placement,
                main_axis_fit,
                best_fit,
                fallback_strategy,
                initial_placement,
            );
            &&& (!overflowing || arrow_aligned) ==> a == FlipAction::Keep
            &&& a matches FlipAction::TryNext { index: next, placement: p } ==> index < next
                < placements.len() && p == placements[next as int]
            &&& a matches FlipAction::Reset { placement: p } ==> p != placement
        }),
{
}

/// `flip` only asks for a reset when the arrow has not aligned the floating element
/// and some checked side overflows, and the reset is always to a placement, keeping
/// the element rects: to the next placement of the list, or, once the list is
/// exhausted, to the placement that fits on the main axis, the best fit, or the
/// initial placement, and never to the current placement. (When no fallback exists
/// once the list is exhausted, `flip` panics; `requires` leaves that out.)
pub proof fn lemma_flip_reset_request(
    arrow_aligned: bool,
    side_overflows: Seq<bool>,
    index: usize,
    placements: Seq<Placement>,
    placement: Placement,
    main_axis_fit: Option<Placement>,
    best_fit: Option<Placement>,
    fallback_strategy: FallbackStrategy,
    initial_placement: Placement,
)
    requires
        index < usize::MAX,
        !arrow_aligned && some_side_overflows(side_overflows) && index + 1 >= placements.len()
            ==> fallback_placement(main_axis_fit, best_fit, fallback_strategy, initial_placement) is Some,
    ensures
        ({
            let a = flip_action(
                arrow_aligned,
                some_side_overflows(side_overflows),
                index,
                placements,
                placement,
                main_axis_fit,
                best_fit,
                fallback_strategy,
                initial_placement,
            );
            let r = flip_reset_request(a);
            &&& r is NoReset || r is Value
            &&& r is Value ==> r->placement is Some && r->rects == RectsReset::Keep
            &&& r is Value ==> !arrow_aligned && exists|i: int|
                0 <= i < side_overflows.len() && #[trigger] side_overflows[i]
            &&& r is Value ==> {
                let p = r->placement->0;
                ||| (index + 1 < placements.len() && p == placements[index + 1])
                ||| (index + 1 >= placements.len() && p != placement && (main_axis_fit
                    == Some(p) || (main_axis_fit is None && fallback_strategy
                    == FallbackStrategy::BestFit && best_fit == Some(p)) || (main_axis_fit is None
                    && fallback_strategy == FallbackStrategy::InitialPlacement && p
                    == initial_placement)))
            }
        }),
{
}

/// Options for the `flip` middleware; `O` is the type of the options passed on to
/// overflow detection.
#[derive(Clone, Debug, PartialEq)]
pub struct FlipOptions<O> {
    /// Options for overflow detection.
    pub detect_overflow: Option<O>,
    /// Whether overflow along the side axis is checked to perform a flip.
    ///
    /// Defaults to `true`.
    pub main_axis: Option<bool>,
    /// Whether overflow along the alignment axis is checked to perform a flip.
    ///
    /// Defaults to `true`.
    pub cross_axis: Option<bool>,
    /// Placements to try sequentially if the preferred placement does not fit.
    ///
    /// Defaults to the opposite placement.
    pub fallback_placements: Option<Vec<Placement>>,
    /// What to do when no placement fits.
    ///
    /// Defaults to [`FallbackStrategy::BestFit`].
    pub fallback_strategy: Option<FallbackStrategy>,
    /// Whether to allow fallback to the perpendicular axis, and which side direction
    /// along it to prefer.
    ///
    /// Defaults to `None` (no fallback to the perpendicular axis).
    pub fallback_axis_side_direction: Option<Alignment>,
    /// Whether to flip to placements with the opposite alignment if they fit better.
    ///
    /// Defaults to `true`.
    pub flip_alignment: Option<bool>,
}

impl<O> Default for FlipOptions<O> {
    fn default() -> (r: Self)
        ensures
            r.detect_overflow is None,
            r.main_axis is None,
            r.cross_axis is None,
            r.fallback_placements is None,
            r.fallback_strategy is None,
            r.fallback_axis_side_direction is None,
            r.flip_alignment is None,
    {
        FlipOptions {
            detect_overflow: None,
            main_axis: None,
            cross_axis: None,
            fallback_placements: None,
            fallback_strategy: None,
            fallback_axis_side_direction: None,
            flip_alignment: None,
        }
    }
}

impl<O> FlipOptions<O> {
    /// Set `detect_overflow` option.
    pub fn detect_overflow(self, value: O) -> (r: Self)
        ensures
            r == (FlipOptions { detect_overflow: Some(value), ..self }),
    {
        FlipOptions { detect_overflow: Some(value), ..self }
    }

    /// Set `main_axis` option.
    pub fn main_axis(self, value: bool) -> (r: Self)
        ensures
            r == (FlipOptions { main_axis: Some(value), ..self }),
    {
        FlipOptions { main_axis: Some(value), ..self }
    }

    /// Set `cross_axis` option.
    pub fn cross_axis(self, value: bool) -> (r: Self)
        ensures
            r == (FlipOptions { cross_axis: Some(value), ..self }),
    {
        FlipOptions { cross_axis: Some(value), ..self }
    }

    /// Set `fallback_placements` option.
    pub fn fallback_placements(self, value: Vec<Placement>) -> (r: Self)
        ensures
            r == (FlipOptions { fallback_placements: Some(value), ..self }),
    {
        FlipOptions { fallback_placements: Some(value), ..self }
    }

    /// Set `fallback_strategy` option.
    pub fn fallback_strategy(self, value: FallbackStrategy) -> (r: Self)
        ensures
            r == (FlipOptions { fallback_strategy: Some(value), ..self }),
    {
        FlipOptions { fallback_strategy: Some(value), ..self }
    }

    /// Set `fallback_axis_side_direction` option.
    pub fn fallback_axis_side_direction(self, value: Alignment) -> (r: Self)
        ensures
            r == (FlipOptions { fallback_axis_side_direction: Some(value), ..self }),
    {
        FlipOptions { fallback_axis_side_direction: Some(value), ..self }
    }

    /// Set `flip_alignment` option.
    pub fn flip_alignment(self, value: bool) -> (r: Self)
        ensures
            r == (FlipOptions { flip_alignment: Some(value), ..self }),
    {
        FlipOptions { flip_alignment: Some(value), ..self }
    }
}

/// The settings `flip` runs with, its options resolved against their defaults.
#[derive(Copy, Clone, Debug, PartialEq, Eq, Structural)]
pub struct FlipSettings {
    /// Check the overflow of the placement's side (default `true`).
    pub check_main_axis: bool,
    /// Check the overflow of the sides of the alignment axis (default `true`).
    pub check_cross_axis: bool,
    /// What to do when no placement fits (default [`FallbackStrategy::BestFit`]).
    pub fallback_strategy: FallbackStrategy,
    /// Flip to placements with the opposite alignment (default `true`).
    pub flip_alignment: bool,
    /// A side direction on the perpendicular axis is given (no default).
    pub has_fallback_axis_side_direction: bool,
}

/// The settings of `flip` for `options`: both axes are checked, the best fit is the
/// fallback and alignments are flipped unless the options say otherwise.
pub open spec fn flip_settings<O>(options: &FlipOptions<O>) -> FlipSettings {
    FlipSettings {
        check_main_axis: match options.main_axis {
            Some(b) => b,
            None => true,
        },
        check_cross_axis: match options.cross_axis {
            Some(b) => b,
            None => true,
        },
        fallback_strategy: match options.fallback_strategy {
            Some(s) => s,
            None => FallbackStrategy::BestFit,
        },
        flip_alignment: match options.flip_alignment {
            Some(b) => b,
            None => true,
        },
        has_fallback_axis_side_direction: options.fallback_axis_side_direction is Some,
    }
}

/// Resolves the options of `flip` against their defaults (see [`flip_settings`]).
pub fn get_flip_settings<O>(options: &FlipOptions<O>) -> (r: FlipSettings)
    ensures
        r == flip_settings(options),
{
    FlipSettings {
        check_main_axis: match options.main_axis {
            Some(b) => b,
            None => true,
        },
        check_cross_axis: match options.cross_axis {
            Some(b) => b,
            None => true,
        },
        fallback_strategy: match options.fallback_strategy {
            Some(s) => s,
            None => FallbackStrategy::BestFit,
        },
        flip_alignment: match options.flip_alignment {
            Some(b) => b,
            None => true,
        },
        has_fallback_axis_side_direction: options.fallback_axis_side_direction.is_some(),
    }
}

/// The placements `flip` tries for `options`, starting with `initial_placement`:
/// alignment flipping is on by default.
pub fn get_flip_placements_for<O>(
    options: &FlipOptions<O>,
    initial_placement: Placement,
    rtl: Option<bool>,
) -> (r: Vec<Placement>)
    ensures
        r@ == flip_placements(
            initial_placement,
            match options.fallback_placements {
                Some(v) => Some(v@),
                None => None,
            },
            match options.flip_alignment {
                Some(b) => b,
                None => true,
            },
            options.fallback_axis_side_direction,
            rtl,
        ),
{
    let specified = match &options.fallback_placements {
        Some(v) => Some(v.clone()),
        None => None,
    };
    let flip_alignment = match options.flip_alignment {
        Some(b) => b,
        None => true,
    };
    get_flip_placements(
        initial_placement,
        specified,
        flip_alignment,
        options.fallback_axis_side_direction,
        rtl,
    )
}

/// What `flip` does with an overflowing placement. While placements are left it
/// tries the next one. Once every placement has been tried it resets to the
/// placement that fits on the main axis if there is one; otherwise, with the
/// best-fit strategy, to the best fit, and with the initial-placement strategy, to
/// the initial placement; it keeps the current placement only when that is already
/// the one chosen. Without overflow, or once the arrow has aligned the element, it
/// keeps the placement.
pub proof fn lemma_flip_action_cases(
    arrow_aligned: bool,
    overflowing: bool,
    index: usize,
    placements: Seq<Placement>,
    placement: Placement,
    main_axis_fit: Option<Placement>,
    best_fit: Option<Placement>,
    fallback_strategy: FallbackStrategy,
    initial_placement: Placement,
)
    requires
        index < usize::MAX,
    ensures
        ({
            let a = flip_action(
                arrow_aligned,
                overflowing,
                index,
                placements,
                placement,
                main_axis_fit,
                best_fit,
                fallback_strategy,
                initial_placement,
            );
            let tried_all = !arrow_aligned && overflowing && index + 1 >= placements.len();
            &&& (arrow_aligned || !overflowing) ==> a == FlipAction::Keep
            &&& !arrow_aligned && overflowing && index + 1 < placements.len() ==> a
                == FlipAction::TryNext { index: (index + 1) as usize, placement: placements[index + 1] }
            &&& tried_all && main_axis_fit == Some(placement) ==> a == FlipAction::Keep
            &&& forall|m: Placement|
                tried_all && main_axis_fit == Some(m) && m != placement ==> a
                    == FlipAction::Reset { placement: m }
            &&& forall|b: Placement|
                tried_all && main_axis_fit is None && fallback_strategy == FallbackStrategy::BestFit
                    && best_fit == Some(b) && b != placement ==> a == FlipAction::Reset {
                    placement: b,
                }
            &&& tried_all && main_axis_fit is None && fallback_strategy == FallbackStrategy::BestFit
                && best_fit == Some(placement) ==> a == FlipAction::Keep
            &&& tried_all && main_axis_fit is None && fallback_strategy
                == FallbackStrategy::InitialPlacement && initial_placement != placement ==> a
                == FlipAction::Reset { placement: initial_placement }
            &&& tried_all && main_axis_fit is None && fallback_strategy
                == FallbackStrategy::InitialPlacement && initial_placement == placement ==> a
                == FlipAction::Keep
        }),
{
}

/// The checked sides: the placement's own side first when the main axis is checked,
/// then, when the cross axis is checked, the two opposite sides of the alignment
/// axis; nothing else.
pub proof fn lemma_checked_sides(
    placement: Placement,
    check_main_axis: bool,
    check_cross_axis: bool,
    reference_exceeds: bool,
    rtl: Option<bool>,
)
    ensures
        ({
            let s = checked_sides(placement, check_main_axis, check_cross_axis, reference_exceeds, rtl);
            let c: int = if check_main_axis { 1 } else { 0 };
            &&& s.len() == c + if check_cross_axis { 2int } else { 0int }
            &&& check_main_axis ==> s[0] == placement@.0
            &&& check_cross_axis ==> s[c] == opposite_side(s[c + 1])
            &&& check_cross_axis ==> side_axis(s[c]) != side_axis(placement@.0)
            &&& check_cross_axis ==> side_axis(s[c + 1]) != side_axis(placement@.0)
        }),
{
}


/// Without options `flip` checks both axes, falls back to the best fit, flips
/// alignments and stays on the side axis; each option that is set is what `flip` runs
/// with.
pub proof fn lemma_flip_settings_defaults<O>(options: FlipOptions<O>)
    ensures
        options.main_axis is None ==> flip_settings(&options).check_main_axis,
        options.cross_axis is None ==> flip_settings(&options).check_cross_axis,
        options.fallback_strategy is None ==> flip_settings(&options).fallback_strategy
            == FallbackStrategy::BestFit,
        options.flip_alignment is None ==> flip_settings(&options).flip_alignment,
        options.fallback_axis_side_direction is None ==> !flip_settings(
            &options,
        ).has_fallback_axis_side_direction,
        forall|b: bool| options.main_axis == Some(b) ==> flip_settings(&options).check_main_axis == b,
        forall|b: bool|
            options.cross_axis == Some(b) ==> flip_settings(&options).check_cross_axis == b,
        forall|f: FallbackStrategy|
            options.fallback_strategy == Some(f) ==> flip_settings(&options).fallback_strategy == f,
        forall|b: bool|
            options.flip_alignment == Some(b) ==> flip_settings(&options).flip_alignment == b,
        options.fallback_axis_side_direction is Some ==> flip_settings(
            &options,
        ).has_fallback_axis_side_direction,
{
}

} // verus!
