//! The placement list that the `autoPlacement` middleware tries.
use vstd::prelude::*;

use crate::placement::{
    all_placements, all_placements_spec, get_alignment, get_opposite_alignment_placement,
    opposite_alignment_placement, Alignment, Placement,
};

verus! {

/// Placements whose alignment is exactly `alignment` (`None`: base placements).
pub open spec fn aligned_with(alignment: Option<Alignment>) -> spec_fn(Placement) -> bool {
    |p: Placement| p@.1 == alignment
}

/// Placements with another alignment that are still accepted when `auto_alignment`
/// allows the opposite alignment: aligned placements whose alignment differs.
pub open spec fn auto_aligned_otherwise(alignment: Alignment, auto_alignment: bool) -> spec_fn(
    Placement,
) -> bool {
    |p: Placement|
        p@.1 != Some(alignment) && auto_alignment && opposite_alignment_placement(p) != p
}

/// The placements to try, in order: with an alignment, first the allowed placements
/// that carry it, then (with `auto_alignment`) the other aligned ones; without an
/// alignment, the allowed base placements.
pub open spec fn placement_list(
    alignment: Option<Alignment>,
    auto_alignment: bool,
    allowed: Seq<Placement>,
) -> Seq<Placement> {
    match alignment {
        Some(a) => allowed.filter(aligned_with(Some(a))) + allowed.filter(
            auto_aligned_otherwise(a, auto_alignment),
        ),
        None => allowed.filter(aligned_with(None)),
    }
}

proof fn lemma_filter_step(s: Seq<Placement>, pred: spec_fn(Placement) -> bool, i: int)
    requires
        0 <= i < s.len(),
    ensures
        s.take(i + 1).filter(pred) == (if pred(s[i]) {
            s.take(i).filter(pred).push(s[i])
        } else {
            s.take(i).filter(pred)
        }),
{
    reveal(Seq::filter);
    assert(s.take(i + 1).drop_last() =~= s.take(i));
    assert(s.take(i + 1).last() == s[i]);
}

/// Orders and filters `allowed_placements` by `alignment`, as `autoPlacement` does.
pub fn get_placement_list(
    alignment: Option<Alignment>,
    auto_alignment: bool,
    allowed_placements: Vec<Placement>,
) -> (r: Vec<Placement>)
    ensures
        r@ == placement_list(alignment, auto_alignment, allowed_placements@),
{
    let n = allowed_placements.len();
    let mut list: Vec<Placement> = Vec::new();
    let mut i: usize = 0;
    while i < n
        invariant
            n == allowed_placements.len(),
            i <= n,
            list@ == allowed_placements@.take(i as int).filter(aligned_with(alignment)),
        decreases n - i,
    {
        let p = allowed_placements[i];
        proof {
            lemma_filter_step(allowed_placements@, aligned_with(alignment), i as int);
        }
        let keep = match (get_alignment(p), alignment) {
            (None, None) => true,
            (Some(Alignment::Start), Some(Alignment::Start)) => true,
            (Some(Alignment::End), Some(Alignment::End)) => true,
            _ => false,
        };
        if keep {
            list.push(p);
        }
        i = i + 1;
    }
    assert(allowed_placements@.take(n as int) =~= allowed_placements@);
    match alignment {
        None => list,
        Some(a) => {
            let ghost first = list@;
            let mut j: usize = 0;
            while j < n
                invariant
                    n == allowed_placements.len(),
                    j <= n,
                    list@ == first + allowed_placements@.take(j as int).filter(
                        auto_aligned_otherwise(a, auto_alignment),
                    ),
                decreases n - j,
            {
                let p = allowed_placements[j];
                proof {
                    lemma_filter_step(
                        allowed_placements@,
                        auto_aligned_otherwise(a, auto_alignment),
                        j as int,
                    );
                }
                let same = match (get_alignment(p), a) {
                    (Some(Alignment::Start), Alignment::Start) => true,
                    (Some(Alignment::End), Alignment::End) => true,
                    _ => false,
                };
                let aligned = get_opposite_alignment_placement(p) != p;
                if !same && auto_alignment && aligned {
                    list.push(p);
                }
                j = j + 1;
            }
            assert(allowed_placements@.take(n as int) =~= allowed_placements@);
            list
        },
    }
}

} // verus!

verus! {

/// Every placement in the list is one of the allowed placements.
pub proof fn lemma_placement_list_only_allowed(
    alignment: Option<Alignment>,
    auto_alignment: bool,
    allowed: Seq<Placement>,
    p: Placement,
)
    requires
        placement_list(alignment, auto_alignment, allowed).contains(p),
    ensures
        allowed.contains(p),
{
    broadcast use Seq::lemma_filter_contains_rev;
    match alignment {
        Some(a) => {
            let f1 = allowed.filter(aligned_with(Some(a)));
            let f2 = allowed.filter(auto_aligned_otherwise(a, auto_alignment));
            let k = choose|k: int| 0 <= k < (f1 + f2).len() && (f1 + f2)[k] == p;
            if k < f1.len() {
                assert(f1[k] == p);
                assert(f1.contains(p));
            } else {
                assert(f2[k - f1.len()] == p);
                assert(f2.contains(p));
            }
        },
        None => {},
    }
}

/// Every allowed placement that carries the requested alignment (or, without an
/// alignment, every allowed base placement) is in the list.
pub proof fn lemma_placement_list_keeps_aligned(
    alignment: Option<Alignment>,
    auto_alignment: bool,
    allowed: Seq<Placement>,
    i: int,
)
    requires
        0 <= i < allowed.len(),
        allowed[i]@.1 == alignment,
    ensures
        placement_list(alignment, auto_alignment, allowed).contains(allowed[i]),
{
    broadcast use Seq::lemma_filter_contains;
    match alignment {
        Some(a) => {
            let f1 = allowed.filter(aligned_with(Some(a)));
            let f2 = allowed.filter(auto_aligned_otherwise(a, auto_alignment));
            assert(f1.contains(allowed[i]));
            let k = choose|k: int| 0 <= k < f1.len() && f1[k] == allowed[i];
            assert((f1 + f2)[k] == allowed[i]);
        },
        None => {},
    }
}

/// Without automatic alignment, or without an alignment, every placement in the
/// list has exactly the requested alignment.
pub proof fn lemma_placement_list_exact_alignment(
    alignment: Option<Alignment>,
    auto_alignment: bool,
    allowed: Seq<Placement>,
    i: int,
)
    requires
        !auto_alignment || alignment is None,
        0 <= i < placement_list(alignment, auto_alignment, allowed).len(),
    ensures
        placement_list(alignment, auto_alignment, allowed)[i]@.1 == alignment,
{
    broadcast use Seq::lemma_filter_pred;
    match alignment {
        Some(a) => {
            let f1 = allowed.filter(aligned_with(Some(a)));
            let f2 = allowed.filter(auto_aligned_otherwise(a, auto_alignment));
            if i < f1.len() {
                assert((f1 + f2)[i] == f1[i]);
            } else {
                assert((f1 + f2)[i] == f2[i - f1.len()]);
                assert(auto_aligned_otherwise(a, auto_alignment)(f2[i - f1.len()]));
            }
        },
        None => {},
    }
}

/// With an alignment, the placements that carry it come before every other
/// placement of the list.
pub proof fn lemma_placement_list_alignment_first(
    a: Alignment,
    auto_alignment: bool,
    allowed: Seq<Placement>,
    i: int,
    j: int,
)
    requires
        0 <= i < j < placement_list(Some(a), auto_alignment, allowed).len(),
        placement_list(Some(a), auto_alignment, allowed)[j]@.1 == Some(a),
    ensures
        placement_list(Some(a), auto_alignment, allowed)[i]@.1 == Some(a),
{
    broadcast use Seq::lemma_filter_pred;
    let f1 = allowed.filter(aligned_with(Some(a)));
    let f2 = allowed.filter(auto_aligned_otherwise(a, auto_alignment));
    if j >= f1.len() {
        assert((f1 + f2)[j] == f2[j - f1.len()]);
        assert(auto_aligned_otherwise(a, auto_alignment)(f2[j - f1.len()]));
        assert(false);
    }
    assert((f1 + f2)[i] == f1[i]);
}

/// With an alignment, every placement of the list is an aligned placement.
pub proof fn lemma_placement_list_aligned(
    a: Alignment,
    auto_alignment: bool,
    allowed: Seq<Placement>,
    i: int,
)
    requires
        0 <= i < placement_list(Some(a), auto_alignment, allowed).len(),
    ensures
        placement_list(Some(a), auto_alignment, allowed)[i]@.1 is Some,
{
    broadcast use Seq::lemma_filter_pred;
    let f1 = allowed.filter(aligned_with(Some(a)));
    let f2 = allowed.filter(auto_aligned_otherwise(a, auto_alignment));
    if i < f1.len() {
        assert((f1 + f2)[i] == f1[i]);
    } else {
        assert((f1 + f2)[i] == f2[i - f1.len()]);
        assert(auto_aligned_otherwise(a, auto_alignment)(f2[i - f1.len()]));
    }
}

/// Options for the `autoPlacement` middleware; `O` is the type of the options passed
/// on to overflow detection.
#[derive(Clone, Debug)]
pub struct AutoPlacementOptions<O> {
    detect_overflow: Option<O>,
    cross_axis: Option<bool>,
    alignment: Option<Alignment>,
    auto_alignment: Option<bool>,
    allowed_placements: Option<Vec<Placement>>,
}

impl<O> AutoPlacementOptions<O> {
    /// Options with every field unset.
    pub fn new() -> (r: Self)
        ensures
            r.detect_overflow_spec() is None,
            r.cross_axis_spec() is None,
            r.alignment_spec() is None,
            r.auto_alignment_spec() is None,
            r.allowed_placements_spec() is None,
    {
        AutoPlacementOptions {
            detect_overflow: None,
            cross_axis: None,
            alignment: None,
            auto_alignment: None,
            allowed_placements: None,
        }
    }

    pub closed spec fn detect_overflow_spec(&self) -> Option<O> {
        self.detect_overflow
    }

    /// The options passed on to overflow detection, if set.
    pub fn detect_overflow_options(&self) -> (r: Option<&O>)
        ensures
            match r {
                Some(v) => self.detect_overflow_spec() == Some(*v),
                None => self.detect_overflow_spec() is None,
            },
    {
        match &self.detect_overflow {
            Some(v) => Some(v),
            None => None,
        }
    }

    pub closed spec fn cross_axis_spec(&self) -> Option<bool> {
        self.cross_axis
    }

    pub closed spec fn alignment_spec(&self) -> Option<Alignment> {
        self.alignment
    }

    pub closed spec fn auto_alignment_spec(&self) -> Option<bool> {
        self.auto_alignment
    }

    pub closed spec fn allowed_placements_spec(&self) -> Option<Seq<Placement>> {
        match self.allowed_placements {
            Some(v) => Some(v@),
            None => None,
        }
    }
}

impl<O> Default for AutoPlacementOptions<O> {
    fn default() -> (r: Self)
        ensures
            r.detect_overflow_spec() is None,
            r.cross_axis_spec() is None,
            r.alignment_spec() is None,
            r.auto_alignment_spec() is None,
            r.allowed_placements_spec() is None,
    {
        AutoPlacementOptions::new()
    }
}

/// The placements `autoPlacement` considers: the configured list as is when it is
/// given without an alignment, otherwise the list from [`placement_list`] over the
/// allowed placements (all placements by default), with automatic alignment on by
/// default.
pub open spec fn auto_placements(
    alignment: Option<Alignment>,
    auto_alignment: Option<bool>,
    allowed: Option<Seq<Placement>>,
) -> Seq<Placement> {
    let allowed_or_all = match allowed {
        Some(s) => s,
        None => all_placements_spec(),
    };
    if alignment is Some || allowed is None {
        placement_list(
            alignment,
            match auto_alignment {
                Some(b) => b,
                None => true,
            },
            allowed_or_all,
        )
    } else {
        allowed_or_all
    }
}

/// The placements `autoPlacement` considers for `options`.
pub fn get_auto_placements<O>(options: &AutoPlacementOptions<O>) -> (r: Vec<Placement>)
    ensures
        r@ == auto_placements(
            options.alignment_spec(),
            options.auto_alignment_spec(),
            options.allowed_placements_spec(),
        ),
{
    let alignment = options.alignment;
    let auto_alignment = match options.auto_alignment {
        Some(b) => b,
        None => true,
    };
    let allowed = match &options.allowed_placements {
        Some(v) => v.clone(),
        None => all_placements(),
    };
    proof {
        assert(allowed@ == (match options.allowed_placements_spec() {
            Some(s) => s,
            None => all_placements_spec(),
        }));
    }
    if alignment.is_some() || options.allowed_placements.is_none() {
        get_placement_list(alignment, auto_alignment, allowed)
    } else {
        allowed
    }
}

/// The reset `autoPlacement` asks for: the first placement when the current
/// placement differs from it, else the second placement if there is one.
pub open spec fn auto_placement_reset(placements: Seq<Placement>, placement: Placement) -> Option<
    Placement,
> {
    if placement != placements[0] {
        Some(placements[0])
    } else if placements.len() > 1 {
        Some(placements[1])
    } else {
        None
    }
}

/// Decides the reset `autoPlacement` asks for; the list of placements must not be
/// empty.
pub fn decide_auto_placement(placements: &Vec<Placement>, placement: Placement) -> (r: Option<
    Placement,
>)
    requires
        placements.len() > 0,
    ensures
        r == auto_placement_reset(placements@, placement),
{
    let current = placements[0];
    if placement != current {
        return Some(current);
    }
    if placements.len() > 1 {
        Some(placements[1])
    } else {
        None
    }
}

/// The `autoPlacement` middleware: holds its options; the placements it may reset to
/// are those of [`get_auto_placements`], and the reset is decided by
/// [`decide_auto_placement`].
pub struct AutoPlacement<O> {
    options: AutoPlacementOptions<O>,
}

impl<O> AutoPlacement<O> {
    pub fn new(options: AutoPlacementOptions<O>) -> (r: Self)
        ensures
            r.options_spec() == options,
    {
        AutoPlacement { options }
    }

    pub closed spec fn options_spec(&self) -> AutoPlacementOptions<O> {
        self.options
    }

    /// The name of this middleware.
    pub fn name(&self) -> (r: &'static str)
        ensures
            r@ == "autoPlacement"@,
    {
        "autoPlacement"
    }

    /// The options passed to this middleware.
    pub fn options(&self) -> (r: &AutoPlacementOptions<O>)
        ensures
            *r == self.options_spec(),
    {
        &self.options
    }
}

/// `autoPlacement` moves to the first placement of its list unless it is already
/// there; there it moves on to the second placement when the list has one, and
/// otherwise asks for no reset. It never resets to the current placement.
pub proof fn lemma_auto_placement_reset(placements: Seq<Placement>, placement: Placement)
    requires
        placements.len() > 0,
    ensures
        placement != placements[0] ==> auto_placement_reset(placements, placement) == Some(
            placements[0],
        ),
        placement == placements[0] && placements.len() > 1 ==> auto_placement_reset(
            placements,
            placement,
        ) == Some(placements[1]),
        auto_placement_reset(placements, placement) is None <==> (placement == placements[0]
            && placements.len() == 1),
        auto_placement_reset(placements, placement) is Some ==> placements.contains(
            auto_placement_reset(placements, placement)->0,
        ),
{
    if placement != placements[0] {
        assert(placements[0] == placements[0]);
    } else if placements.len() > 1 {
        assert(placements[1] == placements[1]);
    }
}

} // verus!
