//! What the preview pane shows of the selected snippet: one of its fragments
//! or its README, and how `[`, `]`, a click and a rescan move between them.
//! The positions run through the fragments first and the README last, and
//! stepping wraps at both ends.
use vstd::prelude::*;

verus! {

/// What the preview pane shows.
#[derive(Clone, Copy, Debug, PartialEq, Eq, Structural)]
pub enum PreviewTarget {
    /// The fragment at this index.
    Fragment(usize),
    /// The snippet's README.
    Readme,
}

/// How many positions there are to switch between: the fragments, and the
/// README where there is one.
pub open spec fn rows_spec(fragments: nat, readme: bool) -> nat {
    fragments + if readme {
        1nat
    } else {
        0nat
    }
}

/// The position a target stands at: a fragment's index, cut to the last
/// position, or the README's place after the fragments.
pub open spec fn position(target: PreviewTarget, fragments: nat, rows: nat) -> nat {
    match target {
        PreviewTarget::Fragment(i) => if i < rows {
            i as nat
        } else {
            (rows - 1) as nat
        },
        PreviewTarget::Readme => fragments,
    }
}

/// The target at a position: a fragment before the README's place, the
/// README from there on.
pub open spec fn target_at(p: nat, fragments: nat) -> PreviewTarget {
    if p < fragments {
        PreviewTarget::Fragment(p as usize)
    } else {
        PreviewTarget::Readme
    }
}

/// Stepping `delta` positions forward, round the end: `None` where there is
/// nothing to show.
pub open spec fn step_spec(target: PreviewTarget, fragments: nat, readme: bool, delta: nat) -> Option<PreviewTarget> {
    let rows = rows_spec(fragments, readme);
    if rows == 0 {
        None
    } else {
        Some(target_at(((position(target, fragments, rows) + delta) % rows) as nat, fragments))
    }
}

/// The target names a position that exists: a fragment that is there, or
/// the README of a snippet that has one.
pub open spec fn is_shown(target: PreviewTarget, fragments: nat, readme: bool) -> bool {
    match target {
        PreviewTarget::Fragment(i) => i < fragments,
        PreviewTarget::Readme => readme,
    }
}

/// The number of fragments and of switchable positions (the fragments and
/// the README, where there is one).
pub fn preview_positions(fragments: usize, readme: bool) -> (r: (usize, usize))
    requires
        readme ==> fragments < usize::MAX,
    ensures
        r.0 == fragments,
        r.1 == rows_spec(fragments as nat, readme),
{
    if readme {
        (fragments, fragments + 1)
    } else {
        (fragments, fragments)
    }
}

/// The target `delta` positions on from `target`, wrapping round; `None`
/// where the snippet has nothing to show.
fn step_preview_target(target: PreviewTarget, fragments: usize, readme: bool, delta: usize) -> (r: Option<PreviewTarget>)
    requires
        readme ==> fragments < usize::MAX,
    ensures
        r == step_spec(target, fragments as nat, readme, delta as nat),
{
    let (total, rows) = preview_positions(fragments, readme);
    if rows == 0 {
        return None;
    }
    let current: usize = match target {
        PreviewTarget::Fragment(index) => if index < rows {
            index
        } else {
            rows - 1
        },
        PreviewTarget::Readme => total,
    };
    let wide: u128 = ((current as u128) + (delta as u128)) % (rows as u128);
    let next: usize = wide as usize;
    if next < total {
        Some(PreviewTarget::Fragment(next))
    } else {
        Some(PreviewTarget::Readme)
    }
}

/// `]`: the next position, from the README back to the first fragment.
/// `None` where the snippet has nothing to show.
pub fn next_fragment(target: PreviewTarget, fragments: usize, readme: bool) -> (r: Option<PreviewTarget>)
    requires
        readme ==> fragments < usize::MAX,
    ensures
        r == step_spec(target, fragments as nat, readme, 1),
{
    step_preview_target(target, fragments, readme, 1)
}

/// `[`: the previous position, from the first fragment round to the README
/// (or the last fragment). `None` where the snippet has nothing to show.
pub fn previous_fragment(target: PreviewTarget, fragments: usize, readme: bool) -> (r: Option<PreviewTarget>)
    requires
        readme ==> fragments < usize::MAX,
    ensures
        r == step_spec(target, fragments as nat, readme, (rows_spec(fragments as nat, readme) - 1) as nat),
{
    let (_, rows) = preview_positions(fragments, readme);
    let back: usize = if rows > 0 {
        rows - 1
    } else {
        0
    };
    step_preview_target(target, fragments, readme, back)
}

/// Where a request to show `requested` leads: a fragment index is cut to
/// the last fragment, a README is shown only where there is one. `None`
/// where the request is refused or the preview already shows it.
pub open spec fn select_spec(current: PreviewTarget, requested: PreviewTarget, fragments: nat, readme: bool) -> Option<
    PreviewTarget,
> {
    let target = match requested {
        PreviewTarget::Fragment(i) => if fragments == 0 {
            None
        } else if i < fragments {
            Some(PreviewTarget::Fragment(i))
        } else {
            Some(PreviewTarget::Fragment((fragments - 1) as usize))
        },
        PreviewTarget::Readme => if readme {
            Some(PreviewTarget::Readme)
        } else {
            None
        },
    };
    match target {
        Some(t) => if t != current {
            Some(t)
        } else {
            None
        },
        None => None,
    }
}

/// The target the preview switches to on a request to show `requested`
/// (a click on a fragment or the README), or `None` where it stays.
pub fn select_fragment(current: PreviewTarget, requested: PreviewTarget, fragments: usize, readme: bool) -> (r: Option<
    PreviewTarget,
>)
    requires
        readme ==> fragments < usize::MAX,
    ensures
        r == select_spec(current, requested, fragments as nat, readme),
{
    let (total, rows) = preview_positions(fragments, readme);
    let target = match requested {
        PreviewTarget::Fragment(index) => {
            if total == 0 {
                return None;
            }
            PreviewTarget::Fragment(if index < total {
                index
            } else {
                total - 1
            })
        },
        PreviewTarget::Readme => {
            if rows > total {
                PreviewTarget::Readme
            } else {
                return None;
            }
        },
    };
    if target != current {
        Some(target)
    } else {
        None
    }
}

/// The target after a rescan: a fragment index cut to the last fragment,
/// the README kept as long as the README is there, else the first fragment.
pub open spec fn clamp_spec(target: PreviewTarget, fragments: nat, readme: bool) -> PreviewTarget {
    match target {
        PreviewTarget::Fragment(i) => PreviewTarget::Fragment(
            if i < fragments {
                i
            } else if fragments > 0 {
                (fragments - 1) as usize
            } else {
                0
            },
        ),
        PreviewTarget::Readme => if readme {
            PreviewTarget::Readme
        } else {
            PreviewTarget::Fragment(0)
        },
    }
}

/// Re-anchors the preview target after a rescan.
pub fn clamp_fragment(target: PreviewTarget, fragments: usize, readme: bool) -> (r: PreviewTarget)
    ensures
        r == clamp_spec(target, fragments as nat, readme),
{
    match target {
        PreviewTarget::Fragment(index) => {
            let last: usize = if fragments > 0 {
                fragments - 1
            } else {
                0
            };
            PreviewTarget::Fragment(if index < last {
                index
            } else {
                last
            })
        },
        PreviewTarget::Readme => if readme {
            PreviewTarget::Readme
        } else {
            PreviewTarget::Fragment(0)
        },
    }
}

/// Stepping forward from a shown target and then back (or back and then
/// forward) returns to it: `[` undoes `]` and `]` undoes `[`.
pub proof fn law_previous_undoes_next(target: PreviewTarget, count: usize, readme: bool)
    requires
        is_shown(target, count as nat, readme),
        readme ==> count < usize::MAX,
    ensures
        step_spec(target, count as nat, readme, 1) matches Some(t) && step_spec(
            t,
            count as nat,
            readme,
            (rows_spec(count as nat, readme) - 1) as nat,
        ) == Some(target),
        step_spec(target, count as nat, readme, (rows_spec(count as nat, readme) - 1) as nat) matches Some(t)
            && step_spec(t, count as nat, readme, 1) == Some(target),
{
    let fragments = count as nat;
    let rows = rows_spec(fragments, readme);
    let p: int = position(target, fragments, rows) as int;
    assert(p < rows);
    assert(target_at(p as nat, fragments) == target);
    let r = rows as int;
    let q = (p + 1) % r;
    assert(0 <= q < r) by (nonlinear_arith)
        requires
            r > 0,
            q == (p + 1) % r,
    ;
    assert(q == if p + 1 < r {
        p + 1
    } else {
        0
    }) by (nonlinear_arith)
        requires
            0 <= p < r,
            q == (p + 1) % r,
    ;
    let fwd = target_at(q as nat, fragments);
    assert(position(fwd, fragments, rows) == q);
    assert((q + (r - 1)) % r == p) by (nonlinear_arith)
        requires
            0 <= p < r,
            q == if p + 1 < r {
                p + 1
            } else {
                0
            },
    ;
    let b = (p + (r - 1)) % r;
    assert(b == if p > 0 {
        p - 1
    } else {
        r - 1
    }) by (nonlinear_arith)
        requires
            0 <= p < r,
            b == (p + (r - 1)) % r,
    ;
    let back = target_at(b as nat, fragments);
    assert(position(back, fragments, rows) == b);
    assert((b + 1) % r == p) by (nonlinear_arith)
        requires
            0 <= p < r,
            b == if p > 0 {
                p - 1
            } else {
                r - 1
            },
    ;
}

/// After a rescan the preview shows a position that exists, wherever the
/// snippet has one; and a second rescan changes nothing.
pub proof fn law_clamp_lands_on_a_shown_target(target: PreviewTarget, fragments: nat, readme: bool)
    ensures
        fragments > 0 || (readme && target is Readme) ==> is_shown(clamp_spec(target, fragments, readme), fragments, readme),
        clamp_spec(clamp_spec(target, fragments, readme), fragments, readme) == clamp_spec(target, fragments, readme),
{
}

} // verus!
