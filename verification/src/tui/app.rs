//! Interface state helpers: moving a grabbed fragment and the display order
//! while it is held, moving the list selection, when a repeated background
//! error is worth reporting again, and the error shown at start-up.
use vstd::prelude::*;

use crate::text::{copy_string, decimal, decimal_string, push_str};
use crate::tui::gist_panel::{joined, texts};

verus! {

/// A fragment picked up to be moved.
#[derive(Clone, Copy, Debug, PartialEq, Eq, Structural)]
pub struct FragmentGrab {
    /// Index the fragment occupied when it was grabbed.
    pub origin: usize,
    /// Index it is currently hovering over; equals `origin` until the user moves it.
    pub current: usize,
}

/// The indices `0..total`, in order.
pub open spec fn identity_order(total: nat) -> Seq<usize> {
    Seq::new(total, |i: int| i as usize)
}

/// The display order while fragment `origin` is held over `current`:
/// `origin` lifted out and put back in at `current`. Out-of-range or
/// unmoved grabs leave the order as it is.
pub open spec fn grab_order_spec(total: usize, origin: usize, current: usize) -> Seq<usize> {
    let base = identity_order(total as nat);
    if origin < total && current < total && origin != current {
        base.remove(origin as int).insert(current as int, origin)
    } else {
        base
    }
}

/// Display order while a fragment is grabbed: `origin` lifted out and
/// re-inserted at `current`. Returns the stored indices in display order.
pub fn grab_order(total: usize, origin: usize, current: usize) -> (order: Vec<usize>)
    ensures
        order@ == grab_order_spec(total, origin, current),
{
    let mut order: Vec<usize> = Vec::new();
    let mut i: usize = 0;
    while i < total
        invariant
            i <= total,
            order@ == identity_order(i as nat),
        decreases total - i,
    {
        order.push(i);
        assert(order@ =~= identity_order((i + 1) as nat));
        i = i + 1;
    }
    if origin < total && current < total && origin != current {
        let grabbed = order.remove(origin);
        order.insert(current, grabbed);
    }
    order
}

/// Where each index stands after the grab: those between the two positions
/// shift by one toward `origin`, and `origin` lands at `current`.
pub open spec fn grabbed_at(origin: int, current: int, i: int) -> int {
    if i == current {
        origin
    } else if origin < current && origin <= i < current {
        i + 1
    } else if current < origin && current < i <= origin {
        i - 1
    } else {
        i
    }
}

/// While a fragment is held, the display order is the stored one with that
/// fragment moved to where it is held: the fragments in between shift by one,
/// the others keep their places, and every fragment shows exactly once.
pub proof fn law_grab_order_moves_one_fragment(total: usize, origin: usize, current: usize)
    requires
        origin < total,
        current < total,
    ensures
        grab_order_spec(total, origin, current).len() == total,
        forall|i: int| 0 <= i < total ==> #[trigger] grab_order_spec(total, origin, current)[i] == grabbed_at(
            origin as int,
            current as int,
            i,
        ),
        forall|k: usize| k < total ==> #[trigger] grab_order_spec(total, origin, current).contains(k),
        forall|i: int, j: int|
            0 <= i < j < total ==> grab_order_spec(total, origin, current)[i] != grab_order_spec(
                total,
                origin,
                current,
            )[j],
{
    let base = identity_order(total as nat);
    let s = grab_order_spec(total, origin, current);
    if origin != current {
        base.remove_ensures(origin as int);
        base.remove(origin as int).insert_ensures(current as int, origin);
        assert forall|i: int| 0 <= i < total implies #[trigger] s[i] == grabbed_at(
            origin as int,
            current as int,
            i,
        ) by {
            let r = base.remove(origin as int);
            if i < current {
                assert(s[i] == r[i]);
            } else if i > current {
                assert(s[i] == r[i - 1]);
            }
        }
    }
    assert forall|k: usize| k < total implies #[trigger] s.contains(k) by {
        let p: int = if origin == current {
            k as int
        } else if k == origin {
            current as int
        } else if origin < current && origin < k <= current {
            k - 1
        } else if current < origin && current <= k < origin {
            k + 1
        } else {
            k as int
        };
        assert(s[p] == k);
    }
}

/// The hover position one row further down: not past the last fragment.
pub open spec fn grab_down_spec(current: usize, fragment_count: usize) -> usize {
    let next: int = if current < usize::MAX {
        current + 1
    } else {
        current as int
    };
    let last: int = if fragment_count > 0 {
        fragment_count - 1
    } else {
        0
    };
    (if next < last {
        next
    } else {
        last
    }) as usize
}

/// Moves a held fragment one row down, stopping at the last fragment.
pub fn grab_down(grab: FragmentGrab, fragment_count: usize) -> (r: FragmentGrab)
    ensures
        r.origin == grab.origin,
        r.current == grab_down_spec(grab.current, fragment_count),
{
    let next = grab.current.saturating_add(1);
    let last = fragment_count.saturating_sub(1);
    FragmentGrab {
        origin: grab.origin,
        current: if next < last {
            next
        } else {
            last
        },
    }
}

/// Moves a held fragment one row up, stopping at the first.
pub fn grab_up(grab: FragmentGrab) -> (r: FragmentGrab)
    ensures
        r.origin == grab.origin,
        r.current == (if grab.current > 0 {
            grab.current - 1
        } else {
            0
        }),
{
    FragmentGrab { origin: grab.origin, current: grab.current.saturating_sub(1) }
}

/// The row the list selection lands on when it moves `delta` rows from
/// `selected` (the first row where nothing is selected): held inside the
/// list. Nothing where the list is empty.
pub open spec fn move_list_spec(selected: Option<usize>, len: usize, delta: isize) -> Option<usize> {
    if len == 0 {
        None
    } else {
        let from: int = match selected {
            Some(i) => i as int,
            None => 0,
        };
        let to = from + delta;
        Some(
            (if to < 0 {
                0
            } else if to > len - 1 {
                len - 1
            } else {
                to
            }) as usize,
        )
    }
}

/// Moves the list selection by `delta` rows, clamped to the list.
pub fn move_list(selected: Option<usize>, len: usize, delta: isize) -> (r: Option<usize>)
    ensures
        r == move_list_spec(selected, len, delta),
        r matches Some(i) ==> i < len,
{
    if len == 0 {
        return None;
    }
    let from: i128 = match selected {
        Some(i) => i as i128,
        None => 0,
    };
    let to: i128 = from + (delta as i128);
    let last: i128 = (len as i128) - 1;
    let index: i128 = if to < 0 {
        0
    } else if to > last {
        last
    } else {
        to
    };
    Some(index as usize)
}

/// The same failure is reported once: a new message replaces the last one
/// and is worth showing; the message already shown is not.
pub fn auto_error_transition(last: &mut Option<String>, next: String) -> (changed: bool)
    ensures
        changed == !(match *old(last) {
            Some(m) => m@ == next@,
            None => false,
        }),
        changed ==> (match *final(last) {
            Some(m) => m@ == next@,
            None => false,
        }),
        !changed ==> *final(last) == *old(last),
{
    let same = match last {
        Some(m) => {
            let a = crate::text::chars_of(m.as_str());
            let b = crate::text::chars_of(next.as_str());
            crate::text::eq_chars(a.as_slice(), b.as_slice())
        },
        None => false,
    };
    if same {
        false
    } else {
        *last = Some(next);
        true
    }
}

/// The error the interface opens with: key bindings that were ignored,
/// which outweigh theme warnings; else the theme warnings, joined by
/// semicolons; else none.
pub open spec fn startup_status_spec(theme_warnings: Seq<Seq<char>>, key_errors: nat) -> Option<Seq<char>> {
    if key_errors > 0 {
        Some(
            decimal(key_errors) + (if key_errors == 1 {
                " key binding ignored; run \"snip keys check\""@
            } else {
                " key bindings ignored; run \"snip keys check\""@
            }),
        )
    } else if theme_warnings.len() > 0 {
        Some(joined(theme_warnings, "; "@))
    } else {
        None
    }
}

/// The error the interface opens with, as `startup_status_spec` says.
pub fn startup_status(theme_warnings: &Vec<String>, key_errors: u64) -> (r: Option<String>)
    ensures
        match startup_status_spec(texts(theme_warnings@), key_errors as nat) {
            Some(m) => r matches Some(s) && s@ == m,
            None => r is None,
        },
{
    if key_errors > 0 {
        let mut s = decimal_string(key_errors);
        if key_errors == 1 {
            push_str(&mut s, " key binding ignored; run \"snip keys check\"");
        } else {
            push_str(&mut s, " key bindings ignored; run \"snip keys check\"");
        }
        return Some(s);
    }
    if theme_warnings.len() == 0 {
        return None;
    }
    let ghost w = texts(theme_warnings@);
    let mut s = copy_string(theme_warnings[0].as_str());
    let mut i: usize = 1;
    proof {
        assert(w.take(1).len() == 1);
        assert(joined(w.take(1), "; "@) == w[0]);
    }
    while i < theme_warnings.len()
        invariant
            1 <= i <= theme_warnings.len(),
            w == texts(theme_warnings@),
            s@ == joined(w.take(i as int), "; "@),
        decreases theme_warnings.len() - i,
    {
        push_str(&mut s, "; ");
        push_str(&mut s, theme_warnings[i].as_str());
        proof {
            assert(w.take(i + 1).drop_last() =~= w.take(i as int));
            assert(w.take(i + 1).last() == theme_warnings@[i as int]@);
        }
        i += 1;
    }
    proof {
        assert(w.take(theme_warnings.len() as int) =~= w);
    }
    Some(s)
}

} // verus!
