//! The help overlay's frame: how large the popup is in a terminal of a
//! given size, its title, the `n/m` count at its foot, and which of the
//! bottom hints fit beside the count.
use vstd::prelude::*;

use crate::text::{copy_string, decimal, decimal_string, push_str};
use crate::tui::help::{context_label, context_label_spec, text_display_width, text_width, HelpScope, HelpSort, Mode};

verus! {

/// `a * b`, held at `u16::MAX`.
pub open spec fn sat_mul16(a: u16, b: int) -> int {
    if a * b > u16::MAX {
        u16::MAX as int
    } else {
        a * b
    }
}

/// `a - b`, held at 0.
pub open spec fn sat_sub(a: int, b: int) -> int {
    if a > b {
        a - b
    } else {
        0
    }
}

/// The smaller of two.
pub open spec fn min_int(a: int, b: int) -> int {
    if a < b {
        a
    } else {
        b
    }
}

/// The larger of two.
pub open spec fn max_int(a: int, b: int) -> int {
    if a > b {
        a
    } else {
        b
    }
}

/// The popup's width in a terminal `area_width` columns wide: seven tenths
/// of it, but at least the terminal less four columns (up to 80), at most
/// 100, and never more than the terminal.
pub open spec fn popup_width_spec(area_width: u16) -> int {
    let floor = min_int(sat_sub(area_width as int, 4), 80);
    min_int(min_int(max_int(sat_mul16(area_width, 7) / 10, floor), 100), area_width as int)
}

/// The popup's width.
pub fn popup_width(area_width: u16) -> (w: u16)
    ensures
        w == popup_width_spec(area_width),
{
    let floor = area_width.saturating_sub(4);
    let floor = if floor < 80 {
        floor
    } else {
        80
    };
    let times: u32 = (area_width as u32) * 7;
    let seventh: u16 = if times > 65535 {
        6553
    } else {
        (times / 10) as u16
    };
    let w = if seventh > floor {
        seventh
    } else {
        floor
    };
    let w = if w < 100 {
        w
    } else {
        100
    };
    if w < area_width {
        w
    } else {
        area_width
    }
}

/// The width the rows are laid out in: the popup less its borders and
/// padding (six columns) and one column for the scroll bar.
pub fn plan_width(popup_width: u16) -> (w: usize)
    ensures
        w == sat_sub(sat_sub(popup_width as int, 6), 1),
{
    (popup_width.saturating_sub(6) as usize).saturating_sub(1)
}

/// The popup's height for `lines` lines of rows in a terminal `area_height`
/// lines tall: the lines and the frame (four lines, five with the filter),
/// at most seven tenths of the terminal, at least twelve lines (or the
/// terminal), and never more than the terminal.
pub open spec fn popup_height_spec(lines: usize, filtering: bool, area_height: u16) -> int {
    let chrome: int = if filtering {
        5
    } else {
        4
    };
    let needed = min_int(lines + chrome, u16::MAX as int);
    min_int(max_int(min_int(needed, sat_mul16(area_height, 7) / 10), min_int(12, area_height as int)), area_height as int)
}

/// The popup's height.
pub fn popup_height(lines: usize, filtering: bool, area_height: u16) -> (h: u16)
    ensures
        h == popup_height_spec(lines, filtering, area_height),
{
    let chrome: usize = if filtering {
        5
    } else {
        4
    };
    let needed = lines.saturating_add(chrome);
    let needed: u16 = if needed > 65535 {
        65535
    } else {
        needed as u16
    };
    let times: u32 = (area_height as u32) * 7;
    let cap: u16 = if times > 65535 {
        6553
    } else {
        (times / 10) as u16
    };
    let h = if needed < cap {
        needed
    } else {
        cap
    };
    let least = if area_height < 12 {
        area_height
    } else {
        12
    };
    let h = if h > least {
        h
    } else {
        least
    };
    if h < area_height {
        h
    } else {
        area_height
    }
}

/// The lines the rows get inside a popup `popup_height` lines tall: less
/// its borders and padding (four lines) and the filter line while
/// filtering.
pub fn body_height(popup_height: u16, filtering: bool) -> (h: usize)
    ensures
        h == sat_sub(sat_sub(popup_height as int, 4), if filtering {
            1
        } else {
            0
        }),
{
    let inner = popup_height.saturating_sub(4);
    (if filtering {
        inner.saturating_sub(1)
    } else {
        inner
    }) as usize
}

/// The count at the popup's foot: the selected row (from 1, at most the
/// count) of how many rows there are, and "matches" while a filter is set.
pub open spec fn count_label_spec(selected: usize, count: usize, filtered: bool) -> Seq<char> {
    let n = min_int(if selected < usize::MAX {
        selected + 1
    } else {
        selected as int
    }, count as int);
    " "@ + decimal(n as nat) + "/"@ + decimal(count as nat) + if filtered {
        " matches "@
    } else {
        " "@
    }
}

/// The count at the popup's foot.
pub fn count_label(selected: usize, count: usize, filtered: bool) -> (s: String)
    ensures
        s@ == count_label_spec(selected, count, filtered),
{
    let next = selected.saturating_add(1);
    let n = if next < count {
        next
    } else {
        count
    };
    let mut s = copy_string(" ");
    push_str(&mut s, decimal_string(n as u64).as_str());
    push_str(&mut s, "/");
    push_str(&mut s, decimal_string(count as u64).as_str());
    if filtered {
        push_str(&mut s, " matches ");
    } else {
        push_str(&mut s, " ");
    }
    s
}

/// The columns left for the bottom hints beside the count: the popup less
/// its two corners, the count and one column between.
pub fn hint_width(popup_width: u16, count: &str) -> (w: usize)
    ensures
        w == sat_sub(sat_sub(sat_sub(popup_width as int, 2), text_display_width(count@) as int), 1),
{
    (popup_width as usize).saturating_sub(2).saturating_sub(text_width(count)).saturating_sub(1)
}

/// The scope the title names: the context's mode (or "Context"), or "All
/// modes".
pub open spec fn scope_label_spec(scope: HelpScope, context: Option<Mode>) -> Seq<char> {
    match scope {
        HelpScope::Context => match context {
            Some(m) => context_label_spec(m),
            None => "Context"@,
        },
        HelpScope::All => "All modes"@,
    }
}

/// The popup's title: " Help › " and the scope, " · Sort: " and the order,
/// and an arrow.
pub open spec fn title_spec(scope: HelpScope, context: Option<Mode>, sort: HelpSort) -> Seq<char> {
    " Help › "@ + scope_label_spec(scope, context) + " · Sort: "@ + match sort {
        HelpSort::Key => "Key"@,
        HelpSort::Action => "Action"@,
    } + " ↑ "@
}

/// The popup's title.
pub fn title_text(scope: HelpScope, context: Option<Mode>, sort: HelpSort) -> (s: String)
    ensures
        s@ == title_spec(scope, context, sort),
{
    let mut s = copy_string(" Help › ");
    match scope {
        HelpScope::Context => match context {
            Some(m) => push_str(&mut s, context_label(m)),
            None => push_str(&mut s, "Context"),
        },
        HelpScope::All => push_str(&mut s, "All modes"),
    }
    push_str(&mut s, " · Sort: ");
    match sort {
        HelpSort::Key => push_str(&mut s, "Key"),
        HelpSort::Action => push_str(&mut s, "Action"),
    }
    push_str(&mut s, " ↑ ");
    s
}

/// Hints as spec values.
pub open spec fn hints_view(items: Seq<(String, String)>) -> Seq<(Seq<char>, Seq<char>)> {
    items.map_values(|h: (String, String)| (h.0@, h.1@))
}

/// The bottom hints: while filtering, how to clear, keep and select; else
/// the keys (as given, empty where unbound) that switch the scope, the
/// order and the filter, each with what it does next. Unbound ones are left
/// out.
pub open spec fn hint_items_spec(
    scope: HelpScope,
    context: Option<Mode>,
    sort: HelpSort,
    filtering: bool,
    scope_keys: Seq<char>,
    sort_keys: Seq<char>,
    filter_keys: Seq<char>,
) -> Seq<(Seq<char>, Seq<char>)> {
    if filtering {
        seq![("Esc"@, "Clear"@), ("Enter"@, "Keep filter"@), ("↑/↓"@, "Select"@)]
    } else {
        let scope_label = match scope {
            HelpScope::Context => "All modes"@,
            HelpScope::All => scope_label_spec(HelpScope::Context, context) + " only"@,
        };
        let sort_label = match sort {
            HelpSort::Key => "Sort by action"@,
            HelpSort::Action => "Sort by key"@,
        };
        (if scope_keys.len() > 0 {
            seq![(scope_keys, scope_label)]
        } else {
            Seq::empty()
        }) + (if sort_keys.len() > 0 {
            seq![(sort_keys, sort_label)]
        } else {
            Seq::empty()
        }) + (if filter_keys.len() > 0 {
            seq![(filter_keys, "Filter"@)]
        } else {
            Seq::empty()
        })
    }
}

/// Appends a hint.
fn push_hint(v: &mut Vec<(String, String)>, keys: &str, label: String)
    ensures
        hints_view(final(v)@) == hints_view(old(v)@).push((keys@, label@)),
{
    v.push((copy_string(keys), label));
    assert(hints_view(v@) =~= hints_view(old(v)@).push((keys@, label@)));
}

/// The bottom hints.
pub fn hint_items(
    scope: HelpScope,
    context: Option<Mode>,
    sort: HelpSort,
    filtering: bool,
    scope_keys: &str,
    sort_keys: &str,
    filter_keys: &str,
) -> (v: Vec<(String, String)>)
    ensures
        hints_view(v@) == hint_items_spec(scope, context, sort, filtering, scope_keys@, sort_keys@, filter_keys@),
{
    let mut v: Vec<(String, String)> = Vec::new();
    if filtering {
        push_hint(&mut v, "Esc", copy_string("Clear"));
        push_hint(&mut v, "Enter", copy_string("Keep filter"));
        push_hint(&mut v, "↑/↓", copy_string("Select"));
        assert(hints_view(v@) =~= hint_items_spec(scope, context, sort, filtering, scope_keys@, sort_keys@, filter_keys@));
        return v;
    }
    let scope_label = match scope {
        HelpScope::Context => copy_string("All modes"),
        HelpScope::All => {
            let mut l = match context {
                Some(m) => copy_string(context_label(m)),
                None => copy_string("Context"),
            };
            push_str(&mut l, " only");
            l
        },
    };
    let sort_label = match sort {
        HelpSort::Key => copy_string("Sort by action"),
        HelpSort::Action => copy_string("Sort by key"),
    };
    let ghost start = hints_view(v@);
    if scope_keys.unicode_len() > 0 {
        push_hint(&mut v, scope_keys, scope_label);
    }
    let ghost one = hints_view(v@);
    if sort_keys.unicode_len() > 0 {
        push_hint(&mut v, sort_keys, sort_label);
    }
    let ghost two = hints_view(v@);
    if filter_keys.unicode_len() > 0 {
        push_hint(&mut v, filter_keys, copy_string("Filter"));
    }
    assert(hints_view(v@) =~= hint_items_spec(scope, context, sort, filtering, scope_keys@, sort_keys@, filter_keys@));
    v
}

/// The columns one hint takes: its keys in brackets, a space, its label.
pub open spec fn hint_item_width(h: (Seq<char>, Seq<char>)) -> int {
    (text_display_width("["@ + h.0 + "]"@) + 1 + text_display_width(h.1)) as int
}

/// The columns the hints take: a space on each side, and " · " between.
pub open spec fn hints_width(items: Seq<(Seq<char>, Seq<char>)>) -> int
    decreases items.len(),
{
    if items.len() == 0 {
        2
    } else {
        hints_width(items.drop_last()) + hint_item_width(items.last()) + if items.len() > 1 {
            text_display_width(" · "@) as int
        } else {
            0
        }
    }
}

/// How many of the hints are kept in `max_width` columns: the last ones are
/// dropped, one at a time, until the rest fit (or none is left).
pub open spec fn fit_count(items: Seq<(Seq<char>, Seq<char>)>, max_width: usize, k: int) -> int
    decreases k,
{
    if k <= 0 || hints_width(items.take(k)) <= max_width {
        if k <= 0 {
            0
        } else {
            k
        }
    } else {
        fit_count(items, max_width, k - 1)
    }
}

/// The hints that fit in `max_width` columns, and the line's text.
pub open spec fn fitted_hints_spec(items: Seq<(Seq<char>, Seq<char>)>, max_width: usize) -> Seq<(Seq<char>, Seq<char>)> {
    items.take(fit_count(items, max_width, items.len() as int))
}

/// The text of a line of hints.
pub open spec fn hints_text(items: Seq<(Seq<char>, Seq<char>)>) -> Seq<char>
    decreases items.len(),
{
    if items.len() == 0 {
        Seq::empty()
    } else {
        hints_text(items.drop_last()) + (if items.len() > 1 {
            " · "@
        } else {
            Seq::empty()
        }) + "["@ + items.last().0 + "] "@ + items.last().1
    }
}

/// A longer run of hints is no narrower.
proof fn lemma_hints_width_grows(items: Seq<(Seq<char>, Seq<char>)>, i: int, k: int)
    requires
        0 <= i <= k <= items.len(),
    ensures
        hints_width(items.take(i)) <= hints_width(items.take(k)),
    decreases k - i,
{
    if i < k {
        lemma_hints_width_grows(items, i, k - 1);
        assert(items.take(k).drop_last() =~= items.take(k - 1));
    }
}

/// Whether the first `k` hints fit in `max_width` columns.
fn hints_fit(items: &Vec<(String, String)>, k: usize, max_width: usize) -> (r: bool)
    requires
        k <= items@.len(),
    ensures
        r == (hints_width(hints_view(items@).take(k as int)) <= max_width),
{
    let ghost all = hints_view(items@);
    let dot = text_width(" · ") as u128;
    let mut w: u128 = 2;
    let mut i: usize = 0;
    while i < k
        invariant
            i <= k <= items@.len(),
            all == hints_view(items@),
            dot == text_display_width(" · "@),
            dot <= usize::MAX,
            w == hints_width(all.take(i as int)),
            w <= max_width as int + 2,
            i > 0 ==> w <= max_width,
        decreases k - i,
    {
        let mut bracketed = copy_string("[");
        push_str(&mut bracketed, items[i].0.as_str());
        push_str(&mut bracketed, "]");
        let kw = text_width(bracketed.as_str()) as u128;
        let lw = text_width(items[i].1.as_str()) as u128;
        assert(all.take(i + 1).drop_last() =~= all.take(i as int));
        assert(all.take(i + 1).last() == all[i as int]);
        assert(all[i as int] == (items@[i as int].0@, items@[i as int].1@));
        let sep: u128 = if i > 0 {
            dot
        } else {
            0
        };
        w = w + kw + 1 + lw + sep;
        i = i + 1;
        if w > (max_width as u128) {
            proof {
                lemma_hints_width_grows(all, i as int, k as int);
            }
            return false;
        }
    }
    w <= (max_width as u128)
}

/// The hints that fit in `max_width` columns: the last ones are dropped
/// until the line fits.
pub fn fit_hints(items: &Vec<(String, String)>, max_width: usize) -> (kept: Vec<(String, String)>)
    ensures
        hints_view(kept@) == fitted_hints_spec(hints_view(items@), max_width),
{
    let ghost all = hints_view(items@);
    let mut k: usize = items.len();
    while k > 0 && !hints_fit(items, k, max_width)
        invariant
            k <= items@.len(),
            all == hints_view(items@),
            fit_count(all, max_width, items@.len() as int) == fit_count(all, max_width, k as int),
        decreases k,
    {
        k = k - 1;
    }
    assert(fit_count(all, max_width, k as int) == k as int);
    let mut kept: Vec<(String, String)> = Vec::new();
    let mut i: usize = 0;
    while i < k
        invariant
            i <= k <= items@.len(),
            all == hints_view(items@),
            hints_view(kept@) == all.take(i as int),
        decreases k - i,
    {
        let pair = (copy_string(items[i].0.as_str()), copy_string(items[i].1.as_str()));
        assert(all[i as int] == (pair.0@, pair.1@));
        let ghost before = kept@;
        kept.push(pair);
        assert(kept@ == before.push(pair));
        assert(hints_view(kept@) =~= hints_view(before).push((pair.0@, pair.1@)));
        assert(all.take(i + 1) =~= all.take(i as int).push(all[i as int]));
        assert(hints_view(kept@) =~= all.take(i + 1));
        i = i + 1;
    }
    kept
}

/// The text of a line of hints (the interface draws the keys, the
/// separators and the labels in their colours, with a space on each side).
pub fn hints_line_text(items: &Vec<(String, String)>) -> (s: String)
    ensures
        s@ == hints_text(hints_view(items@)),
{
    let ghost all = hints_view(items@);
    let mut s = String::new();
    let mut i: usize = 0;
    while i < items.len()
        invariant
            i <= items@.len(),
            all == hints_view(items@),
            s@ == hints_text(all.take(i as int)),
        decreases items@.len() - i,
    {
        assert(all.take(i + 1).drop_last() =~= all.take(i as int));
        assert(all.take(i + 1).last() == all[i as int]);
        if i > 0 {
            push_str(&mut s, " · ");
        }
        push_str(&mut s, "[");
        push_str(&mut s, items[i].0.as_str());
        push_str(&mut s, "] ");
        push_str(&mut s, items[i].1.as_str());
        i = i + 1;
        assert(s@ =~= hints_text(all.take(i as int)));
    }
    assert(all.take(items@.len() as int) =~= all);
    s
}

} // verus!
