//! The key shortcuts of the bottom bar: which pills each part of the
//! interface offers at each tier, each pill's label from the keys its
//! commands are bound to, how wide a row of pills is, and which of the
//! rows, from the fullest to the sparest, the bar has room for.

use vstd::prelude::*;

use crate::text::{copy_string, push_str};
use crate::tui::command::CommandId;
use crate::tui::help::{text_display_width, text_width, Mode};

verus! {

/// Which of a command's keys a pill names.
#[derive(Clone, Copy, Debug, PartialEq, Eq)]
pub enum ChordChoice {
    All,
    First,
    Last,
}

/// A pill: the key label, then the action's name (empty for a key alone).
pub type Pill = (String, String);

/// Pills, as spec values.
pub open spec fn pills_view(pills: Seq<Pill>) -> Seq<(Seq<char>, Seq<char>)> {
    pills.map_values(|p: Pill| (p.0@, p.1@))
}

/// The labels of the keys that `choice` takes from each command's keys, in
/// order.
pub open spec fn chosen_keys(keys: Seq<Seq<Seq<char>>>, choice: ChordChoice) -> Seq<Seq<char>>
    decreases keys.len(),
{
    if keys.len() == 0 {
        Seq::empty()
    } else {
        let rest = chosen_keys(keys.drop_last(), choice);
        let k = keys.last();
        match choice {
            ChordChoice::All => rest + k,
            ChordChoice::First => if k.len() > 0 {
                rest.push(k[0])
            } else {
                rest
            },
            ChordChoice::Last => if k.len() > 0 {
                rest.push(k.last())
            } else {
                rest
            },
        }
    }
}

/// `keys` with each run of equal neighbours kept once.
pub open spec fn dedup(keys: Seq<Seq<char>>) -> Seq<Seq<char>>
    decreases keys.len(),
{
    if keys.len() == 0 {
        Seq::empty()
    } else {
        let rest = dedup(keys.drop_last());
        if rest.len() > 0 && rest.last() == keys.last() {
            rest
        } else {
            rest.push(keys.last())
        }
    }
}

/// The labels joined by slashes.
pub open spec fn slash_joined(keys: Seq<Seq<char>>) -> Seq<char>
    decreases keys.len(),
{
    if keys.len() == 0 {
        Seq::empty()
    } else if keys.len() == 1 {
        keys[0]
    } else {
        slash_joined(keys.drop_last()) + seq!['/'] + keys.last()
    }
}

/// The pill for an action whose commands are bound to `keys` (each
/// command's key labels, in order): none when no key is bound; else the
/// fixed label if there is one, or the chosen labels, without repeats of a
/// neighbour, joined by slashes.
pub open spec fn pill_spec(
    keys: Seq<Seq<Seq<char>>>,
    choice: ChordChoice,
    fixed: Option<Seq<char>>,
    action: Seq<char>,
) -> Option<(Seq<char>, Seq<char>)> {
    let chosen = dedup(chosen_keys(keys, choice));
    if chosen.len() == 0 {
        None
    } else {
        match fixed {
            Some(label) => Some((label, action)),
            None => Some((slash_joined(chosen), action)),
        }
    }
}

/// How wide one pill is: its key with a cap on each side, and the action
/// with a space and a cap when there is one.
pub open spec fn pill_width(p: (Seq<char>, Seq<char>)) -> int {
    2 + text_display_width(p.0) as int + if p.1.len() == 0 {
        0int
    } else {
        2 + text_display_width(p.1) as int
    }
}

/// The widths of the pills, added up.
pub open spec fn pills_sum(pills: Seq<(Seq<char>, Seq<char>)>) -> int
    decreases pills.len(),
{
    if pills.len() == 0 {
        0
    } else {
        pills_sum(pills.drop_last()) + pill_width(pills.last())
    }
}

/// How wide a row of pills is, with one column between neighbours.
pub open spec fn row_width(pills: Seq<(Seq<char>, Seq<char>)>) -> int {
    pills_sum(pills) + if pills.len() == 0 {
        0
    } else {
        pills.len() - 1
    }
}

/// The navigation row and the action row fit, with two columns to spare,
/// in a bar `room` columns wide.
pub open spec fn tier_fits(
    navigation: Seq<(Seq<char>, Seq<char>)>,
    actions: Seq<(Seq<char>, Seq<char>)>,
    room: int,
) -> bool {
    row_width(navigation) + row_width(actions) + 2 <= room
}

/// The first tier, from `from` on, that fits.
pub open spec fn first_fitting(
    tiers: Seq<(Seq<(Seq<char>, Seq<char>)>, Seq<(Seq<char>, Seq<char>)>)>,
    room: int,
    from: int,
) -> Option<int>
    decreases tiers.len() - from,
{
    if from < 0 || from >= tiers.len() {
        None
    } else if tier_fits(tiers[from].0, tiers[from].1, room) {
        Some(from)
    } else {
        first_fitting(tiers, room, from + 1)
    }
}

/// The tier the bar shows: the first that fits, else the last.
pub open spec fn chosen_tier(
    tiers: Seq<(Seq<(Seq<char>, Seq<char>)>, Seq<(Seq<char>, Seq<char>)>)>,
    room: int,
) -> int {
    match first_fitting(tiers, room, 0) {
        Some(i) => i,
        None => tiers.len() - 1,
    }
}

/// Tiers, as spec values.
pub open spec fn tiers_view(tiers: Seq<(Vec<Pill>, Vec<Pill>)>) -> Seq<
    (Seq<(Seq<char>, Seq<char>)>, Seq<(Seq<char>, Seq<char>)>),
> {
    tiers.map_values(|t: (Vec<Pill>, Vec<Pill>)| (pills_view(t.0@), pills_view(t.1@)))
}

// ---------------------------------------------------------------------------
// Implementation
// ---------------------------------------------------------------------------

/// Key labels, as spec values.
pub open spec fn labels_view(keys: Seq<Vec<String>>) -> Seq<Seq<Seq<char>>> {
    keys.map_values(|k: Vec<String>| k@.map_values(|s: String| s@))
}

/// Whether two strings hold the same characters.
fn same_text(a: &String, b: &String) -> (r: bool)
    ensures
        r == (a@ == b@),
{
    let x = crate::text::chars_of(a.as_str());
    let y = crate::text::chars_of(b.as_str());
    crate::text::eq_chars(x.as_slice(), y.as_slice())
}

/// Adds `label` to `out` unless it repeats the last one.
fn push_new(out: &mut Vec<String>, label: &String)
    ensures
        final(out)@.map_values(|s: String| s@) == dedup_step(old(out)@.map_values(|s: String| s@), label@),
{
    let ghost before = out@.map_values(|s: String| s@);
    if out.len() > 0 && same_text(&out[out.len() - 1], label) {
        return;
    }
    out.push(copy_string(label.as_str()));
    proof {
        assert(out@.map_values(|s: String| s@) =~= before.push(label@));
    }
}

/// One step of `dedup`: `label` joins unless it repeats the last one.
pub open spec fn dedup_step(done: Seq<Seq<char>>, label: Seq<char>) -> Seq<Seq<char>> {
    if done.len() > 0 && done.last() == label {
        done
    } else {
        done.push(label)
    }
}

/// Dedup of a sequence with one more label is a dedup step.
proof fn lemma_dedup_push(keys: Seq<Seq<char>>, label: Seq<char>)
    ensures
        dedup(keys.push(label)) == dedup_step(dedup(keys), label),
{
    assert(keys.push(label).drop_last() =~= keys);
}

/// The pill for an action whose commands are bound to `keys`, as
/// `pill_spec` says.
pub fn resolve_pill(keys: &Vec<Vec<String>>, choice: ChordChoice, fixed: Option<&str>, action: &str) -> (r: Option<
    Pill,
>)
    ensures
        match pill_spec(
            labels_view(keys@),
            choice,
            match fixed {
                Some(f) => Some(f@),
                None => None,
            },
            action@,
        ) {
            Some(p) => r matches Some(q) && (q.0@, q.1@) == p,
            None => r is None,
        },
{
    let ghost all = labels_view(keys@);
    let mut chosen: Vec<String> = Vec::new();
    let mut i: usize = 0;
    while i < keys.len()
        invariant
            i <= keys.len(),
            all == labels_view(keys@),
            chosen@.map_values(|s: String| s@) == dedup(chosen_keys(all.take(i as int), choice)),
        decreases keys.len() - i,
    {
        let k = &keys[i];
        let ghost before = chosen_keys(all.take(i as int), choice);
        let ghost kv = all[i as int];
        proof {
            assert(all.take(i + 1).drop_last() =~= all.take(i as int));
            assert(all.take(i + 1).last() == kv);
            assert(kv =~= k@.map_values(|s: String| s@));
        }
        match choice {
            ChordChoice::All => {
                let mut j: usize = 0;
                while j < k.len()
                    invariant
                        j <= k.len(),
                        kv == k@.map_values(|s: String| s@),
                        chosen@.map_values(|s: String| s@) == dedup(before + kv.take(j as int)),
                    decreases k.len() - j,
                {
                    let ghost done = before + kv.take(j as int);
                    push_new(&mut chosen, &k[j]);
                    proof {
                        assert(before + kv.take(j + 1) =~= done.push(kv[j as int]));
                        lemma_dedup_push(done, kv[j as int]);
                    }
                    j += 1;
                }
                proof {
                    assert(kv.take(k.len() as int) =~= kv);
                }
            },
            ChordChoice::First => {
                if k.len() > 0 {
                    push_new(&mut chosen, &k[0]);
                    proof {
                        lemma_dedup_push(before, kv[0]);
                    }
                }
            },
            ChordChoice::Last => {
                if k.len() > 0 {
                    push_new(&mut chosen, &k[k.len() - 1]);
                    proof {
                        lemma_dedup_push(before, kv.last());
                    }
                }
            },
        }
        i += 1;
    }
    proof {
        assert(all.take(keys.len() as int) =~= all);
    }
    if chosen.len() == 0 {
        return None;
    }
    let label = match fixed {
        Some(f) => copy_string(f),
        None => {
            let mut s = copy_string(chosen[0].as_str());
            let ghost cv = chosen@.map_values(|s: String| s@);
            let mut j: usize = 1;
            proof {
                assert(cv.take(1).drop_last() =~= Seq::<Seq<char>>::empty());
                assert(slash_joined(cv.take(1)) == cv[0]);
            }
            while j < chosen.len()
                invariant
                    1 <= j <= chosen.len(),
                    cv == chosen@.map_values(|s: String| s@),
                    s@ == slash_joined(cv.take(j as int)),
                decreases chosen.len() - j,
            {
                push_str(&mut s, "/");
                push_str(&mut s, chosen[j].as_str());
                proof {
                    reveal_strlit("/");
                    assert(cv.take(j + 1).drop_last() =~= cv.take(j as int));
                    assert(s@ =~= slash_joined(cv.take(j as int)) + seq!['/'] + cv[j as int]);
                }
                j += 1;
            }
            proof {
                assert(cv.take(chosen.len() as int) =~= cv);
            }
            s
        },
    };
    Some((label, copy_string(action)))
}

/// Whether the two rows fit, with two columns to spare, in `room` columns.
pub fn tier_fits_in(navigation: &Vec<Pill>, actions: &Vec<Pill>, room: usize) -> (r: bool)
    ensures
        r == tier_fits(pills_view(navigation@), pills_view(actions@), room as int),
{
    let ghost nav = pills_view(navigation@);
    let ghost act = pills_view(actions@);
    // Columns used so far; the answer is known to be no once they pass `room`.
    let mut used: usize = 2;
    if room < 2 {
        proof {
            lemma_row_width_nonneg(nav);
            lemma_row_width_nonneg(act);
        }
        return false;
    }
    let mut row: usize = 0;
    while row < 2
        invariant
            row <= 2,
            nav == pills_view(navigation@),
            act == pills_view(actions@),
            2 <= used <= room,
            used == 2 + (if row >= 1 { row_width(nav) } else { 0 }) + (if row >= 2 { row_width(act) } else { 0 }),
        decreases 2 - row,
    {
        let pills = if row == 0 {
            navigation
        } else {
            actions
        };
        let ghost pv = pills_view(pills@);
        let mut k: usize = 0;
        let ghost start = used as int;
        proof {
            assert(pv.take(0) =~= Seq::<(Seq<char>, Seq<char>)>::empty());
        }
        while k < pills.len()
            invariant
                row < 2,
                k <= pills.len(),
                nav == pills_view(navigation@),
                act == pills_view(actions@),
                pv == pills_view(pills@),
                pv == (if row == 0 { nav } else { act }),
                start == 2 + (if row >= 1 { row_width(nav) } else { 0 }),
                start <= used <= room,
                used == start + pills_sum(pv.take(k as int)) + (if k == 0 { 0 } else { k - 1 }),
            decreases pills.len() - k,
        {
            let p = &pills[k];
            let kw = text_width(p.0.as_str());
            let named = p.1.as_str().unicode_len() > 0;
            let aw: usize = if named {
                text_width(p.1.as_str())
            } else {
                0
            };
            let gap: u128 = if k == 0 {
                0
            } else {
                1
            };
            let extra: u128 = if named {
                2 + aw as u128
            } else {
                0
            };
            let t: u128 = used as u128 + gap + 2 + kw as u128 + extra;
            proof {
                assert(pv[k as int] == (p.0@, p.1@));
                assert(pv.take(k + 1).drop_last() =~= pv.take(k as int));
                assert(pv.take(k + 1).last() == pv[k as int]);
                assert(t == start + pills_sum(pv.take(k + 1)) + k);
            }
            if t > room as u128 {
                proof {
                    lemma_rows_past(nav, act, pv, k as int, row as int, start, room as int);
                }
                return false;
            }
            used = t as usize;
            k += 1;
        }
        proof {
            assert(pv.take(pills.len() as int) =~= pv);
        }
        row += 1;
    }
    true
}

/// A row is never narrower than nothing.
proof fn lemma_row_width_nonneg(pills: Seq<(Seq<char>, Seq<char>)>)
    ensures
        row_width(pills) >= 0,
        pills_sum(pills) >= 0,
{
    lemma_sum_nonneg(pills);
}

/// The sum over a prefix is at most the sum over a longer prefix.
proof fn lemma_sum_grows(pills: Seq<(Seq<char>, Seq<char>)>, k: int)
    requires
        0 <= k <= pills.len(),
    ensures
        0 <= pills_sum(pills.take(k)) <= pills_sum(pills),
    decreases pills.len() - k,
{
    lemma_sum_nonneg(pills.take(k));
    if k == pills.len() {
        assert(pills.take(k) =~= pills);
    } else {
        lemma_sum_grows(pills, k + 1);
        assert(pills.take(k + 1).drop_last() =~= pills.take(k));
    }
}

/// Sums of widths are not negative.
proof fn lemma_sum_nonneg(pills: Seq<(Seq<char>, Seq<char>)>)
    ensures
        pills_sum(pills) >= 0,
    decreases pills.len(),
{
    if pills.len() > 0 {
        lemma_sum_nonneg(pills.drop_last());
    }
}

/// Once the columns used by the first `k + 1` pills of the current row pass
/// `room`, the whole of both rows does too.
proof fn lemma_rows_past(
    nav: Seq<(Seq<char>, Seq<char>)>,
    act: Seq<(Seq<char>, Seq<char>)>,
    pv: Seq<(Seq<char>, Seq<char>)>,
    k: int,
    row: int,
    start: int,
    room: int,
)
    requires
        0 <= row < 2,
        pv == (if row == 0 { nav } else { act }),
        0 <= k < pv.len(),
        start == 2 + (if row >= 1 { row_width(nav) } else { 0 }),
        start + pills_sum(pv.take(k + 1)) + k > room,
    ensures
        !tier_fits(nav, act, room),
{
    lemma_sum_grows(pv, k + 1);
    lemma_row_width_nonneg(nav);
    lemma_row_width_nonneg(act);
}

/// The tier the bar shows for `room` columns, as `chosen_tier` says.
pub fn choose_tier(tiers: &Vec<(Vec<Pill>, Vec<Pill>)>, room: usize) -> (r: usize)
    requires
        tiers.len() > 0,
    ensures
        r as int == chosen_tier(tiers_view(tiers@), room as int),
{
    let ghost tv = tiers_view(tiers@);
    let mut i: usize = 0;
    while i < tiers.len()
        invariant
            i <= tiers.len(),
            tv == tiers_view(tiers@),
            first_fitting(tv, room as int, 0) == first_fitting(tv, room as int, i as int),
        decreases tiers.len() - i,
    {
        proof {
            assert(tv[i as int] == (pills_view(tiers@[i as int].0@), pills_view(tiers@[i as int].1@)));
        }
        if tier_fits_in(&tiers[i].0, &tiers[i].1, room) {
            return i;
        }
        i += 1;
    }
    tiers.len() - 1
}

/// The rows the bar tries, fullest first: full navigation and actions;
/// medium of both; compact navigation with medium actions; compact of
/// both; and compact navigation with only the first compact action.
pub open spec fn tiers_spec(
    nav_full: Seq<(Seq<char>, Seq<char>)>,
    nav_medium: Seq<(Seq<char>, Seq<char>)>,
    nav_compact: Seq<(Seq<char>, Seq<char>)>,
    act_full: Seq<(Seq<char>, Seq<char>)>,
    act_medium: Seq<(Seq<char>, Seq<char>)>,
    act_compact: Seq<(Seq<char>, Seq<char>)>,
) -> Seq<(Seq<(Seq<char>, Seq<char>)>, Seq<(Seq<char>, Seq<char>)>)> {
    seq![
        (nav_full, act_full),
        (nav_medium, act_medium),
        (nav_compact, act_medium),
        (nav_compact, act_compact),
        (nav_compact, act_compact.take(if act_compact.len() < 1 { act_compact.len() as int } else { 1 })),
    ]
}

/// A copy of the pills.
fn copy_pills(pills: &Vec<Pill>) -> (r: Vec<Pill>)
    ensures
        pills_view(r@) == pills_view(pills@),
{
    copy_first_pills(pills, pills.len())
}

/// A copy of the first `n` pills.
fn copy_first_pills(pills: &Vec<Pill>, n: usize) -> (r: Vec<Pill>)
    requires
        n <= pills.len(),
    ensures
        pills_view(r@) == pills_view(pills@).take(n as int),
{
    let mut r: Vec<Pill> = Vec::new();
    let mut i: usize = 0;
    while i < n
        invariant
            i <= n <= pills.len(),
            pills_view(r@) == pills_view(pills@).take(i as int),
        decreases n - i,
    {
        let p = &pills[i];
        let key = copy_string(p.0.as_str());
        let action = copy_string(p.1.as_str());
        let ghost before = pills_view(r@);
        r.push((key, action));
        proof {
            assert(pills_view(r@) =~= before.push((p.0@, p.1@)));
            assert(pills_view(pills@)[i as int] == (p.0@, p.1@));
            assert(pills_view(r@) =~= pills_view(pills@).take(i + 1));
        }
        i += 1;
    }
    r
}

/// The rows the bar tries, as `tiers_spec` says.
pub fn bar_tiers(
    nav_full: &Vec<Pill>,
    nav_medium: &Vec<Pill>,
    nav_compact: &Vec<Pill>,
    act_full: &Vec<Pill>,
    act_medium: &Vec<Pill>,
    act_compact: &Vec<Pill>,
) -> (r: Vec<(Vec<Pill>, Vec<Pill>)>)
    ensures
        tiers_view(r@) == tiers_spec(
            pills_view(nav_full@),
            pills_view(nav_medium@),
            pills_view(nav_compact@),
            pills_view(act_full@),
            pills_view(act_medium@),
            pills_view(act_compact@),
        ),
{
    let first = if act_compact.len() < 1 {
        act_compact.len()
    } else {
        1
    };
    let mut r: Vec<(Vec<Pill>, Vec<Pill>)> = Vec::new();
    r.push((copy_pills(nav_full), copy_pills(act_full)));
    r.push((copy_pills(nav_medium), copy_pills(act_medium)));
    r.push((copy_pills(nav_compact), copy_pills(act_medium)));
    r.push((copy_pills(nav_compact), copy_pills(act_compact)));
    r.push((copy_pills(nav_compact), copy_first_pills(act_compact, first)));
    proof {
        assert(tiers_view(r@) =~= tiers_spec(
            pills_view(nav_full@),
            pills_view(nav_medium@),
            pills_view(nav_compact@),
            pills_view(act_full@),
            pills_view(act_medium@),
            pills_view(act_compact@),
        ));
    }
    r
}

/// The bar shows the first tier that fits: the chosen tier fits and none
/// before it does, unless no tier fits at all, when it is the last.
pub proof fn law_the_first_tier_that_fits_is_shown(
    tiers: Seq<(Seq<(Seq<char>, Seq<char>)>, Seq<(Seq<char>, Seq<char>)>)>,
    room: int,
)
    requires
        tiers.len() > 0,
    ensures
        0 <= chosen_tier(tiers, room) < tiers.len(),
        forall|j: int| 0 <= j < chosen_tier(tiers, room) ==> !tier_fits(#[trigger] tiers[j].0, tiers[j].1, room),
        tier_fits(tiers[chosen_tier(tiers, room)].0, tiers[chosen_tier(tiers, room)].1, room)
            || forall|j: int| 0 <= j < tiers.len() ==> !tier_fits(#[trigger] tiers[j].0, tiers[j].1, room),
{
    lemma_first_fitting(tiers, room, 0);
}

/// What `first_fitting` finds from `from` on: a tier that fits, with none
/// fitting between `from` and it; or, when it finds none, no tier from
/// `from` on fits.
proof fn lemma_first_fitting(
    tiers: Seq<(Seq<(Seq<char>, Seq<char>)>, Seq<(Seq<char>, Seq<char>)>)>,
    room: int,
    from: int,
)
    requires
        0 <= from,
    ensures
        match first_fitting(tiers, room, from) {
            Some(i) => from <= i < tiers.len() && tier_fits(tiers[i].0, tiers[i].1, room) && forall|j: int|
                from <= j < i ==> !tier_fits(#[trigger] tiers[j].0, tiers[j].1, room),
            None => forall|j: int| from <= j < tiers.len() ==> !tier_fits(#[trigger] tiers[j].0, tiers[j].1, room),
        },
    decreases tiers.len() - from,
{
    if from < tiers.len() && !tier_fits(tiers[from].0, tiers[from].1, room) {
        lemma_first_fitting(tiers, room, from + 1);
    }
}

// ---------------------------------------------------------------------------
// Which pills each part of the interface offers
// ---------------------------------------------------------------------------

/// How much the bar spells out: every pill with its action, fewer of them,
/// or keys alone.
#[derive(Clone, Copy, Debug, PartialEq, Eq)]
pub enum Tier {
    Full,
    Medium,
    Compact,
}

/// The pane that has the focus.
#[derive(Clone, Copy, Debug, PartialEq, Eq, Structural)]
pub enum Pane {
    Sidebar,
    List,
    Preview,
}

/// What the action pills are about.
#[derive(Clone, Copy, Debug, PartialEq, Eq)]
pub enum ShortcutContext {
    Git,
    Gist,
    Grab,
    Fragment,
    Trash,
    Sidebar,
    List,
    Preview,
}

/// Which context the action pills follow: the git console, then the gist
/// panel, then a fragment being moved, then the fragment pane, then the
/// trash when the list has the focus, else the focused pane.
pub open spec fn shortcut_context_spec(
    git_open: bool,
    gist_open: bool,
    grabbing: bool,
    in_fragments: bool,
    trash_open: bool,
    focus: Pane,
) -> ShortcutContext {
    if git_open {
        ShortcutContext::Git
    } else if gist_open {
        ShortcutContext::Gist
    } else if grabbing {
        ShortcutContext::Grab
    } else if in_fragments {
        ShortcutContext::Fragment
    } else if trash_open && focus == Pane::List {
        ShortcutContext::Trash
    } else {
        match focus {
            Pane::Sidebar => ShortcutContext::Sidebar,
            Pane::List => ShortcutContext::List,
            Pane::Preview => ShortcutContext::Preview,
        }
    }
}

/// The context the action pills follow, as `shortcut_context_spec` says.
pub fn shortcut_context(
    git_open: bool,
    gist_open: bool,
    grabbing: bool,
    in_fragments: bool,
    trash_open: bool,
    focus: Pane,
) -> (r: ShortcutContext)
    ensures
        r == shortcut_context_spec(git_open, gist_open, grabbing, in_fragments, trash_open, focus),
{
    if git_open {
        ShortcutContext::Git
    } else if gist_open {
        ShortcutContext::Gist
    } else if grabbing {
        ShortcutContext::Grab
    } else if in_fragments {
        ShortcutContext::Fragment
    } else if trash_open && focus == Pane::List {
        ShortcutContext::Trash
    } else {
        match focus {
            Pane::Sidebar => ShortcutContext::Sidebar,
            Pane::List => ShortcutContext::List,
            Pane::Preview => ShortcutContext::Preview,
        }
    }
}

/// The action pills take the alternate accent in the git console, the gist
/// panel, the trash, and while fragments are in play; the primary pill
/// colour elsewhere.
pub open spec fn accented_actions(context: ShortcutContext) -> bool {
    context is Git || context is Gist || context is Grab || context is Fragment || context is Trash
}

/// Whether the action pills take the alternate accent, as
/// `accented_actions` says.
pub fn actions_accented(context: ShortcutContext) -> (r: bool)
    ensures
        r == accented_actions(context),
{
    match context {
        ShortcutContext::Git | ShortcutContext::Gist | ShortcutContext::Grab | ShortcutContext::Fragment
        | ShortcutContext::Trash => true,
        _ => false,
    }
}

/// A pill to offer: the mode whose bindings it reads, the commands it stands
/// for, the action's name, which of each command's keys it names, and a
/// label to show in place of the keys, if any (the pill still goes when no
/// key is bound).
#[derive(Clone, Debug)]
pub struct PillRule {
    pub mode: Mode,
    pub commands: Vec<CommandId>,
    pub action: String,
    pub choice: ChordChoice,
    pub fixed_key: Option<String>,
}

/// A pill rule, as a spec value.
pub struct PillRuleView {
    pub mode: Mode,
    pub commands: Seq<CommandId>,
    pub action: Seq<char>,
    pub choice: ChordChoice,
    pub fixed_key: Option<Seq<char>>,
}

/// A pill rule from its parts.
pub open spec fn pill_rule(
    mode: Mode,
    commands: Seq<CommandId>,
    action: Seq<char>,
    choice: ChordChoice,
    fixed_key: Option<Seq<char>>,
) -> PillRuleView {
    PillRuleView { mode, commands, action, choice, fixed_key }
}

/// Pill rules, as spec values.
pub open spec fn rules_view(rules: Seq<PillRule>) -> Seq<PillRuleView> {
    rules.map_values(
        |r: PillRule|
            pill_rule(
                r.mode,
                r.commands@,
                r.action@,
                r.choice,
                match r.fixed_key {
                    Some(k) => Some(k@),
                    None => None,
                },
            ),
    )
}

/// A pill rule from its parts.
fn make_rule(mode: Mode, commands: Vec<CommandId>, action: &str, choice: ChordChoice, fixed_key: Option<&str>) -> (r:
    PillRule)
    ensures
        pill_rule(
            r.mode,
            r.commands@,
            r.action@,
            r.choice,
            match r.fixed_key {
                Some(k) => Some(k@),
                None => None,
            },
        ) == pill_rule(
            mode,
            commands@,
            action@,
            choice,
            match fixed_key {
                Some(k) => Some(k@),
                None => None,
            },
        ),
{
    PillRule {
        mode,
        commands,
        action: copy_string(action),
        choice,
        fixed_key: match fixed_key {
            Some(k) => Some(copy_string(k)),
            None => None,
        },
    }
}

/// The navigation pills of each tier.
pub open spec fn navigation_rules(tier: Tier) -> Seq<PillRuleView> {
    match tier {
        Tier::Full => seq![
            pill_rule(Mode::Global, seq![CommandId::PaneBack, CommandId::PaneForward], "nav"@, ChordChoice::All, Some("j/k"@)),
            pill_rule(Mode::Global, seq![CommandId::LibrarySearch], "search"@, ChordChoice::All, None),
            pill_rule(Mode::Global, seq![CommandId::PaletteOpen], "cmd"@, ChordChoice::First, None),
            pill_rule(Mode::Global, seq![CommandId::GitToggleConsole], "git"@, ChordChoice::All, None),
            pill_rule(Mode::Global, seq![CommandId::ViewToggleHelp], "help"@, ChordChoice::All, None),
            pill_rule(Mode::Global, seq![CommandId::AppQuit], "quit"@, ChordChoice::All, None),
        ],
        Tier::Medium => seq![
            pill_rule(Mode::Global, seq![CommandId::PaneBack, CommandId::PaneForward], "nav"@, ChordChoice::All, Some("j/k"@)),
            pill_rule(Mode::Global, seq![CommandId::LibrarySearch], "search"@, ChordChoice::All, None),
            pill_rule(Mode::Global, seq![CommandId::PaletteOpen], "cmd"@, ChordChoice::First, None),
            pill_rule(Mode::Global, seq![CommandId::ViewToggleHelp], "help"@, ChordChoice::All, None),
        ],
        Tier::Compact => seq![
            pill_rule(Mode::Global, seq![CommandId::PaneBack, CommandId::PaneForward], ""@, ChordChoice::All, Some("j/k"@)),
            pill_rule(Mode::Global, seq![CommandId::LibrarySearch], ""@, ChordChoice::All, None),
            pill_rule(Mode::Global, seq![CommandId::PaletteOpen], ""@, ChordChoice::First, None),
            pill_rule(Mode::Global, seq![CommandId::ViewToggleHelp], ""@, ChordChoice::All, None),
        ],
    }
}

/// The action pills of each context and tier.
pub open spec fn action_rules(context: ShortcutContext, tier: Tier) -> Seq<PillRuleView> {
    match (context, tier) {
        (ShortcutContext::Git, Tier::Full) => seq![
            pill_rule(Mode::Git, seq![CommandId::GitRefreshLocalStatus], "refresh"@, ChordChoice::All, None),
            pill_rule(Mode::Git, seq![CommandId::GitBackup], "backup"@, ChordChoice::All, None),
            pill_rule(Mode::Git, seq![CommandId::GitCommit], "commit"@, ChordChoice::All, None),
            pill_rule(Mode::Git, seq![CommandId::GitPush], "push"@, ChordChoice::All, None),
            pill_rule(Mode::Git, seq![CommandId::UiDismiss], "close"@, ChordChoice::All, None),
        ],
        (ShortcutContext::Git, Tier::Medium) => seq![
            pill_rule(Mode::Git, seq![CommandId::GitBackup], "backup"@, ChordChoice::All, None),
            pill_rule(Mode::Git, seq![CommandId::GitCommit], "commit"@, ChordChoice::All, None),
            pill_rule(Mode::Git, seq![CommandId::GitPush], "push"@, ChordChoice::All, None),
            pill_rule(Mode::Git, seq![CommandId::UiDismiss], "close"@, ChordChoice::All, None),
        ],
        (ShortcutContext::Git, Tier::Compact) => seq![
            pill_rule(Mode::Git, seq![CommandId::GitBackup], ""@, ChordChoice::All, None),
            pill_rule(Mode::Git, seq![CommandId::GitPush], ""@, ChordChoice::All, None),
            pill_rule(Mode::Git, seq![CommandId::UiDismiss], ""@, ChordChoice::All, None),
        ],
        (ShortcutContext::Gist, Tier::Full) => seq![
            pill_rule(Mode::Gist, seq![CommandId::GistPush], "publish"@, ChordChoice::All, None),
            pill_rule(Mode::Gist, seq![CommandId::GistCopyUrl], "copy"@, ChordChoice::All, None),
            pill_rule(Mode::Gist, seq![CommandId::GistOpenInBrowser], "open"@, ChordChoice::All, None),
            pill_rule(Mode::Gist, seq![CommandId::GistVerifyRemote], "check"@, ChordChoice::All, None),
            pill_rule(Mode::Gist, seq![CommandId::UiDismiss], "close"@, ChordChoice::All, None),
        ],
        (ShortcutContext::Gist, Tier::Medium) => seq![
            pill_rule(Mode::Gist, seq![CommandId::GistPush], "publish"@, ChordChoice::All, None),
            pill_rule(Mode::Gist, seq![CommandId::GistCopyUrl], "copy"@, ChordChoice::All, None),
            pill_rule(Mode::Gist, seq![CommandId::GistOpenInBrowser], "open"@, ChordChoice::All, None),
            pill_rule(Mode::Gist, seq![CommandId::UiDismiss], "close"@, ChordChoice::All, None),
        ],
        (ShortcutContext::Gist, Tier::Compact) => seq![
            pill_rule(Mode::Gist, seq![CommandId::GistPush], ""@, ChordChoice::All, None),
            pill_rule(Mode::Gist, seq![CommandId::GistCopyUrl], ""@, ChordChoice::All, None),
            pill_rule(Mode::Gist, seq![CommandId::UiDismiss], ""@, ChordChoice::All, None),
        ],
        (ShortcutContext::Grab, Tier::Full) => seq![
            pill_rule(Mode::FragmentGrab, seq![CommandId::NavDown, CommandId::NavUp], "move"@, ChordChoice::First, None),
            pill_rule(Mode::FragmentGrab, seq![CommandId::GrabDrop], "drop"@, ChordChoice::All, None),
            pill_rule(Mode::FragmentGrab, seq![CommandId::UiDismiss], "cancel"@, ChordChoice::Last, None),
        ],
        (ShortcutContext::Grab, Tier::Medium) => seq![
            pill_rule(Mode::FragmentGrab, seq![CommandId::NavDown, CommandId::NavUp], "move"@, ChordChoice::First, None),
            pill_rule(Mode::FragmentGrab, seq![CommandId::GrabDrop], "drop"@, ChordChoice::All, None),
            pill_rule(Mode::FragmentGrab, seq![CommandId::UiDismiss], "cancel"@, ChordChoice::Last, None),
        ],
        (ShortcutContext::Grab, Tier::Compact) => seq![
            pill_rule(Mode::FragmentGrab, seq![CommandId::GrabDrop], ""@, ChordChoice::All, None),
            pill_rule(Mode::FragmentGrab, seq![CommandId::UiDismiss], ""@, ChordChoice::Last, None),
        ],
        (ShortcutContext::Fragment, Tier::Full) => seq![
            pill_rule(Mode::Fragment, seq![CommandId::FragmentAdd], "add"@, ChordChoice::All, None),
            pill_rule(Mode::Fragment, seq![CommandId::FragmentRename], "rename"@, ChordChoice::All, None),
            pill_rule(Mode::Fragment, seq![CommandId::FragmentReorder], "reorder"@, ChordChoice::All, None),
            pill_rule(Mode::Fragment, seq![CommandId::FragmentRemove], "delete"@, ChordChoice::All, None),
            pill_rule(Mode::Preview, seq![CommandId::SnippetEditContent], "edit"@, ChordChoice::All, None),
            pill_rule(Mode::Preview, seq![CommandId::PreviewCollapseFragments], "collapse"@, ChordChoice::All, None),
        ],
        (ShortcutContext::Fragment, Tier::Medium) => seq![
            pill_rule(Mode::Fragment, seq![CommandId::FragmentAdd], "add"@, ChordChoice::All, None),
            pill_rule(Mode::Fragment, seq![CommandId::FragmentRename], "rename"@, ChordChoice::All, None),
            pill_rule(Mode::Fragment, seq![CommandId::FragmentRemove], "delete"@, ChordChoice::All, None),
            pill_rule(Mode::Preview, seq![CommandId::PreviewCollapseFragments], "collapse"@, ChordChoice::All, None),
        ],
        (ShortcutContext::Fragment, Tier::Compact) => seq![
            pill_rule(Mode::Fragment, seq![CommandId::FragmentAdd], ""@, ChordChoice::All, None),
            pill_rule(Mode::Fragment, seq![CommandId::FragmentRename], ""@, ChordChoice::All, None),
            pill_rule(Mode::Fragment, seq![CommandId::FragmentRemove], ""@, ChordChoice::All, None),
        ],
        (ShortcutContext::Trash, Tier::Full) => seq![
            pill_rule(Mode::Trash, seq![CommandId::NavDown, CommandId::NavUp], "move"@, ChordChoice::First, None),
            pill_rule(Mode::Trash, seq![CommandId::TrashRestoreSelected], "restore"@, ChordChoice::First, None),
            pill_rule(Mode::Trash, seq![CommandId::TrashPurgeSelected], "purge"@, ChordChoice::All, None),
        ],
        (ShortcutContext::Trash, Tier::Medium) => seq![
            pill_rule(Mode::Trash, seq![CommandId::TrashRestoreSelected], "restore"@, ChordChoice::First, None),
            pill_rule(Mode::Trash, seq![CommandId::TrashPurgeSelected], "purge"@, ChordChoice::All, None),
        ],
        (ShortcutContext::Trash, Tier::Compact) => seq![
            pill_rule(Mode::Trash, seq![CommandId::TrashRestoreSelected], ""@, ChordChoice::First, None),
            pill_rule(Mode::Trash, seq![CommandId::TrashPurgeSelected], ""@, ChordChoice::All, None),
        ],
        (ShortcutContext::Sidebar, Tier::Full) => seq![
            pill_rule(Mode::Sidebar, seq![CommandId::FolderNew], "create"@, ChordChoice::All, None),
            pill_rule(Mode::Sidebar, seq![CommandId::SidebarRename], "rename"@, ChordChoice::All, None),
            pill_rule(Mode::Sidebar, seq![CommandId::FolderMove], "move"@, ChordChoice::All, None),
            pill_rule(Mode::Sidebar, seq![CommandId::SidebarDelete], "delete"@, ChordChoice::All, None),
            pill_rule(Mode::Global, seq![CommandId::ViewCycleSort], "sort"@, ChordChoice::All, None),
        ],
        (ShortcutContext::Sidebar, Tier::Medium) => seq![
            pill_rule(Mode::Sidebar, seq![CommandId::FolderNew], "create"@, ChordChoice::All, None),
            pill_rule(Mode::Sidebar, seq![CommandId::SidebarRename], "rename"@, ChordChoice::All, None),
            pill_rule(Mode::Sidebar, seq![CommandId::SidebarDelete], "delete"@, ChordChoice::All, None),
        ],
        (ShortcutContext::Sidebar, Tier::Compact) => seq![
            pill_rule(Mode::Sidebar, seq![CommandId::FolderNew], ""@, ChordChoice::All, None),
            pill_rule(Mode::Sidebar, seq![CommandId::SidebarRename], ""@, ChordChoice::All, None),
            pill_rule(Mode::Sidebar, seq![CommandId::SidebarDelete], ""@, ChordChoice::All, None),
        ],
        (ShortcutContext::List, Tier::Full) => seq![
            pill_rule(Mode::List, seq![CommandId::SnippetNew], "create"@, ChordChoice::All, None),
            pill_rule(Mode::List, seq![CommandId::SnippetEditContent], "edit"@, ChordChoice::All, None),
            pill_rule(Mode::List, seq![CommandId::SnippetEditTags], "tags"@, ChordChoice::All, None),
            pill_rule(Mode::List, seq![CommandId::SnippetRename], "rename"@, ChordChoice::All, None),
            pill_rule(Mode::List, seq![CommandId::SnippetMove], "move"@, ChordChoice::All, None),
            pill_rule(Mode::Global, seq![CommandId::CopyContent], "copy"@, ChordChoice::All, None),
            pill_rule(Mode::Global, seq![CommandId::CopyManagedPath], "path"@, ChordChoice::All, None),
        ],
        (ShortcutContext::List, Tier::Medium) => seq![
            pill_rule(Mode::List, seq![CommandId::SnippetNew], "create"@, ChordChoice::All, None),
            pill_rule(Mode::List, seq![CommandId::SnippetEditContent], "edit"@, ChordChoice::All, None),
            pill_rule(Mode::List, seq![CommandId::SnippetEditTags], "tags"@, ChordChoice::All, None),
            pill_rule(Mode::Global, seq![CommandId::CopyContent], "copy"@, ChordChoice::All, None),
        ],
        (ShortcutContext::List, Tier::Compact) => seq![
            pill_rule(Mode::List, seq![CommandId::SnippetNew], ""@, ChordChoice::All, None),
            pill_rule(Mode::List, seq![CommandId::SnippetEditContent], ""@, ChordChoice::All, None),
            pill_rule(Mode::Global, seq![CommandId::CopyContent], ""@, ChordChoice::All, None),
        ],
        (ShortcutContext::Preview, Tier::Full) => seq![
            pill_rule(Mode::Preview, seq![CommandId::SnippetNew], "create"@, ChordChoice::All, None),
            pill_rule(Mode::Preview, seq![CommandId::SnippetEditContent], "edit"@, ChordChoice::All, None),
            pill_rule(Mode::Preview, seq![CommandId::SnippetEditTags], "tags"@, ChordChoice::All, None),
            pill_rule(Mode::Preview, seq![CommandId::SnippetRename], "rename"@, ChordChoice::All, None),
            pill_rule(Mode::Preview, seq![CommandId::SnippetMove], "move"@, ChordChoice::All, None),
            pill_rule(Mode::Global, seq![CommandId::CopyContent], "copy"@, ChordChoice::All, None),
            pill_rule(Mode::Global, seq![CommandId::CopyManagedPath], "path"@, ChordChoice::All, None),
        ],
        (ShortcutContext::Preview, Tier::Medium) => seq![
            pill_rule(Mode::Preview, seq![CommandId::SnippetNew], "create"@, ChordChoice::All, None),
            pill_rule(Mode::Preview, seq![CommandId::SnippetEditContent], "edit"@, ChordChoice::All, None),
            pill_rule(Mode::Preview, seq![CommandId::SnippetEditTags], "tags"@, ChordChoice::All, None),
            pill_rule(Mode::Global, seq![CommandId::CopyContent], "copy"@, ChordChoice::All, None),
        ],
        (ShortcutContext::Preview, Tier::Compact) => seq![
            pill_rule(Mode::Preview, seq![CommandId::SnippetNew], ""@, ChordChoice::All, None),
            pill_rule(Mode::Preview, seq![CommandId::SnippetEditContent], ""@, ChordChoice::All, None),
            pill_rule(Mode::Global, seq![CommandId::CopyContent], ""@, ChordChoice::All, None),
        ],
    }
}

/// The navigation pills of a tier, as `navigation_rules` lists them.
pub fn navigation_pill_rules(tier: Tier) -> (r: Vec<PillRule>)
    ensures
        rules_view(r@) == navigation_rules(tier),
{
    let mut r: Vec<PillRule> = Vec::new();
    match tier {
        Tier::Full => {
            let mut c: Vec<CommandId> = Vec::new();
            c.push(CommandId::PaneBack);
            c.push(CommandId::PaneForward);
            proof {
                assert(c@ =~= seq![CommandId::PaneBack, CommandId::PaneForward]);
            }
            r.push(make_rule(Mode::Global, c, "nav", ChordChoice::All, Some("j/k")));
            let mut c: Vec<CommandId> = Vec::new();
            c.push(CommandId::LibrarySearch);
            r.push(make_rule(Mode::Global, c, "search", ChordChoice::All, None));
            let mut c: Vec<CommandId> = Vec::new();
            c.push(CommandId::PaletteOpen);
            r.push(make_rule(Mode::Global, c, "cmd", ChordChoice::First, None));
            let mut c: Vec<CommandId> = Vec::new();
            c.push(CommandId::GitToggleConsole);
            r.push(make_rule(Mode::Global, c, "git", ChordChoice::All, None));
            let mut c: Vec<CommandId> = Vec::new();
            c.push(CommandId::ViewToggleHelp);
            r.push(make_rule(Mode::Global, c, "help", ChordChoice::All, None));
            let mut c: Vec<CommandId> = Vec::new();
            c.push(CommandId::AppQuit);
            r.push(make_rule(Mode::Global, c, "quit", ChordChoice::All, None));
        },
        Tier::Medium => {
            let mut c: Vec<CommandId> = Vec::new();
            c.push(CommandId::PaneBack);
            c.push(CommandId::PaneForward);
            proof {
                assert(c@ =~= seq![CommandId::PaneBack, CommandId::PaneForward]);
            }
            r.push(make_rule(Mode::Global, c, "nav", ChordChoice::All, Some("j/k")));
            let mut c: Vec<CommandId> = Vec::new();
            c.push(CommandId::LibrarySearch);
            r.push(make_rule(Mode::Global, c, "search", ChordChoice::All, None));
            let mut c: Vec<CommandId> = Vec::new();
            c.push(CommandId::PaletteOpen);
            r.push(make_rule(Mode::Global, c, "cmd", ChordChoice::First, None));
            let mut c: Vec<CommandId> = Vec::new();
            c.push(CommandId::ViewToggleHelp);
            r.push(make_rule(Mode::Global, c, "help", ChordChoice::All, None));
        },
        Tier::Compact => {
            let mut c: Vec<CommandId> = Vec::new();
            c.push(CommandId::PaneBack);
            c.push(CommandId::PaneForward);
            proof {
                assert(c@ =~= seq![CommandId::PaneBack, CommandId::PaneForward]);
            }
            r.push(make_rule(Mode::Global, c, "", ChordChoice::All, Some("j/k")));
            let mut c: Vec<CommandId> = Vec::new();
            c.push(CommandId::LibrarySearch);
            r.push(make_rule(Mode::Global, c, "", ChordChoice::All, None));
            let mut c: Vec<CommandId> = Vec::new();
            c.push(CommandId::PaletteOpen);
            r.push(make_rule(Mode::Global, c, "", ChordChoice::First, None));
            let mut c: Vec<CommandId> = Vec::new();
            c.push(CommandId::ViewToggleHelp);
            r.push(make_rule(Mode::Global, c, "", ChordChoice::All, None));
        },
    }
    proof {
        assert(rules_view(r@) =~= navigation_rules(tier));
    }
    r
}

/// The action pills while the git context holds the keyboard.
fn rules_git(tier: Tier) -> (r: Vec<PillRule>)
    ensures
        rules_view(r@) == action_rules(ShortcutContext::Git, tier),
{
    let mut r: Vec<PillRule> = Vec::new();
    match tier {
        Tier::Full => {
            let mut c: Vec<CommandId> = Vec::new();
            c.push(CommandId::GitRefreshLocalStatus);
            r.push(make_rule(Mode::Git, c, "refresh", ChordChoice::All, None));
            let mut c: Vec<CommandId> = Vec::new();
            c.push(CommandId::GitBackup);
            r.push(make_rule(Mode::Git, c, "backup", ChordChoice::All, None));
            let mut c: Vec<CommandId> = Vec::new();
            c.push(CommandId::GitCommit);
            r.push(make_rule(Mode::Git, c, "commit", ChordChoice::All, None));
            let mut c: Vec<CommandId> = Vec::new();
            c.push(CommandId::GitPush);
            r.push(make_rule(Mode::Git, c, "push", ChordChoice::All, None));
            let mut c: Vec<CommandId> = Vec::new();
            c.push(CommandId::UiDismiss);
            r.push(make_rule(Mode::Git, c, "close", ChordChoice::All, None));
        },
        Tier::Medium => {
            let mut c: Vec<CommandId> = Vec::new();
            c.push(CommandId::GitBackup);
            r.push(make_rule(Mode::Git, c, "backup", ChordChoice::All, None));
            let mut c: Vec<CommandId> = Vec::new();
            c.push(CommandId::GitCommit);
            r.push(make_rule(Mode::Git, c, "commit", ChordChoice::All, None));
            let mut c: Vec<CommandId> = Vec::new();
            c.push(CommandId::GitPush);
            r.push(make_rule(Mode::Git, c, "push", ChordChoice::All, None));
            let mut c: Vec<CommandId> = Vec::new();
            c.push(CommandId::UiDismiss);
            r.push(make_rule(Mode::Git, c, "close", ChordChoice::All, None));
        },
        Tier::Compact => {
            let mut c: Vec<CommandId> = Vec::new();
            c.push(CommandId::GitBackup);
            r.push(make_rule(Mode::Git, c, "", ChordChoice::All, None));
            let mut c: Vec<CommandId> = Vec::new();
            c.push(CommandId::GitPush);
            r.push(make_rule(Mode::Git, c, "", ChordChoice::All, None));
            let mut c: Vec<CommandId> = Vec::new();
            c.push(CommandId::UiDismiss);
            r.push(make_rule(Mode::Git, c, "", ChordChoice::All, None));
        },
    }
    proof {
        assert(rules_view(r@) =~= action_rules(ShortcutContext::Git, tier));
    }
    r
}

/// The action pills while the gist context holds the keyboard.
fn rules_gist(tier: Tier) -> (r: Vec<PillRule>)
    ensures
        rules_view(r@) == action_rules(ShortcutContext::Gist, tier),
{
    let mut r: Vec<PillRule> = Vec::new();
    match tier {
        Tier::Full => {
            let mut c: Vec<CommandId> = Vec::new();
            c.push(CommandId::GistPush);
            r.push(make_rule(Mode::Gist, c, "publish", ChordChoice::All, None));
            let mut c: Vec<CommandId> = Vec::new();
            c.push(CommandId::GistCopyUrl);
            r.push(make_rule(Mode::Gist, c, "copy", ChordChoice::All, None));
            let mut c: Vec<CommandId> = Vec::new();
            c.push(CommandId::GistOpenInBrowser);
            r.push(make_rule(Mode::Gist, c, "open", ChordChoice::All, None));
            let mut c: Vec<CommandId> = Vec::new();
            c.push(CommandId::GistVerifyRemote);
            r.push(make_rule(Mode::Gist, c, "check", ChordChoice::All, None));
            let mut c: Vec<CommandId> = Vec::new();
            c.push(CommandId::UiDismiss);
            r.push(make_rule(Mode::Gist, c, "close", ChordChoice::All, None));
        },
        Tier::Medium => {
            let mut c: Vec<CommandId> = Vec::new();
            c.push(CommandId::GistPush);
            r.push(make_rule(Mode::Gist, c, "publish", ChordChoice::All, None));
            let mut c: Vec<CommandId> = Vec::new();
            c.push(CommandId::GistCopyUrl);
            r.push(make_rule(Mode::Gist, c, "copy", ChordChoice::All, None));
            let mut c: Vec<CommandId> = Vec::new();
            c.push(CommandId::GistOpenInBrowser);
            r.push(make_rule(Mode::Gist, c, "open", ChordChoice::All, None));
            let mut c: Vec<CommandId> = Vec::new();
            c.push(CommandId::UiDismiss);
            r.push(make_rule(Mode::Gist, c, "close", ChordChoice::All, None));
        },
        Tier::Compact => {
            let mut c: Vec<CommandId> = Vec::new();
            c.push(CommandId::GistPush);
            r.push(make_rule(Mode::Gist, c, "", ChordChoice::All, None));
            let mut c: Vec<CommandId> = Vec::new();
            c.push(CommandId::GistCopyUrl);
            r.push(make_rule(Mode::Gist, c, "", ChordChoice::All, None));
            let mut c: Vec<CommandId> = Vec::new();
            c.push(CommandId::UiDismiss);
            r.push(make_rule(Mode::Gist, c, "", ChordChoice::All, None));
        },
    }
    proof {
        assert(rules_view(r@) =~= action_rules(ShortcutContext::Gist, tier));
    }
    r
}

/// The action pills while the grab context holds the keyboard.
fn rules_grab(tier: Tier) -> (r: Vec<PillRule>)
    ensures
        rules_view(r@) == action_rules(ShortcutContext::Grab, tier),
{
    let mut r: Vec<PillRule> = Vec::new();
    match tier {
        Tier::Full => {
            let mut c: Vec<CommandId> = Vec::new();
            c.push(CommandId::NavDown);
            c.push(CommandId::NavUp);
            proof {
                assert(c@ =~= seq![CommandId::NavDown, CommandId::NavUp]);
            }
            r.push(make_rule(Mode::FragmentGrab, c, "move", ChordChoice::First, None));
            let mut c: Vec<CommandId> = Vec::new();
            c.push(CommandId::GrabDrop);
            r.push(make_rule(Mode::FragmentGrab, c, "drop", ChordChoice::All, None));
            let mut c: Vec<CommandId> = Vec::new();
            c.push(CommandId::UiDismiss);
            r.push(make_rule(Mode::FragmentGrab, c, "cancel", ChordChoice::Last, None));
        },
        Tier::Medium => {
            let mut c: Vec<CommandId> = Vec::new();
            c.push(CommandId::NavDown);
            c.push(CommandId::NavUp);
            proof {
                assert(c@ =~= seq![CommandId::NavDown, CommandId::NavUp]);
            }
            r.push(make_rule(Mode::FragmentGrab, c, "move", ChordChoice::First, None));
            let mut c: Vec<CommandId> = Vec::new();
            c.push(CommandId::GrabDrop);
            r.push(make_rule(Mode::FragmentGrab, c, "drop", ChordChoice::All, None));
            let mut c: Vec<CommandId> = Vec::new();
            c.push(CommandId::UiDismiss);
            r.push(make_rule(Mode::FragmentGrab, c, "cancel", ChordChoice::Last, None));
        },
        Tier::Compact => {
            let mut c: Vec<CommandId> = Vec::new();
            c.push(CommandId::GrabDrop);
            r.push(make_rule(Mode::FragmentGrab, c, "", ChordChoice::All, None));
            let mut c: Vec<CommandId> = Vec::new();
            c.push(CommandId::UiDismiss);
            r.push(make_rule(Mode::FragmentGrab, c, "", ChordChoice::Last, None));
        },
    }
    proof {
        assert(rules_view(r@) =~= action_rules(ShortcutContext::Grab, tier));
    }
    r
}

/// The action pills while the fragment context holds the keyboard.
fn rules_fragment(tier: Tier) -> (r: Vec<PillRule>)
    ensures
        rules_view(r@) == action_rules(ShortcutContext::Fragment, tier),
{
    let mut r: Vec<PillRule> = Vec::new();
    match tier {
        Tier::Full => {
            let mut c: Vec<CommandId> = Vec::new();
            c.push(CommandId::FragmentAdd);
            r.push(make_rule(Mode::Fragment, c, "add", ChordChoice::All, None));
            let mut c: Vec<CommandId> = Vec::new();
            c.push(CommandId::FragmentRename);
            r.push(make_rule(Mode::Fragment, c, "rename", ChordChoice::All, None));
            let mut c: Vec<CommandId> = Vec::new();
            c.push(CommandId::FragmentReorder);
            r.push(make_rule(Mode::Fragment, c, "reorder", ChordChoice::All, None));
            let mut c: Vec<CommandId> = Vec::new();
            c.push(CommandId::FragmentRemove);
            r.push(make_rule(Mode::Fragment, c, "delete", ChordChoice::All, None));
            let mut c: Vec<CommandId> = Vec::new();
            c.push(CommandId::SnippetEditContent);
            r.push(make_rule(Mode::Preview, c, "edit", ChordChoice::All, None));
            let mut c: Vec<CommandId> = Vec::new();
            c.push(CommandId::PreviewCollapseFragments);
            r.push(make_rule(Mode::Preview, c, "collapse", ChordChoice::All, None));
        },
        Tier::Medium => {
            let mut c: Vec<CommandId> = Vec::new();
            c.push(CommandId::FragmentAdd);
            r.push(make_rule(Mode::Fragment, c, "add", ChordChoice::All, None));
            let mut c: Vec<CommandId> = Vec::new();
            c.push(CommandId::FragmentRename);
            r.push(make_rule(Mode::Fragment, c, "rename", ChordChoice::All, None));
            let mut c: Vec<CommandId> = Vec::new();
            c.push(CommandId::FragmentRemove);
            r.push(make_rule(Mode::Fragment, c, "delete", ChordChoice::All, None));
            let mut c: Vec<CommandId> = Vec::new();
            c.push(CommandId::PreviewCollapseFragments);
            r.push(make_rule(Mode::Preview, c, "collapse", ChordChoice::All, None));
        },
        Tier::Compact => {
            let mut c: Vec<CommandId> = Vec::new();
            c.push(CommandId::FragmentAdd);
            r.push(make_rule(Mode::Fragment, c, "", ChordChoice::All, None));
            let mut c: Vec<CommandId> = Vec::new();
            c.push(CommandId::FragmentRename);
            r.push(make_rule(Mode::Fragment, c, "", ChordChoice::All, None));
            let mut c: Vec<CommandId> = Vec::new();
            c.push(CommandId::FragmentRemove);
            r.push(make_rule(Mode::Fragment, c, "", ChordChoice::All, None));
        },
    }
    proof {
        assert(rules_view(r@) =~= action_rules(ShortcutContext::Fragment, tier));
    }
    r
}

/// The action pills while the trash context holds the keyboard.
fn rules_trash(tier: Tier) -> (r: Vec<PillRule>)
    ensures
        rules_view(r@) == action_rules(ShortcutContext::Trash, tier),
{
    let mut r: Vec<PillRule> = Vec::new();
    match tier {
        Tier::Full => {
            let mut c: Vec<CommandId> = Vec::new();
            c.push(CommandId::NavDown);
            c.push(CommandId::NavUp);
            proof {
                assert(c@ =~= seq![CommandId::NavDown, CommandId::NavUp]);
            }
            r.push(make_rule(Mode::Trash, c, "move", ChordChoice::First, None));
            let mut c: Vec<CommandId> = Vec::new();
            c.push(CommandId::TrashRestoreSelected);
            r.push(make_rule(Mode::Trash, c, "restore", ChordChoice::First, None));
            let mut c: Vec<CommandId> = Vec::new();
            c.push(CommandId::TrashPurgeSelected);
            r.push(make_rule(Mode::Trash, c, "purge", ChordChoice::All, None));
        },
        Tier::Medium => {
            let mut c: Vec<CommandId> = Vec::new();
            c.push(CommandId::TrashRestoreSelected);
            r.push(make_rule(Mode::Trash, c, "restore", ChordChoice::First, None));
            let mut c: Vec<CommandId> = Vec::new();
            c.push(CommandId::TrashPurgeSelected);
            r.push(make_rule(Mode::Trash, c, "purge", ChordChoice::All, None));
        },
        Tier::Compact => {
            let mut c: Vec<CommandId> = Vec::new();
            c.push(CommandId::TrashRestoreSelected);
            r.push(make_rule(Mode::Trash, c, "", ChordChoice::First, None));
            let mut c: Vec<CommandId> = Vec::new();
            c.push(CommandId::TrashPurgeSelected);
            r.push(make_rule(Mode::Trash, c, "", ChordChoice::All, None));
        },
    }
    proof {
        assert(rules_view(r@) =~= action_rules(ShortcutContext::Trash, tier));
    }
    r
}

/// The action pills while the sidebar context holds the keyboard.
fn rules_sidebar(tier: Tier) -> (r: Vec<PillRule>)
    ensures
        rules_view(r@) == action_rules(ShortcutContext::Sidebar, tier),
{
    let mut r: Vec<PillRule> = Vec::new();
    match tier {
        Tier::Full => {
            let mut c: Vec<CommandId> = Vec::new();
            c.push(CommandId::FolderNew);
            r.push(make_rule(Mode::Sidebar, c, "create", ChordChoice::All, None));
            let mut c: Vec<CommandId> = Vec::new();
            c.push(CommandId::SidebarRename);
            r.push(make_rule(Mode::Sidebar, c, "rename", ChordChoice::All, None));
            let mut c: Vec<CommandId> = Vec::new();
            c.push(CommandId::FolderMove);
            r.push(make_rule(Mode::Sidebar, c, "move", ChordChoice::All, None));
            let mut c: Vec<CommandId> = Vec::new();
            c.push(CommandId::SidebarDelete);
            r.push(make_rule(Mode::Sidebar, c, "delete", ChordChoice::All, None));
            let mut c: Vec<CommandId> = Vec::new();
            c.push(CommandId::ViewCycleSort);
            r.push(make_rule(Mode::Global, c, "sort", ChordChoice::All, None));
        },
        Tier::Medium => {
            let mut c: Vec<CommandId> = Vec::new();
            c.push(CommandId::FolderNew);
            r.push(make_rule(Mode::Sidebar, c, "create", ChordChoice::All, None));
            let mut c: Vec<CommandId> = Vec::new();
            c.push(CommandId::SidebarRename);
            r.push(make_rule(Mode::Sidebar, c, "rename", ChordChoice::All, None));
            let mut c: Vec<CommandId> = Vec::new();
            c.push(CommandId::SidebarDelete);
            r.push(make_rule(Mode::Sidebar, c, "delete", ChordChoice::All, None));
        },
        Tier::Compact => {
            let mut c: Vec<CommandId> = Vec::new();
            c.push(CommandId::FolderNew);
            r.push(make_rule(Mode::Sidebar, c, "", ChordChoice::All, None));
            let mut c: Vec<CommandId> = Vec::new();
            c.push(CommandId::SidebarRename);
            r.push(make_rule(Mode::Sidebar, c, "", ChordChoice::All, None));
            let mut c: Vec<CommandId> = Vec::new();
            c.push(CommandId::SidebarDelete);
            r.push(make_rule(Mode::Sidebar, c, "", ChordChoice::All, None));
        },
    }
    proof {
        assert(rules_view(r@) =~= action_rules(ShortcutContext::Sidebar, tier));
    }
    r
}

/// The action pills while the list context holds the keyboard.
fn rules_list(tier: Tier) -> (r: Vec<PillRule>)
    ensures
        rules_view(r@) == action_rules(ShortcutContext::List, tier),
{
    let mut r: Vec<PillRule> = Vec::new();
    match tier {
        Tier::Full => {
            let mut c: Vec<CommandId> = Vec::new();
            c.push(CommandId::SnippetNew);
            r.push(make_rule(Mode::List, c, "create", ChordChoice::All, None));
            let mut c: Vec<CommandId> = Vec::new();
            c.push(CommandId::SnippetEditContent);
            r.push(make_rule(Mode::List, c, "edit", ChordChoice::All, None));
            let mut c: Vec<CommandId> = Vec::new();
            c.push(CommandId::SnippetEditTags);
            r.push(make_rule(Mode::List, c, "tags", ChordChoice::All, None));
            let mut c: Vec<CommandId> = Vec::new();
            c.push(CommandId::SnippetRename);
            r.push(make_rule(Mode::List, c, "rename", ChordChoice::All, None));
            let mut c: Vec<CommandId> = Vec::new();
            c.push(CommandId::SnippetMove);
            r.push(make_rule(Mode::List, c, "move", ChordChoice::All, None));
            let mut c: Vec<CommandId> = Vec::new();
            c.push(CommandId::CopyContent);
            r.push(make_rule(Mode::Global, c, "copy", ChordChoice::All, None));
            let mut c: Vec<CommandId> = Vec::new();
            c.push(CommandId::CopyManagedPath);
            r.push(make_rule(Mode::Global, c, "path", ChordChoice::All, None));
        },
        Tier::Medium => {
            let mut c: Vec<CommandId> = Vec::new();
            c.push(CommandId::SnippetNew);
            r.push(make_rule(Mode::List, c, "create", ChordChoice::All, None));
            let mut c: Vec<CommandId> = Vec::new();
            c.push(CommandId::SnippetEditContent);
            r.push(make_rule(Mode::List, c, "edit", ChordChoice::All, None));
            let mut c: Vec<CommandId> = Vec::new();
            c.push(CommandId::SnippetEditTags);
            r.push(make_rule(Mode::List, c, "tags", ChordChoice::All, None));
            let mut c: Vec<CommandId> = Vec::new();
            c.push(CommandId::CopyContent);
            r.push(make_rule(Mode::Global, c, "copy", ChordChoice::All, None));
        },
        Tier::Compact => {
            let mut c: Vec<CommandId> = Vec::new();
            c.push(CommandId::SnippetNew);
            r.push(make_rule(Mode::List, c, "", ChordChoice::All, None));
            let mut c: Vec<CommandId> = Vec::new();
            c.push(CommandId::SnippetEditContent);
            r.push(make_rule(Mode::List, c, "", ChordChoice::All, None));
            let mut c: Vec<CommandId> = Vec::new();
            c.push(CommandId::CopyContent);
            r.push(make_rule(Mode::Global, c, "", ChordChoice::All, None));
        },
    }
    proof {
        assert(rules_view(r@) =~= action_rules(ShortcutContext::List, tier));
    }
    r
}

/// The action pills while the preview context holds the keyboard.
fn rules_preview(tier: Tier) -> (r: Vec<PillRule>)
    ensures
        rules_view(r@) == action_rules(ShortcutContext::Preview, tier),
{
    let mut r: Vec<PillRule> = Vec::new();
    match tier {
        Tier::Full => {
            let mut c: Vec<CommandId> = Vec::new();
            c.push(CommandId::SnippetNew);
            r.push(make_rule(Mode::Preview, c, "create", ChordChoice::All, None));
            let mut c: Vec<CommandId> = Vec::new();
            c.push(CommandId::SnippetEditContent);
            r.push(make_rule(Mode::Preview, c, "edit", ChordChoice::All, None));
            let mut c: Vec<CommandId> = Vec::new();
            c.push(CommandId::SnippetEditTags);
            r.push(make_rule(Mode::Preview, c, "tags", ChordChoice::All, None));
            let mut c: Vec<CommandId> = Vec::new();
            c.push(CommandId::SnippetRename);
            r.push(make_rule(Mode::Preview, c, "rename", ChordChoice::All, None));
            let mut c: Vec<CommandId> = Vec::new();
            c.push(CommandId::SnippetMove);
            r.push(make_rule(Mode::Preview, c, "move", ChordChoice::All, None));
            let mut c: Vec<CommandId> = Vec::new();
            c.push(CommandId::CopyContent);
            r.push(make_rule(Mode::Global, c, "copy", ChordChoice::All, None));
            let mut c: Vec<CommandId> = Vec::new();
            c.push(CommandId::CopyManagedPath);
            r.push(make_rule(Mode::Global, c, "path", ChordChoice::All, None));
        },
        Tier::Medium => {
            let mut c: Vec<CommandId> = Vec::new();
            c.push(CommandId::SnippetNew);
            r.push(make_rule(Mode::Preview, c, "create", ChordChoice::All, None));
            let mut c: Vec<CommandId> = Vec::new();
            c.push(CommandId::SnippetEditContent);
            r.push(make_rule(Mode::Preview, c, "edit", ChordChoice::All, None));
            let mut c: Vec<CommandId> = Vec::new();
            c.push(CommandId::SnippetEditTags);
            r.push(make_rule(Mode::Preview, c, "tags", ChordChoice::All, None));
            let mut c: Vec<CommandId> = Vec::new();
            c.push(CommandId::CopyContent);
            r.push(make_rule(Mode::Global, c, "copy", ChordChoice::All, None));
        },
        Tier::Compact => {
            let mut c: Vec<CommandId> = Vec::new();
            c.push(CommandId::SnippetNew);
            r.push(make_rule(Mode::Preview, c, "", ChordChoice::All, None));
            let mut c: Vec<CommandId> = Vec::new();
            c.push(CommandId::SnippetEditContent);
            r.push(make_rule(Mode::Preview, c, "", ChordChoice::All, None));
            let mut c: Vec<CommandId> = Vec::new();
            c.push(CommandId::CopyContent);
            r.push(make_rule(Mode::Global, c, "", ChordChoice::All, None));
        },
    }
    proof {
        assert(rules_view(r@) =~= action_rules(ShortcutContext::Preview, tier));
    }
    r
}

/// The action pills of a context and tier, as `action_rules` lists them.
pub fn action_pill_rules(context: ShortcutContext, tier: Tier) -> (r: Vec<PillRule>)
    ensures
        rules_view(r@) == action_rules(context, tier),
{
    match context {
        ShortcutContext::Git => rules_git(tier),
        ShortcutContext::Gist => rules_gist(tier),
        ShortcutContext::Grab => rules_grab(tier),
        ShortcutContext::Fragment => rules_fragment(tier),
        ShortcutContext::Trash => rules_trash(tier),
        ShortcutContext::Sidebar => rules_sidebar(tier),
        ShortcutContext::List => rules_list(tier),
        ShortcutContext::Preview => rules_preview(tier),
    }
}

} // verus!
