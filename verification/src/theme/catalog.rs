//! The theme list: which themes there are (the built-in ones and the
//! theme files, a file taking the place of a built-in theme of its name),
//! and the order they are listed in (dark ones first, then by name).
use vstd::prelude::*;

use std::cmp::Ordering;

use crate::listing::is_permutation;
use crate::sort::{lemma_text_order_refl, lemma_text_order_reverses, lemma_text_order_trans, text_compare, text_order};
use crate::text::{chars_of, copy_string, eq_chars};
use crate::theme::Appearance;

verus! {

/// A theme's place in the list: its appearance and its name.
pub type ListKey = (Appearance, Seq<char>);

/// Dark themes come before light ones.
pub open spec fn appearance_rank(a: Appearance) -> int {
    match a {
        Appearance::Dark => 0,
        Appearance::Light => 1,
    }
}

/// `a` is listed after `b`: a later appearance, or the same appearance and
/// a later name (by characters).
pub open spec fn listed_after(a: ListKey, b: ListKey) -> bool {
    appearance_rank(a.0) > appearance_rank(b.0) || (a.0 == b.0 && text_order(a.1, b.1) == Ordering::Greater)
}

/// The list's order is a total preorder: nothing comes after itself, of two
/// at most one comes after the other, and not coming after is transitive.
proof fn lemma_listed_after_facts(a: ListKey, b: ListKey, c: ListKey)
    ensures
        !listed_after(a, a),
        listed_after(a, b) ==> !listed_after(b, a),
        !listed_after(a, b) && !listed_after(b, c) ==> !listed_after(a, c),
{
    lemma_text_order_refl(a.1);
    lemma_text_order_reverses(a.1, b.1);
    if !listed_after(a, b) && !listed_after(b, c) && a.0 == b.0 && b.0 == c.0 {
        lemma_text_order_trans(a.1, b.1, c.1);
    }
}

/// Keys as spec values.
pub open spec fn list_keys_view(keys: Seq<(Appearance, String)>) -> Seq<ListKey> {
    keys.map_values(|k: (Appearance, String)| (k.0, k.1@))
}

/// `order` lists the keys in the list's order; keys level in it keep their
/// positions' order.
pub open spec fn listed_in_order(keys: Seq<ListKey>, order: Seq<usize>) -> bool {
    &&& forall|i: int, j: int|
        0 <= i < j < order.len() ==> !listed_after(keys[#[trigger] order[i] as int], keys[#[trigger] order[j] as int])
    &&& forall|i: int, j: int|
        0 <= i < j < order.len() && !listed_after(keys[#[trigger] order[j] as int], keys[#[trigger] order[i] as int])
            ==> order[i] < order[j]
}

/// Whether `a` is listed after `b`.
fn listed_after_exec(a: &(Appearance, String), b: &(Appearance, String)) -> (r: bool)
    ensures
        r == listed_after((a.0, a.1@), (b.0, b.1@)),
{
    let ra: u8 = match a.0 {
        Appearance::Dark => 0,
        Appearance::Light => 1,
    };
    let rb: u8 = match b.0 {
        Appearance::Dark => 0,
        Appearance::Light => 1,
    };
    if ra != rb {
        return ra > rb;
    }
    let x = chars_of(a.1.as_str());
    let y = chars_of(b.1.as_str());
    match text_compare(x.as_slice(), y.as_slice()) {
        Ordering::Greater => true,
        _ => false,
    }
}

/// The positions of the themes in the order the list shows them: every
/// theme once, dark ones first and then by name, themes level in that
/// order in their given order.
pub fn theme_list_order(keys: &Vec<(Appearance, String)>) -> (order: Vec<usize>)
    ensures
        is_permutation(order@, keys@.len()),
        listed_in_order(list_keys_view(keys@), order@),
{
    let ghost kv = list_keys_view(keys@);
    let mut order: Vec<usize> = Vec::new();
    let mut i: usize = 0;
    while i < keys.len()
        invariant
            i <= keys@.len(),
            kv == list_keys_view(keys@),
            is_permutation(order@, i as nat),
            listed_in_order(kv, order@),
        decreases keys@.len() - i,
    {
        let ghost old_order = order@;
        let mut pos: usize = order.len();
        loop
            invariant
                pos <= order@.len(),
                order@ == old_order,
                order@.len() == i,
                i < keys@.len(),
                kv == list_keys_view(keys@),
                is_permutation(order@, i as nat),
                forall|m: int| pos <= m < order@.len() ==> listed_after(kv[#[trigger] order@[m] as int], kv[i as int]),
            ensures
                pos <= order@.len(),
                order@ == old_order,
                forall|m: int| pos <= m < order@.len() ==> listed_after(kv[#[trigger] order@[m] as int], kv[i as int]),
                pos > 0 ==> !listed_after(kv[order@[pos - 1] as int], kv[i as int]),
            decreases pos,
        {
            if pos == 0 {
                break;
            }
            let prev = order[pos - 1];
            assert(prev < i);
            assert(kv[prev as int] == (keys@[prev as int].0, keys@[prev as int].1@));
            assert(kv[i as int] == (keys@[i as int].0, keys@[i as int].1@));
            if !listed_after_exec(&keys[prev], &keys[i]) {
                break;
            }
            pos = pos - 1;
        }
        proof {
            let k = kv[i as int];
            let o = old_order;
            let n = o.insert(pos as int, i);
            assert(n.len() == i + 1);
            assert forall|x: int| 0 <= x < i + 1 implies #[trigger] n[x] < i + 1 by {
                if x < pos {
                    assert(n[x] == o[x]);
                } else if x > pos {
                    assert(n[x] == o[x - 1]);
                }
            }
            assert forall|x: int, y: int| 0 <= x < y < i + 1 implies #[trigger] n[x] != #[trigger] n[y] by {
                if x < pos && y < pos {
                    assert(n[x] == o[x] && n[y] == o[y]);
                } else if x < pos && y == pos {
                    assert(n[x] == o[x]);
                } else if x < pos && y > pos {
                    assert(n[x] == o[x] && n[y] == o[y - 1]);
                } else if x == pos {
                    assert(n[y] == o[y - 1]);
                } else {
                    assert(n[x] == o[x - 1] && n[y] == o[y - 1]);
                }
            }
            assert forall|x: int, y: int| 0 <= x < y < i + 1 implies !listed_after(
                kv[#[trigger] n[x] as int],
                kv[#[trigger] n[y] as int],
            ) && (!listed_after(kv[n[y] as int], kv[n[x] as int]) ==> n[x] < n[y]) by {
                if y < pos {
                    assert(n[x] == o[x] && n[y] == o[y]);
                } else if y == pos {
                    assert(n[x] == o[x]);
                    assert(n[y] == i);
                    let last = o[pos - 1];
                    lemma_listed_after_facts(kv[o[x] as int], kv[last as int], k);
                    if x < pos - 1 {
                        assert(!listed_after(kv[o[x] as int], kv[o[pos - 1] as int]));
                    }
                } else if x == pos {
                    assert(n[x] == i);
                    assert(n[y] == o[y - 1]);
                    assert(listed_after(kv[o[y - 1] as int], k));
                    lemma_listed_after_facts(kv[o[y - 1] as int], k, k);
                    lemma_listed_after_facts(k, kv[o[y - 1] as int], k);
                } else if x < pos {
                    assert(n[x] == o[x] && n[y] == o[y - 1]);
                } else {
                    assert(n[x] == o[x - 1] && n[y] == o[y - 1]);
                }
            }
        }
        order.insert(pos, i);
        i = i + 1;
    }
    order
}

/// Names and whether each is built in, as spec values.
pub open spec fn entries_view(entries: Seq<(String, bool)>) -> Seq<(Seq<char>, bool)> {
    entries.map_values(|e: (String, bool)| (e.0@, e.1))
}

/// Where `name` stands among the entries, if it does.
pub open spec fn entry_position(entries: Seq<(Seq<char>, bool)>, name: Seq<char>) -> Option<int>
    decreases entries.len(),
{
    if entries.len() == 0 {
        None
    } else {
        match entry_position(entries.drop_last(), name) {
            Some(p) => Some(p),
            None => if entries.last().0 == name {
                Some(entries.len() - 1)
            } else {
                None
            },
        }
    }
}

/// Adding a theme: a name already there takes the new flag, a new name
/// comes last.
pub open spec fn add_entry(entries: Seq<(Seq<char>, bool)>, name: Seq<char>, builtin: bool) -> Seq<(Seq<char>, bool)> {
    match entry_position(entries, name) {
        Some(p) => entries.update(p, (name, builtin)),
        None => entries.push((name, builtin)),
    }
}

/// Adding the names, in order, each with the flag.
pub open spec fn add_all(entries: Seq<(Seq<char>, bool)>, names: Seq<Seq<char>>, builtin: bool) -> Seq<(Seq<char>, bool)>
    decreases names.len(),
{
    if names.len() == 0 {
        entries
    } else {
        add_entry(add_all(entries, names.drop_last(), builtin), names.last(), builtin)
    }
}

/// The themes there are: the built-in names, then the theme files' names;
/// a file named like a built-in theme takes its place (and is no longer
/// built in), and each name is there once.
pub open spec fn theme_entries_spec(builtins: Seq<Seq<char>>, files: Seq<Seq<char>>) -> Seq<(Seq<char>, bool)> {
    add_all(add_all(Seq::empty(), builtins, true), files, false)
}

/// Texts, as spec values.
pub open spec fn names_view(names: Seq<String>) -> Seq<Seq<char>> {
    names.map_values(|n: String| n@)
}

/// Finds where `name` stands among the entries.
fn find_entry(entries: &Vec<(String, bool)>, name: &str) -> (r: Option<usize>)
    ensures
        match entry_position(entries_view(entries@), name@) {
            Some(p) => r matches Some(q) && q as int == p,
            None => r is None,
        },
        r matches Some(p) ==> p < entries@.len(),
{
    let ghost ev = entries_view(entries@);
    let target = chars_of(name);
    let mut i: usize = 0;
    while i < entries.len()
        invariant
            i <= entries@.len(),
            ev == entries_view(entries@),
            target@ == name@,
            entry_position(ev.take(i as int), name@) is None,
        decreases entries@.len() - i,
    {
        assert(ev.take(i + 1).drop_last() =~= ev.take(i as int));
        assert(ev.take(i + 1).last() == ev[i as int]);
        let here = chars_of(entries[i].0.as_str());
        if eq_chars(here.as_slice(), target.as_slice()) {
            proof {
                lemma_position_extends(ev, name@, i as int + 1);
            }
            return Some(i);
        }
        i = i + 1;
    }
    assert(ev.take(entries@.len() as int) =~= ev);
    None
}

/// A position found in a prefix is the position in the whole.
proof fn lemma_position_extends(entries: Seq<(Seq<char>, bool)>, name: Seq<char>, k: int)
    requires
        0 <= k <= entries.len(),
        entry_position(entries.take(k), name) is Some,
    ensures
        entry_position(entries, name) == entry_position(entries.take(k), name),
    decreases entries.len() - k,
{
    if k < entries.len() {
        assert(entries.take(k + 1).drop_last() =~= entries.take(k));
        lemma_position_extends(entries, name, k + 1);
    } else {
        assert(entries.take(k) =~= entries);
    }
}

/// A found position holds the name.
proof fn lemma_position_holds(entries: Seq<(Seq<char>, bool)>, name: Seq<char>)
    ensures
        entry_position(entries, name) matches Some(p) ==> 0 <= p < entries.len() && entries[p].0 == name,
    decreases entries.len(),
{
    if entries.len() > 0 {
        lemma_position_holds(entries.drop_last(), name);
    }
}

/// Adds each name with the flag.
fn add_names(entries: &mut Vec<(String, bool)>, names: &Vec<String>, builtin: bool)
    ensures
        entries_view(final(entries)@) == add_all(entries_view(old(entries)@), names_view(names@), builtin),
{
    let ghost start = entries_view(entries@);
    let ghost nv = names_view(names@);
    let mut i: usize = 0;
    while i < names.len()
        invariant
            i <= names@.len(),
            nv == names_view(names@),
            entries_view(entries@) == add_all(start, nv.take(i as int), builtin),
        decreases names@.len() - i,
    {
        assert(nv.take(i + 1).drop_last() =~= nv.take(i as int));
        assert(nv.take(i + 1).last() == names@[i as int]@);
        let ghost before = entries_view(entries@);
        assert(add_all(start, nv.take(i + 1), builtin) == add_entry(
            add_all(start, nv.take(i + 1).drop_last(), builtin),
            nv.take(i + 1).last(),
            builtin,
        ));
        assert(add_all(start, nv.take(i + 1), builtin) == add_entry(before, names@[i as int]@, builtin));
        proof {
            lemma_position_holds(before, names@[i as int]@);
        }
        match find_entry(entries, names[i].as_str()) {
            Some(p) => {
                assert(entry_position(before, names@[i as int]@) == Some(p as int));
                entries.set(p, (copy_string(names[i].as_str()), builtin));
                assert(entries_view(entries@) =~= before.update(p as int, (names@[i as int]@, builtin)));
            },
            None => {
                assert(entry_position(before, names@[i as int]@) is None);
                entries.push((copy_string(names[i].as_str()), builtin));
                assert(entries_view(entries@) =~= before.push((names@[i as int]@, builtin)));
            },
        }
        i = i + 1;
    }
    assert(nv.take(names@.len() as int) =~= nv);
}

/// The themes there are, each once, and whether it is built in.
pub fn theme_entries(builtins: &Vec<String>, files: &Vec<String>) -> (entries: Vec<(String, bool)>)
    ensures
        entries_view(entries@) == theme_entries_spec(names_view(builtins@), names_view(files@)),
{
    let mut entries: Vec<(String, bool)> = Vec::new();
    assert(entries_view(entries@) =~= Seq::<(Seq<char>, bool)>::empty());
    add_names(&mut entries, builtins, true);
    add_names(&mut entries, files, false);
    entries
}

} // verus!
