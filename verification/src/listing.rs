//! The snippet list: the order in which it shows snippets (stably sorted by
//! the chosen mode, so that snippets level in that mode keep their catalog
//! order), which row stays selected when it is rebuilt, and how far its
//! viewport (and the sidebar's) may scroll.
use vstd::prelude::*;

use crate::sort::{goes_after, goes_after_exec, lemma_after_facts, level_with, SnippetSortKey, SnippetSortKeyView, SortMode};

verus! {

/// Sort keys as spec values.
pub open spec fn keys_view(keys: Seq<SnippetSortKey>) -> Seq<SnippetSortKeyView> {
    keys.map_values(|k: SnippetSortKey| k@)
}

/// `order` lists each of the positions `0..n` once.
pub open spec fn is_permutation(order: Seq<usize>, n: nat) -> bool {
    &&& order.len() == n
    &&& forall|i: int| 0 <= i < n ==> #[trigger] order[i] < n
    &&& forall|i: int, j: int| 0 <= i < j < n ==> #[trigger] order[i] != #[trigger] order[j]
}

/// `order` lists the keys in `mode`'s order, and keys level with each other
/// in the order of their positions.
pub open spec fn sorted_stably(mode: SortMode, keys: Seq<SnippetSortKeyView>, order: Seq<usize>) -> bool {
    &&& forall|i: int, j: int|
        0 <= i < j < order.len() ==> !goes_after(mode, keys[#[trigger] order[i] as int], keys[#[trigger] order[j] as int])
    &&& forall|i: int, j: int|
        0 <= i < j < order.len() && level_with(mode, keys[#[trigger] order[i] as int], keys[#[trigger] order[j] as int])
            ==> order[i] < order[j]
}

/// The positions of the snippets in the order the list shows them: every
/// snippet once, in `mode`'s order, snippets level in it in their catalog
/// order (a stable sort).
pub fn sort_order(mode: SortMode, keys: &Vec<SnippetSortKey>) -> (order: Vec<usize>)
    ensures
        is_permutation(order@, keys@.len()),
        sorted_stably(mode, keys_view(keys@), order@),
{
    let ghost kv = keys_view(keys@);
    let mut order: Vec<usize> = Vec::new();
    let mut i: usize = 0;
    while i < keys.len()
        invariant
            i <= keys@.len(),
            kv == keys_view(keys@),
            is_permutation(order@, i as nat),
            sorted_stably(mode, kv, order@),
        decreases keys@.len() - i,
    {
        let ghost old_order = order@;
        let mut pos: usize = order.len();
        loop
            invariant
                pos <= order@.len(),
                order@ == old_order,
                order@.len() == i,
                i < keys@.len(),
                kv == keys_view(keys@),
                is_permutation(order@, i as nat),
                forall|m: int| pos <= m < order@.len() ==> goes_after(mode, kv[#[trigger] order@[m] as int], kv[i as int]),
            ensures
                pos <= order@.len(),
                order@ == old_order,
                forall|m: int| pos <= m < order@.len() ==> goes_after(mode, kv[#[trigger] order@[m] as int], kv[i as int]),
                pos > 0 ==> !goes_after(mode, kv[order@[pos - 1] as int], kv[i as int]),
            decreases pos,
        {
            if pos == 0 {
                break;
            }
            let prev = order[pos - 1];
            assert(prev < i);
            assert(kv[prev as int] == keys@[prev as int]@);
            assert(kv[i as int] == keys@[i as int]@);
            if !goes_after_exec(mode, &keys[prev], &keys[i]) {
                break;
            }
            pos = pos - 1;
        }
        proof {
            let k = kv[i as int];
            let o = old_order;
            let n = o.insert(pos as int, i);
            assert(n.len() == i + 1);
            assert forall|x: int| 0 <= x < i + 1 implies #[trigger] n[x] < i + 1 by {
                if x < pos {
                    assert(n[x] == o[x]);
                } else if x > pos {
                    assert(n[x] == o[x - 1]);
                }
            }
            assert forall|x: int, y: int| 0 <= x < y < i + 1 implies #[trigger] n[x] != #[trigger] n[y] by {
                if x < pos && y < pos {
                    assert(n[x] == o[x] && n[y] == o[y]);
                } else if x < pos && y == pos {
                    assert(n[x] == o[x]);
                } else if x < pos && y > pos {
                    assert(n[x] == o[x] && n[y] == o[y - 1]);
                } else if x == pos {
                    assert(n[y] == o[y - 1]);
                } else {
                    assert(n[x] == o[x - 1] && n[y] == o[y - 1]);
                }
            }
            assert forall|x: int, y: int| 0 <= x < y < i + 1 implies !goes_after(
                mode,
                kv[#[trigger] n[x] as int],
                kv[#[trigger] n[y] as int],
            ) && (level_with(mode, kv[n[x] as int], kv[n[y] as int]) ==> n[x] < n[y]) by {
                if y < pos {
                    assert(n[x] == o[x] && n[y] == o[y]);
                } else if y == pos {
                    assert(n[x] == o[x]);
                    assert(n[y] == i);
                    let last = o[pos - 1];
                    lemma_after_facts(mode, kv[o[x] as int], kv[last as int], k);
                    if x < pos - 1 {
                        assert(!goes_after(mode, kv[o[x] as int], kv[o[pos - 1] as int]));
                    }
                } else if x == pos {
                    assert(n[x] == i);
                    assert(n[y] == o[y - 1]);
                    assert(goes_after(mode, kv[o[y - 1] as int], k));
                    lemma_after_facts(mode, kv[o[y - 1] as int], k, k);
                    lemma_after_facts(mode, k, kv[o[y - 1] as int], k);
                } else if x < pos {
                    assert(n[x] == o[x] && n[y] == o[y - 1]);
                } else {
                    assert(n[x] == o[x - 1] && n[y] == o[y - 1]);
                }
            }
        }
        order.insert(pos, i);
        i = i + 1;
    }
    order
}


/// The selected snippet is one of the listed ones.
pub open spec fn still_listed(selected: Option<u128>, visible: Seq<u128>) -> bool {
    match selected {
        Some(id) => visible.contains(id),
        None => false,
    }
}

/// Which row is selected after the list was rebuilt: the selected snippet's
/// row where it is still listed, else the first row, else none.
pub fn refresh_selection(selected: Option<u128>, visible: &Vec<u128>) -> (r: Option<usize>)
    ensures
        still_listed(selected, visible@) ==> (r matches Some(i) && i < visible@.len() && Some(visible@[i as int])
            == selected && forall|j: int| 0 <= j < i ==> Some(#[trigger] visible@[j]) != selected),
        !still_listed(selected, visible@) ==> r == (if visible@.len() > 0 {
            Some(0usize)
        } else {
            None
        }),
{
    if let Some(id) = selected {
        let mut i: usize = 0;
        while i < visible.len()
            invariant
                i <= visible@.len(),
                selected == Some(id),
                forall|j: int| 0 <= j < i ==> visible@[j] != id,
            decreases visible@.len() - i,
        {
            if visible[i] == id {
                proof {
                    assert forall|j: int| 0 <= j < i implies Some(#[trigger] visible@[j]) != selected by {
                        assert(visible@[j] != id);
                    }
                }
                return Some(i);
            }
            i = i + 1;
        }
        proof {
            assert forall|j: int| 0 <= j < visible@.len() implies visible@[j] != id by {}
            assert(!visible@.contains(id));
        }
    }
    if visible.len() > 0 {
        Some(0)
    } else {
        None
    }
}

/// How many rows of `row_height` lines a bordered pane `height` lines tall
/// shows.
pub fn viewport_rows(height: u16, row_height: u16) -> (r: usize)
    requires
        row_height > 0,
    ensures
        r == (if height >= 2 {
            (height - 2) as int
        } else {
            0
        }) / (row_height as int),
{
    let inner: u16 = height.saturating_sub(2);
    (inner / row_height) as usize
}

/// The scroll offset of a list of `rows` rows whose viewport shows
/// `viewport` of them: a stale offset is cut back far enough that the
/// viewport is full; an offset that still fills it stays.
pub fn clamp_offset(offset: usize, rows: usize, viewport: usize) -> (r: usize)
    ensures
        r == (if offset + viewport <= rows || offset == 0 {
            offset as int
        } else if rows >= viewport {
            rows - viewport
        } else {
            0
        }),
        r <= offset,
        rows >= viewport ==> r + viewport <= rows,
{
    let max_offset = rows.saturating_sub(viewport);
    if offset < max_offset {
        offset
    } else {
        max_offset
    }
}

} // verus!
