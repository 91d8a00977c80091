//! Snippet ordering, shared by the list command, the configuration and the
//! interface's sort cycle, so that every surface names and applies the same
//! orders.
use std::cmp::Ordering;

use vstd::prelude::*;

use crate::text::{chars_of, common_prefix_len, index_int, to_lowercase, unicode_lowercase};

verus! {

/// How snippets are ordered.
#[derive(Clone, Copy, Debug, PartialEq, Eq, Structural)]
pub enum SortMode {
    /// Catalog order: folder, then title, as recorded on disk.
    Manual,
    /// Case-insensitive title, ascending.
    Title,
    /// Most recently modified first.
    Modified,
    /// Most recently created first.
    Created,
}

/// The mode after `mode` in the sort cycle.
pub open spec fn next_mode(mode: SortMode) -> SortMode {
    match mode {
        SortMode::Manual => SortMode::Title,
        SortMode::Title => SortMode::Modified,
        SortMode::Modified => SortMode::Created,
        SortMode::Created => SortMode::Manual,
    }
}

/// The name of a mode.
pub open spec fn mode_str(mode: SortMode) -> Seq<char> {
    match mode {
        SortMode::Manual => "manual"@,
        SortMode::Title => "title"@,
        SortMode::Modified => "modified"@,
        SortMode::Created => "created"@,
    }
}

/// What a snippet is ordered by.
#[derive(Clone, Debug)]
pub struct SnippetSortKey {
    pub pinned: bool,
    pub title: String,
    /// When its files last changed, if known.
    pub modified_at: Option<String>,
    /// When it was created, as RFC 3339 UTC text (so that text order is
    /// time order).
    pub created_at: String,
}

/// A sort key, as spec values.
pub struct SnippetSortKeyView {
    pub pinned: bool,
    pub title: Seq<char>,
    pub modified_at: Option<Seq<char>>,
    pub created_at: Seq<char>,
}

impl View for SnippetSortKey {
    type V = SnippetSortKeyView;

    open spec fn view(&self) -> SnippetSortKeyView {
        SnippetSortKeyView {
            pinned: self.pinned,
            title: self.title@,
            modified_at: match self.modified_at {
                Some(m) => Some(m@),
                None => None,
            },
            created_at: self.created_at@,
        }
    }
}

/// `false` before `true`.
pub open spec fn bool_order(a: bool, b: bool) -> Ordering {
    if a == b {
        Ordering::Equal
    } else if !a {
        Ordering::Less
    } else {
        Ordering::Greater
    }
}

/// Two characters by their scalar values.
pub open spec fn char_order(a: char, b: char) -> Ordering {
    if a == b {
        Ordering::Equal
    } else if a < b {
        Ordering::Less
    } else {
        Ordering::Greater
    }
}

/// Text order: character by character, a prefix first. (UTF-8 keeps the
/// order of scalar values, so this is also the byte order `String` uses.)
pub open spec fn text_order(a: Seq<char>, b: Seq<char>) -> Ordering
    decreases a.len(),
{
    if a.len() == 0 && b.len() == 0 {
        Ordering::Equal
    } else if a.len() == 0 {
        Ordering::Less
    } else if b.len() == 0 {
        Ordering::Greater
    } else if a[0] != b[0] {
        char_order(a[0], b[0])
    } else {
        text_order(a.drop_first(), b.drop_first())
    }
}

/// Newest first, with missing timestamps last.
pub open spec fn optional_desc(left: Option<Seq<char>>, right: Option<Seq<char>>) -> Ordering {
    match (left, right) {
        (Some(l), Some(r)) => text_order(r, l),
        (Some(_), None) => Ordering::Less,
        (None, Some(_)) => Ordering::Greater,
        (None, None) => Ordering::Equal,
    }
}

/// The reverse of an order.
pub open spec fn reversed(o: Ordering) -> Ordering {
    match o {
        Ordering::Less => Ordering::Greater,
        Ordering::Equal => Ordering::Equal,
        Ordering::Greater => Ordering::Less,
    }
}

/// How `mode` orders two snippets: pinned ones first, then by the mode.
pub open spec fn mode_order(mode: SortMode, left: SnippetSortKeyView, right: SnippetSortKeyView) -> Ordering {
    let pins = bool_order(!left.pinned, !right.pinned);
    if pins != Ordering::Equal {
        pins
    } else {
        match mode {
            SortMode::Manual => Ordering::Equal,
            SortMode::Title => text_order(unicode_lowercase(left.title), unicode_lowercase(right.title)),
            SortMode::Modified => optional_desc(left.modified_at, right.modified_at),
            SortMode::Created => text_order(right.created_at, left.created_at),
        }
    }
}

/// Text order after a common prefix of `k` characters is decided by what
/// follows it.
proof fn lemma_text_order_after_prefix(a: Seq<char>, b: Seq<char>, k: int)
    requires
        0 <= k <= a.len(),
        k <= b.len(),
        a.subrange(0, k) == b.subrange(0, k),
    ensures
        text_order(a, b) == text_order(a.skip(k), b.skip(k)),
    decreases k,
{
    if k > 0 {
        assert(a[0] == a.subrange(0, k)[0]);
        assert(b[0] == b.subrange(0, k)[0]);
        assert(a.drop_first().subrange(0, k - 1) =~= a.subrange(0, k).drop_first());
        assert(b.drop_first().subrange(0, k - 1) =~= b.subrange(0, k).drop_first());
        lemma_text_order_after_prefix(a.drop_first(), b.drop_first(), k - 1);
        assert(a.drop_first().skip(k - 1) =~= a.skip(k));
        assert(b.drop_first().skip(k - 1) =~= b.skip(k));
    } else {
        assert(a.skip(0) =~= a);
        assert(b.skip(0) =~= b);
    }
}

/// Compares two texts character by character (titles once lowercased).
pub fn text_compare(a: &[char], b: &[char]) -> (r: Ordering)
    ensures
        r == text_order(a@, b@),
{
    let i = common_prefix_len(a, b);
    proof {
        lemma_text_order_after_prefix(a@, b@, index_int(i));
    }
    if i < a.len() && i < b.len() {
        if a[i] < b[i] {
            Ordering::Less
        } else {
            Ordering::Greater
        }
    } else if i == a.len() && i == b.len() {
        Ordering::Equal
    } else if i == a.len() {
        Ordering::Less
    } else {
        Ordering::Greater
    }
}

/// Newest first, with missing timestamps last.
fn compare_optional_desc(left: &Option<String>, right: &Option<String>) -> (r: Ordering)
    ensures
        r == optional_desc(
            match left {
                Some(l) => Some(l@),
                None => None,
            },
            match right {
                Some(x) => Some(x@),
                None => None,
            },
        ),
{
    match (left, right) {
        (Some(l), Some(r)) => text_compare(chars_of(r.as_str()).as_slice(), chars_of(l.as_str()).as_slice()),
        (Some(_), None) => Ordering::Less,
        (None, Some(_)) => Ordering::Greater,
        (None, None) => Ordering::Equal,
    }
}

impl SortMode {
    /// The next mode in the sort cycle.
    pub fn next(self) -> (m: SortMode)
        ensures
            m == next_mode(self),
    {
        match self {
            SortMode::Manual => SortMode::Title,
            SortMode::Title => SortMode::Modified,
            SortMode::Modified => SortMode::Created,
            SortMode::Created => SortMode::Manual,
        }
    }

    /// The mode's name.
    pub fn as_str(self) -> (s: &'static str)
        ensures
            s@ == mode_str(self),
    {
        match self {
            SortMode::Manual => "manual",
            SortMode::Title => "title",
            SortMode::Modified => "modified",
            SortMode::Created => "created",
        }
    }

    /// Orders two snippets: pinned snippets always come first; the mode only
    /// breaks ties after that.
    pub fn compare(self, left: &SnippetSortKey, right: &SnippetSortKey) -> (r: Ordering)
        ensures
            r == mode_order(self, left@, right@),
    {
        let left_unpinned = !left.pinned;
        let right_unpinned = !right.pinned;
        if left_unpinned != right_unpinned {
            if !left_unpinned {
                return Ordering::Less;
            } else {
                return Ordering::Greater;
            }
        }
        match self {
            SortMode::Manual => Ordering::Equal,
            SortMode::Title => {
                let l = to_lowercase(left.title.as_str());
                let r = to_lowercase(right.title.as_str());
                text_compare(chars_of(l.as_str()).as_slice(), chars_of(r.as_str()).as_slice())
            },
            SortMode::Modified => compare_optional_desc(&left.modified_at, &right.modified_at),
            SortMode::Created => text_compare(
                chars_of(right.created_at.as_str()).as_slice(),
                chars_of(left.created_at.as_str()).as_slice(),
            ),
        }
    }
}

// ---------------------------------------------------------------------------
// Laws
// ---------------------------------------------------------------------------

/// The sort cycle visits all four modes and comes back after four steps.
pub proof fn law_sort_cycle_has_period_four(mode: SortMode)
    ensures
        next_mode(next_mode(next_mode(next_mode(mode)))) == mode,
        next_mode(mode) != mode,
        next_mode(next_mode(mode)) != mode,
        next_mode(next_mode(next_mode(mode))) != mode,
{
}

/// Text order is antisymmetric.
pub proof fn lemma_text_order_reverses(a: Seq<char>, b: Seq<char>)
    ensures
        text_order(b, a) == reversed(text_order(a, b)),
    decreases a.len(),
{
    if a.len() > 0 && b.len() > 0 && a[0] == b[0] {
        lemma_text_order_reverses(a.drop_first(), b.drop_first());
    }
}

/// A pinned snippet comes before an unpinned one, whatever the mode.
pub proof fn law_pinned_first(mode: SortMode, left: SnippetSortKeyView, right: SnippetSortKeyView)
    requires
        left.pinned,
        !right.pinned,
    ensures
        mode_order(mode, left, right) == Ordering::Less,
        mode_order(mode, right, left) == Ordering::Greater,
{
}

/// Swapping the two snippets reverses their order, in every mode.
pub proof fn law_compare_reverses(mode: SortMode, left: SnippetSortKeyView, right: SnippetSortKeyView)
    ensures
        mode_order(mode, right, left) == reversed(mode_order(mode, left, right)),
{
    lemma_text_order_reverses(unicode_lowercase(left.title), unicode_lowercase(right.title));
    lemma_text_order_reverses(left.created_at, right.created_at);
    if left.modified_at is Some && right.modified_at is Some {
        lemma_text_order_reverses(left.modified_at->0, right.modified_at->0);
    }
}

// ---------------------------------------------------------------------------
// The orders are total preorders
// ---------------------------------------------------------------------------

/// Text order puts a text level with itself.
pub proof fn lemma_text_order_refl(a: Seq<char>)
    ensures
        text_order(a, a) == Ordering::Equal,
    decreases a.len(),
{
    if a.len() > 0 {
        lemma_text_order_refl(a.drop_first());
    }
}

/// Text order is transitive.
pub proof fn lemma_text_order_trans(a: Seq<char>, b: Seq<char>, c: Seq<char>)
    requires
        text_order(a, b) != Ordering::Greater,
        text_order(b, c) != Ordering::Greater,
    ensures
        text_order(a, c) != Ordering::Greater,
    decreases a.len(),
{
    if a.len() > 0 && b.len() > 0 && c.len() > 0 && a[0] == b[0] && b[0] == c[0] {
        lemma_text_order_trans(a.drop_first(), b.drop_first(), c.drop_first());
    }
}

/// Newest-first order is transitive.
proof fn lemma_optional_desc_trans(a: Option<Seq<char>>, b: Option<Seq<char>>, c: Option<Seq<char>>)
    requires
        optional_desc(a, b) != Ordering::Greater,
        optional_desc(b, c) != Ordering::Greater,
    ensures
        optional_desc(a, c) != Ordering::Greater,
{
    if a is Some && b is Some && c is Some {
        lemma_text_order_trans(c->0, b->0, a->0);
    }
}

/// A snippet is level with itself, in every mode.
pub proof fn lemma_mode_order_refl(mode: SortMode, a: SnippetSortKeyView)
    ensures
        mode_order(mode, a, a) == Ordering::Equal,
{
    lemma_text_order_refl(unicode_lowercase(a.title));
    lemma_text_order_refl(a.created_at);
    if a.modified_at is Some {
        lemma_text_order_refl(a.modified_at->0);
    }
}

/// Every mode's order is transitive.
pub proof fn lemma_mode_order_trans(mode: SortMode, a: SnippetSortKeyView, b: SnippetSortKeyView, c: SnippetSortKeyView)
    requires
        mode_order(mode, a, b) != Ordering::Greater,
        mode_order(mode, b, c) != Ordering::Greater,
    ensures
        mode_order(mode, a, c) != Ordering::Greater,
{
    if a.pinned == b.pinned && b.pinned == c.pinned {
        match mode {
            SortMode::Manual => {},
            SortMode::Title => {
                lemma_text_order_trans(unicode_lowercase(a.title), unicode_lowercase(b.title), unicode_lowercase(c.title));
            },
            SortMode::Modified => {
                lemma_optional_desc_trans(a.modified_at, b.modified_at, c.modified_at);
            },
            SortMode::Created => {
                lemma_text_order_trans(c.created_at, b.created_at, a.created_at);
            },
        }
    }
}

/// `a` goes after `b` in `mode`'s order.
pub open spec fn goes_after(mode: SortMode, a: SnippetSortKeyView, b: SnippetSortKeyView) -> bool {
    mode_order(mode, a, b) == Ordering::Greater
}

/// `a` and `b` are level in `mode`'s order.
pub open spec fn level_with(mode: SortMode, a: SnippetSortKeyView, b: SnippetSortKeyView) -> bool {
    mode_order(mode, a, b) == Ordering::Equal
}

/// The facts of a total preorder, for three snippets: nothing goes after
/// itself; of two, at most one goes after the other, and they are level
/// exactly when neither does; and not going after is transitive.
pub proof fn lemma_after_facts(mode: SortMode, a: SnippetSortKeyView, b: SnippetSortKeyView, c: SnippetSortKeyView)
    ensures
        !goes_after(mode, a, a),
        goes_after(mode, a, b) ==> !goes_after(mode, b, a),
        level_with(mode, a, b) <==> (!goes_after(mode, a, b) && !goes_after(mode, b, a)),
        !goes_after(mode, a, b) && !goes_after(mode, b, c) ==> !goes_after(mode, a, c),
{
    lemma_mode_order_refl(mode, a);
    law_compare_reverses(mode, a, b);
    if !goes_after(mode, a, b) && !goes_after(mode, b, c) {
        lemma_mode_order_trans(mode, a, b, c);
    }
}

/// Whether `a` goes after `b` in `mode`'s order.
pub fn goes_after_exec(mode: SortMode, a: &SnippetSortKey, b: &SnippetSortKey) -> (r: bool)
    ensures
        r == goes_after(mode, a@, b@),
{
    match mode.compare(a, b) {
        Ordering::Greater => true,
        _ => false,
    }
}

} // verus!
