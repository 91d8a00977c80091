//! Library operations, as decisions on what was read: edit options and the
//! fields an edit changes, the checks before a change and the change set it
//! reports, a new snippet's settled options, tag renames and deletions,
//! fragment selection and reordering, folder names, and the health report.
use vstd::prelude::*;

use crate::error::{result_view, ErrorKind, SnipError};
use crate::paths::{absolute_path, components, is_absolute_path, parts_view, path_parts, PathPart, PathPartView};
use crate::text::{
    chars_of, copy_opt_string, copy_string, decimal, decimal_string, debug_quoted, eq_chars,
    eq_ignore_case, hex_digit, hex_digit_char, parse_unsigned, parse_unsigned_range, push_char,
    push_str, quoted, string_of, to_lowercase, trim, trim_string, unicode_lowercase,
};

verus! {

/// A snippet's content fingerprint, as recorded when it was read.
#[derive(Clone, Debug)]
pub struct Fingerprint(pub String);

impl View for Fingerprint {
    type V = Seq<char>;

    open spec fn view(&self) -> Seq<char> {
        self.0@
    }
}

/// What to change in a snippet; `None` leaves a field as it is.
#[derive(Clone, Debug, Default)]
pub struct EditOptions {
    pub title: Option<String>,
    pub folder: Option<String>,
    pub tags: Option<Vec<String>>,
    pub pinned: Option<bool>,
    pub locked: Option<bool>,
    pub fragment_selector: Option<String>,
    pub fragment_title: Option<String>,
    pub language: Option<String>,
    pub content: Option<String>,
    pub note: Option<Option<String>>,
    pub readme: Option<Option<String>>,
    pub if_hash: Option<Fingerprint>,
    pub force: bool,
}

/// What to change in one fragment; `None` leaves a field as it is.
#[derive(Clone, Debug, Default)]
pub struct FragmentEditOptions {
    pub title: Option<String>,
    pub language: Option<String>,
    pub content: Option<String>,
    pub note: Option<Option<String>>,
    pub if_hash: Option<Fingerprint>,
    pub force: bool,
}

/// The outcome of a library health check.
#[derive(Clone, Debug)]
pub struct DoctorReport {
    pub checked: usize,
    pub errors: Vec<String>,
    pub warnings: Vec<String>,
    pub pending_transactions: Vec<String>,
    pub repaired: Vec<String>,
    pub ok: bool,
}

/// An optional string, as a spec value.
pub open spec fn opt_text(s: Option<String>) -> Option<Seq<char>> {
    match s {
        Some(v) => Some(v@),
        None => None,
    }
}

/// An optional optional string (a field that may be cleared), as a spec value.
pub open spec fn opt_opt_text(s: Option<Option<String>>) -> Option<Option<Seq<char>>> {
    match s {
        Some(v) => Some(opt_text(v)),
        None => None,
    }
}

/// An optional fingerprint, as a spec value.
pub open spec fn opt_fingerprint(f: Option<Fingerprint>) -> Option<Seq<char>> {
    match f {
        Some(v) => Some(v@),
        None => None,
    }
}

/// Whether the options change anything at all.
pub open spec fn edit_changes(options: EditOptions) -> bool {
    ||| options.title is Some
    ||| options.folder is Some
    ||| options.tags is Some
    ||| options.pinned is Some
    ||| options.locked is Some
    ||| options.fragment_title is Some
    ||| options.language is Some
    ||| options.content is Some
    ||| options.note is Some
    ||| options.readme is Some
}

/// Whether the options change anything at all (a fragment selector, a
/// fingerprint and `force` alone do not).
pub fn has_edit_changes(options: &EditOptions) -> (r: bool)
    ensures
        r == edit_changes(*options),
{
    options.title.is_some() || options.folder.is_some() || options.tags.is_some() || options.pinned.is_some()
        || options.locked.is_some() || options.fragment_title.is_some() || options.language.is_some()
        || options.content.is_some() || options.note.is_some() || options.readme.is_some()
}

/// A copy of a field that may be cleared.
fn copy_opt_opt_string(s: &Option<Option<String>>) -> (r: Option<Option<String>>)
    ensures
        opt_opt_text(r) == opt_opt_text(*s),
{
    match s {
        Some(inner) => {
            let c = copy_opt_string(inner);
            assert(opt_text(c) == opt_text(*inner));
            Some(c)
        },
        None => None,
    }
}

/// A copy of an optional fingerprint.
fn copy_fingerprint(f: &Option<Fingerprint>) -> (r: Option<Fingerprint>)
    ensures
        opt_fingerprint(r) == opt_fingerprint(*f),
{
    match f {
        Some(v) => Some(Fingerprint(copy_string(v.0.as_str()))),
        None => None,
    }
}

/// The snippet edit that a fragment edit stands for: the fragment's fields,
/// aimed at `fragment_selector`, and nothing else of the snippet.
pub fn edit_fragment(fragment_selector: &str, options: &FragmentEditOptions) -> (edit: EditOptions)
    ensures
        edit.fragment_selector matches Some(s) && s@ == fragment_selector@,
        opt_text(edit.fragment_title) == opt_text(options.title),
        opt_text(edit.language) == opt_text(options.language),
        opt_text(edit.content) == opt_text(options.content),
        opt_opt_text(edit.note) == opt_opt_text(options.note),
        opt_fingerprint(edit.if_hash) == opt_fingerprint(options.if_hash),
        edit.force == options.force,
        edit.title is None,
        edit.folder is None,
        edit.tags is None,
        edit.pinned is None,
        edit.locked is None,
        edit.readme is None,
{
    let fragment_title = copy_opt_string(&options.title);
    let language = copy_opt_string(&options.language);
    let content = copy_opt_string(&options.content);
    assert(opt_text(fragment_title) == opt_text(options.title));
    assert(opt_text(language) == opt_text(options.language));
    assert(opt_text(content) == opt_text(options.content));
    EditOptions {
        title: None,
        folder: None,
        tags: None,
        pinned: None,
        locked: None,
        fragment_selector: Some(copy_string(fragment_selector)),
        fragment_title,
        language,
        content,
        note: copy_opt_opt_string(&options.note),
        readme: None,
        if_hash: copy_fingerprint(&options.if_hash),
        force: options.force,
    }
}

// ---------------------------------------------------------------------------
// Identifiers
// ---------------------------------------------------------------------------

/// The last `n` hexadecimal digits of `v`, lowercase, most significant first.
pub open spec fn hex_digits(v: nat, n: nat) -> Seq<char>
    decreases n,
{
    if n == 0 {
        Seq::empty()
    } else {
        hex_digits(v / 16, (n - 1) as nat).push(hex_digit_char((v % 16) as int))
    }
}

/// A UUID in its simple form: 32 lowercase hexadecimal digits.
pub open spec fn uuid_simple(id: u128) -> Seq<char> {
    hex_digits(id as nat, 32)
}

/// A UUID in its hyphenated form: the simple digits in groups of 8, 4, 4, 4
/// and 12, joined by `-`.
pub open spec fn uuid_hyphenated(id: u128) -> Seq<char> {
    let s = uuid_simple(id);
    s.subrange(0, 8) + seq!['-'] + s.subrange(8, 12) + seq!['-'] + s.subrange(12, 16) + seq!['-'] + s.subrange(
        16,
        20,
    ) + seq!['-'] + s.subrange(20, 32)
}

/// The last `n` hexadecimal digits of `v`, as `hex_digits` says.
fn hex_chars(v: u128, n: usize) -> (r: Vec<char>)
    ensures
        r@ == hex_digits(v as nat, n as nat),
    decreases n,
{
    if n == 0 {
        return Vec::new();
    }
    let mut r = hex_chars(v / 16, n - 1);
    r.push(hex_digit((v % 16) as u8));
    r
}

/// A UUID's simple form: 32 lowercase hexadecimal digits, as the `uuid`
/// crate writes `Uuid::from_u128(id).simple()`.
fn simple_uuid_text(id: u128) -> (s: String)
    ensures
        s@ == uuid_simple(id),
{
    let digits = hex_chars(id, 32);
    string_of(digits.as_slice())
}

/// A UUID's hyphenated form, as the `uuid` crate writes
/// `Uuid::from_u128(id)`: the simple digits in groups of 8, 4, 4, 4 and 12.
fn uuid_text(id: u128) -> (s: String)
    ensures
        s@ == uuid_hyphenated(id),
{
    let digits = hex_chars(id, 32);
    let ghost d = digits@;
    let mut out: Vec<char> = Vec::new();
    proof {
        lemma_hex_digits_len(id as nat, 32);
        assert(d.subrange(0, 0) =~= out@);
    }
    let mut i: usize = 0;
    while i < 32
        invariant
            i <= 32,
            digits@ == d,
            d.len() == 32,
            out@ == (if i <= 8 {
                d.subrange(0, i as int)
            } else if i <= 12 {
                d.subrange(0, 8) + seq!['-'] + d.subrange(8, i as int)
            } else if i <= 16 {
                d.subrange(0, 8) + seq!['-'] + d.subrange(8, 12) + seq!['-'] + d.subrange(12, i as int)
            } else if i <= 20 {
                d.subrange(0, 8) + seq!['-'] + d.subrange(8, 12) + seq!['-'] + d.subrange(12, 16) + seq!['-']
                    + d.subrange(16, i as int)
            } else {
                d.subrange(0, 8) + seq!['-'] + d.subrange(8, 12) + seq!['-'] + d.subrange(12, 16) + seq!['-']
                    + d.subrange(16, 20) + seq!['-'] + d.subrange(20, i as int)
            }),
        decreases 32 - i,
    {
        if i == 8 || i == 12 || i == 16 || i == 20 {
            out.push('-');
        }
        out.push(digits[i]);
        proof {
            if i < 8 {
                assert(out@ =~= d.subrange(0, i + 1));
            } else if i < 12 {
                assert(out@ =~= d.subrange(0, 8) + seq!['-'] + d.subrange(8, i + 1));
            } else if i < 16 {
                assert(out@ =~= d.subrange(0, 8) + seq!['-'] + d.subrange(8, 12) + seq!['-'] + d.subrange(12, i + 1));
            } else if i < 20 {
                assert(out@ =~= d.subrange(0, 8) + seq!['-'] + d.subrange(8, 12) + seq!['-'] + d.subrange(12, 16)
                    + seq!['-'] + d.subrange(16, i + 1));
            } else {
                assert(out@ =~= d.subrange(0, 8) + seq!['-'] + d.subrange(8, 12) + seq!['-'] + d.subrange(12, 16)
                    + seq!['-'] + d.subrange(16, 20) + seq!['-'] + d.subrange(20, i + 1));
            }
        }
        i += 1;
    }
    string_of(out.as_slice())
}

/// The message for a locked snippet changed without `--force`.
pub open spec fn locked_message(id: u128) -> Seq<char> {
    "snippet "@ + uuid_hyphenated(id) + " is locked; pass --force to modify it"@
}

/// Refuses to change a locked snippet unless forced.
pub fn ensure_mutable(id: u128, locked: bool, force: bool) -> (r: Result<(), SnipError>)
    ensures
        r is Ok <==> !locked || force,
        r matches Err(e) ==> e@ == (ErrorKind::Conflict, locked_message(id)),
{
    if locked && !force {
        let mut m = String::new();
        push_str(&mut m, "snippet ");
        push_str(&mut m, uuid_text(id).as_str());
        push_str(&mut m, " is locked; pass --force to modify it");
        assert(m@ =~= locked_message(id));
        return Err(SnipError::conflict(m));
    }
    Ok(())
}

/// The message for a snippet that changed since it was read.
pub open spec fn changed_message(expected: Seq<char>, found: Seq<char>) -> Seq<char> {
    "snippet changed since it was read: expected "@ + expected + ", found "@ + found
}

/// Refuses a change made against an older reading of the snippet: when a
/// fingerprint is expected, it must be the current one.
pub fn ensure_hash(expected: Option<&Fingerprint>, current: &Fingerprint) -> (r: Result<(), SnipError>)
    ensures
        r is Ok <==> (match expected {
            Some(f) => f@ == current@,
            None => true,
        }),
        r matches Err(e) ==> e@ == (ErrorKind::Conflict, changed_message(expected->0@, current@)),
{
    if let Some(f) = expected {
        let a = chars_of(f.0.as_str());
        let b = chars_of(current.0.as_str());
        if !eq_chars(a.as_slice(), b.as_slice()) {
            let mut m = String::new();
            push_str(&mut m, "snippet changed since it was read: expected ");
            push_str(&mut m, f.0.as_str());
            push_str(&mut m, ", found ");
            push_str(&mut m, current.0.as_str());
            assert(m@ =~= changed_message(f@, current@));
            return Err(SnipError::conflict(m));
        }
    }
    Ok(())
}

// ---------------------------------------------------------------------------
// Fragments
// ---------------------------------------------------------------------------

/// A selector without its dashes, lowercased.
pub open spec fn compact_selector(selector: Seq<char>) -> Seq<char> {
    unicode_lowercase(selector.filter(|c: char| c != '-'))
}

/// An ASCII hexadecimal digit.
pub open spec fn is_hex_char(c: char) -> bool {
    ('0' <= c && c <= '9') || ('a' <= c && c <= 'f') || ('A' <= c && c <= 'F')
}

/// At least eight hexadecimal digits.
pub open spec fn uuid_prefix_shape(s: Seq<char>) -> bool {
    s.len() >= 8 && forall|i: int| 0 <= i < s.len() ==> is_hex_char(#[trigger] s[i])
}

/// Fragment `i`'s identifier starts with `prefix`.
pub open spec fn id_matches(ids: Seq<u128>, i: int, prefix: Seq<char>) -> bool {
    prefix.len() <= 32 && uuid_simple(ids[i]).subrange(0, prefix.len() as int) == prefix
}

/// The fragments before `n` whose identifiers start with `prefix`.
pub open spec fn matching_upto(ids: Seq<u128>, prefix: Seq<char>, n: int) -> Seq<int>
    decreases n,
{
    if n <= 0 {
        Seq::empty()
    } else if id_matches(ids, n - 1, prefix) {
        matching_upto(ids, prefix, n - 1).push(n - 1)
    } else {
        matching_upto(ids, prefix, n - 1)
    }
}

/// The matches before `n` are positions before `n`, in increasing order.
proof fn lemma_matching_bounds(ids: Seq<u128>, prefix: Seq<char>, n: int)
    ensures
        forall|j: int| 0 <= j < matching_upto(ids, prefix, n).len() ==> 0 <= #[trigger] matching_upto(ids, prefix, n)[j] < n,
    decreases n,
{
    if n > 0 {
        lemma_matching_bounds(ids, prefix, n - 1);
        let prev = matching_upto(ids, prefix, n - 1);
        let cur = matching_upto(ids, prefix, n);
        assert forall|j: int| 0 <= j < cur.len() implies 0 <= #[trigger] cur[j] < n by {
            if j < prev.len() {
                assert(cur[j] == prev[j]);
            }
        }
    }
}

/// The message for index zero.
pub open spec fn index_zero_message() -> Seq<char> {
    "fragment indices start at 1"@
}

/// The message for an index past the last fragment.
pub open spec fn index_range_message(index: nat, count: nat) -> Seq<char> {
    "fragment index "@ + decimal(index) + " is out of range; snippet has "@ + decimal(count) + " fragments"@
}

/// The message for a selector that is neither an index nor a UUID prefix.
pub open spec fn selector_shape_message() -> Seq<char> {
    "fragment selector must be a 1-based index or UUID prefix of at least 8 hex digits"@
}

/// The message for a prefix no fragment has.
pub open spec fn no_match_message(selector: Seq<char>) -> Seq<char> {
    "no fragment UUID matches "@ + debug_quoted(selector)
}

/// The message for a prefix several fragments share.
pub open spec fn ambiguous_message(selector: Seq<char>, count: nat) -> Seq<char> {
    "ambiguous fragment UUID "@ + debug_quoted(selector) + ": "@ + decimal(count) + " matches"@
}

/// Which fragment a selector names: the first one when there is none; a
/// 1-based index; or a prefix (at least eight hex digits, dashes ignored, in
/// any case) of exactly one fragment's UUID.
pub open spec fn fragment_index_result(ids: Seq<u128>, selector: Option<Seq<char>>) -> Result<
    int,
    (ErrorKind, Seq<char>),
> {
    match selector {
        None => Ok(0),
        Some(s) => match parse_unsigned(s, 10, usize::MAX as int) {
            Some(index) => if index == 0 {
                Err((ErrorKind::Usage, index_zero_message()))
            } else if index <= ids.len() {
                Ok(index - 1)
            } else {
                Err((ErrorKind::NotFound, index_range_message(index as nat, ids.len())))
            },
            None => {
                let compact = compact_selector(s);
                if !uuid_prefix_shape(compact) {
                    Err((ErrorKind::Usage, selector_shape_message()))
                } else {
                    let found = matching_upto(ids, compact, ids.len() as int);
                    if found.len() == 0 {
                        Err((ErrorKind::NotFound, no_match_message(s)))
                    } else if found.len() == 1 {
                        Ok(found[0])
                    } else {
                        Err((ErrorKind::NotFound, ambiguous_message(s, found.len())))
                    }
                }
            },
        },
    }
}

/// `s` without its dashes.
fn without_dashes(s: &str) -> (r: String)
    ensures
        r@ == s@.filter(|c: char| c != '-'),
{
    let v = chars_of(s);
    let mut out = String::new();
    let mut i: usize = 0;
    proof {
        reveal(Seq::filter);
        assert(v@.subrange(0, 0) =~= Seq::<char>::empty());
    }
    while i < v.len()
        invariant
            i <= v@.len(),
            v@ == s@,
            out@ == v@.subrange(0, i as int).filter(|c: char| c != '-'),
        decreases v@.len() - i,
    {
        proof {
            let f = |c: char| c != '-';
            assert(v@.subrange(0, i + 1).drop_last() =~= v@.subrange(0, i as int));
            v@.subrange(0, i as int).lemma_filter_push(v@[i as int], f);
            assert(v@.subrange(0, i + 1) =~= v@.subrange(0, i as int).push(v@[i as int]));
        }
        if v[i] != '-' {
            push_char(&mut out, v[i]);
        }
        i = i + 1;
    }
    assert(v@.subrange(0, i as int) =~= v@);
    out
}

/// Whether `v` has at least eight characters, all hexadecimal digits.
fn has_uuid_prefix_shape(v: &[char]) -> (r: bool)
    ensures
        r == uuid_prefix_shape(v@),
{
    if v.len() < 8 {
        return false;
    }
    let mut i: usize = 0;
    while i < v.len()
        invariant
            i <= v@.len(),
            forall|j: int| 0 <= j < i ==> is_hex_char(#[trigger] v@[j]),
        decreases v@.len() - i,
    {
        let c = v[i];
        if !(('0' <= c && c <= '9') || ('a' <= c && c <= 'f') || ('A' <= c && c <= 'F')) {
            return false;
        }
        i = i + 1;
    }
    true
}

/// Whether fragment `i`'s identifier starts with `prefix`.
fn id_starts_with(ids: &Vec<u128>, i: usize, prefix: &[char]) -> (r: bool)
    requires
        i < ids@.len(),
    ensures
        r == id_matches(ids@, i as int, prefix@),
{
    let text = simple_uuid_text(ids[i]);
    let digits = chars_of(text.as_str());
    proof {
        lemma_hex_digits_len(ids@[i as int] as nat, 32);
    }
    if prefix.len() > digits.len() {
        return false;
    }
    let mut k: usize = 0;
    while k < prefix.len()
        invariant
            k <= prefix@.len() <= digits@.len(),
            digits@ == uuid_simple(ids@[i as int]),
            digits@.len() == 32,
            forall|j: int| 0 <= j < k ==> #[trigger] digits@[j] == prefix@[j],
        decreases prefix@.len() - k,
    {
        if digits[k] != prefix[k] {
            return false;
        }
        k = k + 1;
    }
    assert(digits@.subrange(0, prefix@.len() as int) =~= prefix@);
    true
}

/// `hex_digits` writes exactly `n` digits.
proof fn lemma_hex_digits_len(v: nat, n: nat)
    ensures
        hex_digits(v, n).len() == n,
    decreases n,
{
    if n > 0 {
        lemma_hex_digits_len(v / 16, (n - 1) as nat);
    }
}

/// The message for index zero.
fn usage_error(m: &str) -> (e: SnipError)
    ensures
        e@ == (ErrorKind::Usage, m@),
{
    SnipError::usage(copy_string(m))
}

/// Which fragment a selector names: `None` names the first; a number is a
/// 1-based index; anything else must be a prefix of at least eight hex
/// digits (dashes ignored, any case) of exactly one fragment's UUID.
pub fn resolve_fragment_index(ids: &Vec<u128>, selector: Option<&str>) -> (r: Result<usize, SnipError>)
    ensures
        match fragment_index_result(
            ids@,
            match selector {
                Some(s) => Some(s@),
                None => None,
            },
        ) {
            Ok(i) => r matches Ok(j) && j == i,
            Err(e) => r matches Err(err) && err@ == e,
        },
        r matches Ok(i) ==> i < ids@.len() || (selector is None && i == 0),
{
    proof {
        lemma_matching_bounds(ids@, compact_selector(selector->0@), ids@.len() as int);
    }
    let selector = match selector {
        None => {
            return Ok(0);
        },
        Some(s) => s,
    };
    let v = chars_of(selector);
    assert(v@.subrange(0, v@.len() as int) =~= v@);
    if let Some(index) = parse_unsigned_range(v.as_slice(), 0, v.len(), 10, usize::MAX as u64) {
        if index == 0 {
            return Err(usage_error("fragment indices start at 1"));
        }
        let index = index as usize;
        if index <= ids.len() {
            return Ok(index - 1);
        }
        let mut m = String::new();
        push_str(&mut m, "fragment index ");
        push_str(&mut m, decimal_string(index as u64).as_str());
        push_str(&mut m, " is out of range; snippet has ");
        push_str(&mut m, decimal_string(ids.len() as u64).as_str());
        push_str(&mut m, " fragments");
        assert(m@ =~= index_range_message(index as nat, ids@.len()));
        return Err(SnipError::not_found(m));
    }
    let stripped = without_dashes(selector);
    let lowered = to_lowercase(stripped.as_str());
    let compact = chars_of(lowered.as_str());
    if !has_uuid_prefix_shape(compact.as_slice()) {
        return Err(
            usage_error("fragment selector must be a 1-based index or UUID prefix of at least 8 hex digits"),
        );
    }
    let mut found: Vec<usize> = Vec::new();
    let mut i: usize = 0;
    while i < ids.len()
        invariant
            i <= ids@.len(),
            compact@ == compact_selector(selector@),
            found@.len() == matching_upto(ids@, compact@, i as int).len(),
            forall|j: int| 0 <= j < found@.len() ==> found@[j] == #[trigger] matching_upto(ids@, compact@, i as int)[j],
        decreases ids@.len() - i,
    {
        if id_starts_with(ids, i, compact.as_slice()) {
            found.push(i);
        }
        i = i + 1;
    }
    if found.len() == 1 {
        return Ok(found[0]);
    }
    let mut m = String::new();
    if found.len() == 0 {
        push_str(&mut m, "no fragment UUID matches ");
        push_str(&mut m, quoted(selector).as_str());
        assert(m@ =~= no_match_message(selector@));
    } else {
        push_str(&mut m, "ambiguous fragment UUID ");
        push_str(&mut m, quoted(selector).as_str());
        push_str(&mut m, ": ");
        push_str(&mut m, decimal_string(found.len() as u64).as_str());
        push_str(&mut m, " matches");
        assert(m@ =~= ambiguous_message(selector@, found@.len()));
    }
    Err(SnipError::not_found(m))
}

/// The message for position zero.
pub open spec fn position_zero_message() -> Seq<char> {
    "fragment positions start at 1"@
}

/// The message for a position past the last fragment.
pub open spec fn position_range_message(position: nat, count: nat) -> Seq<char> {
    "position "@ + decimal(position) + " is out of range; snippet has "@ + decimal(count) + " fragments"@
}

/// What moving the selected fragment to 1-based `position` does to the order.
pub open spec fn reorder_result(ids: Seq<u128>, selector: Seq<char>, position: int) -> Result<
    Seq<u128>,
    (ErrorKind, Seq<char>),
> {
    if position == 0 {
        Err((ErrorKind::Usage, position_zero_message()))
    } else if position > ids.len() {
        Err((ErrorKind::NotFound, position_range_message(position as nat, ids.len())))
    } else {
        match fragment_index_result(ids, Some(selector)) {
            Err(e) => Err(e),
            Ok(i) => Ok(ids.remove(i).insert(position - 1, ids[i])),
        }
    }
}

/// Moves the fragment that `fragment_selector` names to 1-based `position`,
/// the others keeping their order. Positions start at 1 and may not pass the
/// last fragment.
pub fn reorder_fragment(fragment_ids: &mut Vec<u128>, fragment_selector: &str, position: usize) -> (r: Result<
    (),
    SnipError,
>)
    ensures
        match reorder_result(old(fragment_ids)@, fragment_selector@, position as int) {
            Ok(order) => r is Ok && final(fragment_ids)@ == order,
            Err(e) => r matches Err(err) && err@ == e && final(fragment_ids)@ == old(fragment_ids)@,
        },
{
    if position == 0 {
        return Err(usage_error("fragment positions start at 1"));
    }
    if position > fragment_ids.len() {
        let mut m = String::new();
        push_str(&mut m, "position ");
        push_str(&mut m, decimal_string(position as u64).as_str());
        push_str(&mut m, " is out of range; snippet has ");
        push_str(&mut m, decimal_string(fragment_ids.len() as u64).as_str());
        push_str(&mut m, " fragments");
        assert(m@ =~= position_range_message(position as nat, old(fragment_ids)@.len()));
        return Err(SnipError::not_found(m));
    }
    let index = match resolve_fragment_index(fragment_ids, Some(fragment_selector)) {
        Ok(i) => i,
        Err(e) => {
            return Err(e);
        },
    };
    let fragment = fragment_ids.remove(index);
    fragment_ids.insert(position - 1, fragment);
    Ok(())
}

// ---------------------------------------------------------------------------
// Planning a change to one snippet
// ---------------------------------------------------------------------------

/// What a change to a snippet reports: the fields it changed, and the
/// snippet's fingerprint and package path before and after.
#[derive(Clone, Debug)]
pub struct ChangeSet {
    pub fields: Vec<String>,
    pub old_fingerprint: Option<Fingerprint>,
    pub new_fingerprint: Option<Fingerprint>,
    pub old_path: Option<String>,
    pub new_path: Option<String>,
}

/// A change set, as spec values.
pub struct ChangeSetView {
    pub fields: Seq<Seq<char>>,
    pub old_fingerprint: Option<Seq<char>>,
    pub new_fingerprint: Option<Seq<char>>,
    pub old_path: Option<Seq<char>>,
    pub new_path: Option<Seq<char>>,
}

impl View for ChangeSet {
    type V = ChangeSetView;

    open spec fn view(&self) -> ChangeSetView {
        ChangeSetView {
            fields: texts(self.fields@),
            old_fingerprint: opt_fingerprint(self.old_fingerprint),
            new_fingerprint: opt_fingerprint(self.new_fingerprint),
            old_path: opt_text(self.old_path),
            new_path: opt_text(self.new_path),
        }
    }
}

/// The change set of a change to one snippet's fragments: the one field
/// `field`, and the snippet before (`old_*`) and as written (`new_*`).
pub fn fragment_change_set(
    field: &str,
    old_fingerprint: &Fingerprint,
    old_path: &str,
    new_fingerprint: &Fingerprint,
    new_path: &str,
) -> (c: ChangeSet)
    ensures
        c@ == (ChangeSetView {
            fields: seq![field@],
            old_fingerprint: Some(old_fingerprint@),
            new_fingerprint: Some(new_fingerprint@),
            old_path: Some(old_path@),
            new_path: Some(new_path@),
        }),
{
    let mut fields: Vec<String> = Vec::new();
    fields.push(copy_string(field));
    assert(texts(fields@) =~= seq![field@]);
    ChangeSet {
        fields,
        old_fingerprint: Some(Fingerprint(copy_string(old_fingerprint.0.as_str()))),
        new_fingerprint: Some(Fingerprint(copy_string(new_fingerprint.0.as_str()))),
        old_path: Some(copy_string(old_path)),
        new_path: Some(copy_string(new_path)),
    }
}

/// The name of a fragment's field in a change set: `fragments[n].field`,
/// with `n` counted from 1.
pub open spec fn fragment_field(index: int, field: Seq<char>) -> Seq<char> {
    "fragments["@ + decimal((index + 1) as nat) + "]."@ + field
}

/// The snippet's own fields an edit changes, in order: title, folder,
/// tags, pinned, locked, readme.
pub open spec fn own_fields_spec(options: EditOptions) -> Seq<Seq<char>> {
    (if options.title is Some {
        seq!["title"@]
    } else {
        Seq::empty()
    }) + (if options.folder is Some {
        seq!["folder"@]
    } else {
        Seq::empty()
    }) + (if options.tags is Some {
        seq!["tags"@]
    } else {
        Seq::empty()
    }) + (if options.pinned is Some {
        seq!["pinned"@]
    } else {
        Seq::empty()
    }) + (if options.locked is Some {
        seq!["locked"@]
    } else {
        Seq::empty()
    }) + (if options.readme is Some {
        seq!["readme"@]
    } else {
        Seq::empty()
    })
}

/// The selected fragment's fields an edit changes, in order: title,
/// language, content, note.
pub open spec fn fragment_fields_spec(options: EditOptions, i: int) -> Seq<Seq<char>> {
    (if options.fragment_title is Some {
        seq![fragment_field(i, "title"@)]
    } else {
        Seq::empty()
    }) + (if options.language is Some {
        seq![fragment_field(i, "language"@)]
    } else {
        Seq::empty()
    }) + (if options.content is Some {
        seq![fragment_field(i, "content"@)]
    } else {
        Seq::empty()
    }) + (if options.note is Some {
        seq![fragment_field(i, "note"@)]
    } else {
        Seq::empty()
    })
}

/// The edit touches the selected fragment.
pub open spec fn edits_fragment(options: EditOptions) -> bool {
    options.fragment_title is Some || options.language is Some || options.content is Some || options.note is Some
}

/// The fields an edit changes, in the order it changes them, or the
/// refusal of an empty title, a selector that names no fragment, or an
/// empty fragment title or language (after trimming): the snippet's own
/// fields first, then the selected fragment's.
pub open spec fn edit_fields_result(options: EditOptions, ids: Seq<u128>) -> Result<
    Seq<Seq<char>>,
    (ErrorKind, Seq<char>),
> {
    if options.title is Some && trim(options.title->0@).len() == 0 {
        Err((ErrorKind::Usage, "snippet title cannot be empty"@))
    } else if !edits_fragment(options) {
        Ok(own_fields_spec(options))
    } else {
        match fragment_index_result(ids, opt_text(options.fragment_selector)) {
            Err(e) => Err(e),
            Ok(i) => if options.fragment_title is Some && trim(options.fragment_title->0@).len() == 0 {
                Err((ErrorKind::Usage, "fragment title cannot be empty"@))
            } else if options.language is Some && trim(options.language->0@).len() == 0 {
                Err((ErrorKind::Usage, "fragment language cannot be empty"@))
            } else {
                Ok(own_fields_spec(options) + fragment_fields_spec(options, i))
            },
        }
    }
}

/// Appends a field's name.
fn push_field(fields: &mut Vec<String>, name: String)
    ensures
        texts(final(fields)@) == texts(old(fields)@).push(name@),
{
    fields.push(name);
    assert(texts(fields@) =~= texts(old(fields)@).push(name@));
}

/// The name of a fragment's field.
fn fragment_field_name(index: usize, field: &str) -> (s: String)
    requires
        index < usize::MAX,
    ensures
        s@ == fragment_field(index as int, field@),
{
    let mut s = copy_string("fragments[");
    push_str(&mut s, decimal_string((index as u64) + 1).as_str());
    push_str(&mut s, "].");
    push_str(&mut s, field);
    s
}

/// Whether a given text is blank once trimmed.
fn blank(value: &Option<String>) -> (r: bool)
    ensures
        r == (value is Some && trim(value->0@).len() == 0),
{
    match value {
        Some(v) => trim_string(v.as_str()).unicode_len() == 0,
        None => false,
    }
}

/// The snippet's own fields an edit changes.
fn own_fields(options: &EditOptions) -> (v: Vec<String>)
    ensures
        texts(v@) == own_fields_spec(*options),
{
    let mut fields: Vec<String> = Vec::new();
    let ghost s0 = texts(fields@);
    if options.title.is_some() {
        push_field(&mut fields, copy_string("title"));
    }
    let ghost s1 = texts(fields@);
    if options.folder.is_some() {
        push_field(&mut fields, copy_string("folder"));
    }
    let ghost s2 = texts(fields@);
    if options.tags.is_some() {
        push_field(&mut fields, copy_string("tags"));
    }
    let ghost s3 = texts(fields@);
    if options.pinned.is_some() {
        push_field(&mut fields, copy_string("pinned"));
    }
    let ghost s4 = texts(fields@);
    if options.locked.is_some() {
        push_field(&mut fields, copy_string("locked"));
    }
    let ghost s5 = texts(fields@);
    if options.readme.is_some() {
        push_field(&mut fields, copy_string("readme"));
    }
    assert(texts(fields@) =~= own_fields_spec(*options));
    fields
}

/// Appends the selected fragment's fields an edit changes.
fn push_fragment_fields(fields: &mut Vec<String>, options: &EditOptions, index: usize)
    requires
        index < usize::MAX,
    ensures
        texts(final(fields)@) == texts(old(fields)@) + fragment_fields_spec(*options, index as int),
{
    let ghost s0 = texts(fields@);
    if options.fragment_title.is_some() {
        push_field(fields, fragment_field_name(index, "title"));
    }
    let ghost s1 = texts(fields@);
    if options.language.is_some() {
        push_field(fields, fragment_field_name(index, "language"));
    }
    let ghost s2 = texts(fields@);
    if options.content.is_some() {
        push_field(fields, fragment_field_name(index, "content"));
    }
    let ghost s3 = texts(fields@);
    if options.note.is_some() {
        push_field(fields, fragment_field_name(index, "note"));
    }
    assert(texts(fields@) =~= s0 + fragment_fields_spec(*options, index as int));
}

/// The fields an edit of a snippet whose fragments are `fragment_ids`
/// changes, in order, or why the edit is refused.
pub fn edit_fields(options: &EditOptions, fragment_ids: &Vec<u128>) -> (r: Result<Vec<String>, SnipError>)
    ensures
        match edit_fields_result(*options, fragment_ids@) {
            Ok(fields) => r matches Ok(f) && texts(f@) == fields,
            Err(e) => r matches Err(err) && err@ == e,
        },
{
    if blank(&options.title) {
        return Err(usage_error("snippet title cannot be empty"));
    }
    let mut fields = own_fields(options);
    if !(options.fragment_title.is_some() || options.language.is_some() || options.content.is_some()
        || options.note.is_some()) {
        return Ok(fields);
    }
    let selector: Option<&str> = match &options.fragment_selector {
        Some(s) => Some(s.as_str()),
        None => None,
    };
    assert(opt_text(options.fragment_selector) == match selector {
        Some(s) => Some(s@),
        None => None::<Seq<char>>,
    });
    let found = resolve_fragment_index(fragment_ids, selector);
    let index = match found {
        Ok(i) => i,
        Err(e) => {
            return Err(e);
        },
    };
    let count = fragment_ids.len();
    assert(index < count || index == 0);
    if blank(&options.fragment_title) {
        return Err(usage_error("fragment title cannot be empty"));
    }
    if blank(&options.language) {
        return Err(usage_error("fragment language cannot be empty"));
    }
    assert(index < usize::MAX);
    push_fragment_fields(&mut fields, options, index);
    Ok(fields)
}

/// What a new snippet is made with, once its options are checked: the
/// trimmed title, the language (`text` where none is given), the folder as
/// validated, and the first fragment's title (`Fragment` where none is
/// given).
#[derive(Debug)]
pub struct CreatePlan {
    pub title: String,
    pub language: String,
    pub folder: String,
    pub fragment_title: String,
}

/// The plan for a new snippet, or why it is refused: an empty title first,
/// then a folder that is no relative path of plain names.
pub open spec fn create_plan_result(
    title: Seq<char>,
    language: Seq<char>,
    folder: Option<Seq<char>>,
    fragment_title: Option<Seq<char>>,
) -> Result<(Seq<char>, Seq<char>, Seq<char>, Seq<char>), (ErrorKind, Seq<char>)> {
    if trim(title).len() == 0 {
        Err((ErrorKind::Usage, "snippet title cannot be empty"@))
    } else {
        match folder_result(
            match folder {
                Some(f) => f,
                None => Seq::empty(),
            },
        ) {
            Err(e) => Err(e),
            Ok(f) => Ok(
                (
                    trim(title),
                    if trim(language).len() == 0 {
                        "text"@
                    } else {
                        trim(language)
                    },
                    f,
                    match fragment_title {
                        Some(t) => t,
                        None => "Fragment"@,
                    },
                ),
            ),
        }
    }
}

/// Checks a new snippet's options and settles its title, language, folder
/// and first fragment's title.
pub fn plan_create(title: &str, language: &str, folder: Option<&str>, fragment_title: Option<&str>) -> (r: Result<
    CreatePlan,
    SnipError,
>)
    ensures
        match create_plan_result(
            title@,
            language@,
            match folder {
                Some(f) => Some(f@),
                None => None,
            },
            match fragment_title {
                Some(t) => Some(t@),
                None => None,
            },
        ) {
            Ok(p) => r matches Ok(plan) && (plan.title@, plan.language@, plan.folder@, plan.fragment_title@) == p,
            Err(e) => r matches Err(err) && err@ == e,
        },
{
    let trimmed = trim_string(title);
    if trimmed.unicode_len() == 0 {
        return Err(usage_error("snippet title cannot be empty"));
    }
    let lang = trim_string(language);
    let lang = if lang.unicode_len() == 0 {
        copy_string("text")
    } else {
        lang
    };
    let folder_text = match folder {
        Some(f) => f,
        None => "",
    };
    proof {
        reveal_strlit("");
    }
    assert(folder_text@ == match folder {
        Some(f) => f@,
        None => Seq::<char>::empty(),
    });
    let folder = validate_folder(folder_text)?;
    let fragment = match fragment_title {
        Some(t) => copy_string(t),
        None => copy_string("Fragment"),
    };
    Ok(CreatePlan { title: trimmed, language: lang, folder, fragment_title: fragment })
}

/// The refusal, if any, of an edit of snippet `id` (locked or not, at
/// fingerprint `current`): a locked snippet without `force`, then a stale
/// fingerprint, then options that change nothing.
pub open spec fn edit_preflight_result(id: u128, locked: bool, current: Seq<char>, options: EditOptions) -> Result<
    (),
    (ErrorKind, Seq<char>),
> {
    if locked && !options.force {
        Err((ErrorKind::Conflict, locked_message(id)))
    } else if opt_fingerprint(options.if_hash) is Some && opt_fingerprint(options.if_hash)->0 != current {
        Err((ErrorKind::Conflict, changed_message(opt_fingerprint(options.if_hash)->0, current)))
    } else if !edit_changes(options) {
        Err((ErrorKind::Usage, no_changes_message()))
    } else {
        Ok(())
    }
}

/// The message for an edit that changes nothing.
pub open spec fn no_changes_message() -> Seq<char> {
    "no changes requested"@
}

/// The checks before an edit of a snippet, in the order they are made: it
/// must not be locked (unless forced), must not have changed since it was
/// read (where a fingerprint is given), and the options must change
/// something.
pub fn edit_preflight(id: u128, locked: bool, current: &Fingerprint, options: &EditOptions) -> (r: Result<
    (),
    SnipError,
>)
    ensures
        match edit_preflight_result(id, locked, current@, *options) {
            Ok(()) => r is Ok,
            Err(e) => r matches Err(err) && err@ == e,
        },
{
    ensure_mutable(id, locked, options.force)?;
    ensure_hash(options.if_hash.as_ref(), current)?;
    if !has_edit_changes(options) {
        return Err(usage_error("no changes requested"));
    }
    Ok(())
}

/// Editing one fragment is the snippet edit aimed at that fragment, so on a
/// snippet that may be changed it is refused as changing nothing exactly
/// when none of the fragment's title, language, content and note is given.
pub proof fn law_fragment_edit_without_changes_is_refused(
    id: u128,
    current: Seq<char>,
    options: FragmentEditOptions,
    edit: EditOptions,
)
    requires
        opt_text(edit.fragment_title) == opt_text(options.title),
        opt_text(edit.language) == opt_text(options.language),
        opt_text(edit.content) == opt_text(options.content),
        opt_opt_text(edit.note) == opt_opt_text(options.note),
        opt_fingerprint(edit.if_hash) == opt_fingerprint(options.if_hash),
        edit.force == options.force,
        edit.title is None,
        edit.folder is None,
        edit.tags is None,
        edit.pinned is None,
        edit.locked is None,
        edit.readme is None,
        opt_fingerprint(options.if_hash) matches Some(f) ==> f == current,
    ensures
        (edit_preflight_result(id, false, current, edit) == Err::<(), (ErrorKind, Seq<char>)>(
            (ErrorKind::Usage, no_changes_message()),
        )) <==> (options.title is None && options.language is None && options.content is None
            && options.note is None),
{
    assert(edit.fragment_title is Some <==> options.title is Some);
    assert(edit.language is Some <==> options.language is Some);
    assert(edit.content is Some <==> options.content is Some);
    assert(edit.note is Some <==> options.note is Some);
    assert(edit.if_hash matches Some(f) ==> f@ == current);
}

/// What moving a fragment of snippet `id` to 1-based `position` comes to,
/// in the order the checks are made: position 0 is refused first, then a
/// locked snippet (unless forced), then a stale fingerprint, then a
/// position past the last fragment or a selector that names none; else the
/// new order of the fragments.
pub open spec fn plan_reorder_result(
    id: u128,
    locked: bool,
    current: Seq<char>,
    ids: Seq<u128>,
    selector: Seq<char>,
    position: int,
    if_hash: Option<Seq<char>>,
    force: bool,
) -> Result<Seq<u128>, (ErrorKind, Seq<char>)> {
    if position == 0 {
        Err((ErrorKind::Usage, position_zero_message()))
    } else if locked && !force {
        Err((ErrorKind::Conflict, locked_message(id)))
    } else if if_hash is Some && if_hash->0 != current {
        Err((ErrorKind::Conflict, changed_message(if_hash->0, current)))
    } else {
        reorder_result(ids, selector, position)
    }
}

/// Plans moving the fragment that `fragment_selector` names to 1-based
/// `position` in snippet `id` (read at fingerprint `current`): refuses as
/// the checks say, or gives the new order of the fragment ids; the ids are
/// changed only where it succeeds.
pub fn plan_reorder(
    id: u128,
    locked: bool,
    current: &Fingerprint,
    fragment_ids: &mut Vec<u128>,
    fragment_selector: &str,
    position: usize,
    if_hash: Option<&Fingerprint>,
    force: bool,
) -> (r: Result<(), SnipError>)
    ensures
        match plan_reorder_result(
            id,
            locked,
            current@,
            old(fragment_ids)@,
            fragment_selector@,
            position as int,
            match if_hash {
                Some(f) => Some(f@),
                None => None,
            },
            force,
        ) {
            Ok(order) => r is Ok && final(fragment_ids)@ == order,
            Err(e) => r matches Err(err) && err@ == e && final(fragment_ids)@ == old(fragment_ids)@,
        },
{
    if position == 0 {
        return Err(usage_error("fragment positions start at 1"));
    }
    ensure_mutable(id, locked, force)?;
    ensure_hash(if_hash, current)?;
    reorder_fragment(fragment_ids, fragment_selector, position)
}

// ---------------------------------------------------------------------------
// Replacing a manifest
// ---------------------------------------------------------------------------

/// Fragments as a manifest lists them: each one's id and file path.
pub open spec fn fragment_refs(v: Seq<(u128, String)>) -> Seq<(u128, Seq<char>)> {
    v.map_values(|f: (u128, String)| (f.0, f.1@))
}

/// The replacement lists as many fragments as the snippet has, and each of
/// them is one of the snippet's, with the same id and the same file.
pub open spec fn keeps_fragments(current: Seq<(u128, Seq<char>)>, replacement: Seq<(u128, Seq<char>)>) -> bool {
    &&& replacement.len() == current.len()
    &&& forall|j: int| 0 <= j < replacement.len() ==> current.contains(#[trigger] replacement[j])
}

/// The message for a replacement manifest with another snippet id.
pub open spec fn id_change_message() -> Seq<char> {
    "editing snippet.toml cannot change the snippet UUID"@
}

/// The message for a replacement manifest that adds fragments or moves
/// their files.
pub open spec fn fragment_change_message() -> Seq<char> {
    "metadata editor cannot add fragments or change fragment file paths; use snip fragment"@
}

/// What checking a replacement manifest of snippet `id` comes to: the
/// snippet id must stay, and so must the fragments, each with its file.
pub open spec fn manifest_replacement_result(
    id: u128,
    current: Seq<(u128, Seq<char>)>,
    new_id: u128,
    replacement: Seq<(u128, Seq<char>)>,
) -> Result<(), (ErrorKind, Seq<char>)> {
    if new_id != id {
        Err((ErrorKind::Conflict, id_change_message()))
    } else if !keeps_fragments(current, replacement) {
        Err((ErrorKind::Conflict, fragment_change_message()))
    } else {
        Ok(())
    }
}

/// Whether `fragments` lists a fragment with id `id` and file `file`.
fn lists_fragment(fragments: &Vec<(u128, String)>, id: u128, file: &str) -> (r: bool)
    ensures
        r == fragment_refs(fragments@).contains((id, file@)),
{
    let wanted = chars_of(file);
    let mut i: usize = 0;
    while i < fragments.len()
        invariant
            i <= fragments.len(),
            wanted@ == file@,
            forall|k: int| 0 <= k < i ==> fragment_refs(fragments@)[k] != (id, file@),
        decreases fragments.len() - i,
    {
        let f = &fragments[i];
        let name = chars_of(f.1.as_str());
        if f.0 == id && eq_chars(name.as_slice(), wanted.as_slice()) {
            assert(fragment_refs(fragments@)[i as int] == (id, file@));
            return true;
        }
        i += 1;
    }
    proof {
        if fragment_refs(fragments@).contains((id, file@)) {
            let k = choose|k: int| 0 <= k < fragment_refs(fragments@).len() && fragment_refs(fragments@)[k] == (id, file@);
            assert(fragment_refs(fragments@)[k] != (id, file@));
        }
    }
    false
}

/// The error for a replacement manifest that adds fragments or moves their
/// files.
fn fragment_change_error() -> (e: SnipError)
    ensures
        e@ == (ErrorKind::Conflict, fragment_change_message()),
{
    SnipError::conflict(copy_string("metadata editor cannot add fragments or change fragment file paths; use snip fragment"))
}

/// Checks a replacement manifest for snippet `id` against the snippet: a
/// replacement may change the metadata, but not the snippet's id, and it
/// must list the same fragments with the same files.
pub fn check_manifest_replacement(
    id: u128,
    fragments: &Vec<(u128, String)>,
    new_id: u128,
    new_fragments: &Vec<(u128, String)>,
) -> (r: Result<(), SnipError>)
    ensures
        result_view(r) == manifest_replacement_result(
            id,
            fragment_refs(fragments@),
            new_id,
            fragment_refs(new_fragments@),
        ),
{
    if new_id != id {
        let m = copy_string("editing snippet.toml cannot change the snippet UUID");
        return Err(SnipError::conflict(m));
    }
    let current = Ghost(fragment_refs(fragments@));
    let replacement = Ghost(fragment_refs(new_fragments@));
    if new_fragments.len() != fragments.len() {
        return Err(fragment_change_error());
    }
    let mut j: usize = 0;
    while j < new_fragments.len()
        invariant
            j <= new_fragments.len(),
            new_id == id,
            current@ == fragment_refs(fragments@),
            replacement@ == fragment_refs(new_fragments@),
            replacement@.len() == current@.len(),
            forall|k: int| 0 <= k < j ==> current@.contains(#[trigger] replacement@[k]),
        decreases new_fragments.len() - j,
    {
        let f = &new_fragments[j];
        if !lists_fragment(fragments, f.0, f.1.as_str()) {
            assert(replacement@[j as int] == (f.0, f.1@));
            assert(!current@.contains(replacement@[j as int]));
            assert(!keeps_fragments(current@, replacement@));
            return Err(fragment_change_error());
        }
        j += 1;
    }
    Ok(())
}

// ---------------------------------------------------------------------------
// Organizing packages
// ---------------------------------------------------------------------------

/// The message when a package's canonical path is taken.
pub open spec fn organize_conflict_message(target: Seq<char>) -> Seq<char> {
    "organize target already exists: "@ + target
}

/// What organizing does with a package at `current` whose canonical path is
/// `target`: nothing when it is already there (`Ok(false)`); a move when the
/// target is free (`Ok(true)`); else it stops with a conflict, before
/// moving this package.
pub open spec fn organize_step_spec(current: Seq<char>, target: Seq<char>, target_exists: bool) -> Result<
    bool,
    (ErrorKind, Seq<char>),
> {
    if target == current {
        Ok(false)
    } else if target_exists {
        Err((ErrorKind::Conflict, organize_conflict_message(target)))
    } else {
        Ok(true)
    }
}

/// Decides, for one package, what organizing does, as `organize_step_spec`
/// says; the caller checks whether the target exists (after the moves made
/// so far), moves the package, and records the change.
pub fn organize_step(current: &str, target: &str, target_exists: bool) -> (r: Result<bool, SnipError>)
    ensures
        result_view(r) == organize_step_spec(current@, target@, target_exists),
{
    let a = chars_of(current);
    let b = chars_of(target);
    if eq_chars(a.as_slice(), b.as_slice()) {
        return Ok(false);
    }
    if target_exists {
        let mut m = copy_string("organize target already exists: ");
        push_str(&mut m, target);
        return Err(SnipError::conflict(m));
    }
    Ok(true)
}

// ---------------------------------------------------------------------------
// Tags
// ---------------------------------------------------------------------------

/// Strings, as spec values.
pub open spec fn texts(v: Seq<String>) -> Seq<Seq<char>> {
    v.map_values(|t: String| t@)
}

/// Some tag equals `tag`, ignoring ASCII case.
pub open spec fn has_tag(tags: Seq<Seq<char>>, tag: Seq<char>) -> bool {
    exists|i: int| 0 <= i < tags.len() && eq_ignore_case(#[trigger] tags[i], tag)
}

/// The tags with every one equal to `old` (ignoring ASCII case) replaced.
pub open spec fn renamed_tags(tags: Seq<Seq<char>>, old: Seq<char>, replacement: Seq<char>) -> Seq<Seq<char>> {
    tags.map_values(|t: Seq<char>| if eq_ignore_case(t, old) { replacement } else { t })
}

/// The tags without those equal to `tag` (ignoring ASCII case).
pub open spec fn without_tag(tags: Seq<Seq<char>>, tag: Seq<char>) -> Seq<Seq<char>> {
    tags.filter(|t: Seq<char>| !eq_ignore_case(t, tag))
}

/// The edits of a tag change, as spec values: the new tag list of each
/// snippet that changes, `None` for the others.
pub open spec fn edits_view(edits: Seq<Option<Vec<String>>>) -> Seq<Option<Seq<Seq<char>>>> {
    edits.map_values(|e: Option<Vec<String>>| match e {
        Some(tags) => Some(texts(tags@)),
        None => None,
    })
}

/// How many snippets an edit list changes.
pub open spec fn changed_count(edits: Seq<Option<Seq<Seq<char>>>>) -> nat
    decreases edits.len(),
{
    if edits.len() == 0 {
        0
    } else {
        changed_count(edits.drop_last()) + if edits.last() is Some {
            1nat
        } else {
            0nat
        }
    }
}

/// The position of the first registry name equal to `tag`, ignoring ASCII
/// case.
pub open spec fn first_named(names: Seq<Seq<char>>, tag: Seq<char>) -> Option<int>
    decreases names.len(),
{
    if names.len() == 0 {
        None
    } else {
        match first_named(names.drop_last(), tag) {
            Some(i) => Some(i),
            None => if eq_ignore_case(names.last(), tag) {
                Some(names.len() - 1)
            } else {
                None
            },
        }
    }
}

/// The names, keeping only the first of those that lowercase alike.
pub open spec fn first_of_each_case(names: Seq<Seq<char>>) -> Seq<Seq<char>>
    decreases names.len(),
{
    if names.len() == 0 {
        Seq::empty()
    } else {
        let rest = first_of_each_case(names.drop_last());
        if exists|j: int|
            0 <= j < names.len() - 1 && #[trigger] unicode_lowercase(names[j]) == unicode_lowercase(names.last()) {
            rest
        } else {
            rest.push(names.last())
        }
    }
}

/// The registry after renaming `old`: its first entry named `old` takes the
/// new name, and then only the first of the names that lowercase alike stays.
pub open spec fn renamed_registry(names: Seq<Seq<char>>, old: Seq<char>, replacement: Seq<char>) -> Seq<Seq<char>> {
    let renamed = match first_named(names, old) {
        Some(i) => names.update(i, replacement),
        None => names,
    };
    first_of_each_case(renamed)
}

/// What a tag rename or deletion changes: the new tags of each snippet that
/// changes (`None` for the others), how many change, and the tag registry to
/// write (`None` when it stays as it is).
#[derive(Clone, Debug)]
pub struct TagChanges {
    pub edits: Vec<Option<Vec<String>>>,
    pub changed: usize,
    pub registry: Option<Vec<String>>,
}

/// The message for an empty new tag.
pub open spec fn empty_tag_message() -> Seq<char> {
    "new tag cannot be empty"@
}

/// Whether some tag equals `tag`, ignoring ASCII case.
fn tags_include(tags: &Vec<String>, tag: &[char]) -> (r: bool)
    ensures
        r == has_tag(texts(tags@), tag@),
{
    let ghost tv = texts(tags@);
    let mut i: usize = 0;
    while i < tags.len()
        invariant
            i <= tags@.len(),
            tv == texts(tags@),
            forall|j: int| 0 <= j < i ==> !eq_ignore_case(#[trigger] tv[j], tag@),
        decreases tags@.len() - i,
    {
        let t = chars_of(tags[i].as_str());
        assert(tv[i as int] == t@);
        if crate::text::eq_ignore_case_chars(t.as_slice(), tag) {
            return true;
        }
        i = i + 1;
    }
    false
}

/// The tags with every one equal to `old` (ignoring ASCII case) replaced.
fn rename_in(tags: &Vec<String>, old: &[char], replacement: &str) -> (r: Vec<String>)
    ensures
        texts(r@) == renamed_tags(texts(tags@), old@, replacement@),
{
    let mut out: Vec<String> = Vec::new();
    let mut i: usize = 0;
    while i < tags.len()
        invariant
            i <= tags@.len(),
            texts(out@) == renamed_tags(texts(tags@), old@, replacement@).subrange(0, i as int),
        decreases tags@.len() - i,
    {
        let t = chars_of(tags[i].as_str());
        let next = if crate::text::eq_ignore_case_chars(t.as_slice(), old) {
            copy_string(replacement)
        } else {
            copy_string(tags[i].as_str())
        };
        proof {
            assert(texts(out@.push(next)) =~= texts(out@).push(next@));
            assert(renamed_tags(texts(tags@), old@, replacement@).subrange(0, i + 1) =~= renamed_tags(
                texts(tags@),
                old@,
                replacement@,
            ).subrange(0, i as int).push(next@));
        }
        out.push(next);
        i = i + 1;
    }
    assert(renamed_tags(texts(tags@), old@, replacement@).subrange(0, i as int) =~= renamed_tags(
        texts(tags@),
        old@,
        replacement@,
    ));
    out
}

/// The tags without those equal to `tag` (ignoring ASCII case).
fn remove_from(tags: &Vec<String>, tag: &[char]) -> (r: Vec<String>)
    ensures
        texts(r@) == without_tag(texts(tags@), tag@),
{
    let ghost tv = texts(tags@);
    let ghost keep = |t: Seq<char>| !eq_ignore_case(t, tag@);
    let mut out: Vec<String> = Vec::new();
    let mut i: usize = 0;
    proof {
        reveal(Seq::filter);
        assert(tv.subrange(0, 0) =~= Seq::<Seq<char>>::empty());
    }
    while i < tags.len()
        invariant
            i <= tags@.len(),
            tv == texts(tags@),
            keep == (|t: Seq<char>| !eq_ignore_case(t, tag@)),
            texts(out@) == tv.subrange(0, i as int).filter(keep),
        decreases tags@.len() - i,
    {
        let t = chars_of(tags[i].as_str());
        assert(tv[i as int] == t@);
        proof {
            tv.subrange(0, i as int).lemma_filter_push(tv[i as int], keep);
            assert(tv.subrange(0, i + 1) =~= tv.subrange(0, i as int).push(tv[i as int]));
        }
        if !crate::text::eq_ignore_case_chars(t.as_slice(), tag) {
            let kept = copy_string(tags[i].as_str());
            assert(texts(out@.push(kept)) =~= texts(out@).push(kept@));
            out.push(kept);
        }
        i = i + 1;
    }
    assert(tv.subrange(0, i as int) =~= tv);
    out
}

/// The registry names, keeping only the first of those that lowercase alike.
fn keep_first_of_each_case(names: Vec<String>) -> (r: Vec<String>)
    ensures
        texts(r@) == first_of_each_case(texts(names@)),
{
    let ghost nv = texts(names@);
    let mut lowered: Vec<String> = Vec::new();
    let mut out: Vec<String> = Vec::new();
    let mut i: usize = 0;
    assert(nv.subrange(0, 0) =~= Seq::<Seq<char>>::empty());
    while i < names.len()
        invariant
            i <= names@.len(),
            nv == texts(names@),
            lowered@.len() == i,
            forall|j: int| 0 <= j < i ==> (#[trigger] lowered@[j])@ == unicode_lowercase(nv[j]),
            texts(out@) == first_of_each_case(nv.subrange(0, i as int)),
        decreases names@.len() - i,
    {
        let low = to_lowercase(names[i].as_str());
        let lc = chars_of(low.as_str());
        let mut seen = false;
        let mut j: usize = 0;
        while j < i
            invariant
                j <= i,
                i < names@.len(),
                lowered@.len() == i,
                lc@ == unicode_lowercase(nv[i as int]),
                nv == texts(names@),
                forall|k: int| 0 <= k < i ==> (#[trigger] lowered@[k])@ == unicode_lowercase(nv[k]),
                seen <==> exists|k: int| 0 <= k < j && #[trigger] unicode_lowercase(nv[k]) == unicode_lowercase(
                    nv[i as int],
                ),
            decreases i - j,
        {
            let other = chars_of(lowered[j].as_str());
            if eq_chars(other.as_slice(), lc.as_slice()) {
                seen = true;
            }
            j = j + 1;
        }
        proof {
            let pre = nv.subrange(0, i + 1);
            assert(pre.drop_last() =~= nv.subrange(0, i as int));
            assert(pre.last() == nv[i as int]);
            assert forall|k: int| 0 <= k < pre.len() - 1 implies pre[k] == nv[k] by {}
            if seen {
                let k = choose|k: int| 0 <= k < i && #[trigger] unicode_lowercase(nv[k]) == unicode_lowercase(
                    nv[i as int],
                );
                assert(unicode_lowercase(pre[k]) == unicode_lowercase(pre.last()));
            } else {
                assert forall|k: int| 0 <= k < pre.len() - 1 implies #[trigger] unicode_lowercase(pre[k])
                    != unicode_lowercase(pre.last()) by {
                    assert(pre[k] == nv[k]);
                }
            }
        }
        if !seen {
            let kept = copy_string(names[i].as_str());
            assert(texts(out@.push(kept)) =~= texts(out@).push(kept@));
            out.push(kept);
        }
        lowered.push(low);
        i = i + 1;
    }
    assert(nv.subrange(0, i as int) =~= nv);
    out
}

/// Copies a list of strings.
fn copy_all(v: &Vec<String>) -> (r: Vec<String>)
    ensures
        texts(r@) == texts(v@),
{
    let mut out: Vec<String> = Vec::new();
    let mut i: usize = 0;
    while i < v.len()
        invariant
            i <= v@.len(),
            texts(out@) == texts(v@).subrange(0, i as int),
        decreases v@.len() - i,
    {
        let c = copy_string(v[i].as_str());
        assert(texts(out@.push(c)) =~= texts(out@).push(c@));
        assert(texts(v@).subrange(0, i + 1) =~= texts(v@).subrange(0, i as int).push(c@));
        out.push(c);
        i = i + 1;
    }
    assert(texts(v@).subrange(0, i as int) =~= texts(v@));
    out
}

/// The tag edits for `old` renamed to `new` (trimmed): each snippet carrying
/// `old` (ignoring ASCII case) gets every such tag replaced; the registry's
/// first `old` entry is renamed, and of the names that then lowercase alike
/// only the first stays. A new name that trims to nothing is refused.
pub fn rename_tag(snippet_tags: &Vec<Vec<String>>, registry: &Vec<String>, old: &str, new: &str) -> (r: Result<
    TagChanges,
    SnipError,
>)
    ensures
        trim(new@).len() == 0 <==> r is Err,
        r matches Err(e) ==> e@ == (ErrorKind::Usage, empty_tag_message()),
        r matches Ok(c) ==> {
            &&& edits_view(c.edits@).len() == snippet_tags@.len()
            &&& forall|i: int| 0 <= i < snippet_tags@.len() ==> #[trigger] edits_view(c.edits@)[i] == if has_tag(
                texts(snippet_tags@[i]@),
                old@,
            ) {
                Some(renamed_tags(texts(snippet_tags@[i]@), old@, trim(new@)))
            } else {
                None
            }
            &&& c.changed == changed_count(edits_view(c.edits@))
            &&& c.registry matches Some(names) && texts(names@) == renamed_registry(texts(registry@), old@, trim(new@))
        },
{
    let replacement = trim_string(new);
    if chars_of(replacement.as_str()).len() == 0 {
        return Err(usage_error("new tag cannot be empty"));
    }
    let old_chars = chars_of(old);
    let mut edits: Vec<Option<Vec<String>>> = Vec::new();
    let mut changed: usize = 0;
    let mut i: usize = 0;
    while i < snippet_tags.len()
        invariant
            i <= snippet_tags@.len(),
            old_chars@ == old@,
            replacement@ == trim(new@),
            edits@.len() == i,
            changed == changed_count(edits_view(edits@)),
            changed <= i,
            forall|k: int| 0 <= k < i ==> #[trigger] edits_view(edits@)[k] == if has_tag(
                texts(snippet_tags@[k]@),
                old@,
            ) {
                Some(renamed_tags(texts(snippet_tags@[k]@), old@, trim(new@)))
            } else {
                None
            },
        decreases snippet_tags@.len() - i,
    {
        let tags = &snippet_tags[i];
        let edit = if tags_include(tags, old_chars.as_slice()) {
            Some(rename_in(tags, old_chars.as_slice(), replacement.as_str()))
        } else {
            None
        };
        proof {
            assert(edits_view(edits@.push(edit)).drop_last() =~= edits_view(edits@));
            assert(edits_view(edits@.push(edit)) =~= edits_view(edits@).push(edits_view(edits@.push(edit))[i as int]));
            assert(edits_view(edits@.push(edit))[i as int] == match edit {
                Some(t) => Some(texts(t@)),
                None => None::<Seq<Seq<char>>>,
            });
        }
        if edit.is_some() {
            changed = changed + 1;
        }
        edits.push(edit);
        i = i + 1;
    }
    let mut names = copy_all(registry);
    let ghost nv = texts(names@);
    if let Some(k) = find_named(&names, old_chars.as_slice()) {
        names.set(k, copy_string(replacement.as_str()));
        assert(texts(names@) =~= nv.update(k as int, trim(new@)));
    }
    assert(texts(names@) == match first_named(texts(registry@), old@) {
        Some(i) => texts(registry@).update(i, trim(new@)),
        None => texts(registry@),
    });
    let registry_names = keep_first_of_each_case(names);
    assert(texts(registry_names@) == renamed_registry(texts(registry@), old@, trim(new@)));
    Ok(TagChanges { edits, changed, registry: Some(registry_names) })
}

/// Where the first registry name equal to `tag` (ignoring ASCII case) stands.
fn find_named(names: &Vec<String>, tag: &[char]) -> (r: Option<usize>)
    ensures
        r matches Some(k) ==> first_named(texts(names@), tag@) == Some(k as int) && k < names@.len(),
        r is None ==> first_named(texts(names@), tag@) is None,
{
    let ghost nv = texts(names@);
    let mut k: usize = 0;
    assert(nv.subrange(0, 0) =~= Seq::<Seq<char>>::empty());
    while k < names.len()
        invariant
            k <= names@.len(),
            nv == texts(names@),
            first_named(nv.subrange(0, k as int), tag@) is None,
        decreases names@.len() - k,
    {
        let n = chars_of(names[k].as_str());
        assert(nv[k as int] == n@);
        proof {
            assert(nv.subrange(0, k + 1).drop_last() =~= nv.subrange(0, k as int));
            assert(nv.subrange(0, k + 1).last() == nv[k as int]);
        }
        if crate::text::eq_ignore_case_chars(n.as_slice(), tag) {
            proof {
                lemma_first_named_prefix(nv, tag@, k as int);
            }
            return Some(k);
        }
        k = k + 1;
    }
    proof {
        lemma_first_named_prefix(nv, tag@, k as int);
    }
    None
}

/// The first match in a prefix with none before `k` is `k` itself when it
/// matches, and none at all when the prefix is the whole list.
proof fn lemma_first_named_prefix(names: Seq<Seq<char>>, tag: Seq<char>, k: int)
    requires
        0 <= k <= names.len(),
        first_named(names.subrange(0, k), tag) is None,
        k < names.len() ==> eq_ignore_case(names[k], tag),
    ensures
        first_named(names, tag) == if k < names.len() {
            Some(k)
        } else {
            None::<int>
        },
    decreases names.len() - k,
{
    if k == names.len() {
        assert(names.subrange(0, k) =~= names);
    } else {
        lemma_first_named_extend(names, tag, k + 1);
        assert(names.subrange(0, k + 1).drop_last() =~= names.subrange(0, k));
    }
}

/// A match found in a prefix is the match of the whole list.
proof fn lemma_first_named_extend(names: Seq<Seq<char>>, tag: Seq<char>, n: int)
    requires
        0 <= n <= names.len(),
        first_named(names.subrange(0, n), tag) is Some,
    ensures
        first_named(names, tag) == first_named(names.subrange(0, n), tag),
    decreases names.len() - n,
{
    if n < names.len() {
        assert(names.subrange(0, n + 1).drop_last() =~= names.subrange(0, n));
        lemma_first_named_extend(names, tag, n + 1);
    } else {
        assert(names.subrange(0, n) =~= names);
    }
}

/// The tag edits for deleting `tag`: each snippet carrying it (ignoring ASCII
/// case) loses every such tag; the registry drops those entries, and is
/// written only when one went.
pub fn delete_tag(snippet_tags: &Vec<Vec<String>>, registry: &Vec<String>, tag: &str) -> (c: TagChanges)
    ensures
        edits_view(c.edits@).len() == snippet_tags@.len(),
        forall|i: int| 0 <= i < snippet_tags@.len() ==> #[trigger] edits_view(c.edits@)[i] == if has_tag(
            texts(snippet_tags@[i]@),
            tag@,
        ) {
            Some(without_tag(texts(snippet_tags@[i]@), tag@))
        } else {
            None
        },
        c.changed == changed_count(edits_view(c.edits@)),
        match c.registry {
            Some(names) => texts(names@) == without_tag(texts(registry@), tag@) && without_tag(
                texts(registry@),
                tag@,
            ).len() != registry@.len(),
            None => without_tag(texts(registry@), tag@).len() == registry@.len(),
        },
{
    let tag_chars = chars_of(tag);
    let mut edits: Vec<Option<Vec<String>>> = Vec::new();
    let mut changed: usize = 0;
    let mut i: usize = 0;
    while i < snippet_tags.len()
        invariant
            i <= snippet_tags@.len(),
            tag_chars@ == tag@,
            edits@.len() == i,
            changed == changed_count(edits_view(edits@)),
            changed <= i,
            forall|k: int| 0 <= k < i ==> #[trigger] edits_view(edits@)[k] == if has_tag(
                texts(snippet_tags@[k]@),
                tag@,
            ) {
                Some(without_tag(texts(snippet_tags@[k]@), tag@))
            } else {
                None
            },
        decreases snippet_tags@.len() - i,
    {
        let tags = &snippet_tags[i];
        let edit = if tags_include(tags, tag_chars.as_slice()) {
            Some(remove_from(tags, tag_chars.as_slice()))
        } else {
            None
        };
        proof {
            assert(edits_view(edits@.push(edit)).drop_last() =~= edits_view(edits@));
            assert(edits_view(edits@.push(edit)) =~= edits_view(edits@).push(edits_view(edits@.push(edit))[i as int]));
            assert(edits_view(edits@.push(edit))[i as int] == match edit {
                Some(t) => Some(texts(t@)),
                None => None::<Seq<Seq<char>>>,
            });
        }
        if edit.is_some() {
            changed = changed + 1;
        }
        edits.push(edit);
        i = i + 1;
    }
    let kept = remove_from(registry, tag_chars.as_slice());
    let registry_names = if kept.len() != registry.len() {
        Some(kept)
    } else {
        None
    };
    TagChanges { edits, changed, registry: registry_names }
}

// ---------------------------------------------------------------------------
// Folders
// ---------------------------------------------------------------------------

/// `s` without the `/` characters that start and end it (`trim_matches('/')`).
pub open spec fn trim_slashes(s: Seq<char>) -> Seq<char>
    decreases s.len(),
{
    if s.len() > 0 && s[0] == '/' {
        trim_slashes(s.drop_first())
    } else if s.len() > 0 && s.last() == '/' {
        trim_slashes(s.drop_last())
    } else {
        s
    }
}

/// Every component is a plain name: no root, prefix, `.` or `..`.
pub open spec fn only_names(parts: Seq<PathPartView>) -> bool {
    forall|i: int| 0 <= i < parts.len() ==> #[trigger] parts[i] is Normal
}

/// Whether every component of a folder's path is a plain name.
pub fn all_names(parts: &Vec<PathPart>) -> (r: bool)
    ensures
        r == only_names(parts_view(parts@)),
{
    let mut i: usize = 0;
    while i < parts.len()
        invariant
            i <= parts@.len(),
            forall|j: int| 0 <= j < i ==> #[trigger] parts_view(parts@)[j] is Normal,
        decreases parts@.len() - i,
    {
        match &parts[i] {
            PathPart::Normal(_) => {},
            _ => {
                assert(!(parts_view(parts@)[i as int] is Normal));
                return false;
            },
        }
        i = i + 1;
    }
    true
}

/// The message for a folder that is not a plain relative path.
pub open spec fn folder_message(folder: Seq<char>) -> Seq<char> {
    "folder must be a relative path without . or ..: "@ + debug_quoted(folder)
}

/// What checking a folder name gives: with its outer slashes dropped, it
/// must be a relative path of plain names.
pub open spec fn folder_result(folder: Seq<char>) -> Result<Seq<char>, (ErrorKind, Seq<char>)> {
    let trimmed = trim_slashes(folder);
    if absolute_path(trimmed) || !only_names(path_parts(trimmed)) {
        Err((ErrorKind::Validation, folder_message(folder)))
    } else {
        Ok(trimmed)
    }
}

/// `s` without the slashes that start and end it.
#[verifier::spinoff_prover]
fn trim_slashes_exec(s: &str) -> (r: String)
    ensures
        r@ == trim_slashes(s@),
{
    let v = chars_of(s);
    let mut start: usize = 0;
    let mut end: usize = v.len();
    assert(v@.subrange(0, v@.len() as int) =~= v@);
    while start < end && v[start] == '/'
        invariant
            start <= end <= v@.len(),
            end == v@.len(),
            trim_slashes(v@) == trim_slashes(v@.subrange(start as int, end as int)),
        decreases end - start,
    {
        assert(v@.subrange(start as int, end as int).drop_first() =~= v@.subrange(start + 1, end as int));
        start = start + 1;
    }
    while start < end && v[end - 1] == '/'
        invariant
            start <= end <= v@.len(),
            start == end || v@[start as int] != '/',
            trim_slashes(v@) == trim_slashes(v@.subrange(start as int, end as int)),
        decreases end - start,
    {
        assert(v@.subrange(start as int, end as int).drop_last() =~= v@.subrange(start as int, end - 1));
        end = end - 1;
    }
    crate::text::string_of_range(v.as_slice(), start, end)
}

/// Checks a folder name: with its outer slashes dropped, it must be a
/// relative path of plain names (no `.` or `..`). Returns the trimmed path.
pub fn validate_folder(folder: &str) -> (r: Result<String, SnipError>)
    ensures
        match folder_result(folder@) {
            Ok(p) => r matches Ok(q) && q@ == p,
            Err(e) => r matches Err(err) && err@ == e,
        },
{
    let trimmed = trim_slashes_exec(folder);
    if is_absolute_path(trimmed.as_str()) || !all_names(&components(trimmed.as_str())) {
        let mut m = String::new();
        push_str(&mut m, "folder must be a relative path without . or ..: ");
        push_str(&mut m, quoted(folder).as_str());
        assert(m@ =~= folder_message(folder@));
        return Err(SnipError::validation(m));
    }
    Ok(trimmed)
}

// ---------------------------------------------------------------------------
// Health report
// ---------------------------------------------------------------------------

/// What loading one package found: its snippet's id, the name of its
/// directory (if it is valid UTF-8) and the canonical package name; or the
/// error that loading gave.
#[derive(Debug)]
pub struct PackageCheck {
    pub path: String,
    pub outcome: Result<(u128, Option<String>, String), String>,
}

/// A package check, as spec values.
pub struct PackageCheckView {
    pub path: Seq<char>,
    pub outcome: Result<(u128, Option<Seq<char>>, Seq<char>), Seq<char>>,
}

/// Package checks, as spec values.
pub open spec fn packages_view(v: Seq<PackageCheck>) -> Seq<PackageCheckView> {
    v.map_values(|p: PackageCheck| PackageCheckView {
        path: p.path@,
        outcome: match p.outcome {
            Ok((id, name, expected)) => Ok((id, opt_text(name), expected@)),
            Err(e) => Err(e@),
        },
    })
}

/// Whether a package loaded and holds snippet `id`.
pub open spec fn holds_id(p: PackageCheckView, id: u128) -> bool {
    p.outcome matches Ok(found) && found.0 == id
}

/// Whether a package before `k` holds snippet `id`.
pub open spec fn id_seen(packages: Seq<PackageCheckView>, k: int, id: u128) -> bool {
    exists|j: int| 0 <= j < k && holds_id(#[trigger] packages[j], id)
}

/// The message for a snippet id held by two packages.
pub open spec fn duplicate_id_message(id: u128) -> Seq<char> {
    "duplicate snippet UUID: "@ + uuid_hyphenated(id)
}

/// The warning for a package whose directory is not its canonical name.
pub open spec fn package_name_message(path: Seq<char>, expected: Seq<char>) -> Seq<char> {
    path + ": package name differs from canonical "@ + debug_quoted(expected)
}

/// The message for a package that did not load.
pub open spec fn package_error_message(path: Seq<char>, error: Seq<char>) -> Seq<char> {
    path + ": "@ + error
}

/// The errors and warnings of the packages before `n`: a repeated snippet id
/// is an error, a directory not named canonically a warning, and a package
/// that did not load an error.
pub open spec fn package_findings(packages: Seq<PackageCheckView>, n: int) -> (Seq<Seq<char>>, Seq<Seq<char>>)
    decreases n,
{
    if n <= 0 {
        (Seq::empty(), Seq::empty())
    } else {
        let (errors, warnings) = package_findings(packages, n - 1);
        let p = packages[n - 1];
        match p.outcome {
            Ok((id, name, expected)) => {
                let errors2 = if id_seen(packages, n - 1, id) {
                    errors.push(duplicate_id_message(id))
                } else {
                    errors
                };
                let warnings2 = if name != Some(expected) {
                    warnings.push(package_name_message(p.path, expected))
                } else {
                    warnings
                };
                (errors2, warnings2)
            },
            Err(e) => (errors.push(package_error_message(p.path, e)), warnings),
        }
    }
}

/// The message for a transaction that could not be recovered.
pub open spec fn transaction_message(name: Seq<char>, error: Seq<char>) -> Seq<char> {
    "transaction "@ + name + ": "@ + error
}

/// Recovery outcomes, as spec values.
pub open spec fn recoveries_view(v: Seq<Result<String, String>>) -> Seq<Result<Seq<char>, Seq<char>>> {
    v.map_values(|r: Result<String, String>| match r {
        Ok(m) => Ok(m@),
        Err(e) => Err(e@),
    })
}

/// The recovery messages and errors of the first `n` pending transactions.
pub open spec fn recovery_findings(names: Seq<Seq<char>>, outcomes: Seq<Result<Seq<char>, Seq<char>>>, n: int) -> (
    Seq<Seq<char>>,
    Seq<Seq<char>>,
)
    decreases n,
{
    if n <= 0 {
        (Seq::empty(), Seq::empty())
    } else {
        let (repaired, errors) = recovery_findings(names, outcomes, n - 1);
        match outcomes[n - 1] {
            Ok(m) => (repaired.push(m), errors),
            Err(e) => (repaired, errors.push(transaction_message(names[n - 1], e))),
        }
    }
}

/// What the health check reports, from what it read: the registry's error
/// first, then the transactions that could not be recovered (when
/// repairing), then each package's findings (or the error of listing them).
/// The library is healthy when there is no error and no transaction pending.
pub open spec fn doctor_errors(
    repair: bool,
    registry_error: Option<Seq<char>>,
    pending: Seq<Seq<char>>,
    recoveries: Seq<Result<Seq<char>, Seq<char>>>,
    packages: Result<Seq<PackageCheckView>, Seq<char>>,
) -> Seq<Seq<char>> {
    let registry = match registry_error {
        Some(e) => seq![e],
        None => Seq::empty(),
    };
    let recovered = if repair {
        recovery_findings(pending, recoveries, pending.len() as int).1
    } else {
        Seq::empty()
    };
    let scanned = match packages {
        Ok(list) => package_findings(list, list.len() as int).0,
        Err(e) => seq![e],
    };
    registry + recovered + scanned
}

/// Builds the health report from what the check read. `pending` lists the
/// transactions found at the start, `recoveries` (when repairing) what
/// recovering each gave, `packages` what loading each package gave (or the
/// error listing them gave), and `pending_after_repair` the transactions
/// still there after repairing.
pub fn doctor(
    repair: bool,
    registry_error: Option<String>,
    pending: Vec<String>,
    recoveries: Vec<Result<String, String>>,
    packages: Result<Vec<PackageCheck>, String>,
    pending_after_repair: Vec<String>,
) -> (report: DoctorReport)
    requires
        repair ==> recoveries@.len() == pending@.len(),
    ensures
        texts(report.errors@) == doctor_errors(
            repair,
            opt_text(registry_error),
            texts(pending@),
            recoveries_view(recoveries@),
            match packages {
                Ok(list) => Ok(packages_view(list@)),
                Err(e) => Err(e@),
            },
        ),
        texts(report.warnings@) == match packages {
            Ok(list) => package_findings(packages_view(list@), list@.len() as int).1,
            Err(e) => Seq::empty(),
        },
        texts(report.repaired@) == if repair {
            recovery_findings(texts(pending@), recoveries_view(recoveries@), pending@.len() as int).0
        } else {
            Seq::empty()
        },
        report.checked == match packages {
            Ok(list) => list@.len(),
            Err(e) => 0,
        },
        texts(report.pending_transactions@) == if repair {
            texts(pending_after_repair@)
        } else {
            texts(pending@)
        },
        report.ok == (report.errors@.len() == 0 && report.pending_transactions@.len() == 0),
{
    let mut errors: Vec<String> = Vec::new();
    let mut warnings: Vec<String> = Vec::new();
    let mut repaired: Vec<String> = Vec::new();
    let mut checked: usize = 0;
    let ghost names = texts(pending@);
    let ghost outcomes = recoveries_view(recoveries@);
    match &registry_error {
        Some(e) => {
            let c = copy_string(e.as_str());
            assert(texts(errors@.push(c)) =~= seq![e@]);
            errors.push(c);
        },
        None => {
            assert(texts(errors@) =~= Seq::<Seq<char>>::empty());
        },
    }
    let ghost base = texts(errors@);
    if repair {
        let mut k: usize = 0;
        while k < pending.len()
            invariant
                repair,
                k <= pending@.len(),
                recoveries@.len() == pending@.len(),
                names == texts(pending@),
                outcomes == recoveries_view(recoveries@),
                texts(repaired@) == recovery_findings(names, outcomes, k as int).0,
                texts(errors@) == base + recovery_findings(names, outcomes, k as int).1,
            decreases pending@.len() - k,
        {
            match &recoveries[k] {
                Ok(m) => {
                    let c = copy_string(m.as_str());
                    assert(texts(repaired@.push(c)) =~= texts(repaired@).push(c@));
                    repaired.push(c);
                },
                Err(e) => {
                    let mut line = String::new();
                    push_str(&mut line, "transaction ");
                    push_str(&mut line, pending[k].as_str());
                    push_str(&mut line, ": ");
                    push_str(&mut line, e.as_str());
                    assert(line@ =~= transaction_message(names[k as int], e@));
                    assert(texts(errors@.push(line)) =~= texts(errors@).push(line@));
                    errors.push(line);
                },
            }
            k = k + 1;
        }
    } else {
        assert(base + Seq::<Seq<char>>::empty() =~= base);
    }
    let ghost after_recovery = texts(errors@);
    match &packages {
        Ok(list) => {
            let ghost pv = packages_view(list@);
            let mut ids: Vec<u128> = Vec::new();
            let mut k: usize = 0;
            assert(after_recovery + Seq::<Seq<char>>::empty() =~= after_recovery);
            while k < list.len()
                invariant
                    k <= list@.len(),
                    pv == packages_view(list@),
                    checked == k,
                    texts(errors@) == after_recovery + package_findings(pv, k as int).0,
                    texts(warnings@) == package_findings(pv, k as int).1,
                    forall|id: u128| ids@.contains(id) <==> id_seen(pv, k as int, id),
                decreases list@.len() - k,
            {
                let package = &list[k];
                let ghost before_errors = texts(errors@);
                let ghost before_warnings = texts(warnings@);
                match &package.outcome {
                    Ok((id, name, expected)) => {
                        let mut seen = false;
                        let mut j: usize = 0;
                        while j < ids.len()
                            invariant
                                j <= ids@.len(),
                                seen <==> exists|x: int| 0 <= x < j && ids@[x] == *id,
                            decreases ids@.len() - j,
                        {
                            if ids[j] == *id {
                                seen = true;
                            }
                            j = j + 1;
                        }
                        assert(seen <==> ids@.contains(*id));
                        if seen {
                            let mut line = String::new();
                            push_str(&mut line, "duplicate snippet UUID: ");
                            push_str(&mut line, uuid_text(*id).as_str());
                            assert(line@ =~= duplicate_id_message(*id));
                            assert(texts(errors@.push(line)) =~= texts(errors@).push(line@));
                            errors.push(line);
                        }
                        let same = match name {
                            Some(n) => {
                                let a = chars_of(n.as_str());
                                let b = chars_of(expected.as_str());
                                eq_chars(a.as_slice(), b.as_slice())
                            },
                            None => false,
                        };
                        if !same {
                            let mut line = String::new();
                            push_str(&mut line, package.path.as_str());
                            push_str(&mut line, ": package name differs from canonical ");
                            push_str(&mut line, quoted(expected.as_str()).as_str());
                            assert(line@ =~= package_name_message(package.path@, expected@));
                            assert(texts(warnings@.push(line)) =~= texts(warnings@).push(line@));
                            warnings.push(line);
                        }
                        proof {
                            assert(pv[k as int].outcome == Ok::<(u128, Option<Seq<char>>, Seq<char>), Seq<char>>(
                                (*id, opt_text(*name), expected@),
                            ));
                            assert(same <==> opt_text(*name) == Some(expected@));
                        }
                        let ghost old_ids = ids@;
                        assert(forall|x: u128| old_ids.contains(x) <==> id_seen(pv, k as int, x));
                        ids.push(*id);
                        assert(ids@.drop_last() =~= old_ids);
                        proof {
                            assert forall|x: u128| ids@.contains(x) <==> id_seen(pv, k + 1, x) by {
                                if ids@.contains(x) {
                                    if x == *id {
                                        assert(holds_id(pv[k as int], x));
                                    } else {
                                        let y = choose|y: int| 0 <= y < ids@.len() && ids@[y] == x;
                                        assert(ids@.drop_last().contains(x)) by {
                                            assert(ids@.drop_last()[y] == x);
                                        }
                                        assert(id_seen(pv, k as int, x));
                                    }
                                }
                                if id_seen(pv, k + 1, x) {
                                    let y = choose|y: int| 0 <= y < k + 1 && holds_id(#[trigger] pv[y], x);
                                    if y < k {
                                        assert(id_seen(pv, k as int, x));
                                        assert(ids@.drop_last().contains(x));
                                        let z = choose|z: int| 0 <= z < ids@.drop_last().len() && ids@.drop_last()[z] == x;
                                        assert(ids@[z] == x);
                                    } else {
                                        assert(ids@[ids@.len() - 1] == x);
                                    }
                                }
                            }
                        }
                    },
                    Err(e) => {
                        let mut line = String::new();
                        push_str(&mut line, package.path.as_str());
                        push_str(&mut line, ": ");
                        push_str(&mut line, e.as_str());
                        assert(line@ =~= package_error_message(package.path@, e@));
                        assert(texts(errors@.push(line)) =~= texts(errors@).push(line@));
                        errors.push(line);
                        proof {
                            assert forall|x: u128| ids@.contains(x) <==> id_seen(pv, k + 1, x) by {
                                if id_seen(pv, k + 1, x) {
                                    let y = choose|y: int| 0 <= y < k + 1 && holds_id(#[trigger] pv[y], x);
                                    assert(y < k);
                                    assert(id_seen(pv, k as int, x));
                                }
                                if ids@.contains(x) {
                                    assert(id_seen(pv, k as int, x));
                                    let y = choose|y: int| 0 <= y < k && holds_id(#[trigger] pv[y], x);
                                    assert(0 <= y < k + 1);
                                }
                            }
                        }
                    },
                }
                checked = checked + 1;
                k = k + 1;
            }
        },
        Err(e) => {
            let c = copy_string(e.as_str());
            assert(texts(errors@.push(c)) =~= texts(errors@).push(c@));
            errors.push(c);
            assert(texts(warnings@) =~= Seq::<Seq<char>>::empty());
        },
    }
    let pending_transactions = if repair {
        pending_after_repair
    } else {
        pending
    };
    let ok = errors.len() == 0 && pending_transactions.len() == 0;
    DoctorReport { checked, errors, warnings, pending_transactions, repaired, ok }
}

// ---------------------------------------------------------------------------
// Trash
// ---------------------------------------------------------------------------

/// A snippet in the trash.
#[derive(Clone, Debug)]
pub struct TrashEntry {
    pub entry_id: String,
    pub deleted_at: String,
    pub original_path: String,
    pub snippet_id: u128,
    pub title: String,
    pub package_path: String,
}

/// `s` starts with `prefix`.
pub open spec fn starts_with(s: Seq<char>, prefix: Seq<char>) -> bool {
    prefix.len() <= s.len() && s.subrange(0, prefix.len() as int) == prefix
}

/// A trash entry answers to a selector: its entry id starts with the
/// lowercased selector, its snippet's UUID starts with it (dashes ignored),
/// or its title is the selector itself.
pub open spec fn trash_entry_matches(entry: TrashEntry, selector: Seq<char>) -> bool {
    let lower = unicode_lowercase(selector);
    ||| starts_with(entry.entry_id@, lower)
    ||| starts_with(uuid_simple(entry.snippet_id), lower.filter(|c: char| c != '-'))
    ||| entry.title@ == selector
}

/// The entries before `n` that answer to a selector.
pub open spec fn trash_matches_upto(entries: Seq<TrashEntry>, selector: Seq<char>, n: int) -> Seq<int>
    decreases n,
{
    if n <= 0 {
        Seq::empty()
    } else if trash_entry_matches(entries[n - 1], selector) {
        trash_matches_upto(entries, selector, n - 1).push(n - 1)
    } else {
        trash_matches_upto(entries, selector, n - 1)
    }
}

/// The message for a selector no trash entry answers to.
pub open spec fn no_trash_match_message(selector: Seq<char>) -> Seq<char> {
    "no trash entry matches "@ + debug_quoted(selector)
}

/// The message for a selector several trash entries answer to.
pub open spec fn ambiguous_trash_message(selector: Seq<char>, count: nat) -> Seq<char> {
    "ambiguous trash selector "@ + debug_quoted(selector) + ": "@ + decimal(count) + " matches"@
}

/// Which trash entry a selector names: exactly one must answer to it.
pub open spec fn trash_entry_result(entries: Seq<TrashEntry>, selector: Seq<char>) -> Result<
    int,
    (ErrorKind, Seq<char>),
> {
    let found = trash_matches_upto(entries, selector, entries.len() as int);
    if found.len() == 0 {
        Err((ErrorKind::NotFound, no_trash_match_message(selector)))
    } else if found.len() == 1 {
        Ok(found[0])
    } else {
        Err((ErrorKind::NotFound, ambiguous_trash_message(selector, found.len())))
    }
}

/// Whether `s` starts with `prefix`.
fn has_prefix(s: &[char], prefix: &[char]) -> (r: bool)
    ensures
        r == starts_with(s@, prefix@),
{
    if prefix.len() > s.len() {
        return false;
    }
    let mut k: usize = 0;
    while k < prefix.len()
        invariant
            k <= prefix@.len() <= s@.len(),
            forall|j: int| 0 <= j < k ==> #[trigger] s@[j] == prefix@[j],
        decreases prefix@.len() - k,
    {
        if s[k] != prefix[k] {
            return false;
        }
        k = k + 1;
    }
    assert(s@.subrange(0, prefix@.len() as int) =~= prefix@);
    true
}

/// The trash entry a selector names, by position: an entry id prefix, a
/// snippet UUID prefix (dashes ignored) or a title; it must name exactly
/// one entry.
pub fn resolve_trash_entry(entries: &Vec<TrashEntry>, selector: &str) -> (r: Result<usize, SnipError>)
    ensures
        match trash_entry_result(entries@, selector@) {
            Ok(i) => r matches Ok(j) && j == i && j < entries@.len(),
            Err(e) => r matches Err(err) && err@ == e,
        },
{
    let lowered = to_lowercase(selector);
    let lower = chars_of(lowered.as_str());
    let compact_text = without_dashes(lowered.as_str());
    let compact = chars_of(compact_text.as_str());
    let target = chars_of(selector);
    let mut found: Vec<usize> = Vec::new();
    let mut i: usize = 0;
    while i < entries.len()
        invariant
            i <= entries@.len(),
            lower@ == unicode_lowercase(selector@),
            compact@ == unicode_lowercase(selector@).filter(|c: char| c != '-'),
            target@ == selector@,
            found@.len() == trash_matches_upto(entries@, selector@, i as int).len(),
            forall|j: int| 0 <= j < found@.len() ==> found@[j] == #[trigger] trash_matches_upto(
                entries@,
                selector@,
                i as int,
            )[j],
            forall|j: int| 0 <= j < found@.len() ==> found@[j] < i,
        decreases entries@.len() - i,
    {
        let entry = &entries[i];
        let id = chars_of(entry.entry_id.as_str());
        let simple = simple_uuid_text(entry.snippet_id);
        let digits = chars_of(simple.as_str());
        let title = chars_of(entry.title.as_str());
        if has_prefix(id.as_slice(), lower.as_slice()) || has_prefix(digits.as_slice(), compact.as_slice())
            || eq_chars(title.as_slice(), target.as_slice()) {
            found.push(i);
        }
        i = i + 1;
    }
    if found.len() == 1 {
        return Ok(found[0]);
    }
    let mut m = String::new();
    if found.len() == 0 {
        push_str(&mut m, "no trash entry matches ");
        push_str(&mut m, quoted(selector).as_str());
        assert(m@ =~= no_trash_match_message(selector@));
    } else {
        push_str(&mut m, "ambiguous trash selector ");
        push_str(&mut m, quoted(selector).as_str());
        push_str(&mut m, ": ");
        push_str(&mut m, decimal_string(found.len() as u64).as_str());
        push_str(&mut m, " matches");
        assert(m@ =~= ambiguous_trash_message(selector@, found@.len()));
    }
    Err(SnipError::not_found(m))
}

/// The plain names of a path's components, joined by `/`.
pub open spec fn slashed(parts: Seq<PathPartView>) -> Seq<char>
    decreases parts.len(),
{
    if parts.len() == 0 {
        Seq::empty()
    } else {
        let rest = slashed(parts.drop_last());
        match parts.last() {
            PathPartView::Normal(name) => if rest.len() == 0 && !has_name(parts.drop_last()) {
                name
            } else {
                rest + seq!['/'] + name
            },
            _ => rest,
        }
    }
}

/// Some component is a plain name.
pub open spec fn has_name(parts: Seq<PathPartView>) -> bool {
    exists|i: int| 0 <= i < parts.len() && #[trigger] parts[i] is Normal
}

/// A path written with `/` between its plain names, whatever the platform's
/// separator; roots, prefixes, `.` and `..` are left out.
pub fn path_to_slashes(path: &str) -> (r: String)
    ensures
        r@ == slashed(path_parts(path@)),
{
    let parts = components(path);
    join_names(&parts)
}

/// The plain names among a path's components, joined by `/`.
pub fn join_names(parts: &Vec<PathPart>) -> (r: String)
    ensures
        r@ == slashed(parts_view(parts@)),
{
    let ghost pv = parts_view(parts@);
    let mut out = String::new();
    let mut any = false;
    let mut i: usize = 0;
    assert(pv.subrange(0, 0) =~= Seq::<PathPartView>::empty());
    while i < parts.len()
        invariant
            i <= parts@.len(),
            pv == parts_view(parts@),
            out@ == slashed(pv.subrange(0, i as int)),
            any == has_name(pv.subrange(0, i as int)),
        decreases parts@.len() - i,
    {
        let ghost pre = pv.subrange(0, i + 1);
        assert(pre.drop_last() =~= pv.subrange(0, i as int));
        assert(pre.last() == pv[i as int]);
        assert(pv[i as int] == parts@[i as int]@);
        match &parts[i] {
            PathPart::Normal(name) => {
                if any {
                    push_char(&mut out, '/');
                }
                push_str(&mut out, name.as_str());
                proof {
                    if !has_name(pv.subrange(0, i as int)) {
                        assert(slashed(pv.subrange(0, i as int)).len() == 0) by {
                            lemma_slashed_empty(pv.subrange(0, i as int));
                        }
                    }
                    assert(has_name(pre)) by {
                        assert(pre[i as int] is Normal);
                    }
                }
                any = true;
            },
            _ => {
                proof {
                    assert(has_name(pre) == has_name(pv.subrange(0, i as int))) by {
                        if has_name(pre) {
                            let k = choose|k: int| 0 <= k < pre.len() && #[trigger] pre[k] is Normal;
                            assert(k < i);
                            assert(pv.subrange(0, i as int)[k] is Normal);
                        }
                        if has_name(pv.subrange(0, i as int)) {
                            let k = choose|k: int| 0 <= k < i && #[trigger] pv.subrange(0, i as int)[k] is Normal;
                            assert(pre[k] is Normal);
                        }
                    }
                }
            },
        }
        i = i + 1;
    }
    assert(pv.subrange(0, i as int) =~= pv);
    out
}

/// Without plain names, nothing is written.
proof fn lemma_slashed_empty(parts: Seq<PathPartView>)
    requires
        !has_name(parts),
    ensures
        slashed(parts).len() == 0,
    decreases parts.len(),
{
    if parts.len() > 0 {
        assert(!has_name(parts.drop_last())) by {
            if has_name(parts.drop_last()) {
                let k = choose|k: int| 0 <= k < parts.drop_last().len() && #[trigger] parts.drop_last()[k] is Normal;
                assert(parts[k] is Normal);
            }
        }
        lemma_slashed_empty(parts.drop_last());
        assert(!(parts[parts.len() - 1] is Normal));
    }
}

// ---------------------------------------------------------------------------
// Laws
// ---------------------------------------------------------------------------

/// A fragment named by a selector is one of the fragments.
proof fn lemma_fragment_index_in_range(ids: Seq<u128>, selector: Seq<char>)
    requires
        fragment_index_result(ids, Some(selector)) is Ok,
    ensures
        0 <= fragment_index_result(ids, Some(selector))->Ok_0 < ids.len(),
{
    lemma_matching_bounds(ids, compact_selector(selector), ids.len() as int);
    crate::text::lemma_parse_unsigned_nonneg(selector, 10, usize::MAX as int);
    let found = matching_upto(ids, compact_selector(selector), ids.len() as int);
    let r = fragment_index_result(ids, Some(selector));
    if parse_unsigned(selector, 10, usize::MAX as int) is None {
        assert(found.len() == 1);
        assert(0 <= found[0] < ids.len());
        assert(r == Ok::<int, (ErrorKind, Seq<char>)>(found[0]));
    } else {
        let index = parse_unsigned(selector, 10, usize::MAX as int)->0;
        assert(index != 0);
        assert(index <= ids.len());
        assert(r == Ok::<int, (ErrorKind, Seq<char>)>(index - 1));
    }
}

/// Moving a fragment keeps every fragment exactly once and puts the selected
/// one at the requested position.
pub proof fn law_reorder_keeps_every_fragment(ids: Seq<u128>, selector: Seq<char>, position: int)
    requires
        0 <= position,
        reorder_result(ids, selector, position) is Ok,
    ensures
        ({
            let order = reorder_result(ids, selector, position)->Ok_0;
            let i = fragment_index_result(ids, Some(selector))->Ok_0;
            &&& order.len() == ids.len()
            &&& order.to_multiset() =~= ids.to_multiset()
            &&& order[position - 1] == ids[i]
        }),
{
    broadcast use vstd::seq_lib::group_to_multiset_ensures;

    let i = fragment_index_result(ids, Some(selector))->Ok_0;
    lemma_fragment_index_in_range(ids, selector);
    assert(0 <= i < ids.len());
    let removed = ids.remove(i);
    ids.remove_ensures(i);
    let p = position - 1;
    let pre = removed.subrange(0, p);
    let post = removed.subrange(p, removed.len() as int);
    assert(removed =~= pre + post);
    assert(removed.insert(p, ids[i]) =~= pre.push(ids[i]) + post);
    vstd::seq_lib::lemma_multiset_commutative(pre.push(ids[i]), post);
    vstd::seq_lib::lemma_multiset_commutative(pre, post);
    assert(removed.insert(p, ids[i])[p] == ids[i]);
}

/// After a rename, the only tags of a renamed snippet that still equal the
/// old name (ignoring ASCII case) are copies of the new one.
pub proof fn law_rename_leaves_no_old_tag(tags: Seq<Seq<char>>, old: Seq<char>, replacement: Seq<char>)
    ensures
        forall|i: int|
            0 <= i < renamed_tags(tags, old, replacement).len() && eq_ignore_case(
                #[trigger] renamed_tags(tags, old, replacement)[i],
                old,
            ) ==> renamed_tags(tags, old, replacement)[i] == replacement,
        renamed_tags(tags, old, replacement).len() == tags.len(),
{
}

/// After a deletion, no tag equal to the deleted one (ignoring ASCII case)
/// is left, and every other tag stays.
pub proof fn law_delete_leaves_no_match(tags: Seq<Seq<char>>, tag: Seq<char>)
    ensures
        !has_tag(without_tag(tags, tag), tag),
        forall|i: int| 0 <= i < tags.len() && !eq_ignore_case(#[trigger] tags[i], tag) ==> without_tag(tags, tag).contains(tags[i]),
{
    let keep = |t: Seq<char>| !eq_ignore_case(t, tag);
    broadcast use vstd::seq_lib::group_filter_ensures;

    assert forall|i: int| 0 <= i < without_tag(tags, tag).len() implies !eq_ignore_case(
        #[trigger] without_tag(tags, tag)[i],
        tag,
    ) by {
        tags.lemma_filter_pred(keep, i);
    }
    assert forall|i: int| 0 <= i < tags.len() && !eq_ignore_case(#[trigger] tags[i], tag) implies without_tag(
        tags,
        tag,
    ).contains(tags[i]) by {
        tags.lemma_filter_contains(keep, i);
    }
}

/// After a rename, no two registry names lowercase alike.
pub proof fn law_registry_names_stay_distinct(names: Seq<Seq<char>>)
    ensures
        forall|i: int, j: int|
            0 <= i < j < first_of_each_case(names).len() ==> unicode_lowercase(
                #[trigger] first_of_each_case(names)[i],
            ) != unicode_lowercase(#[trigger] first_of_each_case(names)[j]),
        forall|i: int|
            0 <= i < first_of_each_case(names).len() ==> names.contains(#[trigger] first_of_each_case(names)[i]),
    decreases names.len(),
{
    if names.len() > 0 {
        let prefix = names.drop_last();
        law_registry_names_stay_distinct(prefix);
        let rest = first_of_each_case(prefix);
        assert forall|i: int| 0 <= i < rest.len() implies names.contains(#[trigger] rest[i]) by {
            let k = choose|k: int| 0 <= k < prefix.len() && prefix[k] == rest[i];
            assert(names[k] == rest[i]);
        }
        if !(exists|j: int| 0 <= j < names.len() - 1 && #[trigger] unicode_lowercase(names[j]) == unicode_lowercase(
            names.last(),
        )) {
            let out = rest.push(names.last());
            assert forall|i: int| 0 <= i < rest.len() implies unicode_lowercase(#[trigger] out[i])
                != unicode_lowercase(names.last()) by {
                let k = choose|k: int| 0 <= k < prefix.len() && prefix[k] == rest[i];
                assert(names[k] == rest[i]);
            }
            assert(out.last() == names.last());
        }
    }
}

} // verus!
