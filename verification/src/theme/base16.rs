//! base16 schemes: the flat YAML subset they are written in, and their
//! conversion into themes.
use vstd::prelude::*;

use crate::error::{invalid, result_view, ErrorKind, SnipError};
use vstd::slice::slice_subrange;

use crate::text::{
    chars_of, decimal, decimal_string, eq_chars, eq_lit, is_whitespace, is_whitespace_char, lower_seq, push_str,
    skip_whitespace, string_of, string_of_range, to_lower, trim, trim_end, trim_end_index, trim_start,
};
use crate::theme::color::{color_parse_panics, parse_color, ThemeColor};
use crate::theme::contrast::{
    contrast, contrast_of, ensure_contrast, ensure_contrast_result, fixed2, fixed2_string,
    hundredths_of, is_dark_luminance, law_ensure_contrast_clears_the_floor, lemma_luminance_bounded, luminance,
    luminance_of, ratio_at_least, reaches_floor, LUMINANCE_UNIT,
};
use crate::theme::syntax::{is_embedded_name, unknown_syntax_message, validate_embedded_name};
use crate::theme::{
    invalid_name_message, named_colors_view, valid_theme_name, validate_theme_name, Appearance,
    Palette, Syntax, SyntaxDerive, SyntaxView, Theme, ThemeUi, ThemeView, THEME_SCHEMA_VERSION,
};

verus! {

// ---------------------------------------------------------------------------
// Specification
// ---------------------------------------------------------------------------

/// The uppercase hexadecimal digit for `d` (0 through 15).
pub open spec fn upper_hex_char(d: int) -> char {
    if d < 10 {
        ((d + 48) as u32) as char
    } else {
        ((d + 55) as u32) as char
    }
}

/// The name of palette slot `i`: `base00` through `base0F`.
pub open spec fn slot_name(i: int) -> Seq<char> {
    seq!['b', 'a', 's', 'e', '0', upper_hex_char(i)]
}

/// The palette slot that `key` names, if any (the names are case-sensitive).
pub open spec fn slot_of(key: Seq<char>) -> Option<int> {
    if key.len() == 6 && key.subrange(0, 5) == seq!['b', 'a', 's', 'e', '0'] {
        let c = key[5];
        if '0' <= c && c <= '9' {
            Some((c as u32) - 48)
        } else if 'A' <= c && c <= 'F' {
            Some((c as u32) - 55)
        } else {
            None
        }
    } else {
        None
    }
}

/// `value` with one pair of matching quotes removed; a quoted value followed
/// by a comment keeps just the quoted part.
pub open spec fn unquote_spec(value: Seq<char>) -> Seq<char> {
    if value.len() >= 2 && (value[0] == '\'' || value[0] == '"') {
        if value.last() == value[0] {
            value.subrange(1, value.len() - 1)
        } else {
            match first_index_from(value, value[0], 1) {
                Some(end) => value.subrange(1, end),
                None => value,
            }
        }
    } else {
        value
    }
}

/// The first index at or after `from` where `s` holds `c`.
pub open spec fn first_index_from(s: Seq<char>, c: char, from: int) -> Option<int>
    decreases s.len() - from,
{
    if from < 0 || from >= s.len() {
        None
    } else if s[from] == c {
        Some(from)
    } else {
        first_index_from(s, c, from + 1)
    }
}

/// A found index lies in the searched range and holds the character.
pub proof fn lemma_first_index_range(s: Seq<char>, c: char, from: int)
    ensures
        first_index_from(s, c, from) matches Some(i) ==> from <= i < s.len() && s[i] == c,
    decreases s.len() - from,
{
    if 0 <= from < s.len() && s[from] != c {
        lemma_first_index_range(s, c, from + 1);
    }
}

/// The number of white-space characters that start `s`.
pub open spec fn leading_ws(s: Seq<char>) -> nat
    decreases s.len(),
{
    if s.len() > 0 && is_whitespace(s[0]) {
        1 + leading_ws(s.drop_first())
    } else {
        0
    }
}

/// `s` without one trailing carriage return.
pub open spec fn strip_cr(s: Seq<char>) -> Seq<char> {
    if s.len() > 0 && s.last() == '\r' {
        s.drop_last()
    } else {
        s
    }
}

/// What the scheme parser has collected so far.
pub struct SchemeScan {
    pub name: Option<Seq<char>>,
    pub variant: Option<Appearance>,
    pub palette: Seq<Option<ThemeColor>>,
    pub top_keys: Seq<Seq<char>>,
    pub palette_keys: Seq<Seq<char>>,
    pub palette_open: bool,
    pub saw_palette: bool,
}

/// The outcome of reading one line, or the rest of the text.
pub enum ScanStep {
    Next(SchemeScan),
    Fail(Seq<char>),
    Panic,
}

/// The state before the first line.
pub open spec fn scan_start() -> SchemeScan {
    SchemeScan {
        name: None,
        variant: None,
        palette: Seq::new(16, |i: int| None),
        top_keys: Seq::empty(),
        palette_keys: Seq::empty(),
        palette_open: false,
        saw_palette: false,
    }
}

/// The message for a tab in the indentation of line `n`.
pub open spec fn tab_message(n: nat) -> Seq<char> {
    "scheme: tab indentation is not supported on line "@ + decimal(n)
}

/// The message for line `n` that holds no `key: value`.
pub open spec fn cannot_parse_message(n: nat, line: Seq<char>) -> Seq<char> {
    "scheme: cannot parse line "@ + decimal(n) + ": "@ + line
}

/// The message for `key` seen twice, the second time on line `n`.
pub open spec fn duplicate_message(key: Seq<char>, n: nat) -> Seq<char> {
    "scheme: duplicate key "@ + key + " on line "@ + decimal(n)
}

/// The message for a palette slot that does not hold `#rrggbb`.
pub open spec fn palette_literal_message(key: Seq<char>) -> Seq<char> {
    "scheme: palette "@ + key + " must be a #rrggbb literal"@
}

/// The message for an unknown variant.
pub open spec fn variant_message(value: Seq<char>) -> Seq<char> {
    "scheme: invalid variant "@ + value
}

/// The message for a missing palette slot.
pub open spec fn missing_slot_message(key: Seq<char>) -> Seq<char> {
    "scheme: missing palette key "@ + key
}

/// A palette line whose key has been read.
pub open spec fn scan_palette_entry(
    st: SchemeScan,
    n: nat,
    key: Seq<char>,
    value: Seq<char>,
) -> ScanStep {
    if st.palette_keys.contains(key) {
        ScanStep::Fail(duplicate_message(key, n))
    } else {
        let st2 = SchemeScan { palette_keys: st.palette_keys.push(key), ..st };
        match slot_of(key) {
            None => ScanStep::Next(st2),
            Some(i) => if color_parse_panics(value) {
                ScanStep::Panic
            } else {
                match parse_color(value, key) {
                    Ok(ThemeColor::Rgb(r, g, b)) => ScanStep::Next(
                        SchemeScan {
                            palette: st2.palette.update(i, Some(ThemeColor::Rgb(r, g, b))),
                            ..st2
                        },
                    ),
                    _ => ScanStep::Fail(palette_literal_message(key)),
                }
            },
        }
    }
}

/// A top-level line whose key has been read.
pub open spec fn scan_top_entry(
    st: SchemeScan,
    n: nat,
    line: Seq<char>,
    key: Seq<char>,
    value: Seq<char>,
) -> ScanStep {
    if st.top_keys.contains(key) {
        ScanStep::Fail(duplicate_message(key, n))
    } else {
        let st2 = SchemeScan { top_keys: st.top_keys.push(key), ..st };
        if key == "name"@ {
            ScanStep::Next(SchemeScan { name: Some(value), ..st2 })
        } else if key == "variant"@ {
            let l = lower_seq(value);
            if l == "dark"@ {
                ScanStep::Next(SchemeScan { variant: Some(Appearance::Dark), ..st2 })
            } else if l == "light"@ {
                ScanStep::Next(SchemeScan { variant: Some(Appearance::Light), ..st2 })
            } else {
                ScanStep::Fail(variant_message(value))
            }
        } else if key == "palette"@ {
            if value.len() > 0 {
                ScanStep::Fail(cannot_parse_message(n, line))
            } else {
                ScanStep::Next(SchemeScan { palette_open: true, saw_palette: true, ..st2 })
            }
        } else {
            ScanStep::Next(st2)
        }
    }
}

/// A line's `key: value` part, once the line is known to be read.
pub open spec fn scan_entry(st: SchemeScan, n: nat, line: Seq<char>, ws: nat) -> ScanStep {
    let body = line.skip(ws as int);
    match first_index_from(body, ':', 0) {
        None => ScanStep::Fail(cannot_parse_message(n, line)),
        Some(c) => {
            let key = trim(body.take(c));
            let value = unquote_spec(trim(body.skip(c + 1)));
            if ws > 0 {
                scan_palette_entry(st, n, key, value)
            } else {
                scan_top_entry(st, n, line, key, value)
            }
        },
    }
}

/// A line that is neither blank nor a comment.
pub open spec fn scan_content(st: SchemeScan, n: nat, line: Seq<char>, trimmed: Seq<char>) -> ScanStep {
    let ws = leading_ws(line);
    if line.take(ws as int).contains('\t') {
        ScanStep::Fail(tab_message(n))
    } else if ws == 0 && trimmed == "---"@ {
        ScanStep::Next(SchemeScan { palette_open: false, ..st })
    } else if ws == 0 {
        scan_entry(SchemeScan { palette_open: false, ..st }, n, line, ws)
    } else if !st.palette_open {
        ScanStep::Next(st)
    } else {
        scan_entry(st, n, line, ws)
    }
}

/// Reading line `n` (counted from one) of a scheme.
pub open spec fn scan_line(st: SchemeScan, n: nat, raw: Seq<char>) -> ScanStep {
    let line = strip_cr(raw);
    let trimmed = trim(line);
    if trimmed.len() == 0 || trimmed[0] == '#' {
        ScanStep::Next(st)
    } else {
        scan_content(st, n, line, trimmed)
    }
}

/// Reading the rest of a scheme, whose first line is line `n`.
pub open spec fn scan_from(st: SchemeScan, text: Seq<char>, n: nat) -> ScanStep
    decreases text.len(),
{
    let end = match first_index_from(text, '\n', 0) {
        Some(p) => p,
        None => text.len() as int,
    };
    match scan_line(st, n, text.take(end)) {
        ScanStep::Next(next) => if end >= text.len() {
            ScanStep::Next(next)
        } else {
            proof {
                lemma_first_index_range(text, '\n', 0);
            }
            scan_from(next, text.skip(end + 1), n + 1)
        },
        other => other,
    }
}

/// The first palette slot at or after `i` that no line filled.
pub open spec fn first_missing_slot(palette: Seq<Option<ThemeColor>>, i: int) -> Option<int>
    decreases 16 - i,
{
    if i < 0 || i >= 16 {
        None
    } else if palette[i] is None {
        Some(i)
    } else {
        first_missing_slot(palette, i + 1)
    }
}

/// A scheme, as a spec value.
pub struct SchemeView {
    pub name: Seq<char>,
    pub variant: Option<Appearance>,
    pub palette: Seq<(Seq<char>, ThemeColor)>,
}

/// The checks made once every line has been read.
pub open spec fn scan_finish(st: SchemeScan) -> Result<SchemeView, (ErrorKind, Seq<char>)> {
    if st.name is None || st.name->0.len() == 0 {
        invalid("scheme: missing name"@)
    } else if !st.saw_palette {
        invalid("scheme: missing palette key base00"@)
    } else {
        match first_missing_slot(st.palette, 0) {
            Some(i) => invalid(missing_slot_message(slot_name(i))),
            None => Ok(
                SchemeView {
                    name: st.name->0,
                    variant: st.variant,
                    palette: Seq::new(16, |i: int| (slot_name(i), st.palette[i]->0)),
                },
            ),
        }
    }
}

/// Parsing `text` reaches a palette value whose hex digits would be sliced
/// inside a character, where the colour parser panics.
pub open spec fn scheme_parse_panics(text: Seq<char>) -> bool {
    scan_from(scan_start(), text, 1) is Panic
}

/// What `parse_scheme(text)` gives.
pub open spec fn parse_scheme_result(text: Seq<char>) -> Result<SchemeView, (ErrorKind, Seq<char>)> {
    match scan_from(scan_start(), text, 1) {
        ScanStep::Next(st) => scan_finish(st),
        ScanStep::Fail(m) => invalid(m),
        ScanStep::Panic => invalid(Seq::empty()),
    }
}

/// A parsed base16 scheme: its name, its variant if given, and the sixteen
/// palette slots in order.
#[derive(Clone, Debug, PartialEq, Eq)]
pub struct Scheme {
    pub name: String,
    pub variant: Option<Appearance>,
    pub palette: Vec<(String, ThemeColor)>,
}

impl View for Scheme {
    type V = SchemeView;

    open spec fn view(&self) -> SchemeView {
        SchemeView {
            name: self.name@,
            variant: self.variant,
            palette: named_colors_view(self.palette@),
        }
    }
}

// ---------------------------------------------------------------------------
// Implementation
// ---------------------------------------------------------------------------

/// The scanner's state, as executable values.
struct ScanState {
    name: Option<Vec<char>>,
    variant: Option<Appearance>,
    palette: Vec<Option<ThemeColor>>,
    top_keys: Vec<Vec<char>>,
    palette_keys: Vec<Vec<char>>,
    palette_open: bool,
    saw_palette: bool,
}

/// The character sequences in a list.
pub open spec fn keys_view(keys: Seq<Vec<char>>) -> Seq<Seq<char>> {
    keys.map_values(|k: Vec<char>| k@)
}

impl ScanState {
    closed spec fn view(&self) -> SchemeScan {
        SchemeScan {
            name: match self.name {
                Some(v) => Some(v@),
                None => None,
            },
            variant: self.variant,
            palette: self.palette@,
            top_keys: keys_view(self.top_keys@),
            palette_keys: keys_view(self.palette_keys@),
            palette_open: self.palette_open,
            saw_palette: self.saw_palette,
        }
    }
}

/// The slot that `key` names.
fn slot_index(key: &[char]) -> (r: Option<usize>)
    ensures
        match slot_of(key@) {
            Some(i) => r == Some(i as usize) && 0 <= i < 16,
            None => r is None,
        },
{
    if key.len() != 6 || key[0] != 'b' || key[1] != 'a' || key[2] != 's' || key[3] != 'e' || key[4]
        != '0' {
        proof {
            if key@.len() == 6 && key@.subrange(0, 5) == seq!['b', 'a', 's', 'e', '0'] {
                assert(key@[0] == key@.subrange(0, 5)[0]);
                assert(key@[1] == key@.subrange(0, 5)[1]);
                assert(key@[2] == key@.subrange(0, 5)[2]);
                assert(key@[3] == key@.subrange(0, 5)[3]);
                assert(key@[4] == key@.subrange(0, 5)[4]);
            }
        }
        return None;
    }
    assert(key@.subrange(0, 5) =~= seq!['b', 'a', 's', 'e', '0']);
    let c = key[5];
    if '0' <= c && c <= '9' {
        Some(((c as u32) - 48) as usize)
    } else if 'A' <= c && c <= 'F' {
        Some(((c as u32) - 55) as usize)
    } else {
        None
    }
}

/// The first index of `c` in `v[from..to]`, as an index into `v`.
fn find_char(v: &[char], c: char, from: usize, to: usize) -> (r: Option<usize>)
    requires
        from <= to <= v@.len(),
    ensures
        match first_index_from(v@.subrange(from as int, to as int), c, 0) {
            Some(i) => r == Some((from + i) as usize) && 0 <= i < to - from,
            None => r is None,
        },
        r matches Some(k) ==> from <= k < to && v@[k as int] == c,
{
    let ghost s = v@.subrange(from as int, to as int);
    proof {
        lemma_first_index_range(s, c, 0);
    }
    let mut i = from;
    while i < to
        invariant
            from <= i <= to <= v@.len(),
            s == v@.subrange(from as int, to as int),
            first_index_from(s, c, 0) == first_index_from(s, c, i - from),
        decreases to - i,
    {
        if v[i] == c {
            return Some(i);
        }
        i = i + 1;
    }
    None
}

/// `unquote` on `v[from..to]`, as a range of `v`.
fn unquote_range(v: &[char], from: usize, to: usize) -> (r: (usize, usize))
    requires
        from <= to <= v@.len(),
    ensures
        from <= r.0 <= r.1 <= to,
        v@.subrange(r.0 as int, r.1 as int) == unquote_spec(v@.subrange(from as int, to as int)),
{
    let ghost s = v@.subrange(from as int, to as int);
    if to - from >= 2 && (v[from] == '\'' || v[from] == '"') {
        let q = v[from];
        if v[to - 1] == q {
            assert(v@.subrange(from + 1, to - 1) =~= s.subrange(1, s.len() - 1));
            return (from + 1, to - 1);
        }
        assert(s.skip(1) =~= v@.subrange(from + 1, to as int));
        assert(s[0] == q && s.last() != q);
        match find_char(v, q, from + 1, to) {
            Some(end) => {
                proof {
                    lemma_first_index_shift(s, q, 1);
                }
                assert(v@.subrange(from + 1, end as int) =~= s.subrange(1, end - from));
                assert(first_index_from(s, s[0], 1) == Some(end - from));
                assert(v@.subrange(from + 1, end as int) == unquote_spec(s));
                (from + 1, end)
            },
            None => {
                proof {
                    lemma_first_index_shift(s, q, 1);
                }
                assert(v@.subrange(from as int, to as int) == unquote_spec(s));
                (from, to)
            },
        }
    } else {
        assert(s.len() >= 1 ==> s[0] == v@[from as int]);
        assert(v@.subrange(from as int, to as int) == unquote_spec(s));
        (from, to)
    }
}

/// Searching from `k` in `s` finds what searching the suffix from zero finds,
/// shifted by `k`.
proof fn lemma_first_index_shift(s: Seq<char>, c: char, k: int)
    requires
        0 <= k <= s.len(),
    ensures
        first_index_from(s, c, k) == (match first_index_from(s.skip(k), c, 0) {
            Some(i) => Some(i + k),
            None => None::<int>,
        }),
    decreases s.len() - k,
{
    lemma_first_index_offset(s, c, k, 0);
}

proof fn lemma_first_index_offset(s: Seq<char>, c: char, k: int, j: int)
    requires
        0 <= k <= s.len(),
        0 <= j <= s.len() - k,
    ensures
        first_index_from(s, c, k + j) == (match first_index_from(s.skip(k), c, j) {
            Some(i) => Some(i + k),
            None => None::<int>,
        }),
    decreases s.len() - k - j,
{
    if j < s.len() - k {
        lemma_first_index_offset(s, c, k, j + 1);
    }
}

/// Leading white space, counted, is what `trim_start` drops.
pub proof fn lemma_leading_ws(s: Seq<char>)
    ensures
        leading_ws(s) <= s.len(),
        s.skip(leading_ws(s) as int) == trim_start(s),
    decreases s.len(),
{
    if s.len() > 0 && is_whitespace(s[0]) {
        lemma_leading_ws(s.drop_first());
        assert(s.skip(leading_ws(s) as int) =~= s.drop_first().skip(leading_ws(s.drop_first()) as int));
    } else {
        assert(s.skip(0) =~= s);
    }
}

/// A copy of `v[from..to]`.
fn copy_range(v: &[char], from: usize, to: usize) -> (r: Vec<char>)
    requires
        from <= to <= v@.len(),
    ensures
        r@ == v@.subrange(from as int, to as int),
{
    let mut r: Vec<char> = Vec::new();
    let mut i = from;
    while i < to
        invariant
            from <= i <= to <= v@.len(),
            r@ == v@.subrange(from as int, i as int),
        decreases to - i,
    {
        r.push(v[i]);
        i = i + 1;
        assert(r@ =~= v@.subrange(from as int, i as int));
    }
    r
}

/// Whether `keys` holds `key`.
fn contains_key(keys: &Vec<Vec<char>>, key: &[char]) -> (r: bool)
    ensures
        r == keys_view(keys@).contains(key@),
{
    let mut i: usize = 0;
    while i < keys.len()
        invariant
            i <= keys@.len(),
            forall|j: int| 0 <= j < i ==> keys@[j]@ != key@,
        decreases keys@.len() - i,
    {
        if eq_chars(keys[i].as_slice(), key) {
            assert(keys_view(keys@)[i as int] == key@);
            return true;
        }
        i = i + 1;
    }
    assert(!keys_view(keys@).contains(key@)) by {
        if keys_view(keys@).contains(key@) {
            let j = choose|j: int| 0 <= j < keys_view(keys@).len() && keys_view(keys@)[j] == key@;
            assert(keys@[j]@ == key@);
        }
    }
    false
}

/// Appends `key` to a key list.
fn push_key(keys: &mut Vec<Vec<char>>, key: Vec<char>)
    ensures
        keys_view(final(keys)@) == keys_view(old(keys)@).push(key@),
{
    keys.push(key);
    assert(keys_view(keys@) =~= keys_view(old(keys)@).push(key@));
}

/// The error for a duplicate key.
fn duplicate_error(key: &[char], n: usize) -> (e: SnipError)
    ensures
        e@ == (ErrorKind::Validation, duplicate_message(key@, n as nat)),
{
    let mut m = String::new();
    push_str(&mut m, "scheme: duplicate key ");
    push_str(&mut m, string_of(key).as_str());
    push_str(&mut m, " on line ");
    push_str(&mut m, decimal_string(n as u64).as_str());
    assert(m@ =~= duplicate_message(key@, n as nat));
    SnipError::validation(m)
}

/// The error for a line that holds no `key: value`.
fn cannot_parse_error(n: usize, line: &[char]) -> (e: SnipError)
    ensures
        e@ == (ErrorKind::Validation, cannot_parse_message(n as nat, line@)),
{
    let mut m = String::new();
    push_str(&mut m, "scheme: cannot parse line ");
    push_str(&mut m, decimal_string(n as u64).as_str());
    push_str(&mut m, ": ");
    push_str(&mut m, string_of(line).as_str());
    assert(m@ =~= cannot_parse_message(n as nat, line@));
    SnipError::validation(m)
}

/// Reads one palette line whose key and value have been found.
fn scan_palette_line(st: &mut ScanState, n: usize, key: Vec<char>, value: &[char]) -> (r: Result<
    (),
    SnipError,
>)
    requires
        old(st).palette@.len() == 16,
        !(scan_palette_entry(old(st).view(), n as nat, key@, value@) is Panic),
    ensures
        final(st).palette@.len() == 16,
        match scan_palette_entry(old(st).view(), n as nat, key@, value@) {
            ScanStep::Next(next) => r is Ok && final(st).view() == next,
            ScanStep::Fail(m) => r is Err && r->Err_0@ == (ErrorKind::Validation, m),
            ScanStep::Panic => false,
        },
{
    if contains_key(&st.palette_keys, key.as_slice()) {
        return Err(duplicate_error(key.as_slice(), n));
    }
    let slot = slot_index(key.as_slice());
    let key_text = string_of(key.as_slice());
    let value_text = string_of(value);
    push_key(&mut st.palette_keys, key);
    match slot {
        None => Ok(()),
        Some(i) => {
            match ThemeColor::parse(value_text.as_str(), key_text.as_str()) {
                Ok(ThemeColor::Rgb(red, green, blue)) => {
                    st.palette.set(i, Some(ThemeColor::Rgb(red, green, blue)));
                    Ok(())
                },
                _ => {
                    let mut m = String::new();
                    push_str(&mut m, "scheme: palette ");
                    push_str(&mut m, key_text.as_str());
                    push_str(&mut m, " must be a #rrggbb literal");
                    assert(m@ =~= palette_literal_message(key_text@));
                    Err(SnipError::validation(m))
                },
            }
        },
    }
}

/// Reads one top-level line whose key and value have been found.
fn scan_top_line(
    st: &mut ScanState,
    n: usize,
    line: &[char],
    key: Vec<char>,
    value: Vec<char>,
) -> (r: Result<(), SnipError>)
    requires
        old(st).palette@.len() == 16,
    ensures
        final(st).palette@.len() == 16,
        match scan_top_entry(old(st).view(), n as nat, line@, key@, value@) {
            ScanStep::Next(next) => r is Ok && final(st).view() == next,
            ScanStep::Fail(m) => r is Err && r->Err_0@ == (ErrorKind::Validation, m),
            ScanStep::Panic => false,
        },
{
    if contains_key(&st.top_keys, key.as_slice()) {
        return Err(duplicate_error(key.as_slice(), n));
    }
    let is_name = eq_lit(key.as_slice(), "name");
    let is_variant = eq_lit(key.as_slice(), "variant");
    let is_palette = eq_lit(key.as_slice(), "palette");
    push_key(&mut st.top_keys, key);
    if is_name {
        st.name = Some(value);
        Ok(())
    } else if is_variant {
        let l = to_lower(value.as_slice());
        if eq_lit(l.as_slice(), "dark") {
            st.variant = Some(Appearance::Dark);
            Ok(())
        } else if eq_lit(l.as_slice(), "light") {
            st.variant = Some(Appearance::Light);
            Ok(())
        } else {
            let mut m = String::new();
            push_str(&mut m, "scheme: invalid variant ");
            push_str(&mut m, string_of(value.as_slice()).as_str());
            assert(m@ =~= variant_message(value@));
            Err(SnipError::validation(m))
        }
    } else if is_palette {
        if value.len() > 0 {
            Err(cannot_parse_error(n, line))
        } else {
            st.palette_open = true;
            st.saw_palette = true;
            Ok(())
        }
    } else {
        Ok(())
    }
}

/// Whether `v[from..to]` holds a tab.
fn has_tab(v: &[char], from: usize, to: usize) -> (r: bool)
    requires
        from <= to <= v@.len(),
    ensures
        r == v@.subrange(from as int, to as int).contains('\t'),
{
    let mut i = from;
    while i < to
        invariant
            from <= i <= to <= v@.len(),
            forall|j: int| from <= j < i ==> v@[j] != '\t',
        decreases to - i,
    {
        if v[i] == '\t' {
            assert(v@.subrange(from as int, to as int)[i - from] == '\t');
            return true;
        }
        i = i + 1;
    }
    assert(!v@.subrange(from as int, to as int).contains('\t')) by {
        if v@.subrange(from as int, to as int).contains('\t') {
            let j = choose|j: int|
                0 <= j < to - from && v@.subrange(from as int, to as int)[j] == '\t';
            assert(v@[from + j] == '\t');
        }
    }
    false
}

/// Reads the `key: value` part of a line `v[from..end]` whose content
/// starts at `ts`.
fn scan_entry_exec(
    st: &mut ScanState,
    v: &[char],
    from: usize,
    ts: usize,
    end: usize,
    n: usize,
) -> (r: Result<(), SnipError>)
    requires
        from <= ts <= end <= v@.len(),
        old(st).palette@.len() == 16,
        leading_ws(v@.subrange(from as int, end as int)) == ts - from,
        !(scan_entry(old(st).view(), n as nat, v@.subrange(from as int, end as int), (ts - from) as nat) is Panic),
    ensures
        final(st).palette@.len() == 16,
        match scan_entry(old(st).view(), n as nat, v@.subrange(from as int, end as int), (ts - from) as nat) {
            ScanStep::Next(next) => r is Ok && final(st).view() == next,
            ScanStep::Fail(m) => r is Err && r->Err_0@ == (ErrorKind::Validation, m),
            ScanStep::Panic => false,
        },
{
    let ghost line = v@.subrange(from as int, end as int);
    let ghost body = line.skip(ts - from);
    assert(body =~= v@.subrange(ts as int, end as int));
    let colon = match find_char(v, ':', ts, end) {
        Some(c) => c,
        None => {
            return Err(cannot_parse_error(n, slice_subrange(v, from, end)));
        },
    };
    let ks = skip_whitespace(v, ts, colon);
    let ke = trim_end_index(v, ks, colon);
    assert(body.take(colon - ts) =~= v@.subrange(ts as int, colon as int));
    let vs = skip_whitespace(v, colon + 1, end);
    let ve = trim_end_index(v, vs, end);
    assert(body.skip(colon - ts + 1) =~= v@.subrange(colon + 1, end as int));
    let (us, ue) = unquote_range(v, vs, ve);
    let key = copy_range(v, ks, ke);
    let value = copy_range(v, us, ue);
    if ts > from {
        scan_palette_line(st, n, key, value.as_slice())
    } else {
        scan_top_line(st, n, slice_subrange(v, from, end), key, value)
    }
}

/// Reads line `n`, the characters `v[from..to]`.
fn scan_one_line(st: &mut ScanState, v: &[char], from: usize, to: usize, n: usize) -> (r: Result<
    (),
    SnipError,
>)
    requires
        from <= to <= v@.len(),
        old(st).palette@.len() == 16,
        !(scan_line(old(st).view(), n as nat, v@.subrange(from as int, to as int)) is Panic),
    ensures
        final(st).palette@.len() == 16,
        match scan_line(old(st).view(), n as nat, v@.subrange(from as int, to as int)) {
            ScanStep::Next(next) => r is Ok && final(st).view() == next,
            ScanStep::Fail(m) => r is Err && r->Err_0@ == (ErrorKind::Validation, m),
            ScanStep::Panic => false,
        },
{
    let ghost raw = v@.subrange(from as int, to as int);
    let mut end = to;
    if end > from && v[end - 1] == '\r' {
        end = end - 1;
    }
    let ghost line = v@.subrange(from as int, end as int);
    assert(line =~= strip_cr(raw));
    let ts = skip_whitespace(v, from, end);
    let te = trim_end_index(v, ts, end);
    assert(v@.subrange(ts as int, te as int) == trim(line));
    if ts == te || v[ts] == '#' {
        return Ok(());
    }
    let ghost trimmed = trim(line);
    assert(scan_line(st.view(), n as nat, raw) == scan_content(st.view(), n as nat, line, trimmed));
    proof {
        lemma_leading_ws(line);
        assert(line.skip(leading_ws(line) as int).len() == end - ts);
    }
    assert(leading_ws(line) == ts - from);
    assert(line.take(ts - from) =~= v@.subrange(from as int, ts as int));
    if has_tab(v, from, ts) {
        let mut m = String::new();
        push_str(&mut m, "scheme: tab indentation is not supported on line ");
        push_str(&mut m, decimal_string(n as u64).as_str());
        assert(m@ =~= tab_message(n as nat));
        return Err(SnipError::validation(m));
    }
    if ts == from {
        if eq_lit(slice_subrange(v, ts, te), "---") {
            st.palette_open = false;
            return Ok(());
        }
        st.palette_open = false;
        scan_entry_exec(st, v, from, ts, end, n)
    } else if !st.palette_open {
        Ok(())
    } else {
        scan_entry_exec(st, v, from, ts, end, n)
    }
}

/// The name of palette slot `i`.
pub(crate) fn slot_name_string(i: usize) -> (s: String)
    requires
        i < 16,
    ensures
        s@ == slot_name(i as int),
{
    let mut s = String::new();
    push_str(&mut s, "base0");
    let d: u8 = i as u8;
    let c: char = if d < 10 {
        (d + 48) as char
    } else {
        (d + 55) as char
    };
    crate::text::push_char(&mut s, c);
    proof {
        reveal_strlit("base0");
    }
    assert(s@ =~= slot_name(i as int));
    s
}

/// The checks once every line has been read.
fn finish_scan(st: &ScanState) -> (r: Result<Scheme, SnipError>)
    requires
        st.palette@.len() == 16,
    ensures
        match scan_finish(st.view()) {
            Ok(view) => r is Ok && r->Ok_0@ == view,
            Err(e) => r is Err && r->Err_0@ == e,
        },
{
    let ghost sv = st.view();
    let name = match &st.name {
        Some(name) => name,
        None => {
            return Err(SnipError::validation_lit("scheme: missing name"));
        },
    };
    if name.len() == 0 {
        return Err(SnipError::validation_lit("scheme: missing name"));
    }
    if !st.saw_palette {
        return Err(SnipError::validation_lit("scheme: missing palette key base00"));
    }
    let mut palette: Vec<(String, ThemeColor)> = Vec::new();
    let mut i: usize = 0;
    while i < 16
        invariant
            st.palette@.len() == 16,
            sv == st.view(),
            sv.name is Some && sv.name->0.len() > 0 && sv.saw_palette && sv.palette == st.palette@,
            i <= 16,
            first_missing_slot(st.palette@, 0) == first_missing_slot(st.palette@, i as int),
            palette@.len() == i,
            forall|j: int| 0 <= j < i ==> st.palette@[j] is Some,
            forall|j: int|
                0 <= j < i ==> (#[trigger] palette@[j]).0@ == slot_name(j) && palette@[j].1
                    == st.palette@[j]->0,
        decreases 16 - i,
    {
        match st.palette[i] {
            Some(color) => {
                palette.push((slot_name_string(i), color));
            },
            None => {
                assert(first_missing_slot(st.palette@, i as int) == Some(i as int));
                let mut m = String::new();
                push_str(&mut m, "scheme: missing palette key ");
                push_str(&mut m, slot_name_string(i).as_str());
                assert(m@ =~= missing_slot_message(slot_name(i as int)));
                assert(scan_finish(sv) == invalid::<SchemeView>(missing_slot_message(slot_name(i as int))));
                return Err(SnipError::validation(m));
            },
        }
        i = i + 1;
    }
    let scheme = Scheme { name: string_of(name.as_slice()), variant: st.variant, palette };
    assert(scheme@.palette =~= Seq::new(16, |j: int| (slot_name(j), st.palette@[j]->0)));
    Ok(scheme)
}

/// A scheme parse result, its scheme viewed as a spec value.
pub open spec fn scheme_result_view(r: Result<Scheme, SnipError>) -> Result<
    SchemeView,
    (ErrorKind, Seq<char>),
> {
    match r {
        Ok(s) => Ok(s@),
        Err(e) => Err(e@),
    }
}

/// Parses the flat YAML subset that base16 schemes are written in: top-level
/// `name`, `variant` and `palette` keys, the palette's `base00`..`base0F`
/// slots indented below it as `#rrggbb` literals, comments, `---` markers,
/// and quoted values. Further keys (such as base24's extra slots) are read
/// and ignored.
pub fn parse_scheme(text: &str) -> (r: Result<Scheme, SnipError>)
    requires
        !scheme_parse_panics(text@),
        text@.len() < usize::MAX,
    ensures
        scheme_result_view(r) == parse_scheme_result(text@),
{
    let v = chars_of(text);
    let mut st = ScanState {
        name: None,
        variant: None,
        palette: vec![None, None, None, None, None, None, None, None, None, None, None, None, None, None, None, None],
        top_keys: Vec::new(),
        palette_keys: Vec::new(),
        palette_open: false,
        saw_palette: false,
    };
    assert(st.view() == scan_start()) by {
        assert(st.palette@ =~= Seq::new(16, |i: int| None::<ThemeColor>));
        assert(keys_view(st.top_keys@) =~= Seq::<Seq<char>>::empty());
        assert(keys_view(st.palette_keys@) =~= Seq::<Seq<char>>::empty());
    }
    let mut start: usize = 0;
    let mut n: usize = 1;
    assert(v@.skip(0) =~= v@);
    loop
        invariant_except_break
            v@ == text@,
            v@.len() < usize::MAX,
            start <= v@.len(),
            1 <= n <= start + 1,
            st.palette@.len() == 16,
            scan_from(scan_start(), text@, 1) == scan_from(st.view(), v@.skip(start as int), n as nat),
            !(scan_from(scan_start(), text@, 1) is Panic),
        ensures
            st.palette@.len() == 16,
            scan_from(scan_start(), text@, 1) == ScanStep::Next(st.view()),
        decreases v@.len() - start,
    {
        let ghost rest = v@.skip(start as int);
        assert(rest =~= v@.subrange(start as int, v@.len() as int));
        let end = match find_char(&v, '\n', start, v.len()) {
            Some(p) => p,
            None => v.len(),
        };
        assert(rest.take(end - start) =~= v@.subrange(start as int, end as int));
        let step = scan_one_line(&mut st, &v, start, end, n);
        if let Err(e) = step {
            return Err(e);
        }
        if end >= v.len() {
            break;
        }
        assert(rest.skip(end - start + 1) =~= v@.skip(end + 1));
        start = end + 1;
        n = n + 1;
    }
    finish_scan(&st)
}

// ---------------------------------------------------------------------------
// Conversion into a theme
// ---------------------------------------------------------------------------

/// The colour of the first palette entry named `key`.
pub open spec fn palette_get(palette: Seq<(Seq<char>, ThemeColor)>, key: Seq<char>) -> Option<
    ThemeColor,
>
    decreases palette.len(),
{
    if palette.len() == 0 {
        None
    } else if palette[0].0 == key {
        Some(palette[0].1)
    } else {
        palette_get(palette.drop_first(), key)
    }
}

/// The colour of palette slot `i`.
pub open spec fn slot_color(scheme: SchemeView, i: int) -> ThemeColor {
    palette_get(scheme.palette, slot_name(i))->0
}

/// The scheme holds every slot the conversion reads (`base00` through
/// `base0E`), and the ones it measures contrast on (`base00`, `base02`,
/// `base05`, `base06`, `base07`) are RGB, as `parse_scheme` guarantees.
pub open spec fn scheme_convertible(scheme: SchemeView) -> bool {
    &&& forall|i: int| 0 <= i < 15 ==> #[trigger] palette_get(scheme.palette, slot_name(i)) is Some
    &&& slot_color(scheme, 0) is Rgb
    &&& slot_color(scheme, 2) is Rgb
    &&& slot_color(scheme, 5) is Rgb
    &&& slot_color(scheme, 6) is Rgb
    &&& slot_color(scheme, 7) is Rgb
}

/// Every palette slot filled so far holds an RGB colour.
pub open spec fn scan_rgb(st: SchemeScan) -> bool {
    &&& st.palette.len() == 16
    &&& forall|i: int| 0 <= i < 16 ==> (#[trigger] st.palette[i] matches Some(c) ==> c is Rgb)
}

/// Reading a line keeps the palette RGB.
proof fn lemma_scan_line_keeps_rgb(st: SchemeScan, n: nat, raw: Seq<char>)
    requires
        scan_rgb(st),
    ensures
        scan_line(st, n, raw) matches ScanStep::Next(next) ==> scan_rgb(next),
{
}

/// Reading the rest of a text keeps the palette RGB.
proof fn lemma_scan_from_keeps_rgb(st: SchemeScan, text: Seq<char>, n: nat)
    requires
        scan_rgb(st),
    ensures
        scan_from(st, text, n) matches ScanStep::Next(next) ==> scan_rgb(next),
    decreases text.len(),
{
    let end = match first_index_from(text, '\n', 0) {
        Some(p) => p,
        None => text.len() as int,
    };
    lemma_scan_line_keeps_rgb(st, n, text.take(end));
    if let ScanStep::Next(next) = scan_line(st, n, text.take(end)) {
        if end < text.len() {
            lemma_first_index_range(text, '\n', 0);
            lemma_scan_from_keeps_rgb(next, text.skip(end + 1), n + 1);
        }
    }
}

/// Slot names differ from one another.
proof fn lemma_slot_names_differ(i: int, j: int)
    requires
        0 <= i < 16,
        0 <= j < 16,
        i != j,
    ensures
        slot_name(i) != slot_name(j),
{
    assert(slot_name(i)[5] != slot_name(j)[5]);
}

/// In a palette laid out in slot order, slot `i`'s name finds slot `i`.
proof fn lemma_palette_get_in_order(colors: Seq<ThemeColor>, i: int, k: int)
    requires
        colors.len() == 16,
        0 <= k <= i < 16,
    ensures
        palette_get(Seq::new(16, |j: int| (slot_name(j), colors[j])).skip(k), slot_name(i)) == Some(colors[i]),
    decreases i - k,
{
    let p = Seq::new(16, |j: int| (slot_name(j), colors[j]));
    let rest = p.skip(k);
    assert(rest[0] == p[k]);
    if k < i {
        lemma_slot_names_differ(k, i);
        assert(rest.drop_first() =~= p.skip(k + 1));
        lemma_palette_get_in_order(colors, i, k + 1);
    }
}

/// No slot is missing from `i` on, so each of them is filled.
proof fn lemma_no_missing_slot(palette: Seq<Option<ThemeColor>>, i: int)
    requires
        0 <= i <= 16,
        first_missing_slot(palette, i) is None,
    ensures
        forall|j: int| i <= j < 16 ==> #[trigger] palette[j] is Some,
    decreases 16 - i,
{
    if i < 16 {
        lemma_no_missing_slot(palette, i + 1);
    }
}

/// Every scheme that `parse_scheme` accepts can be converted: it holds every
/// slot the conversion reads, and all of them are RGB.
pub proof fn law_parsed_schemes_convert(text: Seq<char>)
    requires
        parse_scheme_result(text) is Ok,
    ensures
        scheme_convertible(parse_scheme_result(text)->Ok_0),
{
    lemma_scan_from_keeps_rgb(scan_start(), text, 1);
    let st = scan_from(scan_start(), text, 1)->Next_0;
    lemma_no_missing_slot(st.palette, 0);
    let colors = Seq::new(16, |j: int| st.palette[j]->0);
    let scheme = parse_scheme_result(text)->Ok_0;
    assert(scheme.palette =~= Seq::new(16, |j: int| (slot_name(j), colors[j])));
    assert forall|i: int| 0 <= i < 16 implies #[trigger] palette_get(scheme.palette, slot_name(i)) == Some(
        colors[i],
    ) by {
        lemma_palette_get_in_order(colors, i, 0);
        assert(scheme.palette.skip(0) =~= scheme.palette);
    }
    assert(palette_get(scheme.palette, slot_name(0)) == Some(colors[0]));
    assert(palette_get(scheme.palette, slot_name(2)) == Some(colors[2]));
    assert(palette_get(scheme.palette, slot_name(5)) == Some(colors[5]));
    assert(palette_get(scheme.palette, slot_name(6)) == Some(colors[6]));
    assert(palette_get(scheme.palette, slot_name(7)) == Some(colors[7]));
    assert(st.palette[0] matches Some(c) ==> c is Rgb);
    assert(st.palette[2] matches Some(c) ==> c is Rgb);
    assert(st.palette[5] matches Some(c) ==> c is Rgb);
    assert(st.palette[6] matches Some(c) ==> c is Rgb);
    assert(st.palette[7] matches Some(c) ==> c is Rgb);
}

/// A parsed scheme's palette is its sixteen slots in order, each an RGB
/// colour.
pub proof fn lemma_parsed_palette(text: Seq<char>) -> (colors: Seq<ThemeColor>)
    requires
        parse_scheme_result(text) is Ok,
    ensures
        colors.len() == 16,
        forall|i: int| 0 <= i < 16 ==> #[trigger] colors[i] is Rgb,
        parse_scheme_result(text)->Ok_0.palette == Seq::new(16, |j: int| (slot_name(j), colors[j])),
        forall|i: int| 0 <= i < 16 ==> #[trigger] palette_get(parse_scheme_result(text)->Ok_0.palette, slot_name(i)) == Some(
            colors[i],
        ),
{
    lemma_scan_from_keeps_rgb(scan_start(), text, 1);
    let st = scan_from(scan_start(), text, 1)->Next_0;
    lemma_no_missing_slot(st.palette, 0);
    let colors = Seq::new(16, |j: int| st.palette[j]->0);
    let scheme = parse_scheme_result(text)->Ok_0;
    assert(scheme.palette =~= Seq::new(16, |j: int| (slot_name(j), colors[j])));
    assert forall|i: int| 0 <= i < 16 implies #[trigger] colors[i] is Rgb by {
        assert(st.palette[i] is Some);
    }
    assert forall|i: int| 0 <= i < 16 implies #[trigger] palette_get(scheme.palette, slot_name(i)) == Some(colors[i]) by {
        lemma_palette_get_in_order(colors, i, 0);
        assert(Seq::new(16, |j: int| (slot_name(j), colors[j])).skip(0) =~= Seq::new(
            16,
            |j: int| (slot_name(j), colors[j]),
        ));
    }
    colors
}

/// A scheme that parses has a name and exactly the sixteen base16 slots,
/// `base00` through `base0F` in order, each an RGB colour; further keys in
/// its palette (the base24 slots `base10` to `base17`, say) are not kept.
pub proof fn law_parsed_scheme_has_the_sixteen_slots(text: Seq<char>)
    requires
        parse_scheme_result(text) is Ok,
    ensures
        parse_scheme_result(text)->Ok_0.name.len() > 0,
        parse_scheme_result(text)->Ok_0.palette.len() == 16,
        forall|i: int|
            0 <= i < 16 ==> (#[trigger] parse_scheme_result(text)->Ok_0.palette[i]).0 == slot_name(i)
                && parse_scheme_result(text)->Ok_0.palette[i].1 is Rgb,
{
    let colors = lemma_parsed_palette(text);
    let st = scan_from(scan_start(), text, 1)->Next_0;
    assert(scan_from(scan_start(), text, 1) is Next);
    assert(!(st.name is None || st.name->0.len() == 0));
}

/// The slot names ascend: `base00` through `base0F` agree up to their last
/// character, and that character (a hex digit, `0`-`9` then `A`-`F`) grows,
/// so a palette in slot order is in the key order a sorted map keeps.
pub proof fn law_slot_names_ascend(i: int, j: int)
    requires
        0 <= i < j < 16,
    ensures
        slot_name(i).len() == 6 && slot_name(j).len() == 6,
        slot_name(i).subrange(0, 5) == slot_name(j).subrange(0, 5),
        (slot_name(i)[5] as u32) < (slot_name(j)[5] as u32),
{
    assert(slot_name(i).subrange(0, 5) =~= slot_name(j).subrange(0, 5));
}

/// A palette line as a scheme file writes it: two spaces of indentation,
/// `key`, a colon, a space, `value` and the line break.
pub open spec fn indented_entry(key: Seq<char>, value: Seq<char>) -> Seq<char> {
    seq![' ', ' '] + key + seq![':', ' '] + value + seq!['\n']
}

/// Searching finds `j` when `s[j]` holds `c` and nothing before it, from
/// `from` on, does.
proof fn lemma_first_index_at(s: Seq<char>, c: char, from: int, j: int)
    requires
        0 <= from <= j < s.len(),
        s[j] == c,
        forall|k: int| from <= k < j ==> s[k] != c,
    ensures
        first_index_from(s, c, from) == Some(j),
    decreases j - from,
{
    if from < j {
        lemma_first_index_at(s, c, from + 1, j);
    }
}

/// A character found in `s` is found at the same place in `s + t`.
proof fn lemma_first_index_prefix(s: Seq<char>, t: Seq<char>, c: char, from: int)
    requires
        first_index_from(s, c, from) is Some,
    ensures
        first_index_from(s + t, c, from) == first_index_from(s, c, from),
    decreases s.len() - from,
{
    if 0 <= from < s.len() && s[from] != c {
        lemma_first_index_prefix(s, t, c, from + 1);
    }
}

/// A line break at the end of `s` is found when searching from any index
/// before it.
proof fn lemma_first_index_some(s: Seq<char>, c: char, from: int)
    requires
        0 <= from < s.len(),
        s.last() == c,
    ensures
        first_index_from(s, c, from) is Some,
    decreases s.len() - from,
{
    if s[from] != c {
        lemma_first_index_some(s, c, from + 1);
    }
}

/// `trim_end` keeps the first character of a text that does not start with
/// white space.
proof fn lemma_trim_end_keeps_first(s: Seq<char>)
    requires
        s.len() > 0,
        !is_whitespace(s[0]),
    ensures
        trim_end(s).len() > 0,
        trim_end(s)[0] == s[0],
    decreases s.len(),
{
    if is_whitespace(s.last()) {
        lemma_trim_end_keeps_first(s.drop_last());
    }
}

/// Reading text made of whole lines, then more: the lines are read first, and
/// the rest is read from the state they leave, at some later line number.
proof fn lemma_scan_from_append(st: SchemeScan, a: Seq<char>, b: Seq<char>, n: nat) -> (m: nat)
    requires
        a.len() > 0,
        a.last() == '\n',
        scan_from(st, a, n) is Next,
    ensures
        scan_from(st, a + b, n) == scan_from(scan_from(st, a, n)->Next_0, b, m),
    decreases a.len(),
{
    lemma_first_index_some(a, '\n', 0);
    lemma_first_index_range(a, '\n', 0);
    lemma_first_index_prefix(a, b, '\n', 0);
    let p = first_index_from(a, '\n', 0)->Some_0;
    assert((a + b).take(p) =~= a.take(p));
    let next = scan_line(st, n, a.take(p))->Next_0;
    assert((a + b).skip(p + 1) =~= a.skip(p + 1) + b);
    if p + 1 == a.len() {
        lemma_scan_empty(next, a.skip(p + 1), n + 1);
        assert(a.skip(p + 1) + b =~= b);
        n + 1
    } else {
        lemma_scan_from_append(next, a.skip(p + 1), b, n + 1)
    }
}

/// Reading nothing leaves the state as it is.
proof fn lemma_scan_empty(st: SchemeScan, t: Seq<char>, m: nat)
    requires
        t.len() == 0,
    ensures
        scan_from(st, t, m) == ScanStep::Next(st),
{
    assert(t.take(0) =~= t);
    assert(trim(t.take(0)).len() == 0);
}

/// The indented entry is one line: its text, then the line break.
proof fn lemma_entry_is_one_line(key: Seq<char>, value: Seq<char>)
    requires
        !key.contains('\n'),
        !value.contains('\n'),
    ensures
        ({
            let raw = seq![' ', ' '] + key + seq![':', ' '] + value;
            let e = indented_entry(key, value);
            &&& first_index_from(e, '\n', 0) == Some(raw.len() as int)
            &&& e.take(raw.len() as int) == raw
            &&& e.skip(raw.len() + 1int).len() == 0
        }),
{
    let raw = seq![' ', ' '] + key + seq![':', ' '] + value;
    let e = indented_entry(key, value);
    assert(e =~= raw + seq!['\n']);
    assert forall|k: int| 0 <= k < raw.len() implies e[k] != '\n' by {
        if 2 <= k < 2 + key.len() {
            assert(raw[k] == key[k - 2]);
        } else if 4 + key.len() <= k {
            assert(raw[k] == value[k - 4 - key.len()]);
        }
    }
    lemma_first_index_at(e, '\n', 0, raw.len() as int);
    assert(e.take(raw.len() as int) =~= raw);
}

/// The shape of an indented line: two characters of indentation, and once
/// trimmed it starts with the key's first character.
proof fn lemma_entry_line_shape(key: Seq<char>, v: Seq<char>)
    requires
        key.len() > 0,
        !is_whitespace(key[0]),
    ensures
        ({
            let line = seq![' ', ' '] + key + seq![':', ' '] + v;
            &&& leading_ws(line) == 2
            &&& !line.take(2).contains('\t')
            &&& line.skip(2) == key + seq![':', ' '] + v
            &&& trim(line).len() > 0
            &&& trim(line)[0] == key[0]
        }),
{
    let line = seq![' ', ' '] + key + seq![':', ' '] + v;
    let rest = line.skip(2);
    assert(rest =~= key + seq![':', ' '] + v);
    assert(line.drop_first().drop_first() =~= rest);
    assert(is_whitespace(' '));
    assert(leading_ws(rest) == 0);
    assert(leading_ws(line.drop_first()) == 1);
    assert(leading_ws(line) == 2);
    lemma_leading_ws(line);
    lemma_trim_end_keeps_first(rest);
    assert(line.take(2) =~= seq![' ', ' ']);
}

/// The key of an indented line reads back as itself.
proof fn lemma_entry_key(key: Seq<char>, v: Seq<char>)
    requires
        key.len() > 0,
        !is_whitespace(key[0]),
        !is_whitespace(key.last()),
        !key.contains(':'),
    ensures
        ({
            let rest = key + seq![':', ' '] + v;
            &&& first_index_from(rest, ':', 0) == Some(key.len() as int)
            &&& trim(rest.take(key.len() as int)) == key
        }),
{
    let rest = key + seq![':', ' '] + v;
    assert forall|k: int| 0 <= k < key.len() implies rest[k] != ':' by {
        assert(rest[k] == key[k]);
    }
    lemma_first_index_at(rest, ':', 0, key.len() as int);
    assert(rest.take(key.len() as int) =~= key);
    assert(trim_start(key) == key);
    assert(trim_end(key) == key);
}

/// Reading an indented line whose key is not a palette slot, in an open
/// palette block, records the key (or skips the line, when the key starts
/// like a comment) and changes nothing else.
#[verifier::rlimit(40)]
proof fn lemma_scan_extra_entry(st: SchemeScan, key: Seq<char>, value: Seq<char>, m: nat)
    requires
        st.palette_open,
        !st.palette_keys.contains(key),
        slot_of(key) is None,
        key.len() > 0,
        !is_whitespace(key[0]),
        !is_whitespace(key.last()),
        !key.contains(':'),
        !key.contains('\n'),
        !value.contains('\n'),
    ensures
        scan_from(st, indented_entry(key, value), m) == ScanStep::Next(
            SchemeScan { palette_keys: st.palette_keys.push(key), ..st },
        ) || scan_from(st, indented_entry(key, value), m) == ScanStep::Next(st),
{
    let raw = seq![' ', ' '] + key + seq![':', ' '] + value;
    let e = indented_entry(key, value);
    lemma_entry_is_one_line(key, value);
    let v2 = if value.len() > 0 && value.last() == '\r' {
        value.drop_last()
    } else {
        value
    };
    let line = strip_cr(raw);
    assert(line =~= seq![' ', ' '] + key + seq![':', ' '] + v2);
    lemma_entry_line_shape(key, v2);
    lemma_entry_key(key, v2);
    let next = SchemeScan { palette_keys: st.palette_keys.push(key), ..st };
    let tail = e.skip(raw.len() + 1int);
    if trim(line)[0] != '#' {
        assert(scan_line(st, m, raw) == ScanStep::Next(next));
        lemma_scan_empty(next, tail, m + 1);
    } else {
        assert(scan_line(st, m, raw) == ScanStep::Next(st));
        lemma_scan_empty(st, tail, m + 1);
    }
}

/// Extra keys in an open palette block are read and set aside: appending a
/// line `  key: value` whose key is no base16 slot (a base24 scheme's
/// `base10`, say) to a scheme file whose palette block is still open leaves
/// what `parse_scheme` gives unchanged, the error included.
pub proof fn law_extra_palette_keys_are_ignored(text: Seq<char>, key: Seq<char>, value: Seq<char>)
    requires
        text.len() > 0,
        text.last() == '\n',
        scan_from(scan_start(), text, 1) matches ScanStep::Next(st) && st.palette_open
            && !st.palette_keys.contains(key),
        slot_of(key) is None,
        key.len() > 0,
        !is_whitespace(key[0]),
        !is_whitespace(key.last()),
        !key.contains(':'),
        !key.contains('\n'),
        !value.contains('\n'),
    ensures
        parse_scheme_result(text + indented_entry(key, value)) == parse_scheme_result(text),
{
    let st = scan_from(scan_start(), text, 1)->Next_0;
    let m = lemma_scan_from_append(scan_start(), text, indented_entry(key, value), 1);
    lemma_scan_extra_entry(st, key, value, m);
}

/// The strictly higher of two contrast fractions.
pub open spec fn ratio_gt(a: (int, int), b: (int, int)) -> bool {
    a.0 * b.1 > b.0 * a.1
}

/// The candidate with the highest contrast against `background`; the earlier
/// one on a tie.
pub open spec fn best_contrast(candidates: Seq<ThemeColor>, background: ThemeColor) -> ThemeColor
    decreases candidates.len(),
{
    if candidates.len() <= 1 {
        candidates[0]
    } else {
        let previous = best_contrast(candidates.drop_last(), background);
        if ratio_gt(
            contrast_of(candidates.last(), background)->0,
            contrast_of(previous, background)->0,
        ) {
            candidates.last()
        } else {
            previous
        }
    }
}

/// The selection foreground candidates: `base00`, `base05`, `base06`, `base07`.
pub open spec fn selection_candidates(scheme: SchemeView) -> Seq<ThemeColor> {
    seq![slot_color(scheme, 0), slot_color(scheme, 5), slot_color(scheme, 6), slot_color(scheme, 7)]
}

/// Each adjusted role: the slot, the slot it is read against, and the floor
/// in tenths. In order: accent, accent_alt, border, muted, bar_fg, tag, rule,
/// success, warning, error.
pub open spec fn adjusted_roles(scheme: SchemeView) -> Seq<(ThemeColor, ThemeColor, nat)> {
    let bg = slot_color(scheme, 0);
    seq![
        (slot_color(scheme, 13), bg, 45nat),
        (slot_color(scheme, 14), bg, 45nat),
        (slot_color(scheme, 3), bg, 25nat),
        (slot_color(scheme, 4), bg, 45nat),
        (slot_color(scheme, 5), slot_color(scheme, 1), 45nat),
        (slot_color(scheme, 9), bg, 45nat),
        (slot_color(scheme, 2), bg, 30nat),
        (slot_color(scheme, 11), bg, 45nat),
        (slot_color(scheme, 10), bg, 45nat),
        (slot_color(scheme, 8), bg, 45nat),
    ]
}

/// Every role adjusted in turn; the first failure stops the conversion.
pub open spec fn ensure_all(roles: Seq<(ThemeColor, ThemeColor, nat)>) -> Result<
    Seq<ThemeColor>,
    (ErrorKind, Seq<char>),
>
    decreases roles.len(),
{
    if roles.len() == 0 {
        Ok(Seq::empty())
    } else {
        match ensure_contrast_result(roles[0].0, roles[0].1, roles[0].2) {
            Err(e) => Err(e),
            Ok(c) => match ensure_all(roles.drop_first()) {
                Err(e) => Err(e),
                Ok(rest) => Ok(seq![c] + rest),
            },
        }
    }
}

/// A successful adjustment yields one colour per role.
proof fn lemma_ensure_all_len(roles: Seq<(ThemeColor, ThemeColor, nat)>)
    ensures
        ensure_all(roles) matches Ok(v) ==> v.len() == roles.len(),
    decreases roles.len(),
{
    if roles.len() > 0 {
        lemma_ensure_all_len(roles.drop_first());
    }
}

/// The message for a selection whose best foreground stays below 4.5:1.
pub open spec fn selection_message(name: Seq<char>, ratio: (int, int)) -> Seq<char> {
    "theme "@ + name + ": selection contrast "@ + fixed2(hundredths_of(ratio.0, ratio.1)) + " < 4.5"@
}

/// The interface colours of a converted scheme.
pub open spec fn converted_ui(scheme: SchemeView, selection_fg: ThemeColor, adjusted: Seq<ThemeColor>) -> ThemeUi {
    ThemeUi {
        background: slot_color(scheme, 0),
        foreground: slot_color(scheme, 5),
        accent: adjusted[0],
        accent_alt: adjusted[1],
        border: adjusted[2],
        muted: adjusted[3],
        selection_bg: slot_color(scheme, 2),
        selection_fg,
        retained_bg: slot_color(scheme, 1),
        pill_primary: slot_color(scheme, 12),
        pill_secondary: slot_color(scheme, 3),
        bar_bg: slot_color(scheme, 1),
        bar_fg: adjusted[4],
        tag: adjusted[5],
        rule: adjusted[6],
        success: adjusted[7],
        warning: adjusted[8],
        error: adjusted[9],
    }
}

/// The theme a successful conversion builds.
pub open spec fn converted_theme(
    scheme: SchemeView,
    name: Seq<char>,
    source: Seq<char>,
    appearance: Appearance,
    selection_fg: ThemeColor,
    adjusted: Seq<ThemeColor>,
    syntax: SyntaxView,
) -> ThemeView {
    ThemeView {
        schema_version: THEME_SCHEMA_VERSION,
        name,
        display_name: scheme.name,
        appearance,
        source: Some(source),
        ui: converted_ui(scheme, selection_fg, adjusted),
        syntax,
        palette: Some(scheme.palette),
    }
}

/// What `scheme_to_theme(scheme, name, source, syntax_theme)` gives.
pub open spec fn scheme_to_theme_result(
    scheme: SchemeView,
    name: Seq<char>,
    source: Seq<char>,
    syntax_theme: Option<Seq<char>>,
) -> Result<ThemeView, (ErrorKind, Seq<char>)> {
    if !valid_theme_name(name) {
        invalid(invalid_name_message(name))
    } else {
        let selection_bg = slot_color(scheme, 2);
        let selection_fg = best_contrast(selection_candidates(scheme), selection_bg);
        let ratio = contrast_of(selection_fg, selection_bg)->0;
        if !ratio_at_least(ratio, 45, 10) {
            invalid(selection_message(name, ratio))
        } else {
            conversion_tail(scheme, name, source, syntax_theme, selection_fg, scheme_appearance(scheme))
        }
    }
}

/// The appearance a scheme declares, or the one its background suggests.
pub open spec fn scheme_appearance(scheme: SchemeView) -> Appearance {
    match scheme.variant {
        Some(a) => a,
        None => if is_dark_luminance(luminance_of(slot_color(scheme, 0))->0) {
            Appearance::Dark
        } else {
            Appearance::Light
        },
    }
}

/// The conversion once the name and the selection have passed.
pub open spec fn conversion_tail(
    scheme: SchemeView,
    name: Seq<char>,
    source: Seq<char>,
    syntax_theme: Option<Seq<char>>,
    selection_fg: ThemeColor,
    appearance: Appearance,
) -> Result<ThemeView, (ErrorKind, Seq<char>)> {
    match ensure_all(adjusted_roles(scheme)) {
        Err(e) => Err(e),
        Ok(adjusted) => {
            let syntax = match syntax_theme {
                Some(t) => if is_embedded_name(t) {
                    Ok(SyntaxView::Theme(t))
                } else {
                    invalid(unknown_syntax_message(t))
                },
                None => Ok(SyntaxView::Derive(SyntaxDerive::Base16)),
            };
            match syntax {
                Err(e) => Err(e),
                Ok(syntax) => Ok(
                    converted_theme(scheme, name, source, appearance, selection_fg, adjusted, syntax),
                ),
            }
        },
    }
}

/// A theme result, viewed as spec values.
pub open spec fn theme_result_view(r: Result<Theme, SnipError>) -> Result<ThemeView, (ErrorKind, Seq<char>)> {
    match r {
        Ok(t) => Ok(t@),
        Err(e) => Err(e@),
    }
}

/// Whether a palette entry's name is slot `i`'s name.
pub(crate) fn is_slot_name(key: &String, i: usize) -> (r: bool)
    requires
        i < 16,
    ensures
        r == (key@ == slot_name(i as int)),
{
    let expected = slot_name_string(i);
    let a = chars_of(key.as_str());
    let b = chars_of(expected.as_str());
    eq_chars(a.as_slice(), b.as_slice())
}

/// The colour of palette slot `i`.
fn slot(scheme: &Scheme, i: usize) -> (c: ThemeColor)
    requires
        i < 16,
        palette_get(scheme@.palette, slot_name(i as int)) is Some,
    ensures
        c == slot_color(scheme@, i as int),
{
    let ghost pv = scheme@.palette;
    let mut k: usize = 0;
    assert(pv.skip(0) =~= pv);
    while k < scheme.palette.len()
        invariant
            i < 16,
            k <= scheme.palette@.len(),
            pv == scheme@.palette,
            pv == named_colors_view(scheme.palette@),
            palette_get(pv, slot_name(i as int)) == palette_get(pv.skip(k as int), slot_name(i as int)),
            palette_get(pv, slot_name(i as int)) is Some,
        decreases scheme.palette@.len() - k,
    {
        assert(pv.skip(k as int)[0] == pv[k as int]);
        assert(pv.skip(k as int).drop_first() =~= pv.skip(k + 1));
        if is_slot_name(&scheme.palette[k].0, i) {
            return scheme.palette[k].1;
        }
        k = k + 1;
    }
    assert(pv.skip(k as int).len() == 0);
    scheme.palette[0].1
}

/// The selection foreground: the candidate with the most contrast.
fn best_selection(scheme: &Scheme, selection_bg: ThemeColor) -> (c: ThemeColor)
    requires
        scheme_convertible(scheme@),
        selection_bg == slot_color(scheme@, 2),
    ensures
        c == best_contrast(selection_candidates(scheme@), selection_bg),
        contrast_of(c, selection_bg) is Some,
{
    let ghost cands = selection_candidates(scheme@);
    proof {
        lemma_contrast_bounds_all(scheme@);
    }
    let c0 = slot(scheme, 0);
    let c5 = slot(scheme, 5);
    let c6 = slot(scheme, 6);
    let c7 = slot(scheme, 7);
    assert(cands[0] == c0 && cands[1] == c5 && cands[2] == c6 && cands[3] == c7);
    let mut best = c0;
    let mut best_ratio = contrast(c0, selection_bg).unwrap();
    assert(best_contrast(cands.subrange(0, 1), selection_bg) == c0);
    let r5 = contrast(c5, selection_bg).unwrap();
    if r5.exceeds(best_ratio) {
        best = c5;
        best_ratio = r5;
    }
    assert(cands.subrange(0, 2).drop_last() =~= cands.subrange(0, 1));
    assert(best == best_contrast(cands.subrange(0, 2), selection_bg));
    assert(best_ratio@ == contrast_of(best, selection_bg)->0);
    let r6 = contrast(c6, selection_bg).unwrap();
    if r6.exceeds(best_ratio) {
        best = c6;
        best_ratio = r6;
    }
    assert(cands.subrange(0, 3).drop_last() =~= cands.subrange(0, 2));
    assert(best == best_contrast(cands.subrange(0, 3), selection_bg));
    assert(best_ratio@ == contrast_of(best, selection_bg)->0);
    let r7 = contrast(c7, selection_bg).unwrap();
    if r7.exceeds(best_ratio) {
        best = c7;
    }
    assert(cands.subrange(0, 4).drop_last() =~= cands.subrange(0, 3));
    assert(cands.subrange(0, 4) =~= cands);
    best
}

/// The RGB slots that the selection is measured on have contrasts.
proof fn lemma_contrast_bounds_all(scheme: SchemeView)
    requires
        scheme_convertible(scheme),
    ensures
        contrast_of(slot_color(scheme, 0), slot_color(scheme, 2)) is Some,
        contrast_of(slot_color(scheme, 5), slot_color(scheme, 2)) is Some,
        contrast_of(slot_color(scheme, 6), slot_color(scheme, 2)) is Some,
        contrast_of(slot_color(scheme, 7), slot_color(scheme, 2)) is Some,
{
}

/// The ten adjusted roles, in order, or the first failure.
fn adjust_roles(scheme: &Scheme) -> (r: Result<Vec<ThemeColor>, SnipError>)
    requires
        scheme_convertible(scheme@),
    ensures
        match ensure_all(adjusted_roles(scheme@)) {
            Ok(colors) => r is Ok && r->Ok_0@ == colors,
            Err(e) => r is Err && r->Err_0@ == e,
        },
        r matches Ok(v) ==> v@.len() == 10,
{
    proof {
        lemma_ensure_all_len(adjusted_roles(scheme@));
    }
    let bg = slot(scheme, 0);
    let roles = [
        (slot(scheme, 13), bg, 45u32),
        (slot(scheme, 14), bg, 45u32),
        (slot(scheme, 3), bg, 25u32),
        (slot(scheme, 4), bg, 45u32),
        (slot(scheme, 5), slot(scheme, 1), 45u32),
        (slot(scheme, 9), bg, 45u32),
        (slot(scheme, 2), bg, 30u32),
        (slot(scheme, 11), bg, 45u32),
        (slot(scheme, 10), bg, 45u32),
        (slot(scheme, 8), bg, 45u32),
    ];
    let ghost rv = adjusted_roles(scheme@);
    assert(forall|j: int| 0 <= j < 10 ==> (#[trigger] roles@[j]).0 == rv[j].0 && roles@[j].1 == rv[j].1
        && roles@[j].2 == rv[j].2 && roles@[j].2 <= 1000);
    let mut out: Vec<ThemeColor> = Vec::new();
    let mut i: usize = 0;
    assert(rv.skip(0) =~= rv);
    proof {
        match ensure_all(rv) {
            Err(e) => {},
            Ok(rest) => {
                assert(out@ + rest =~= rest);
            },
        }
    }
    while i < 10
        invariant
            i <= 10,
            roles@.len() == 10,
            rv == adjusted_roles(scheme@),
            rv.len() == 10,
            forall|j: int| 0 <= j < 10 ==> (#[trigger] roles@[j]).0 == rv[j].0 && roles@[j].1 == rv[j].1
                && roles@[j].2 == rv[j].2 && roles@[j].2 <= 1000,
            ensure_all(rv) == (match ensure_all(rv.skip(i as int)) {
                Err(e) => Err(e),
                Ok(rest) => Ok(out@ + rest),
            }),
        decreases 10 - i,
    {
        let (color, background, floor) = roles[i];
        let ghost tail = rv.skip(i as int);
        assert(tail[0] == rv[i as int]);
        assert(tail.drop_first() =~= rv.skip(i + 1));
        match ensure_contrast(color, background, floor) {
            Ok(c) => {
                proof {
                    match ensure_all(rv.skip(i + 1)) {
                        Err(e) => {},
                        Ok(rest) => {
                            assert(out@.push(c) + rest =~= out@ + (seq![c] + rest));
                        },
                    }
                }
                out.push(c);
            },
            Err(e) => {
                assert(ensure_all(tail) == Err::<Seq<ThemeColor>, (ErrorKind, Seq<char>)>(e@));
                return Err(e);
            },
        }
        i = i + 1;
    }
    assert(rv.skip(10) =~= Seq::<(ThemeColor, ThemeColor, nat)>::empty());
    assert(out@ + Seq::<ThemeColor>::empty() =~= out@);
    Ok(out)
}

/// A copy of a list of named colours.
pub(crate) fn copy_named_colors(colors: &Vec<(String, ThemeColor)>) -> (r: Vec<(String, ThemeColor)>)
    ensures
        named_colors_view(r@) == named_colors_view(colors@),
{
    let mut r: Vec<(String, ThemeColor)> = Vec::new();
    let mut i: usize = 0;
    while i < colors.len()
        invariant
            i <= colors@.len(),
            named_colors_view(r@) == named_colors_view(colors@).subrange(0, i as int),
        decreases colors@.len() - i,
    {
        let ghost before = r@;
        let key = colors[i].0.clone();
        r.push((key, colors[i].1));
        assert(r@ == before.push((key, colors@[i as int].1)));
        assert(named_colors_view(r@) =~= named_colors_view(before).push((key@, colors@[i as int].1)));
        assert(named_colors_view(r@) =~= named_colors_view(colors@).subrange(0, i + 1));
        i = i + 1;
    }
    assert(named_colors_view(colors@).subrange(0, colors@.len() as int) =~= named_colors_view(colors@));
    r
}

/// Converts a scheme into a complete standalone theme named `name`, from
/// `source`: the selection takes whichever of `base00`/`base05`/`base06`/
/// `base07` stands out most against `base02` (at least 4.5:1), text roles are
/// lifted to their contrast floors, and the syntax is the named embedded
/// theme or is derived from the palette.
pub fn scheme_to_theme(
    scheme: &Scheme,
    name: &str,
    source: &str,
    syntax_theme: Option<&str>,
) -> (r: Result<Theme, SnipError>)
    requires
        scheme_convertible(scheme@),
    ensures
        theme_result_view(r) == scheme_to_theme_result(
            scheme@,
            name@,
            source@,
            match syntax_theme {
                Some(t) => Some(t@),
                None => None,
            },
        ),
{
    if let Err(e) = validate_theme_name(name) {
        return Err(e);
    }
    let selection_bg = slot(scheme, 2);
    let selection_fg = best_selection(scheme, selection_bg);
    proof {
        lemma_contrast_bounds_all(scheme@);
    }
    let ratio = contrast(selection_fg, selection_bg).unwrap();
    if !ratio.at_least(45, 10) {
        let mut m = String::new();
        push_str(&mut m, "theme ");
        push_str(&mut m, name);
        push_str(&mut m, ": selection contrast ");
        push_str(&mut m, ratio.text2().as_str());
        push_str(&mut m, " < 4.5");
        assert(m@ =~= selection_message(name@, ratio@));
        return Err(SnipError::validation(m));
    }
    let background = slot(scheme, 0);
    let appearance = match scheme.variant {
        Some(a) => a,
        None => {
            let l = luminance(background).unwrap();
            if 2 * l < LUMINANCE_UNIT {
                Appearance::Dark
            } else {
                Appearance::Light
            }
        },
    };
    finish_conversion(scheme, name, source, syntax_theme, selection_fg, appearance)
}

/// The conversion once the name and the selection have passed.
fn finish_conversion(
    scheme: &Scheme,
    name: &str,
    source: &str,
    syntax_theme: Option<&str>,
    selection_fg: ThemeColor,
    appearance: Appearance,
) -> (r: Result<Theme, SnipError>)
    requires
        scheme_convertible(scheme@),
    ensures
        theme_result_view(r) == conversion_tail(
            scheme@,
            name@,
            source@,
            match syntax_theme {
                Some(t) => Some(t@),
                None => None,
            },
            selection_fg,
            appearance,
        ),
{
    let adjusted = match adjust_roles(scheme) {
        Ok(colors) => colors,
        Err(e) => {
            return Err(e);
        },
    };
    let syntax = match syntax_theme {
        Some(theme) => {
            if let Err(e) = validate_embedded_name(theme) {
                return Err(e);
            }
            Syntax::Theme { theme: string_of(chars_of(theme).as_slice()) }
        },
        None => Syntax::Derive { derive: SyntaxDerive::Base16 },
    };
    let theme = build_converted(scheme, name, source, appearance, selection_fg, &adjusted, syntax);
    Ok(theme)
}

/// Assembles the converted theme.
fn build_converted(
    scheme: &Scheme,
    name: &str,
    source: &str,
    appearance: Appearance,
    selection_fg: ThemeColor,
    adjusted: &Vec<ThemeColor>,
    syntax: Syntax,
) -> (t: Theme)
    requires
        scheme_convertible(scheme@),
        adjusted@.len() == 10,
    ensures
        t@ == converted_theme(scheme@, name@, source@, appearance, selection_fg, adjusted@, syntax@),
{
    let background = slot(scheme, 0);
    let selection_bg = slot(scheme, 2);
    let ui = ThemeUi {
        background,
        foreground: slot(scheme, 5),
        accent: adjusted[0],
        accent_alt: adjusted[1],
        border: adjusted[2],
        muted: adjusted[3],
        selection_bg,
        selection_fg,
        retained_bg: slot(scheme, 1),
        pill_primary: slot(scheme, 12),
        pill_secondary: slot(scheme, 3),
        bar_bg: slot(scheme, 1),
        bar_fg: adjusted[4],
        tag: adjusted[5],
        rule: adjusted[6],
        success: adjusted[7],
        warning: adjusted[8],
        error: adjusted[9],
    };
    let theme = Theme {
        schema_version: THEME_SCHEMA_VERSION,
        name: string_of(chars_of(name).as_slice()),
        display_name: string_of(chars_of(scheme.name.as_str()).as_slice()),
        appearance,
        source: Some(string_of(chars_of(source).as_slice())),
        ui,
        syntax,
        palette: Some(Palette { colors: copy_named_colors(&scheme.palette) }),
    };
    theme
}

/// A converted theme keeps the scheme's declared variant; a scheme that
/// declares none comes out dark exactly when its `base00` background is
/// below one half luminance, and light otherwise.
pub proof fn law_converted_appearance_follows_base00(
    scheme: SchemeView,
    name: Seq<char>,
    source: Seq<char>,
    syntax_theme: Option<Seq<char>>,
)
    requires
        scheme_to_theme_result(scheme, name, source, syntax_theme) is Ok,
        palette_get(scheme.palette, slot_name(0)) matches Some(c) && c is Rgb,
    ensures
        ({
            let theme = scheme_to_theme_result(scheme, name, source, syntax_theme)->Ok_0;
            let l = luminance_of(palette_get(scheme.palette, slot_name(0))->0)->0;
            &&& (scheme.variant matches Some(a) ==> theme.appearance == a)
            &&& (scheme.variant is None ==> (theme.appearance == Appearance::Dark <==> 2 * l < LUMINANCE_UNIT))
            &&& (scheme.variant is None ==> (theme.appearance == Appearance::Light <==> 2 * l >= LUMINANCE_UNIT))
        }),
{
}

/// Adjusting every role succeeds exactly when each one does, and gives each
/// role's own adjusted colour, in order.
proof fn lemma_ensure_all_each(roles: Seq<(ThemeColor, ThemeColor, nat)>)
    ensures
        ensure_all(roles) matches Ok(v) ==> v.len() == roles.len() && forall|i: int|
            0 <= i < roles.len() ==> ensure_contrast_result(roles[i].0, roles[i].1, roles[i].2) == Ok::<
                ThemeColor,
                (ErrorKind, Seq<char>),
            >(#[trigger] v[i]),
    decreases roles.len(),
{
    if roles.len() > 0 {
        lemma_ensure_all_each(roles.drop_first());
        if let Ok(v) = ensure_all(roles) {
            let rest = ensure_all(roles.drop_first())->Ok_0;
            assert forall|i: int| 0 <= i < roles.len() implies ensure_contrast_result(
                roles[i].0,
                roles[i].1,
                roles[i].2,
            ) == Ok::<ThemeColor, (ErrorKind, Seq<char>)>(#[trigger] v[i]) by {
                if i > 0 {
                    assert(v[i] == rest[i - 1]);
                    assert(roles.drop_first()[i - 1] == roles[i]);
                }
            }
        }
    }
}

/// One fraction at most a second, which is below a third, is below the
/// third (denominators positive).
proof fn lemma_ratio_order(a: (int, int), b: (int, int), c: (int, int))
    requires
        a.1 > 0,
        b.1 > 0,
        c.1 > 0,
        !ratio_gt(a, b),
        ratio_gt(c, b),
    ensures
        !ratio_gt(a, c),
{
    assert(a.0 * b.1 <= b.0 * a.1);
    assert(c.0 * b.1 > b.0 * c.1);
    assert(a.0 * c.1 * b.1 <= b.0 * a.1 * c.1) by (nonlinear_arith)
        requires
            a.0 * b.1 <= b.0 * a.1,
            c.1 > 0,
    ;
    assert(b.0 * c.1 * a.1 < c.0 * b.1 * a.1) by (nonlinear_arith)
        requires
            c.0 * b.1 > b.0 * c.1,
            a.1 > 0,
    ;
    assert(a.0 * c.1 <= c.0 * a.1) by (nonlinear_arith)
        requires
            a.0 * c.1 * b.1 <= b.0 * a.1 * c.1,
            b.0 * c.1 * a.1 < c.0 * b.1 * a.1,
            b.1 > 0,
    ;
}

/// The best candidate is one of them, and none has a higher contrast.
proof fn lemma_best_contrast(candidates: Seq<ThemeColor>, background: ThemeColor)
    requires
        candidates.len() > 0,
        background is Rgb,
        forall|i: int| 0 <= i < candidates.len() ==> #[trigger] candidates[i] is Rgb,
    ensures
        candidates.contains(best_contrast(candidates, background)),
        forall|j: int|
            0 <= j < candidates.len() ==> !ratio_gt(
                contrast_of(#[trigger] candidates[j], background)->0,
                contrast_of(best_contrast(candidates, background), background)->0,
            ),
    decreases candidates.len(),
{
    lemma_luminance_bounded(background);
    if candidates.len() == 1 {
        assert(candidates[0] == best_contrast(candidates, background));
    } else {
        let init = candidates.drop_last();
        lemma_best_contrast(init, background);
        let previous = best_contrast(init, background);
        let last = candidates.last();
        lemma_luminance_bounded(last);
        lemma_luminance_bounded(previous);
        assert(init.contains(previous));
        let k = choose|k: int| 0 <= k < init.len() && init[k] == previous;
        assert(candidates[k] == previous);
        if ratio_gt(contrast_of(last, background)->0, contrast_of(previous, background)->0) {
            assert(candidates[candidates.len() - 1] == last);
            assert forall|j: int| 0 <= j < candidates.len() implies !ratio_gt(
                contrast_of(#[trigger] candidates[j], background)->0,
                contrast_of(last, background)->0,
            ) by {
                lemma_luminance_bounded(candidates[j]);
                if j < candidates.len() - 1 {
                    assert(candidates[j] == init[j]);
                    lemma_ratio_order(
                        contrast_of(candidates[j], background)->0,
                        contrast_of(previous, background)->0,
                        contrast_of(last, background)->0,
                    );
                } else {
                    assert(candidates[j] == last);
                }
            }
        } else {
            assert forall|j: int| 0 <= j < candidates.len() implies !ratio_gt(
                contrast_of(#[trigger] candidates[j], background)->0,
                contrast_of(previous, background)->0,
            ) by {
                if j < candidates.len() - 1 {
                    assert(candidates[j] == init[j]);
                } else {
                    assert(candidates[j] == last);
                }
            }
        }
    }
}

/// A converted scheme's interface colours come from the base16 slots: the
/// background `base00`, the text `base05`, the selection `base02`, the bar
/// and retained rows `base01`, the pills `base0C` and `base03`. The
/// selection's text is the one of `base00`, `base05`, `base06` and `base07`
/// with the highest contrast on `base02`, at least 4.5:1. Each other role
/// is its slot adjusted until it reaches its floor against the background
/// (the bar text against the bar): the accents `base0D` and `base0E`, the
/// muted text `base04`, tags `base09`, success `base0B`, warnings `base0A`
/// and errors `base08` at 4.5:1, the rule `base02` at 3:1 and the border
/// `base03` at 2.5:1.
pub proof fn law_converted_roles_come_from_their_slots(
    scheme: SchemeView,
    name: Seq<char>,
    source: Seq<char>,
    syntax_theme: Option<Seq<char>>,
)
    requires
        scheme_to_theme_result(scheme, name, source, syntax_theme) is Ok,
        forall|i: int| 0 <= i < 16 ==> (#[trigger] palette_get(scheme.palette, slot_name(i)) matches Some(c) && c is Rgb),
    ensures
        ({
            let ui = scheme_to_theme_result(scheme, name, source, syntax_theme)->Ok_0.ui;
            let bg = slot_color(scheme, 0);
            let adjusted = |k: int, against: ThemeColor, floor: nat|
                ensure_contrast_result(slot_color(scheme, k), against, floor);
            &&& ui.background == bg
            &&& ui.foreground == slot_color(scheme, 5)
            &&& ui.selection_bg == slot_color(scheme, 2)
            &&& ui.retained_bg == slot_color(scheme, 1)
            &&& ui.bar_bg == slot_color(scheme, 1)
            &&& ui.pill_primary == slot_color(scheme, 12)
            &&& ui.pill_secondary == slot_color(scheme, 3)
            &&& seq![slot_color(scheme, 0), slot_color(scheme, 5), slot_color(scheme, 6), slot_color(scheme, 7)].contains(
                ui.selection_fg,
            )
            &&& reaches_floor(ui.selection_fg, ui.selection_bg, 45)
            &&& forall|k: int|
                k == 0 || k == 5 || k == 6 || k == 7 ==> !ratio_gt(
                    contrast_of(#[trigger] slot_color(scheme, k), ui.selection_bg)->0,
                    contrast_of(ui.selection_fg, ui.selection_bg)->0,
                )
            &&& adjusted(13, bg, 45) == Ok::<ThemeColor, (ErrorKind, Seq<char>)>(ui.accent)
            &&& adjusted(14, bg, 45) == Ok::<ThemeColor, (ErrorKind, Seq<char>)>(ui.accent_alt)
            &&& adjusted(3, bg, 25) == Ok::<ThemeColor, (ErrorKind, Seq<char>)>(ui.border)
            &&& adjusted(4, bg, 45) == Ok::<ThemeColor, (ErrorKind, Seq<char>)>(ui.muted)
            &&& adjusted(5, slot_color(scheme, 1), 45) == Ok::<ThemeColor, (ErrorKind, Seq<char>)>(ui.bar_fg)
            &&& adjusted(9, bg, 45) == Ok::<ThemeColor, (ErrorKind, Seq<char>)>(ui.tag)
            &&& adjusted(2, bg, 30) == Ok::<ThemeColor, (ErrorKind, Seq<char>)>(ui.rule)
            &&& adjusted(11, bg, 45) == Ok::<ThemeColor, (ErrorKind, Seq<char>)>(ui.success)
            &&& adjusted(10, bg, 45) == Ok::<ThemeColor, (ErrorKind, Seq<char>)>(ui.warning)
            &&& adjusted(8, bg, 45) == Ok::<ThemeColor, (ErrorKind, Seq<char>)>(ui.error)
            &&& reaches_floor(ui.accent, bg, 45) && reaches_floor(ui.accent_alt, bg, 45)
            &&& reaches_floor(ui.border, bg, 25) && reaches_floor(ui.muted, bg, 45)
            &&& reaches_floor(ui.bar_fg, ui.bar_bg, 45) && reaches_floor(ui.tag, bg, 45)
            &&& reaches_floor(ui.rule, bg, 30) && reaches_floor(ui.success, bg, 45)
            &&& reaches_floor(ui.warning, bg, 45) && reaches_floor(ui.error, bg, 45)
        }),
{
    let roles = adjusted_roles(scheme);
    lemma_ensure_all_each(roles);
    let v = ensure_all(roles)->Ok_0;
    let bg = slot_color(scheme, 0);
    assert forall|i: int| 0 <= i < 16 implies #[trigger] slot_color(scheme, i) is Rgb by {
        assert(palette_get(scheme.palette, slot_name(i)) is Some);
    }
    assert(slot_color(scheme, 0) is Rgb);
    assert(slot_color(scheme, 1) is Rgb);
    assert(slot_color(scheme, 2) is Rgb);
    assert(slot_color(scheme, 5) is Rgb);
    assert(slot_color(scheme, 6) is Rgb);
    assert(slot_color(scheme, 7) is Rgb);
    let candidates = selection_candidates(scheme);
    assert forall|i: int| 0 <= i < candidates.len() implies #[trigger] candidates[i] is Rgb by {}
    lemma_best_contrast(candidates, slot_color(scheme, 2));
    assert(candidates[0] == slot_color(scheme, 0));
    assert(candidates[1] == slot_color(scheme, 5));
    assert(candidates[2] == slot_color(scheme, 6));
    assert(candidates[3] == slot_color(scheme, 7));
    let selection_fg = best_contrast(candidates, slot_color(scheme, 2));
    lemma_luminance_bounded(selection_fg);
    lemma_luminance_bounded(slot_color(scheme, 2));
    assert forall|j: int| 0 <= j < 10 implies reaches_floor(#[trigger] v[j], roles[j].1, roles[j].2 as int) by {
        law_ensure_contrast_clears_the_floor(roles[j].0, roles[j].1, roles[j].2);
    }
    assert(reaches_floor(v[0], bg, 45));
    assert(reaches_floor(v[1], bg, 45));
    assert(reaches_floor(v[2], bg, 25));
    assert(reaches_floor(v[3], bg, 45));
    assert(reaches_floor(v[4], slot_color(scheme, 1), 45));
    assert(reaches_floor(v[5], bg, 45));
    assert(reaches_floor(v[6], bg, 30));
    assert(reaches_floor(v[7], bg, 45));
    assert(reaches_floor(v[8], bg, 45));
    assert(reaches_floor(v[9], bg, 45));
}

} // verus!
