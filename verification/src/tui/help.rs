//! The help overlay: its groups and their headings, the modes it speaks of,
//! word wrapping that keeps every line's source range, its layout and its
//! state.
pub mod extras;
pub mod filter;
pub mod frame;
pub mod plan;
pub mod state;

use std::ops::Range;

use vstd::prelude::*;

use crate::text::{chars_of, is_whitespace, is_whitespace_char, string_of_range};

verus! {

/// The input modes of the interface, each with its own bindings.
#[derive(Clone, Copy, Debug, PartialEq, Eq, Hash, Structural)]
pub enum Mode {
    Global,
    Sidebar,
    List,
    Preview,
    Fragment,
    FragmentGrab,
    Trash,
    Git,
    Gist,
    Search,
    Help,
}

/// A heading under which help rows are grouped.
#[derive(Clone, Copy, Debug, PartialEq, Eq, Hash, Structural)]
pub enum HelpGroup {
    Mode(Mode),
    Inherited,
    HelpControls,
    Numbers,
    Mouse,
    System,
}

/// The heading of a help group.
pub open spec fn group_label(group: HelpGroup) -> Seq<char> {
    match group {
        HelpGroup::Mode(Mode::Global) => "GLOBAL"@,
        HelpGroup::Mode(Mode::Sidebar) => "SIDEBAR — LEFT PANE"@,
        HelpGroup::Mode(Mode::List) => "SNIPPET LIST"@,
        HelpGroup::Mode(Mode::Preview) => "PREVIEW"@,
        HelpGroup::Mode(Mode::Fragment) => "FRAGMENTS"@,
        HelpGroup::Mode(Mode::FragmentGrab) => "FRAGMENT MOVE"@,
        HelpGroup::Mode(Mode::Trash) => "TRASH"@,
        HelpGroup::Mode(Mode::Git) => "GIT CONSOLE"@,
        HelpGroup::Mode(Mode::Gist) => "GIST PANEL"@,
        HelpGroup::Mode(Mode::Search) => "SEARCH"@,
        HelpGroup::Mode(Mode::Help) => "HELP"@,
        HelpGroup::Inherited => "INHERITED FROM GLOBAL"@,
        HelpGroup::HelpControls => "HELP CONTROLS"@,
        HelpGroup::Numbers => "NUMBERS"@,
        HelpGroup::Mouse => "MOUSE"@,
        HelpGroup::System => "SYSTEM"@,
    }
}

impl HelpGroup {
    /// The group's heading.
    pub fn label(self) -> (s: &'static str)
        ensures
            s@ == group_label(self),
    {
        match self {
            HelpGroup::Mode(Mode::Global) => "GLOBAL",
            HelpGroup::Mode(Mode::Sidebar) => "SIDEBAR — LEFT PANE",
            HelpGroup::Mode(Mode::List) => "SNIPPET LIST",
            HelpGroup::Mode(Mode::Preview) => "PREVIEW",
            HelpGroup::Mode(Mode::Fragment) => "FRAGMENTS",
            HelpGroup::Mode(Mode::FragmentGrab) => "FRAGMENT MOVE",
            HelpGroup::Mode(Mode::Trash) => "TRASH",
            HelpGroup::Mode(Mode::Git) => "GIT CONSOLE",
            HelpGroup::Mode(Mode::Gist) => "GIST PANEL",
            HelpGroup::Mode(Mode::Search) => "SEARCH",
            HelpGroup::Mode(Mode::Help) => "HELP",
            HelpGroup::Inherited => "INHERITED FROM GLOBAL",
            HelpGroup::HelpControls => "HELP CONTROLS",
            HelpGroup::Numbers => "NUMBERS",
            HelpGroup::Mouse => "MOUSE",
            HelpGroup::System => "SYSTEM",
        }
    }
}

/// Which rows the help overlay lists: those of the current context, or all.
#[derive(Clone, Copy, Debug, PartialEq, Eq, Structural)]
pub enum HelpScope {
    Context,
    All,
}

/// How help rows are ordered within a group.
#[derive(Clone, Copy, Debug, PartialEq, Eq, Structural)]
pub enum HelpSort {
    Key,
    Action,
}

/// Where a help row that is no command binding is listed.
#[derive(Clone, Copy, Debug, PartialEq, Eq, Hash, Structural)]
pub enum HelpExtraGroup {
    Mode(Mode),
    HelpControls,
    Numbers,
    Mouse,
    System,
}

/// A help row that is no command binding: digits, mouse gestures, typing in
/// the search field and the like.
#[derive(Clone, Copy, Debug)]
pub struct HelpExtra {
    pub id: &'static str,
    pub modes: &'static [Mode],
    pub group: HelpExtraGroup,
    pub key: &'static str,
    pub slug: &'static str,
    pub description: &'static str,
    pub aliases: &'static [&'static str],
}

/// Why a row matched a filter on a field the overlay does not show.
#[derive(Clone, Debug)]
pub struct HiddenMatch {
    pub field: &'static str,
    pub value: String,
}

/// Which characters of a row's shown fields a filter matched.
#[derive(Clone, Debug, Default)]
pub struct HelpMatch {
    pub group_indices: Vec<u32>,
    pub key_indices: Vec<u32>,
    pub slug_indices: Vec<u32>,
    pub description_indices: Vec<u32>,
    pub hidden_reason: Option<HiddenMatch>,
}

/// The key column of a help row: the labels of the chords bound to the
/// command, in the keymap's order, or a fixed text.
#[derive(Clone, Debug)]
pub enum HelpKey {
    Chords(Vec<String>),
    Literal(&'static str),
}

/// The labels joined by ` / `.
pub open spec fn slash_list(labels: Seq<Seq<char>>) -> Seq<char>
    decreases labels.len(),
{
    if labels.len() == 0 {
        Seq::empty()
    } else if labels.len() == 1 {
        labels[0]
    } else {
        slash_list(labels.drop_last()) + " / "@ + labels.last()
    }
}

impl HelpKey {
    /// How the key column reads, as a spec value.
    pub open spec fn display_spec(&self) -> Seq<char> {
        match self {
            HelpKey::Chords(labels) => slash_list(labels@.map_values(|l: String| l@)),
            HelpKey::Literal(text) => text@,
        }
    }

    /// How the key column reads: the chord labels joined by ` / `, or the
    /// fixed text.
    pub fn display(&self) -> (s: String)
        ensures
            s@ == self.display_spec(),
    {
        match self {
            HelpKey::Chords(labels) => {
                let ghost lv = labels@.map_values(|l: String| l@);
                let mut s = String::new();
                let mut i: usize = 0;
                proof {
                    assert(lv.take(0).len() == 0);
                }
                while i < labels.len()
                    invariant
                        i <= labels.len(),
                        lv == labels@.map_values(|l: String| l@),
                        s@ == slash_list(lv.take(i as int)),
                    decreases labels.len() - i,
                {
                    if i > 0 {
                        crate::text::push_str(&mut s, " / ");
                    }
                    crate::text::push_str(&mut s, labels[i].as_str());
                    proof {
                        assert(lv.take(i + 1).drop_last() =~= lv.take(i as int));
                        assert(lv.take(i + 1).last() == labels@[i as int]@);
                        if i == 0 {
                            assert(s@ =~= lv.take(1)[0]);
                        }
                    }
                    i += 1;
                }
                proof {
                    assert(lv.take(labels.len() as int) =~= lv);
                }
                s
            },
            HelpKey::Literal(text) => crate::text::copy_string(text),
        }
    }
}

/// The short name of a mode, as the overlay's title shows its context.
pub open spec fn context_label_spec(mode: Mode) -> Seq<char> {
    match mode {
        Mode::Global => "Global"@,
        Mode::Sidebar => "Library pane"@,
        Mode::List => "Snippet list"@,
        Mode::Preview | Mode::Fragment => "Preview"@,
        Mode::FragmentGrab => "Fragment move"@,
        Mode::Trash => "Trash"@,
        Mode::Help => "Help"@,
        Mode::Git => "Git console"@,
        Mode::Gist => "Gist panel"@,
        Mode::Search => "Search"@,
    }
}

/// The short name of a mode, as the overlay's title shows its context.
pub fn context_label(mode: Mode) -> (s: &'static str)
    ensures
        s@ == context_label_spec(mode),
{
    match mode {
        Mode::Global => "Global",
        Mode::Sidebar => "Library pane",
        Mode::List => "Snippet list",
        Mode::Preview | Mode::Fragment => "Preview",
        Mode::FragmentGrab => "Fragment move",
        Mode::Trash => "Trash",
        Mode::Help => "Help",
        Mode::Git => "Git console",
        Mode::Gist => "Gist panel",
        Mode::Search => "Search",
    }
}

/// How many scroll positions a list of `line_count` lines has in a viewport
/// of `viewport_height` lines: one, plus one per line that does not fit.
pub fn scroll_positions(line_count: usize, viewport_height: usize) -> (n: usize)
    requires
        line_count < usize::MAX,
    ensures
        n == (if line_count > viewport_height {
            line_count - viewport_height
        } else {
            0
        }) + 1,
{
    line_count.saturating_sub(viewport_height) + 1
}

/// One wrapped line: its text and the range of characters of the source it
/// came from.
#[derive(Debug)]
pub struct WrappedLine {
    pub text: String,
    pub source: Range<usize>,
}

impl Clone for WrappedLine {
    fn clone(&self) -> (r: WrappedLine)
        ensures
            r.text@ == self.text@,
            r.source.start == self.source.start,
            r.source.end == self.source.end,
    {
        WrappedLine { text: crate::text::copy_string(self.text.as_str()), source: self.source.start..self.source.end }
    }
}

/// What the display width of a text is, in terminal columns, as the
/// `unicode-width` crate measures it: the crate the terminal renderer
/// measures text with, so the help popup wraps and pads where the screen
/// draws.
pub uninterp spec fn text_display_width(s: Seq<char>) -> nat;

/// The display width of the one-character text `c`.
pub open spec fn char_width(c: char) -> int {
    text_display_width(seq![c]) as int
}

/// `UnicodeWidthStr::width`: the display width of `s`, which the crate
/// computes from the text alone; a text of one character is at most three
/// columns wide.
#[verifier::external_body]
pub(crate) fn text_width(s: &str) -> (w: usize)
    ensures
        w == text_display_width(s@),
        s@.len() == 1 ==> w <= 3,
{
    unicode_width::UnicodeWidthStr::width(s)
}

/// The display width of the text holding only `c`.
pub(crate) fn char_display_width(c: char) -> (w: usize)
    ensures
        w == text_display_width(seq![c]),
        w <= 3,
{
    let mut one = String::new();
    crate::text::push_char(&mut one, c);
    assert(one@ =~= seq![c]);
    text_width(one.as_str())
}

/// Scanning a line that starts at `start` from `end` on, with `used` columns
/// used and the last white space seen at `last_space`: where the scan stops,
/// and the last white space it saw.
pub open spec fn scan_line(
    chars: Seq<char>,
    widths: Seq<int>,
    width: int,
    start: int,
    end: int,
    used: int,
    last_space: Option<int>,
) -> (int, Option<int>)
    decreases chars.len() - end,
{
    if end < 0 || end >= chars.len() {
        (end, last_space)
    } else if used + widths[end] > width && end > start {
        (end, last_space)
    } else {
        let now = used + widths[end];
        let space = if is_whitespace(chars[end]) {
            Some(end)
        } else {
            last_space
        };
        if now >= width {
            (end + 1, space)
        } else {
            scan_line(chars, widths, width, start, end + 1, now, space)
        }
    }
}

/// Where the line that starts at `start` ends: as many characters as fit
/// (at least one), pulled back to the last white space inside it when text
/// follows.
pub open spec fn line_end(chars: Seq<char>, widths: Seq<int>, width: int, start: int) -> int {
    let (end, space) = scan_line(chars, widths, width, start, start, 0, None);
    if end < chars.len() && (space matches Some(s) && s > start) {
        space->0
    } else {
        end
    }
}

/// `end` with the white space before it, back to `start`, dropped.
pub open spec fn trimmed_end(chars: Seq<char>, start: int, end: int) -> int
    decreases end - start,
{
    if end <= start {
        start
    } else if !is_whitespace(chars[end - 1]) {
        end
    } else {
        trimmed_end(chars, start, end - 1)
    }
}

/// The source ranges of the lines from character `start` on: leading white
/// space is skipped, each line ends where `line_end` says, and its trailing
/// white space is dropped.
pub open spec fn wrap_from(chars: Seq<char>, widths: Seq<int>, width: int, start: int) -> Seq<(int, int)>
    decreases chars.len() - start,
{
    if start < 0 || start >= chars.len() {
        Seq::empty()
    } else if is_whitespace(chars[start]) {
        wrap_from(chars, widths, width, start + 1)
    } else {
        let end = line_end(chars, widths, width, start);
        let next = if end > start + 1 {
            end
        } else {
            start + 1
        };
        seq![(start, trimmed_end(chars, start, end))] + if next <= chars.len() {
            wrap_from(chars, widths, width, next)
        } else {
            Seq::empty()
        }
    }
}

/// The display width of each character of `text`.
pub open spec fn char_widths(text: Seq<char>) -> Seq<int> {
    text.map_values(|c: char| char_width(c))
}

/// Widths, as integers.
pub open spec fn widths_view(widths: Seq<usize>) -> Seq<int> {
    widths.map_values(|w: usize| w as int)
}

/// The source ranges of the lines that `text`, its characters `widths`
/// columns wide, wraps to at `width` columns (at least one); an empty text
/// is one empty line.
pub open spec fn wrap_spec_with(text: Seq<char>, widths: Seq<int>, width: usize) -> Seq<(int, int)> {
    if text.len() == 0 {
        seq![(0int, 0int)]
    } else {
        wrap_from(text, widths, if width < 1 { 1 } else { width as int }, 0)
    }
}

/// The source ranges of the lines that `text` wraps to at `width` columns,
/// each character as wide as it displays.
pub open spec fn wrap_spec(text: Seq<char>, width: usize) -> Seq<(int, int)> {
    wrap_spec_with(text, char_widths(text), width)
}

/// Wrapped lines, as their texts and source ranges.
pub open spec fn lines_view(lines: Seq<WrappedLine>) -> Seq<(Seq<char>, (int, int))> {
    lines.map_values(|l: WrappedLine| (l.text@, (l.source.start as int, l.source.end as int)))
}

/// The lines `text` wraps to, its characters `widths` columns wide: each
/// line's text is exactly the characters of its source range.
pub open spec fn wrapped_lines_with(text: Seq<char>, widths: Seq<int>, width: usize) -> Seq<(Seq<char>, (int, int))> {
    wrap_spec_with(text, widths, width).map_values(|r: (int, int)| (text.subrange(r.0, r.1), r))
}

/// The lines `text` wraps to, each character as wide as it displays.
pub open spec fn wrapped_lines(text: Seq<char>, width: usize) -> Seq<(Seq<char>, (int, int))> {
    wrapped_lines_with(text, char_widths(text), width)
}

/// Where the line that starts at `start` ends.
fn find_line_end(chars: &Vec<char>, widths: &Vec<usize>, width: usize, start: usize) -> (end: usize)
    requires
        start < chars@.len(),
        widths@.len() == chars@.len(),
        width >= 1,
    ensures
        end == line_end(chars@, widths_view(widths@), width as int, start as int),
        start < end <= chars@.len(),
{
    let mut end = start;
    let mut used: u128 = 0;
    let mut last_space: Option<usize> = None;
    let ghost wv = widths_view(widths@);
    let ghost target = scan_line(chars@, wv, width as int, start as int, start as int, 0, None);
    while end < chars.len()
        invariant_except_break
            start < chars@.len(),
            widths@.len() == chars@.len(),
            wv == widths_view(widths@),
            start <= end <= chars@.len(),
            end == start ==> used == 0,
            end > start ==> used < width,
            last_space matches Some(s) ==> start <= s < end,
            scan_line(chars@, wv, width as int, start as int, end as int, used as int, match last_space {
                Some(s) => Some(s as int),
                None => None,
            }) == target,
        ensures
            start < end <= chars@.len(),
            last_space matches Some(s) ==> start <= s < end,
            target == (end as int, match last_space {
                Some(s) => Some(s as int),
                None => None,
            }),
        decreases chars@.len() - end,
    {
        let w = widths[end];
        assert(wv[end as int] == w as int);
        if used + (w as u128) > (width as u128) && end > start {
            break;
        }
        used = used + (w as u128);
        if is_whitespace_char(chars[end]) {
            last_space = Some(end);
        }
        end = end + 1;
        if used >= (width as u128) {
            break;
        }
    }
    if end < chars.len() {
        if let Some(space) = last_space {
            if space > start {
                return space;
            }
        }
    }
    end
}

/// `end` with the white space before it, back to `start`, dropped.
fn trim_trailing(chars: &Vec<char>, start: usize, end: usize) -> (r: usize)
    requires
        start <= end <= chars@.len(),
    ensures
        r == trimmed_end(chars@, start as int, end as int),
        start <= r <= end,
{
    let mut e = end;
    while e > start && is_whitespace_char(chars[e - 1])
        invariant
            start <= e <= end <= chars@.len(),
            trimmed_end(chars@, start as int, end as int) == trimmed_end(chars@, start as int, e as int),
        decreases e,
    {
        e = e - 1;
    }
    e
}

/// Wraps `text`, whose characters are `widths` columns wide, to lines of
/// at most `width` columns (at least one), breaking at white space where it
/// can and inside a word where it must. Leading and trailing white space of
/// each line is dropped; no line is ever shortened with an ellipsis. Each
/// line carries the range of characters of `text` it holds, and its text is
/// exactly those characters.
pub fn wrap_with_widths(text: &str, widths: &Vec<usize>, width: usize) -> (lines: Vec<WrappedLine>)
    requires
        widths@.len() == text@.len(),
    ensures
        lines_view(lines@) == wrapped_lines_with(text@, widths_view(widths@), width),
{
    let chars = chars_of(text);
    if chars.len() == 0 {
        let mut lines: Vec<WrappedLine> = Vec::new();
        lines.push(WrappedLine { text: String::new(), source: 0..0 });
        assert(text@.subrange(0, 0) =~= Seq::<char>::empty());
        assert(lines_view(lines@)[0] == wrapped_lines_with(text@, widths_view(widths@), width)[0]);
        assert(lines_view(lines@) =~= wrapped_lines_with(text@, widths_view(widths@), width));
        return lines;
    }
    let width = if width < 1 {
        1
    } else {
        width
    };
    let ghost w = width as int;
    let ghost wv = widths_view(widths@);
    let ghost all = wrap_from(chars@, wv, w, 0);
    let mut lines: Vec<WrappedLine> = Vec::new();
    let mut start: usize = 0;
    assert(lines_view(lines@) + all.map_values(|r: (int, int)| (chars@.subrange(r.0, r.1), r)) =~= all.map_values(
        |r: (int, int)| (chars@.subrange(r.0, r.1), r),
    ));
    while start < chars.len()
        invariant
            start <= chars@.len(),
            chars@ == text@,
            w == width as int,
            width >= 1,
            widths@.len() == chars@.len(),
            wv == widths_view(widths@),
            all == wrap_from(chars@, wv, w, 0),
            lines_view(lines@) + wrap_from(chars@, wv, w, start as int).map_values(
                |r: (int, int)| (chars@.subrange(r.0, r.1), r),
            ) == all.map_values(|r: (int, int)| (chars@.subrange(r.0, r.1), r)),
        decreases chars@.len() - start,
    {
        if is_whitespace_char(chars[start]) {
            start = start + 1;
        } else {
            let end = find_line_end(&chars, widths, width, start);
            let trimmed = trim_trailing(&chars, start, end);
            let line = WrappedLine {
                text: string_of_range(chars.as_slice(), start, trimmed),
                source: start..trimmed,
            };
            let next = if end > start + 1 {
                end
            } else {
                start + 1
            };
            proof {
                let f = |r: (int, int)| (chars@.subrange(r.0, r.1), r);
                let rest = wrap_from(chars@, wv, w, next as int);
                assert(wrap_from(chars@, wv, w, start as int) == seq![(start as int, trimmed as int)] + rest);
                assert((seq![(start as int, trimmed as int)] + rest).map_values(f) =~= seq![f((start as int, trimmed as int))]
                    + rest.map_values(f));
                assert(lines_view(lines@.push(line)) =~= lines_view(lines@).push(f((start as int, trimmed as int))));
                assert(lines_view(lines@).push(f((start as int, trimmed as int))) + rest.map_values(f) =~= lines_view(
                    lines@,
                ) + (seq![f((start as int, trimmed as int))] + rest.map_values(f)));
            }
            lines.push(line);
            start = next;
        }
    }
    assert(wrap_from(chars@, wv, w, start as int).map_values(|r: (int, int)| (chars@.subrange(r.0, r.1), r)) =~= Seq::<
        (Seq<char>, (int, int)),
    >::empty());
    assert(lines_view(lines@) + Seq::<(Seq<char>, (int, int))>::empty() =~= lines_view(lines@));
    lines
}

/// Wraps `text` to lines of at most `width` display columns (at least one),
/// each character as wide as it displays: see `wrap_with_widths`.
pub fn wrap_words(text: &str, width: usize) -> (lines: Vec<WrappedLine>)
    ensures
        lines_view(lines@) == wrapped_lines(text@, width),
{
    let chars = chars_of(text);
    let mut widths: Vec<usize> = Vec::new();
    let mut i: usize = 0;
    while i < chars.len()
        invariant
            i <= chars@.len(),
            chars@ == text@,
            widths_view(widths@) == char_widths(text@).take(i as int),
        decreases chars@.len() - i,
    {
        let w = char_display_width(chars[i]);
        let ghost before = widths_view(widths@);
        widths.push(w);
        proof {
            assert(widths_view(widths@) =~= before.push(w as int));
            assert(char_widths(text@).take(i + 1) =~= char_widths(text@).take(i as int).push(char_width(text@[i as int])));
        }
        i = i + 1;
    }
    assert(char_widths(text@).take(i as int) =~= char_widths(text@));
    wrap_with_widths(text, &widths, width)
}

// ---------------------------------------------------------------------------
// Laws
// ---------------------------------------------------------------------------

/// A scan that starts with no column used at `start` takes at least one
/// character, stops within the text, and remembers a white space inside
/// what it took.
proof fn lemma_scan_line_bounds(
    chars: Seq<char>,
    widths: Seq<int>,
    width: int,
    start: int,
    end: int,
    used: int,
    last_space: Option<int>,
)
    requires
        0 <= start <= end <= chars.len(),
        last_space matches Some(s) ==> start <= s < end,
        end == start ==> used == 0 && last_space is None,
    ensures
        ({
            let (e, sp) = scan_line(chars, widths, width, start, end, used, last_space);
            &&& end <= e <= chars.len()
            &&& (start < chars.len() ==> start < e)
            &&& (sp matches Some(s) ==> start <= s < e)
        }),
    decreases chars.len() - end,
{
    if end < chars.len() && !(used + widths[end] > width && end > start) {
        let now = used + widths[end];
        let space = if is_whitespace(chars[end]) {
            Some(end)
        } else {
            last_space
        };
        if now < width {
            lemma_scan_line_bounds(chars, widths, width, start, end + 1, now, space);
        }
    }
}

/// Dropping trailing white space never drops a non-white character at `start`.
proof fn lemma_trimmed_end_bounds(chars: Seq<char>, start: int, end: int)
    requires
        0 <= start < end <= chars.len(),
        !is_whitespace(chars[start]),
    ensures
        start < trimmed_end(chars, start, end) <= end,
    decreases end - start,
{
    if end - 1 > start && is_whitespace(chars[end - 1]) {
        lemma_trimmed_end_bounds(chars, start, end - 1);
    }
}

/// The ranges from `start` on lie in the text, each non-empty, in order and
/// without overlap.
proof fn lemma_wrap_from_ranges(chars: Seq<char>, widths: Seq<int>, width: int, start: int)
    requires
        0 <= start,
    ensures
        ({
            let ranges = wrap_from(chars, widths, width, start);
            &&& forall|i: int| 0 <= i < ranges.len() ==> start <= (#[trigger] ranges[i]).0 < ranges[i].1 <= chars.len()
            &&& forall|i: int, j: int| 0 <= i < j < ranges.len() ==> (#[trigger] ranges[i]).1 <= (#[trigger] ranges[j]).0
        }),
    decreases chars.len() - start,
{
    if start < chars.len() {
        if is_whitespace(chars[start]) {
            lemma_wrap_from_ranges(chars, widths, width, start + 1);
            assert(wrap_from(chars, widths, width, start) == wrap_from(chars, widths, width, start + 1));
        } else {
            lemma_scan_line_bounds(chars, widths, width, start, start, 0, None);
            let end = line_end(chars, widths, width, start);
            assert(start < end <= chars.len());
            lemma_trimmed_end_bounds(chars, start, end);
            let next = if end > start + 1 {
                end
            } else {
                start + 1
            };
            let rest = if next <= chars.len() {
                wrap_from(chars, widths, width, next)
            } else {
                Seq::empty()
            };
            if next <= chars.len() {
                lemma_wrap_from_ranges(chars, widths, width, next);
            }
            let ranges = wrap_from(chars, widths, width, start);
            assert(ranges == seq![(start, trimmed_end(chars, start, end))] + rest);
            assert forall|i: int| 0 <= i < ranges.len() implies start <= (#[trigger] ranges[i]).0 < ranges[i].1
                <= chars.len() by {
                if i > 0 {
                    assert(ranges[i] == rest[i - 1]);
                }
            }
            assert forall|i: int, j: int| 0 <= i < j < ranges.len() implies (#[trigger] ranges[i]).1 <= (
            #[trigger] ranges[j]).0 by {
                assert(ranges[j] == rest[j - 1]);
                if i > 0 {
                    assert(ranges[i] == rest[i - 1]);
                }
            }
        }
    }
}

/// Wrapping cuts the text into non-empty, ordered, non-overlapping ranges of
/// its characters (one empty line for an empty text), so that every line is
/// exactly the characters it came from and nothing is ever abbreviated;
/// whatever the characters' widths.
pub proof fn law_wrapped_lines_are_ordered_slices(text: Seq<char>, widths: Seq<int>, width: usize)
    ensures
        ({
            let ranges = wrap_spec_with(text, widths, width);
            &&& text.len() == 0 ==> ranges == seq![(0int, 0int)]
            &&& text.len() > 0 ==> forall|i: int| 0 <= i < ranges.len() ==> 0 <= (#[trigger] ranges[i]).0 < ranges[i].1
                <= text.len()
            &&& forall|i: int, j: int| 0 <= i < j < ranges.len() ==> (#[trigger] ranges[i]).1 <= (#[trigger] ranges[j]).0
        }),
{
    if text.len() > 0 {
        lemma_wrap_from_ranges(text, widths, if width < 1 { 1 } else { width as int }, 0);
    }
}

/// The total width of the characters `a..b`.
pub open spec fn width_sum(widths: Seq<int>, a: int, b: int) -> int
    decreases b - a,
{
    if b <= a {
        0
    } else {
        width_sum(widths, a, b - 1) + widths[b - 1]
    }
}

/// With no negative width, a longer run is at least as wide.
proof fn lemma_width_sum_grows(widths: Seq<int>, a: int, b: int, c: int)
    requires
        a <= b <= c <= widths.len(),
        0 <= a,
        forall|k: int| 0 <= k < widths.len() ==> #[trigger] widths[k] >= 0,
    ensures
        width_sum(widths, a, b) <= width_sum(widths, a, c),
    decreases c - b,
{
    if b < c {
        lemma_width_sum_grows(widths, a, b, c - 1);
    }
}

/// A scan keeps what it took within the width, unless it took only the
/// first character.
proof fn lemma_scan_line_width(
    chars: Seq<char>,
    widths: Seq<int>,
    width: int,
    start: int,
    end: int,
    used: int,
    last_space: Option<int>,
)
    requires
        0 <= start <= end <= chars.len(),
        widths.len() == chars.len(),
        forall|k: int| 0 <= k < widths.len() ==> #[trigger] widths[k] >= 0,
        used == width_sum(widths, start, end),
        used <= width || end == start + 1,
    ensures
        ({
            let e = scan_line(chars, widths, width, start, end, used, last_space).0;
            width_sum(widths, start, e) <= width || e == start + 1
        }),
    decreases chars.len() - end,
{
    if end < chars.len() && !(used + widths[end] > width && end > start) {
        let now = used + widths[end];
        assert(width_sum(widths, start, end + 1) == now);
        let space = if is_whitespace(chars[end]) {
            Some(end)
        } else {
            last_space
        };
        if now < width {
            lemma_scan_line_width(chars, widths, width, start, end + 1, now, space);
        }
    }
}

/// A line's end, before its trailing white space is dropped, keeps the line
/// within the width unless the line is one character.
proof fn lemma_line_end_width(chars: Seq<char>, widths: Seq<int>, width: int, start: int)
    requires
        0 <= start < chars.len(),
        widths.len() == chars.len(),
        forall|k: int| 0 <= k < widths.len() ==> #[trigger] widths[k] >= 0,
        width >= 1,
    ensures
        width_sum(widths, start, line_end(chars, widths, width, start)) <= width || line_end(
            chars,
            widths,
            width,
            start,
        ) == start + 1,
{
    lemma_scan_line_bounds(chars, widths, width, start, start, 0, None);
    lemma_scan_line_width(chars, widths, width, start, start, 0, None);
    let (e, sp) = scan_line(chars, widths, width, start, start, 0, None);
    if e < chars.len() && (sp matches Some(s) && s > start) {
        let s = sp->0;
        lemma_width_sum_grows(widths, start, s, e);
    }
}

/// Dropping trailing white space leaves a non-white last character, and
/// only white space after it.
proof fn lemma_trimmed_end_edges(chars: Seq<char>, start: int, end: int)
    requires
        0 <= start < end <= chars.len(),
        !is_whitespace(chars[start]),
    ensures
        !is_whitespace(chars[trimmed_end(chars, start, end) - 1]),
        forall|k: int| trimmed_end(chars, start, end) <= k < end ==> is_whitespace(#[trigger] chars[k]),
    decreases end - start,
{
    if end - 1 > start && is_whitespace(chars[end - 1]) {
        lemma_trimmed_end_edges(chars, start, end - 1);
    }
}

/// The facts of the first line from a non-white `start`: where it ends
/// before and after trimming, and what lies between.
proof fn lemma_first_line(chars: Seq<char>, widths: Seq<int>, width: int, start: int)
    requires
        0 <= start < chars.len(),
        !is_whitespace(chars[start]),
        widths.len() == chars.len(),
        forall|k: int| 0 <= k < widths.len() ==> #[trigger] widths[k] >= 0,
        width >= 1,
    ensures
        ({
            let end = line_end(chars, widths, width, start);
            let te = trimmed_end(chars, start, end);
            &&& start < te <= end <= chars.len()
            &&& !is_whitespace(chars[te - 1])
            &&& forall|k: int| te <= k < end ==> is_whitespace(#[trigger] chars[k])
            &&& (te - start == 1 || width_sum(widths, start, te) <= width)
        }),
{
    lemma_scan_line_bounds(chars, widths, width, start, start, 0, None);
    let end = line_end(chars, widths, width, start);
    lemma_line_end_width(chars, widths, width, start);
    lemma_trimmed_end_bounds(chars, start, end);
    lemma_trimmed_end_edges(chars, start, end);
    let te = trimmed_end(chars, start, end);
    lemma_width_sum_grows(widths, start, te, end);
}

/// The lines from `start` on start and end on a non-white character and
/// keep within the width unless they are one character.
#[verifier::spinoff_prover]
proof fn lemma_wrap_from_lines(chars: Seq<char>, widths: Seq<int>, width: int, start: int)
    requires
        0 <= start,
        widths.len() == chars.len(),
        forall|k: int| 0 <= k < widths.len() ==> #[trigger] widths[k] >= 0,
        width >= 1,
    ensures
        forall|i: int|
            0 <= i < wrap_from(chars, widths, width, start).len() ==> line_ok(
                chars,
                widths,
                width,
                #[trigger] wrap_from(chars, widths, width, start)[i],
            ),
    decreases chars.len() - start,
{
    if start < chars.len() {
        if is_whitespace(chars[start]) {
            lemma_wrap_from_lines(chars, widths, width, start + 1);
            assert(wrap_from(chars, widths, width, start) == wrap_from(chars, widths, width, start + 1));
        } else {
            lemma_first_line(chars, widths, width, start);
            let end = line_end(chars, widths, width, start);
            let te = trimmed_end(chars, start, end);
            let next = if end > start + 1 {
                end
            } else {
                start + 1
            };
            let rest = if next <= chars.len() {
                wrap_from(chars, widths, width, next)
            } else {
                Seq::empty()
            };
            if next <= chars.len() {
                lemma_wrap_from_lines(chars, widths, width, next);
            }
            let ranges = wrap_from(chars, widths, width, start);
            assert(ranges == seq![(start, te)] + rest);
            assert(line_ok(chars, widths, width, (start, te)));
            assert forall|i: int| 0 <= i < ranges.len() implies line_ok(chars, widths, width, #[trigger] ranges[i]) by {
                if i > 0 {
                    assert(ranges[i] == rest[i - 1]);
                }
            }
        }
    }
}

/// A line starts and ends on a non-white character and keeps within the
/// width unless it is one character.
pub open spec fn line_ok(chars: Seq<char>, widths: Seq<int>, width: int, r: (int, int)) -> bool {
    &&& !is_whitespace(chars[r.0])
    &&& !is_whitespace(chars[r.1 - 1])
    &&& (r.1 - r.0 == 1 || width_sum(widths, r.0, r.1) <= width)
}

/// Some line holds character `k`.
pub open spec fn covered(ranges: Seq<(int, int)>, k: int) -> bool {
    exists|i: int| 0 <= i < ranges.len() && (#[trigger] ranges[i]).0 <= k < ranges[i].1
}

/// The lines from `start` on hold every non-white character from `start` on.
#[verifier::spinoff_prover]
proof fn lemma_wrap_from_covers(chars: Seq<char>, widths: Seq<int>, width: int, start: int)
    requires
        0 <= start,
        widths.len() == chars.len(),
        forall|k: int| 0 <= k < widths.len() ==> #[trigger] widths[k] >= 0,
        width >= 1,
    ensures
        forall|k: int|
            start <= k < chars.len() && !is_whitespace(chars[k]) ==> #[trigger] covered(
                wrap_from(chars, widths, width, start),
                k,
            ),
    decreases chars.len() - start,
{
    if start < chars.len() {
        if is_whitespace(chars[start]) {
            lemma_wrap_from_covers(chars, widths, width, start + 1);
            assert(wrap_from(chars, widths, width, start) == wrap_from(chars, widths, width, start + 1));
        } else {
            lemma_first_line(chars, widths, width, start);
            let end = line_end(chars, widths, width, start);
            let te = trimmed_end(chars, start, end);
            let next = if end > start + 1 {
                end
            } else {
                start + 1
            };
            let rest = if next <= chars.len() {
                wrap_from(chars, widths, width, next)
            } else {
                Seq::empty()
            };
            if next <= chars.len() {
                lemma_wrap_from_covers(chars, widths, width, next);
            }
            let ranges = wrap_from(chars, widths, width, start);
            assert(ranges == seq![(start, te)] + rest);
            assert forall|k: int| start <= k < chars.len() && !is_whitespace(chars[k]) implies #[trigger] covered(
                ranges,
                k,
            ) by {
                if k < te {
                    assert(ranges[0] == (start, te));
                } else {
                    assert(k >= end);
                    assert(covered(rest, k));
                    let j = choose|j: int| 0 <= j < rest.len() && (#[trigger] rest[j]).0 <= k < rest[j].1;
                    assert(ranges[j + 1] == rest[j]);
                }
            }
        }
    }
}

/// Wrapping drops no word: every line starts and ends on a non-white
/// character (so a text of white space alone gives no line), every non-white
/// character lies in some line, and a line is no wider than the width
/// (taken as at least 1) unless it is a single character; whatever the
/// characters' widths, so long as none is negative.
pub proof fn law_wrapping_keeps_every_word_within_the_width(text: Seq<char>, widths: Seq<int>, width: usize)
    requires
        text.len() > 0,
        widths.len() == text.len(),
        forall|k: int| 0 <= k < widths.len() ==> #[trigger] widths[k] >= 0,
    ensures
        forall|i: int|
            0 <= i < wrap_spec_with(text, widths, width).len() ==> line_ok(
                text,
                widths,
                if width < 1 {
                    1
                } else {
                    width as int
                },
                #[trigger] wrap_spec_with(text, widths, width)[i],
            ),
        forall|k: int|
            0 <= k < text.len() && !is_whitespace(text[k]) ==> #[trigger] covered(wrap_spec_with(text, widths, width), k),
        (forall|k: int| 0 <= k < text.len() ==> is_whitespace(#[trigger] text[k])) ==> wrap_spec_with(
            text,
            widths,
            width,
        ).len() == 0,
{
    let w = if width < 1 {
        1
    } else {
        width as int
    };
    lemma_wrap_from_lines(text, widths, w, 0);
    lemma_wrap_from_covers(text, widths, w, 0);
    lemma_wrap_from_ranges(text, widths, w, 0);
    let ranges = wrap_spec_with(text, widths, width);
    if (forall|k: int| 0 <= k < text.len() ==> is_whitespace(#[trigger] text[k])) && ranges.len() > 0 {
        assert(0 <= ranges[0].0 < text.len());
        assert(line_ok(text, widths, w, ranges[0]));
        assert(is_whitespace(text[ranges[0].0]));
    }
}

/// What `wrap_words` gives for a non-empty text: each line is exactly the
/// characters of its source range, which is non-empty and starts and ends on
/// a non-white character (so a line is never blank at either end); the
/// ranges run forward without overlapping; every non-white character of the
/// text lies in some line (nothing is dropped or abbreviated); a line is no
/// wider than the width (at least 1) unless it is one character; and a text
/// of white space alone gives no line.
pub proof fn law_wrap_words_keeps_every_word(text: Seq<char>, width: usize)
    requires
        text.len() > 0,
    ensures
        forall|i: int|
            0 <= i < wrapped_lines(text, width).len() ==> {
                let l = #[trigger] wrapped_lines(text, width)[i];
                &&& 0 <= l.1.0 < l.1.1 <= text.len()
                &&& l.0 == text.subrange(l.1.0, l.1.1)
                &&& !is_whitespace(l.0[0])
                &&& !is_whitespace(l.0[l.0.len() - 1])
                &&& (l.0.len() == 1 || width_sum(char_widths(text), l.1.0, l.1.1) <= if width < 1 {
                    1
                } else {
                    width as int
                })
            },
        forall|i: int, j: int|
            0 <= i < j < wrapped_lines(text, width).len() ==> (#[trigger] wrapped_lines(text, width)[i]).1.1 <= (
            #[trigger] wrapped_lines(text, width)[j]).1.0,
        forall|k: int|
            0 <= k < text.len() && !is_whitespace(text[k]) ==> #[trigger] covered(wrap_spec(text, width), k),
        (forall|k: int| 0 <= k < text.len() ==> is_whitespace(#[trigger] text[k])) ==> wrapped_lines(text, width).len()
            == 0,
{
    let widths = char_widths(text);
    assert forall|k: int| 0 <= k < widths.len() implies #[trigger] widths[k] >= 0 by {}
    law_wrapped_lines_are_ordered_slices(text, widths, width);
    law_wrapping_keeps_every_word_within_the_width(text, widths, width);
    let ranges = wrap_spec(text, width);
    let lines = wrapped_lines(text, width);
    let w = if width < 1 {
        1
    } else {
        width as int
    };
    assert forall|i: int| 0 <= i < lines.len() implies {
        let l = #[trigger] lines[i];
        &&& 0 <= l.1.0 < l.1.1 <= text.len()
        &&& l.0 == text.subrange(l.1.0, l.1.1)
        &&& !is_whitespace(l.0[0])
        &&& !is_whitespace(l.0[l.0.len() - 1])
        &&& (l.0.len() == 1 || width_sum(widths, l.1.0, l.1.1) <= w)
    } by {
        let r = ranges[i];
        assert(lines[i] == (text.subrange(r.0, r.1), r));
        assert(line_ok(text, widths, w, r));
    }
    assert forall|i: int, j: int| 0 <= i < j < lines.len() implies (#[trigger] lines[i]).1.1 <= (
    #[trigger] lines[j]).1.0 by {
        assert(lines[i].1 == ranges[i]);
        assert(lines[j].1 == ranges[j]);
    }
}

} // verus!
