//! The bottom bar while something owns the keyboard or has news: an input
//! prompt, a confirmation, a picker, the search field or a status message;
//! what it reads, in which theme roles, and where the cursor stands. When
//! none of them is there the bar shows the key shortcuts instead.
use vstd::prelude::*;

use crate::text::{copy_string, push_str};
use crate::tui::icons::Tone;

verus! {

/// What owns the bottom bar.
pub enum BarState {
    /// A text prompt: its label, what was typed, the cursor (in characters)
    /// and the error the last attempt raised, if any.
    Input { label: String, value: String, cursor: usize, error: Option<String> },
    /// A yes/no question.
    Confirm,
    /// A list to pick from, with the filter typed so far.
    Picker { filter: String },
    /// The search field, with the query typed so far.
    Search { query: String },
    /// A status message, an error or not.
    Status { text: String, failed: bool },
    /// Nothing: the bar shows the shortcuts.
    Shortcuts,
}

/// One piece of the bar: its text, its theme role, and whether it is bold.
#[derive(Debug, PartialEq, Eq)]
pub struct BarSegment {
    pub text: String,
    pub tone: Tone,
    pub bold: bool,
}

/// A piece of the bar, as spec values.
pub struct SegmentView {
    pub text: Seq<char>,
    pub tone: Tone,
    pub bold: bool,
}

impl View for BarSegment {
    type V = SegmentView;

    open spec fn view(&self) -> SegmentView {
        SegmentView { text: self.text@, tone: self.tone, bold: self.bold }
    }
}

/// Pieces, as spec values.
pub open spec fn segments_view(s: Seq<BarSegment>) -> Seq<SegmentView> {
    s.map_values(|x: BarSegment| x@)
}

/// A piece of plain text.
pub open spec fn seg(text: Seq<char>, tone: Tone, bold: bool) -> SegmentView {
    SegmentView { text, tone, bold }
}

/// The column the cursor stands in: `offset` columns into a bar from
/// `x` to `right`, but never past its last column.
pub open spec fn cursor_column(x: u16, right: u16, offset: int) -> int {
    let wanted = if x + offset > u16::MAX {
        u16::MAX as int
    } else {
        x + offset
    };
    let last = if right >= 1 {
        right - 1
    } else {
        0
    };
    if wanted < last {
        wanted
    } else {
        last
    }
}

/// What the bar shows, and where its cursor stands (where there is one):
/// a prompt's label and value (and its error), with the cursor after the
/// label and the characters before it; the keys that confirm and cancel; a
/// picker's filter and keys; the search query with the cursor after it;
/// a status message after a dot in its colour. Nothing for the shortcuts.
pub open spec fn bar_spec(state: BarState, x: u16, right: u16) -> (Seq<SegmentView>, Option<int>) {
    match state {
        BarState::Input { label, value, cursor, error } => {
            let prefix = label@ + ": "@;
            let before = if cursor < value@.len() {
                cursor as int
            } else {
                value@.len() as int
            };
            (
                seq![seg(prefix, Tone::Accent, true), seg(value@, Tone::BarFg, false)] + match error {
                    Some(e) => seq![seg("  ● "@, Tone::Error, false), seg(e@, Tone::Error, false)],
                    None => Seq::empty(),
                },
                Some(cursor_column(x, right, prefix.len() + before)),
            )
        },
        BarState::Confirm => (
            seq![
                seg("y/Enter"@, Tone::Accent, true),
                seg(" confirm  "@, Tone::Muted, false),
                seg("n/Esc"@, Tone::Accent, true),
                seg(" cancel"@, Tone::Muted, false),
            ],
            None,
        ),
        BarState::Picker { filter } => (
            seq![
                seg("/ "@, Tone::Accent, false),
                seg(filter@, Tone::BarFg, false),
                seg("  ↑/↓ move  Enter select  Esc cancel"@, Tone::Muted, false),
            ],
            None,
        ),
        BarState::Search { query } => (
            seq![seg("/ "@, Tone::Warning, true), seg(query@, Tone::BarFg, false)],
            Some(cursor_column(x, right, (query@.len() + 2) as int)),
        ),
        BarState::Status { text, failed } => (
            seq![
                seg("● "@, if failed {
                    Tone::Error
                } else {
                    Tone::Success
                }, false),
                seg(text@, Tone::BarFg, false),
            ],
            None,
        ),
        BarState::Shortcuts => (Seq::empty(), None),
    }
}

/// Appends a piece.
fn push_segment(v: &mut Vec<BarSegment>, text: String, tone: Tone, bold: bool)
    ensures
        segments_view(final(v)@) == segments_view(old(v)@).push(seg(text@, tone, bold)),
{
    v.push(BarSegment { text, tone, bold });
    assert(segments_view(v@) =~= segments_view(old(v)@).push(seg(text@, tone, bold)));
}

/// The cursor's column.
fn cursor_at(x: u16, right: u16, offset: usize) -> (c: u16)
    ensures
        c == cursor_column(x, right, offset as int),
{
    let wanted: u16 = if (x as u128) + (offset as u128) > 65535 {
        65535
    } else {
        ((x as u128) + (offset as u128)) as u16
    };
    let last = right.saturating_sub(1);
    if wanted < last {
        wanted
    } else {
        last
    }
}

/// What the bar shows for `state`, drawn from column `x` to `right`, and
/// its cursor's column.
pub fn bar_segments(state: &BarState, x: u16, right: u16) -> (r: (Vec<BarSegment>, Option<u16>))
    ensures
        segments_view(r.0@) == bar_spec(*state, x, right).0,
        match (r.1, bar_spec(*state, x, right).1) {
            (Some(c), Some(d)) => c == d,
            (None, None) => true,
            _ => false,
        },
{
    let mut v: Vec<BarSegment> = Vec::new();
    match state {
        BarState::Input { label, value, cursor, error } => {
            let mut prefix = copy_string(label.as_str());
            push_str(&mut prefix, ": ");
            let prefix_len = prefix.unicode_len();
            let value_len = value.unicode_len();
            let before = if *cursor < value_len {
                *cursor
            } else {
                value_len
            };
            push_segment(&mut v, prefix, Tone::Accent, true);
            push_segment(&mut v, copy_string(value.as_str()), Tone::BarFg, false);
            match error {
                Some(e) => {
                    push_segment(&mut v, copy_string("  ● "), Tone::Error, false);
                    push_segment(&mut v, copy_string(e.as_str()), Tone::Error, false);
                },
                None => {},
            }
            let offset: usize = if prefix_len <= usize::MAX - before {
                prefix_len + before
            } else {
                usize::MAX
            };
            let c = cursor_at(x, right, offset);
            assert(segments_view(v@) =~= bar_spec(*state, x, right).0);
            (v, Some(c))
        },
        BarState::Confirm => {
            push_segment(&mut v, copy_string("y/Enter"), Tone::Accent, true);
            push_segment(&mut v, copy_string(" confirm  "), Tone::Muted, false);
            push_segment(&mut v, copy_string("n/Esc"), Tone::Accent, true);
            push_segment(&mut v, copy_string(" cancel"), Tone::Muted, false);
            assert(segments_view(v@) =~= bar_spec(*state, x, right).0);
            (v, None)
        },
        BarState::Picker { filter } => {
            push_segment(&mut v, copy_string("/ "), Tone::Accent, false);
            push_segment(&mut v, copy_string(filter.as_str()), Tone::BarFg, false);
            push_segment(&mut v, copy_string("  ↑/↓ move  Enter select  Esc cancel"), Tone::Muted, false);
            assert(segments_view(v@) =~= bar_spec(*state, x, right).0);
            (v, None)
        },
        BarState::Search { query } => {
            push_segment(&mut v, copy_string("/ "), Tone::Warning, true);
            push_segment(&mut v, copy_string(query.as_str()), Tone::BarFg, false);
            let n = query.unicode_len();
            let offset: usize = if n <= usize::MAX - 2 {
                n + 2
            } else {
                usize::MAX
            };
            let c = cursor_at(x, right, offset);
            assert(segments_view(v@) =~= bar_spec(*state, x, right).0);
            (v, Some(c))
        },
        BarState::Status { text, failed } => {
            push_segment(&mut v, copy_string("● "), if *failed {
                Tone::Error
            } else {
                Tone::Success
            }, false);
            push_segment(&mut v, copy_string(text.as_str()), Tone::BarFg, false);
            assert(segments_view(v@) =~= bar_spec(*state, x, right).0);
            (v, None)
        },
        BarState::Shortcuts => {
            assert(segments_view(v@) =~= Seq::<SegmentView>::empty());
            (v, None)
        },
    }
}

} // verus!
