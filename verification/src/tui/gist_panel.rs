//! The gist panel's text: what it shows for the selected snippet's gist, in
//! which words and theme roles. Drawing it (widths, truncation, the keys of
//! each action) is left to the interface.
use vstd::prelude::*;

use crate::text::{chars_of, copy_string, eq_chars, eq_lit, push_str};
use crate::tui::command::CommandId;
use crate::tui::gist::GistBadge;
use crate::tui::help::Mode;
use crate::tui::icons::Tone;

verus! {

/// Why the GitHub CLI cannot publish gists.
pub enum GhUnavailable {
    BinaryMissing,
    NotAuthenticated,
    /// Any other failure; the panel does not single it out.
    Failed,
}

/// What the panel reads of a snippet's gist record: its link, whether it is
/// public, and when it was last pushed, as the panel words it.
pub struct GistRecord {
    pub url: String,
    pub public: bool,
    pub pushed: String,
}

/// The selected snippet's title and gist record, if it has one.
pub struct SelectedGist {
    pub title: String,
    pub record: Option<GistRecord>,
}

/// One line of the panel.
#[derive(Debug, PartialEq, Eq)]
pub enum PanelLine {
    Blank,
    /// A field on the key column, its value cut to the width, maybe bold.
    Field { key: String, value: String, bold: bool },
    KeyValue { key: String, value: String },
    /// The gist's state in its theme role.
    State { value: String, tone: Tone },
    Section { label: String },
    /// The keys bound to `command` in `mode`, then what it does.
    Action { mode: Mode, command: CommandId, label: String, primary: bool },
    Note { text: String, tone: Tone },
    CloseFooter,
}

/// A panel line as a spec value.
pub enum PanelView {
    Blank,
    Field { key: Seq<char>, value: Seq<char>, bold: bool },
    KeyValue { key: Seq<char>, value: Seq<char> },
    State { value: Seq<char>, tone: Tone },
    Section { label: Seq<char> },
    Action { mode: Mode, command: CommandId, label: Seq<char>, primary: bool },
    Note { text: Seq<char>, tone: Tone },
    CloseFooter,
}

impl View for PanelLine {
    type V = PanelView;

    open spec fn view(&self) -> PanelView {
        match self {
            PanelLine::Blank => PanelView::Blank,
            PanelLine::Field { key, value, bold } => PanelView::Field { key: key@, value: value@, bold: *bold },
            PanelLine::KeyValue { key, value } => PanelView::KeyValue { key: key@, value: value@ },
            PanelLine::State { value, tone } => PanelView::State { value: value@, tone: *tone },
            PanelLine::Section { label } => PanelView::Section { label: label@ },
            PanelLine::Action { mode, command, label, primary } => PanelView::Action {
                mode: *mode,
                command: *command,
                label: label@,
                primary: *primary,
            },
            PanelLine::Note { text, tone } => PanelView::Note { text: text@, tone: *tone },
            PanelLine::CloseFooter => PanelView::CloseFooter,
        }
    }
}

/// Panel lines as spec values.
pub open spec fn panel_view(lines: Seq<PanelLine>) -> Seq<PanelView> {
    lines.map_values(|l: PanelLine| l@)
}

/// A primary action of the gist mode.
pub open spec fn action(command: CommandId, label: Seq<char>) -> PanelView {
    PanelView::Action { mode: Mode::Gist, command, label, primary: true }
}

/// Why the panel cannot publish, where the CLI is missing or signed out.
pub open spec fn unavailable_reason_spec(u: Option<GhUnavailable>) -> Option<Seq<char>> {
    match u {
        Some(GhUnavailable::BinaryMissing) => Some("gh was not found in PATH."@),
        Some(GhUnavailable::NotAuthenticated) => Some("gh is not authenticated."@),
        _ => None,
    }
}

/// The panel when the CLI cannot be used: why, and how to set it up.
pub open spec fn unavailable_spec(reason: Seq<char>) -> Seq<PanelView> {
    seq![
        PanelView::Blank,
        PanelView::Note { text: "  "@ + reason, tone: Tone::Error },
        PanelView::Blank,
        PanelView::Note { text: "  snip publishes gists through the GitHub CLI."@, tone: Tone::Muted },
        PanelView::Note { text: "  Install it from https://cli.github.com, then run:"@, tone: Tone::Muted },
        PanelView::Blank,
        PanelView::Note { text: "    gh auth login"@, tone: Tone::AccentAlt },
        PanelView::Note { text: "    gh auth refresh -h github.com -s gist"@, tone: Tone::AccentAlt },
        PanelView::Blank,
        PanelView::CloseFooter,
    ]
}

/// The panel for a snippet without a gist (or for no snippet, with an empty
/// title): how to publish it.
pub open spec fn no_record_spec(title: Seq<char>) -> Seq<PanelView> {
    seq![
        PanelView::Blank,
        PanelView::Field { key: "title"@, value: title, bold: true },
        PanelView::KeyValue { key: "gist"@, value: "not published"@ },
        PanelView::Blank,
        PanelView::Section { label: "ACTIONS"@ },
        PanelView::Blank,
        action(CommandId::GistPush, "publish as a secret gist"@),
        action(CommandId::GistPushPublic, "publish as a public gist"@),
        action(CommandId::GistAttach, "link an existing gist…"@),
        PanelView::Blank,
        PanelView::CloseFooter,
    ]
}

/// Whether the last gist error says the gist is gone from GitHub.
pub open spec fn gone(last_error: Option<&str>) -> bool {
    last_error matches Some(e) && e@ == "gist no longer exists on GitHub"@
}

/// The gist's state: missing when GitHub no longer has it, clean when the
/// snippet still matches what was pushed, modified otherwise.
pub open spec fn state_spec(last_error: Option<&str>, badge: Option<GistBadge>) -> (Seq<char>, Tone) {
    if gone(last_error) {
        ("missing"@, Tone::Error)
    } else if badge == Some(GistBadge::Synced) {
        ("clean"@, Tone::BarFg)
    } else {
        ("modified"@, Tone::Warning)
    }
}

/// The panel for a snippet with a gist: its link, visibility, state and
/// push time, and what can be done with it.
pub open spec fn record_spec(title: Seq<char>, record: GistRecord, state: (Seq<char>, Tone)) -> Seq<PanelView> {
    seq![
        PanelView::Blank,
        PanelView::Field { key: "title"@, value: title, bold: true },
        PanelView::Field { key: "url"@, value: record.url@, bold: false },
        PanelView::Blank,
        PanelView::KeyValue {
            key: "visibility"@,
            value: if record.public {
                "public"@
            } else {
                "secret"@
            },
        },
        PanelView::State { value: state.0, tone: state.1 },
        PanelView::KeyValue { key: "pushed"@, value: record.pushed@ },
        PanelView::Blank,
        PanelView::Section { label: "ACTIONS"@ },
        PanelView::Blank,
        action(CommandId::GistPush, "update the gist"@),
        action(CommandId::GistCopyUrl, "copy link"@),
        action(CommandId::GistOpenInBrowser, "open in browser"@),
        PanelView::Blank,
        action(CommandId::GistVerifyRemote, "check it still exists"@),
        action(CommandId::GistDetach, "unlink (keeps the gist)…"@),
        action(CommandId::GistDelete, "delete on GitHub…"@),
        PanelView::Blank,
        PanelView::CloseFooter,
    ]
}

/// The panel's text: the CLI's trouble first, then the selected snippet's
/// gist, or how to publish it.
pub open spec fn panel_spec(
    unavailable: Option<GhUnavailable>,
    selected: Option<SelectedGist>,
    last_error: Option<&str>,
    badge: Option<GistBadge>,
) -> Seq<PanelView> {
    match unavailable_reason_spec(unavailable) {
        Some(reason) => unavailable_spec(reason),
        None => match selected {
            Some(s) => match s.record {
                Some(r) => record_spec(s.title@, r, state_spec(last_error, badge)),
                None => no_record_spec(s.title@),
            },
            None => no_record_spec(Seq::empty()),
        },
    }
}

fn push_line(v: &mut Vec<PanelLine>, line: PanelLine)
    ensures
        panel_view(final(v)@) == panel_view(old(v)@).push(line@),
{
    v.push(line);
    assert(panel_view(v@) =~= panel_view(old(v)@).push(line@));
}

fn note(text: &str, tone: Tone) -> (l: PanelLine)
    ensures
        l@ == (PanelView::Note { text: text@, tone }),
{
    PanelLine::Note { text: copy_string(text), tone }
}

fn field(key: &str, value: &str, bold: bool) -> (l: PanelLine)
    ensures
        l@ == (PanelView::Field { key: key@, value: value@, bold }),
{
    PanelLine::Field { key: copy_string(key), value: copy_string(value), bold }
}

fn key_value(key: &str, value: &str) -> (l: PanelLine)
    ensures
        l@ == (PanelView::KeyValue { key: key@, value: value@ }),
{
    PanelLine::KeyValue { key: copy_string(key), value: copy_string(value) }
}

fn section(label: &str) -> (l: PanelLine)
    ensures
        l@ == (PanelView::Section { label: label@ }),
{
    PanelLine::Section { label: copy_string(label) }
}

fn primary(command: CommandId, label: &str) -> (l: PanelLine)
    ensures
        l@ == action(command, label@),
{
    PanelLine::Action { mode: Mode::Gist, command, label: copy_string(label), primary: true }
}

/// Why the panel cannot publish, where the CLI is missing or signed out.
pub fn unavailable_reason(u: &Option<GhUnavailable>) -> (r: Option<&'static str>)
    ensures
        match unavailable_reason_spec(*u) {
            Some(reason) => r matches Some(t) && t@ == reason,
            None => r is None,
        },
{
    match u {
        Some(GhUnavailable::BinaryMissing) => Some("gh was not found in PATH."),
        Some(GhUnavailable::NotAuthenticated) => Some("gh is not authenticated."),
        _ => None,
    }
}

fn unavailable_text(reason: &str) -> (lines: Vec<PanelLine>)
    ensures
        panel_view(lines@) == unavailable_spec(reason@),
{
    let mut v: Vec<PanelLine> = Vec::new();
    let mut first = copy_string("  ");
    push_str(&mut first, reason);
    push_line(&mut v, PanelLine::Blank);
    push_line(&mut v, PanelLine::Note { text: first, tone: Tone::Error });
    push_line(&mut v, PanelLine::Blank);
    push_line(&mut v, note("  snip publishes gists through the GitHub CLI.", Tone::Muted));
    push_line(&mut v, note("  Install it from https://cli.github.com, then run:", Tone::Muted));
    push_line(&mut v, PanelLine::Blank);
    push_line(&mut v, note("    gh auth login", Tone::AccentAlt));
    push_line(&mut v, note("    gh auth refresh -h github.com -s gist", Tone::AccentAlt));
    push_line(&mut v, PanelLine::Blank);
    push_line(&mut v, PanelLine::CloseFooter);
    assert(panel_view(v@) =~= unavailable_spec(reason@));
    v
}

fn no_record_text(title: &str) -> (lines: Vec<PanelLine>)
    ensures
        panel_view(lines@) == no_record_spec(title@),
{
    let mut v: Vec<PanelLine> = Vec::new();
    push_line(&mut v, PanelLine::Blank);
    push_line(&mut v, field("title", title, true));
    push_line(&mut v, key_value("gist", "not published"));
    push_line(&mut v, PanelLine::Blank);
    push_line(&mut v, section("ACTIONS"));
    push_line(&mut v, PanelLine::Blank);
    push_line(&mut v, primary(CommandId::GistPush, "publish as a secret gist"));
    push_line(&mut v, primary(CommandId::GistPushPublic, "publish as a public gist"));
    push_line(&mut v, primary(CommandId::GistAttach, "link an existing gist…"));
    push_line(&mut v, PanelLine::Blank);
    push_line(&mut v, PanelLine::CloseFooter);
    assert(panel_view(v@) =~= no_record_spec(title@));
    v
}

/// The gist's state and the theme role it is drawn in.
pub fn gist_state(last_error: Option<&str>, badge: Option<GistBadge>) -> (r: (&'static str, Tone))
    ensures
        r.0@ == state_spec(last_error, badge).0,
        r.1 == state_spec(last_error, badge).1,
{
    let gone = match last_error {
        Some(e) => {
            let chars = chars_of(e);
            eq_lit(chars.as_slice(), "gist no longer exists on GitHub")
        },
        None => false,
    };
    if gone {
        ("missing", Tone::Error)
    } else {
        match badge {
            Some(GistBadge::Synced) => ("clean", Tone::BarFg),
            _ => ("modified", Tone::Warning),
        }
    }
}

fn record_text(title: &str, record: &GistRecord, last_error: Option<&str>, badge: Option<GistBadge>) -> (lines:
    Vec<PanelLine>)
    ensures
        panel_view(lines@) == record_spec(title@, *record, state_spec(last_error, badge)),
{
    let (state, tone) = gist_state(last_error, badge);
    let mut v: Vec<PanelLine> = Vec::new();
    push_line(&mut v, PanelLine::Blank);
    push_line(&mut v, field("title", title, true));
    push_line(&mut v, field("url", record.url.as_str(), false));
    push_line(&mut v, PanelLine::Blank);
    let visibility = if record.public {
        "public"
    } else {
        "secret"
    };
    push_line(&mut v, key_value("visibility", visibility));
    push_line(&mut v, PanelLine::State { value: copy_string(state), tone });
    push_line(&mut v, key_value("pushed", record.pushed.as_str()));
    push_line(&mut v, PanelLine::Blank);
    push_line(&mut v, section("ACTIONS"));
    push_line(&mut v, PanelLine::Blank);
    push_line(&mut v, primary(CommandId::GistPush, "update the gist"));
    push_line(&mut v, primary(CommandId::GistCopyUrl, "copy link"));
    push_line(&mut v, primary(CommandId::GistOpenInBrowser, "open in browser"));
    push_line(&mut v, PanelLine::Blank);
    push_line(&mut v, primary(CommandId::GistVerifyRemote, "check it still exists"));
    push_line(&mut v, primary(CommandId::GistDetach, "unlink (keeps the gist)…"));
    push_line(&mut v, primary(CommandId::GistDelete, "delete on GitHub…"));
    push_line(&mut v, PanelLine::Blank);
    push_line(&mut v, PanelLine::CloseFooter);
    assert(panel_view(v@) =~= record_spec(title@, *record, state_spec(last_error, badge)));
    v
}

/// The gist panel's lines, from the CLI's availability, the selected
/// snippet, the last gist error and the snippet's badge.
pub fn gist_panel_text(
    unavailable: &Option<GhUnavailable>,
    selected: &Option<SelectedGist>,
    last_error: Option<&str>,
    badge: Option<GistBadge>,
) -> (lines: Vec<PanelLine>)
    ensures
        panel_view(lines@) == panel_spec(*unavailable, *selected, last_error, badge),
{
    match unavailable_reason(unavailable) {
        Some(reason) => unavailable_text(reason),
        None => match selected {
            Some(s) => match &s.record {
                Some(r) => record_text(s.title.as_str(), r, last_error, badge),
                None => no_record_text(s.title.as_str()),
            },
            None => {
                let lines = no_record_text("");
                assert(""@ =~= Seq::<char>::empty()) by {
                    reveal_strlit("");
                }
                lines
            },
        },
    }
}

/// The labels in their first order, each once.
pub open spec fn distinct_labels(labels: Seq<Seq<char>>) -> Seq<Seq<char>>
    decreases labels.len(),
{
    if labels.len() == 0 {
        Seq::empty()
    } else {
        let earlier = distinct_labels(labels.drop_last());
        if earlier.contains(labels.last()) {
            earlier
        } else {
            earlier.push(labels.last())
        }
    }
}

/// The labels joined by `sep`.
pub open spec fn joined(labels: Seq<Seq<char>>, sep: Seq<char>) -> Seq<char>
    decreases labels.len(),
{
    if labels.len() == 0 {
        Seq::empty()
    } else if labels.len() == 1 {
        labels[0]
    } else {
        joined(labels.drop_last(), sep) + sep + labels.last()
    }
}

/// The strings as spec values.
pub open spec fn texts(v: Seq<String>) -> Seq<Seq<char>> {
    v.map_values(|s: String| s@)
}

/// How an action's keys read: the chord labels of its bindings, each once
/// and in their first order, between slashes; a dash when nothing is bound.
pub open spec fn binding_label_spec(chords: Seq<Seq<char>>) -> Seq<char> {
    let labels = distinct_labels(chords);
    if labels.len() == 0 {
        "—"@
    } else {
        joined(labels, " / "@)
    }
}

/// How an action's keys read, from the chord labels of its bindings in the
/// order the keymap lists them.
pub fn binding_label(chords: &Vec<String>) -> (r: String)
    ensures
        r@ == binding_label_spec(texts(chords@)),
{
    let mut labels: Vec<Vec<char>> = Vec::new();
    let mut i: usize = 0;
    while i < chords.len()
        invariant
            i <= chords.len(),
            labels@.map_values(|l: Vec<char>| l@) == distinct_labels(texts(chords@).take(i as int)),
        decreases chords.len() - i,
    {
        let label = chars_of(chords[i].as_str());
        let ghost seen = labels@.map_values(|l: Vec<char>| l@);
        let mut found = false;
        let mut j: usize = 0;
        while j < labels.len()
            invariant
                j <= labels.len(),
                seen == labels@.map_values(|l: Vec<char>| l@),
                found == (exists|k: int| 0 <= k < j && seen[k] == label@),
            decreases labels.len() - j,
        {
            let same = eq_chars(labels[j].as_slice(), label.as_slice());
            proof {
                assert(seen[j as int] == labels@[j as int]@);
                if !same && !found {
                    assert forall|k: int| 0 <= k < j + 1 implies seen[k] != label@ by {
                        if k < j {
                            assert(!(0 <= k < j && seen[k] == label@));
                        }
                    }
                }
            }
            if same {
                found = true;
            }
            j = j + 1;
        }
        proof {
            let prefix = texts(chords@).take(i as int);
            let next = texts(chords@).take(i + 1);
            assert(next.drop_last() =~= prefix);
            assert(next.last() == label@);
            if found {
                let k = choose|k: int| 0 <= k < j && seen[k] == label@;
                assert(seen.contains(label@));
            } else {
                assert(!seen.contains(label@));
            }
        }
        if !found {
            labels.push(label);
            proof {
                assert(labels@.map_values(|l: Vec<char>| l@) =~= seen.push(label@));
            }
        }
        i = i + 1;
    }
    assert(texts(chords@).take(chords.len() as int) =~= texts(chords@));
    let ghost all = labels@.map_values(|l: Vec<char>| l@);
    if labels.len() == 0 {
        return copy_string("—");
    }
    let mut out = String::new();
    let mut k: usize = 0;
    while k < labels.len()
        invariant
            k <= labels.len(),
            all == labels@.map_values(|l: Vec<char>| l@),
            out@ == joined(all.take(k as int), " / "@),
        decreases labels.len() - k,
    {
        if k > 0 {
            push_str(&mut out, " / ");
        }
        let ghost before = out@;
        let mut m: usize = 0;
        while m < labels[k].len()
            invariant
                k < labels.len(),
                m <= labels[k as int].len(),
                out@ == before + labels[k as int]@.take(m as int),
            decreases labels[k as int].len() - m,
        {
            crate::text::push_char(&mut out, labels[k][m]);
            assert(before + labels[k as int]@.take(m + 1) =~= (before + labels[k as int]@.take(m as int)).push(
                labels[k as int]@[m as int],
            ));
            m = m + 1;
        }
        proof {
            assert(labels[k as int]@.take(m as int) =~= labels[k as int]@);
            let next = all.take(k + 1);
            assert(next.drop_last() =~= all.take(k as int));
            assert(next.last() == all[k as int]);
            if k == 0 {
                assert(""@ =~= Seq::<char>::empty()) by {
                    reveal_strlit("");
                }
                assert(before =~= Seq::<char>::empty());
                assert(out@ =~= joined(next, " / "@));
            } else {
                assert(out@ =~= joined(next, " / "@));
            }
        }
        k = k + 1;
    }
    assert(all.take(labels.len() as int) =~= all);
    out
}

} // verus!
