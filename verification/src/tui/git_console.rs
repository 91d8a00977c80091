//! The git console's text: which lines it shows for the library's
//! repository, in which words and theme roles, the section rules and the
//! repository footer's key hints laid out for the console's width. Cutting
//! long values to the width, and the heads' relationship lines, are left to
//! the interface that draws them.
use vstd::prelude::*;

use crate::text::{copy_string, decimal, decimal_string, push_char, push_str};
use crate::tui::git_panel::{
    branch_text, branch_text_spec, sync_verdict, sync_verdict_spec, Branch, Commit, GitState, RepoState, Status,
    Unavailable,
};
use crate::tui::icons::Tone;

verus! {

/// One line of the console.
#[derive(Debug, PartialEq, Eq)]
pub enum ConsoleLine {
    /// The library's name as the console's title.
    Title { name: String },
    Blank,
    /// A section rule with its label (its text is `section_rule`'s).
    Section { label: String },
    /// The verdict, after a dot, in its theme role.
    Verdict { text: String, tone: Tone },
    /// The local head, the arrow between the heads, and the remote head,
    /// which is to be cut to `remote_width` columns (and is empty where none
    /// is left).
    Relationship { local: String, arrow: String, remote: String, remote_width: usize },
    /// How long ago the local and remote heads were made.
    RelationshipTime,
    KeyValue { key: String, value: String },
    Checkbox { checked: bool, key: String, label: String },
    /// `prefix` and then `text`, cut to `limit` columns where there is one.
    Note { prefix: String, text: String, limit: Option<usize>, tone: Tone, bold: bool },
    BasicFooter,
    InitFooter,
    /// The key hints of `repository_footer`.
    RepositoryFooter,
}

/// A console line as a spec value.
pub enum LineView {
    Title { name: Seq<char> },
    Blank,
    Section { label: Seq<char> },
    Verdict { text: Seq<char>, tone: Tone },
    Relationship { local: Seq<char>, arrow: Seq<char>, remote: Seq<char>, remote_width: usize },
    RelationshipTime,
    KeyValue { key: Seq<char>, value: Seq<char> },
    Checkbox { checked: bool, key: Seq<char>, label: Seq<char> },
    Note { prefix: Seq<char>, text: Seq<char>, limit: Option<usize>, tone: Tone, bold: bool },
    BasicFooter,
    InitFooter,
    RepositoryFooter,
}

impl View for ConsoleLine {
    type V = LineView;

    open spec fn view(&self) -> LineView {
        match self {
            ConsoleLine::Title { name } => LineView::Title { name: name@ },
            ConsoleLine::Blank => LineView::Blank,
            ConsoleLine::Section { label } => LineView::Section { label: label@ },
            ConsoleLine::Verdict { text, tone } => LineView::Verdict { text: text@, tone: *tone },
            ConsoleLine::Relationship { local, arrow, remote, remote_width } => LineView::Relationship {
                local: local@,
                arrow: arrow@,
                remote: remote@,
                remote_width: *remote_width,
            },
            ConsoleLine::RelationshipTime => LineView::RelationshipTime,
            ConsoleLine::KeyValue { key, value } => LineView::KeyValue { key: key@, value: value@ },
            ConsoleLine::Checkbox { checked, key, label } => LineView::Checkbox {
                checked: *checked,
                key: key@,
                label: label@,
            },
            ConsoleLine::Note { prefix, text, limit, tone, bold } => LineView::Note {
                prefix: prefix@,
                text: text@,
                limit: *limit,
                tone: *tone,
                bold: *bold,
            },
            ConsoleLine::BasicFooter => LineView::BasicFooter,
            ConsoleLine::InitFooter => LineView::InitFooter,
            ConsoleLine::RepositoryFooter => LineView::RepositoryFooter,
        }
    }
}

/// Console lines as spec values.
pub open spec fn lines_view(lines: Seq<ConsoleLine>) -> Seq<LineView> {
    lines.map_values(|l: ConsoleLine| l@)
}

/// A line of text in a theme role, uncut and not bold.
pub open spec fn plain(text: Seq<char>, tone: Tone) -> LineView {
    LineView::Note { prefix: Seq::empty(), text, limit: None, tone, bold: false }
}

/// A key and its value.
pub open spec fn kv(key: Seq<char>, value: Seq<char>) -> LineView {
    LineView::KeyValue { key, value }
}

/// The value's text, or `fallback` where there is none.
pub open spec fn or_text(value: Option<String>, fallback: Seq<char>) -> Seq<char> {
    match value {
        Some(v) => v@,
        None => fallback,
    }
}

/// What the network row says: a pull, a fetch, a push that has run for over
/// three minutes, a push, or nothing running.
pub open spec fn network_text(git: GitState) -> Seq<char> {
    if git.pull_in_flight {
        "pulling…"@
    } else if git.fetch_in_flight {
        "fetching remote status…"@
    } else if git.push_in_flight && (git.push_running_nanos matches Some(n) && n > 180_000_000_000) {
        "background push stalled"@
    } else if git.push_in_flight {
        "pushing…"@
    } else {
        "idle"@
    }
}

/// The counts of staged, modified and new files.
pub open spec fn changes_text(s: Status) -> Seq<char> {
    decimal(s.staged as nat) + " staged · "@ + decimal(s.unstaged as nat) + " modified · "@ + decimal(
        s.untracked as nat,
    ) + " new"@
}

/// The automatic-commit checkbox's label.
pub open spec fn interval_text(minutes: u32) -> Seq<char> {
    if minutes > 0 {
        "commit every "@ + decimal(minutes as nat) + " min"@
    } else {
        "automatic commits off"@
    }
}

/// A head commit's id, or "none".
pub open spec fn head_id(commit: Option<Commit>) -> Seq<char> {
    match commit {
        Some(c) => c.short_id@,
        None => "none"@,
    }
}

/// The arrow between the heads: which side has commits the other lacks.
pub open spec fn arrow_text(ahead: u32, behind: u32) -> Seq<char> {
    if ahead > 0 && behind > 0 {
        " ◀─▶ "@
    } else if ahead > 0 {
        " ──▶ "@
    } else if behind > 0 {
        " ◀── "@
    } else {
        " ─── "@
    }
}

/// The heads' line in `width` columns: "local" and the local head, the
/// arrow (five columns), and the upstream (or "remote") with its head, left
/// what columns remain (the ids and words are ASCII, a column a character).
pub open spec fn relationship_spec(s: Status, width: usize) -> LineView {
    let local = "local "@ + head_id(s.last_commit);
    let remote = or_text(s.upstream, "remote"@) + " "@ + head_id(s.upstream_commit);
    let limit: usize = if local.len() + 5 <= width {
        (width - local.len() - 5) as usize
    } else {
        0
    };
    LineView::Relationship {
        local,
        arrow: arrow_text(s.ahead, s.behind),
        remote: if limit == 0 {
            Seq::empty()
        } else {
            remote
        },
        remote_width: limit,
    }
}

/// The verdict, the heads, the worktree and the automation sections.
pub open spec fn overview_spec(git: GitState, s: Status, width: usize) -> Seq<LineView> {
    seq![
        LineView::Verdict { text: sync_verdict_spec(s).0, tone: sync_verdict_spec(s).1 },
        relationship_spec(s, width),
        LineView::RelationshipTime,
        LineView::Blank,
        LineView::Section { label: "WORKTREE"@ },
        kv("branch"@, branch_text_spec(s.branch)),
        kv("remote"@, or_text(s.upstream, "none"@)),
        kv("changes"@, changes_text(s)),
        kv("last fetch"@, or_text(git.last_fetch, "not fetched this session"@)),
        LineView::Blank,
        LineView::Section { label: "AUTOMATION"@ },
        LineView::Checkbox {
            checked: git.auto_commit_interval > 0,
            key: "i"@,
            label: interval_text(git.auto_commit_interval),
        },
        LineView::Checkbox { checked: git.auto_push, key: "u"@, label: "push after commit"@ },
        LineView::Checkbox { checked: git.auto_pull, key: "U"@, label: "pull on start"@ },
        LineView::Checkbox { checked: git.backup_on_quit, key: "o"@, label: "backup on quit"@ },
        kv(
            "session"@,
            if git.auto_backup_paused {
                "paused (a to resume)"@
            } else {
                "active (a to pause)"@
            },
        ),
        kv("network"@, network_text(git)),
    ]
}

/// A row for an error of an automatic task, where there is one.
pub open spec fn error_row(key: Seq<char>, error: Option<String>) -> Seq<LineView> {
    match error {
        Some(e) => seq![kv(key, e@)],
        None => Seq::empty(),
    }
}

/// The rows for the last commit, push and fetch errors.
pub open spec fn errors_spec(git: GitState) -> Seq<LineView> {
    error_row("commit error"@, git.last_commit_error) + error_row("push error"@, git.last_push_error)
        + error_row("fetch error"@, git.last_fetch_error)
}

/// A conflicted path: indented, cut to 46 columns.
pub open spec fn conflict_path(path: Seq<char>) -> LineView {
    LineView::Note { prefix: "    "@, text: path, limit: Some(46), tone: Tone::Muted, bold: false }
}

/// The conflicted paths, the first five of them, and how many more there are.
pub open spec fn conflicts_spec(paths: Seq<String>) -> Seq<LineView> {
    let n = paths.len();
    seq![plain("  conflicts in "@ + decimal(n) + " files"@, Tone::Error)] + Seq::new(
        if n < 5 {
            n
        } else {
            5
        },
        |i: int| conflict_path(paths[i]@),
    ) + if n > 5 {
        seq![plain("    … and "@ + decimal((n - 5) as nat) + " more"@, Tone::Muted)]
    } else {
        Seq::empty()
    }
}

/// The attention section: shown for an operation in progress, a detached
/// HEAD or conflicts, and naming each of them.
pub open spec fn attention_spec(s: Status) -> Seq<LineView> {
    if s.conflicted@.len() > 0 || s.branch is Detached || s.state is InProgress {
        seq![LineView::Blank, LineView::Section { label: "ATTENTION"@ }] + (if s.state is InProgress {
            seq![plain("  repository is in "@ + s.state->label@ + " state"@, Tone::Warning)]
        } else {
            Seq::empty()
        }) + (if s.branch is Detached {
            seq![plain("  HEAD is detached"@, Tone::Warning)]
        } else {
            Seq::empty()
        }) + (if s.conflicted@.len() > 0 {
            conflicts_spec(s.conflicted@)
        } else {
            Seq::empty()
        })
    } else {
        Seq::empty()
    }
}

/// The last status error, cut to the width, after a blank line.
pub open spec fn trailing_error_spec(git: GitState, width: usize) -> Seq<LineView> {
    match git.error {
        Some(e) => seq![
            LineView::Blank,
            LineView::Note { prefix: Seq::empty(), text: e@, limit: Some(width), tone: Tone::Error, bold: false },
        ],
        None => Seq::empty(),
    }
}

/// The console for a repository whose status was read.
pub open spec fn repository_spec(git: GitState, s: Status, width: usize) -> Seq<LineView> {
    overview_spec(git, s, width) + errors_spec(git) + attention_spec(s) + trailing_error_spec(git, width) + seq![
        LineView::RepositoryFooter,
    ]
}

/// The console for a repository whose status was not read (yet).
pub open spec fn no_status_spec(git: GitState, name: Seq<char>) -> Seq<LineView> {
    seq![
        LineView::Title { name },
        LineView::Blank,
        LineView::Section { label: "REPOSITORY"@ },
        LineView::Blank,
        plain(or_text(git.error, "Git status is not available yet."@), Tone::Error),
        LineView::Blank,
        LineView::BasicFooter,
    ]
}

/// `width` less two, or 0.
pub open spec fn inner_width(width: usize) -> usize {
    if width >= 2 {
        (width - 2) as usize
    } else {
        0
    }
}

/// The console for a library that is not a git repository: its root, and
/// how to make it one.
pub open spec fn not_repository_spec(name: Seq<char>, root: Seq<char>, width: usize) -> Seq<LineView> {
    seq![
        LineView::Title { name },
        LineView::Blank,
        LineView::Section { label: "REPOSITORY"@ },
        LineView::Blank,
        plain("  This library is not a git repository."@, Tone::Muted),
        LineView::Blank,
        LineView::Note { prefix: "  "@, text: root, limit: Some(inner_width(width)), tone: Tone::BarFg, bold: false },
        LineView::Blank,
        plain("  snip already wrote a .gitignore here."@, Tone::Muted),
        plain("  To enable backups, run:"@, Tone::Muted),
        LineView::Blank,
        LineView::Note { prefix: Seq::empty(), text: "      git init"@, limit: None, tone: Tone::Accent, bold: true },
        plain("  Or initialize it here:"@, Tone::Muted),
        LineView::Blank,
        LineView::InitFooter,
    ]
}

/// The console when git could not inspect the library, with git's message.
pub open spec fn probe_failed_spec(name: Seq<char>, message: Seq<char>, width: usize) -> Seq<LineView> {
    seq![
        LineView::Title { name },
        LineView::Blank,
        LineView::Section { label: "REPOSITORY"@ },
        LineView::Blank,
        plain("  Git could not inspect this library."@, Tone::Error),
        LineView::Blank,
        LineView::Note { prefix: "  "@, text: message, limit: Some(inner_width(width)), tone: Tone::Muted, bold: false },
        LineView::Blank,
        LineView::BasicFooter,
    ]
}

/// The console's text: for a library that is not a repository, for a failed
/// probe, and otherwise (git missing included) for the repository.
pub open spec fn console_spec(git: GitState, name: Seq<char>, root: Seq<char>, width: usize) -> Seq<LineView> {
    match git.unavailable {
        Some(Unavailable::NotARepository) => not_repository_spec(name, root, width),
        Some(Unavailable::ProbeFailed { message }) => probe_failed_spec(name, message@, width),
        _ => match git.status {
            Some(s) => repository_spec(git, s, width),
            None => no_status_spec(git, name),
        },
    }
}

/// The console's content width in a terminal `area_width` columns wide: the
/// popup is at most 64 columns, less its borders and padding.
pub open spec fn content_width_spec(area_width: u16) -> usize {
    let popup = if area_width < 64 {
        area_width as int
    } else {
        64
    };
    if popup >= 10 {
        (popup - 10) as usize
    } else {
        0
    }
}

/// The console's content width in a terminal `area_width` columns wide.
pub fn content_width(area_width: u16) -> (w: usize)
    ensures
        w == content_width_spec(area_width),
{
    let popup: u16 = if area_width < 64 {
        area_width
    } else {
        64
    };
    if popup >= 10 {
        (popup - 10) as usize
    } else {
        0
    }
}

/// Appends a line.
fn push_line(v: &mut Vec<ConsoleLine>, line: ConsoleLine)
    ensures
        lines_view(final(v)@) == lines_view(old(v)@).push(line@),
{
    v.push(line);
    assert(lines_view(v@) =~= lines_view(old(v)@).push(line@));
}

fn title(name: &str) -> (l: ConsoleLine)
    ensures
        l@ == (LineView::Title { name: name@ }),
{
    ConsoleLine::Title { name: copy_string(name) }
}

fn section(label: &str) -> (l: ConsoleLine)
    ensures
        l@ == (LineView::Section { label: label@ }),
{
    ConsoleLine::Section { label: copy_string(label) }
}

fn key_value(key: &str, value: String) -> (l: ConsoleLine)
    ensures
        l@ == kv(key@, value@),
{
    ConsoleLine::KeyValue { key: copy_string(key), value }
}

fn checkbox(checked: bool, key: &str, label: String) -> (l: ConsoleLine)
    ensures
        l@ == (LineView::Checkbox { checked, key: key@, label: label@ }),
{
    ConsoleLine::Checkbox { checked, key: copy_string(key), label }
}

fn note(prefix: &str, text: String, limit: Option<usize>, tone: Tone, bold: bool) -> (l: ConsoleLine)
    ensures
        l@ == (LineView::Note { prefix: prefix@, text: text@, limit, tone, bold }),
{
    ConsoleLine::Note { prefix: copy_string(prefix), text, limit, tone, bold }
}

fn plain_line(text: String, tone: Tone) -> (l: ConsoleLine)
    ensures
        l@ == plain(text@, tone),
{
    let l = note("", text, None, tone, false);
    assert(""@ =~= Seq::<char>::empty()) by {
        reveal_strlit("");
    }
    l
}

/// A copy of the text, or of `fallback` where there is none.
fn text_or(value: &Option<String>, fallback: &str) -> (r: String)
    ensures
        r@ == or_text(*value, fallback@),
{
    match value {
        Some(v) => copy_string(v.as_str()),
        None => copy_string(fallback),
    }
}

/// What the network row says.
pub fn network(git: &GitState) -> (r: String)
    ensures
        r@ == network_text(*git),
{
    if git.pull_in_flight {
        copy_string("pulling…")
    } else if git.fetch_in_flight {
        copy_string("fetching remote status…")
    } else if git.push_in_flight && match git.push_running_nanos {
        Some(n) => n > 180_000_000_000,
        None => false,
    } {
        copy_string("background push stalled")
    } else if git.push_in_flight {
        copy_string("pushing…")
    } else {
        copy_string("idle")
    }
}

fn changes(s: &Status) -> (r: String)
    ensures
        r@ == changes_text(*s),
{
    let mut text = decimal_string(s.staged as u64);
    push_str(&mut text, " staged · ");
    let unstaged = decimal_string(s.unstaged as u64);
    push_str(&mut text, unstaged.as_str());
    push_str(&mut text, " modified · ");
    let untracked = decimal_string(s.untracked as u64);
    push_str(&mut text, untracked.as_str());
    push_str(&mut text, " new");
    text
}

fn interval(minutes: u32) -> (r: String)
    ensures
        r@ == interval_text(minutes),
{
    if minutes > 0 {
        let mut text = copy_string("commit every ");
        let digits = decimal_string(minutes as u64);
        push_str(&mut text, digits.as_str());
        push_str(&mut text, " min");
        text
    } else {
        copy_string("automatic commits off")
    }
}

/// A copy of a head commit's id, or "none".
fn head(commit: &Option<Commit>) -> (r: String)
    ensures
        r@ == head_id(*commit),
{
    match commit {
        Some(c) => copy_string(c.short_id.as_str()),
        None => copy_string("none"),
    }
}

/// The heads' line in `width` columns.
fn relationship(s: &Status, width: usize) -> (l: ConsoleLine)
    ensures
        l@ == relationship_spec(*s, width),
{
    let mut local = copy_string("local ");
    let id = head(&s.last_commit);
    push_str(&mut local, id.as_str());
    let arrow = copy_string(
        if s.ahead > 0 && s.behind > 0 {
            " ◀─▶ "
        } else if s.ahead > 0 {
            " ──▶ "
        } else if s.behind > 0 {
            " ◀── "
        } else {
            " ─── "
        },
    );
    let n = local.unicode_len();
    let limit: usize = if n <= width && width - n >= 5 {
        width - n - 5
    } else {
        0
    };
    let remote = if limit == 0 {
        String::new()
    } else {
        let mut r = text_or(&s.upstream, "remote");
        push_str(&mut r, " ");
        let upstream_id = head(&s.upstream_commit);
        push_str(&mut r, upstream_id.as_str());
        r
    };
    ConsoleLine::Relationship { local, arrow, remote, remote_width: limit }
}

fn push_overview(v: &mut Vec<ConsoleLine>, git: &GitState, s: &Status, width: usize)
    ensures
        lines_view(final(v)@) == lines_view(old(v)@) + overview_spec(*git, *s, width),
{
    let ghost start = lines_view(v@);
    let (verdict, tone) = sync_verdict(s);
    push_line(v, ConsoleLine::Verdict { text: verdict, tone });
    push_line(v, relationship(s, width));
    push_line(v, ConsoleLine::RelationshipTime);
    push_line(v, ConsoleLine::Blank);
    push_line(v, section("WORKTREE"));
    push_line(v, key_value("branch", branch_text(&s.branch)));
    push_line(v, key_value("remote", text_or(&s.upstream, "none")));
    push_line(v, key_value("changes", changes(s)));
    push_line(v, key_value("last fetch", text_or(&git.last_fetch, "not fetched this session")));
    push_line(v, ConsoleLine::Blank);
    push_line(v, section("AUTOMATION"));
    push_line(v, checkbox(git.auto_commit_interval > 0, "i", interval(git.auto_commit_interval)));
    push_line(v, checkbox(git.auto_push, "u", copy_string("push after commit")));
    push_line(v, checkbox(git.auto_pull, "U", copy_string("pull on start")));
    push_line(v, checkbox(git.backup_on_quit, "o", copy_string("backup on quit")));
    let session = if git.auto_backup_paused {
        copy_string("paused (a to resume)")
    } else {
        copy_string("active (a to pause)")
    };
    push_line(v, key_value("session", session));
    push_line(v, key_value("network", network(git)));
    assert(lines_view(v@) =~= start + overview_spec(*git, *s, width));
}

fn push_error_row(v: &mut Vec<ConsoleLine>, key: &str, error: &Option<String>)
    ensures
        lines_view(final(v)@) == lines_view(old(v)@) + error_row(key@, *error),
{
    match error {
        Some(e) => {
            push_line(v, key_value(key, copy_string(e.as_str())));
            assert(lines_view(old(v)@).push(kv(key@, e@)) =~= lines_view(old(v)@) + error_row(key@, *error));
        },
        None => {
            assert(lines_view(v@) =~= lines_view(old(v)@) + error_row(key@, *error));
        },
    }
}

fn push_conflicts(v: &mut Vec<ConsoleLine>, paths: &Vec<String>)
    ensures
        lines_view(final(v)@) == lines_view(old(v)@) + conflicts_spec(paths@),
{
    let ghost start = lines_view(v@);
    let n = paths.len();
    let mut text = copy_string("  conflicts in ");
    let digits = decimal_string(n as u64);
    push_str(&mut text, digits.as_str());
    push_str(&mut text, " files");
    push_line(v, plain_line(text, Tone::Error));
    let shown: usize = if n < 5 {
        n
    } else {
        5
    };
    let ghost head = start.push(plain("  conflicts in "@ + decimal(n as nat) + " files"@, Tone::Error));
    let mut i: usize = 0;
    while i < shown
        invariant
            i <= shown,
            shown <= paths.len(),
            shown == (if paths.len() < 5 { paths.len() } else { 5 }),
            lines_view(v@) == head + Seq::new(i as nat, |k: int| conflict_path(paths@[k]@)),
        decreases shown - i,
    {
        let ghost before = lines_view(v@);
        push_line(v, note("    ", copy_string(paths[i].as_str()), Some(46), Tone::Muted, false));
        assert(lines_view(v@) =~= head + Seq::new((i + 1) as nat, |k: int| conflict_path(paths@[k]@)));
        i = i + 1;
    }
    if n > 5 {
        let mut more = copy_string("    … and ");
        let digits = decimal_string((n - 5) as u64);
        push_str(&mut more, digits.as_str());
        push_str(&mut more, " more");
        push_line(v, plain_line(more, Tone::Muted));
    }
    assert(lines_view(v@) =~= start + conflicts_spec(paths@));
}

fn push_attention(v: &mut Vec<ConsoleLine>, s: &Status)
    ensures
        lines_view(final(v)@) == lines_view(old(v)@) + attention_spec(*s),
{
    let ghost start = lines_view(v@);
    let detached = match &s.branch {
        Branch::Detached { .. } => true,
        _ => false,
    };
    let busy = match &s.state {
        RepoState::InProgress { .. } => true,
        RepoState::Clean => false,
    };
    if !(s.conflicted.len() > 0 || detached || busy) {
        assert(lines_view(v@) =~= start + attention_spec(*s));
        return ;
    }
    push_line(v, ConsoleLine::Blank);
    push_line(v, section("ATTENTION"));
    let ghost after_head = lines_view(v@);
    match &s.state {
        RepoState::InProgress { label } => {
            let mut text = copy_string("  repository is in ");
            push_str(&mut text, label.as_str());
            push_str(&mut text, " state");
            push_line(v, plain_line(text, Tone::Warning));
        },
        RepoState::Clean => {},
    }
    let ghost after_state = lines_view(v@);
    if detached {
        push_line(v, plain_line(copy_string("  HEAD is detached"), Tone::Warning));
    }
    let ghost after_branch = lines_view(v@);
    if s.conflicted.len() > 0 {
        push_conflicts(v, &s.conflicted);
    }
    proof {
        let st = if s.state is InProgress {
            seq![plain("  repository is in "@ + s.state->label@ + " state"@, Tone::Warning)]
        } else {
            Seq::empty()
        };
        let br = if s.branch is Detached {
            seq![plain("  HEAD is detached"@, Tone::Warning)]
        } else {
            Seq::empty()
        };
        let cf = if s.conflicted@.len() > 0 {
            conflicts_spec(s.conflicted@)
        } else {
            Seq::empty()
        };
        assert(after_head =~= start + seq![LineView::Blank, LineView::Section { label: "ATTENTION"@ }]);
        assert(after_state =~= after_head + st);
        assert(after_branch =~= after_state + br);
        assert(lines_view(v@) =~= after_branch + cf);
        assert(lines_view(v@) =~= start + attention_spec(*s));
    }
}

/// The console for a repository whose status was read.
fn repository_text(git: &GitState, s: &Status, width: usize) -> (lines: Vec<ConsoleLine>)
    ensures
        lines_view(lines@) == repository_spec(*git, *s, width),
{
    let mut v: Vec<ConsoleLine> = Vec::new();
    assert(lines_view(v@) =~= Seq::<LineView>::empty());
    push_overview(&mut v, git, s, width);
    let ghost a = lines_view(v@);
    push_error_row(&mut v, "commit error", &git.last_commit_error);
    push_error_row(&mut v, "push error", &git.last_push_error);
    push_error_row(&mut v, "fetch error", &git.last_fetch_error);
    let ghost b = lines_view(v@);
    push_attention(&mut v, s);
    let ghost c = lines_view(v@);
    match &git.error {
        Some(e) => {
            push_line(&mut v, ConsoleLine::Blank);
            push_line(&mut v, ConsoleLine::Note {
                prefix: String::new(),
                text: copy_string(e.as_str()),
                limit: Some(width),
                tone: Tone::Error,
                bold: false,
            });
        },
        None => {},
    }
    let ghost d = lines_view(v@);
    push_line(&mut v, ConsoleLine::RepositoryFooter);
    proof {
        assert(a =~= overview_spec(*git, *s, width));
        assert(b =~= a + errors_spec(*git));
        assert(d =~= c + trailing_error_spec(*git, width));
        assert(lines_view(v@) =~= repository_spec(*git, *s, width));
    }
    v
}

fn no_status_lines(git: &GitState, name: &str) -> (lines: Vec<ConsoleLine>)
    ensures
        lines_view(lines@) == no_status_spec(*git, name@),
{
    let mut v: Vec<ConsoleLine> = Vec::new();
    push_line(&mut v, title(name));
    push_line(&mut v, ConsoleLine::Blank);
    push_line(&mut v, section("REPOSITORY"));
    push_line(&mut v, ConsoleLine::Blank);
    push_line(&mut v, plain_line(text_or(&git.error, "Git status is not available yet."), Tone::Error));
    push_line(&mut v, ConsoleLine::Blank);
    push_line(&mut v, ConsoleLine::BasicFooter);
    assert(lines_view(v@) =~= no_status_spec(*git, name@));
    v
}

fn inner(width: usize) -> (w: usize)
    ensures
        w == inner_width(width),
{
    if width >= 2 {
        width - 2
    } else {
        0
    }
}

fn not_repository_text(name: &str, root: &str, width: usize) -> (lines: Vec<ConsoleLine>)
    ensures
        lines_view(lines@) == not_repository_spec(name@, root@, width),
{
    let mut v: Vec<ConsoleLine> = Vec::new();
    push_line(&mut v, title(name));
    push_line(&mut v, ConsoleLine::Blank);
    push_line(&mut v, section("REPOSITORY"));
    push_line(&mut v, ConsoleLine::Blank);
    push_line(&mut v, plain_line(copy_string("  This library is not a git repository."), Tone::Muted));
    push_line(&mut v, ConsoleLine::Blank);
    push_line(&mut v, note("  ", copy_string(root), Some(inner(width)), Tone::BarFg, false));
    push_line(&mut v, ConsoleLine::Blank);
    push_line(&mut v, plain_line(copy_string("  snip already wrote a .gitignore here."), Tone::Muted));
    push_line(&mut v, plain_line(copy_string("  To enable backups, run:"), Tone::Muted));
    push_line(&mut v, ConsoleLine::Blank);
    push_line(&mut v, note("", copy_string("      git init"), None, Tone::Accent, true));
    push_line(&mut v, plain_line(copy_string("  Or initialize it here:"), Tone::Muted));
    push_line(&mut v, ConsoleLine::Blank);
    push_line(&mut v, ConsoleLine::InitFooter);
    assert(""@ =~= Seq::<char>::empty()) by {
        reveal_strlit("");
    }
    assert(lines_view(v@) =~= not_repository_spec(name@, root@, width));
    v
}

fn probe_failed_text(name: &str, message: &str, width: usize) -> (lines: Vec<ConsoleLine>)
    ensures
        lines_view(lines@) == probe_failed_spec(name@, message@, width),
{
    let mut v: Vec<ConsoleLine> = Vec::new();
    push_line(&mut v, title(name));
    push_line(&mut v, ConsoleLine::Blank);
    push_line(&mut v, section("REPOSITORY"));
    push_line(&mut v, ConsoleLine::Blank);
    push_line(&mut v, plain_line(copy_string("  Git could not inspect this library."), Tone::Error));
    push_line(&mut v, ConsoleLine::Blank);
    push_line(&mut v, note("  ", copy_string(message), Some(inner(width)), Tone::Muted, false));
    push_line(&mut v, ConsoleLine::Blank);
    push_line(&mut v, ConsoleLine::BasicFooter);
    assert(lines_view(v@) =~= probe_failed_spec(name@, message@, width));
    v
}

/// `n` spaces.
pub open spec fn spaces(n: nat) -> Seq<char> {
    Seq::new(n, |_i: int| ' ')
}

/// How much rule follows a section label in `width` columns: what is left
/// after "── ", the label and a space (the labels are ASCII words, a column
/// to each character).
pub open spec fn rule_length(label: Seq<char>, width: usize) -> nat {
    if label.len() + 4 <= width {
        (width - label.len() - 4) as nat
    } else {
        0
    }
}

/// A section's rule: "── ", the label, a space, and rule to the width.
pub open spec fn section_text(label: Seq<char>, width: usize) -> Seq<char> {
    "── "@ + label + " "@ + Seq::new(rule_length(label, width), |_i: int| '─')
}

/// The text of a section's rule, `width` columns wide where the label fits.
pub fn section_rule(label: &str, width: usize) -> (r: String)
    ensures
        r@ == section_text(label@, width),
{
    let n = label.unicode_len();
    let rule: usize = if n <= width && width - n >= 4 {
        width - n - 4
    } else {
        0
    };
    let mut r = String::new();
    push_str(&mut r, "── ");
    push_str(&mut r, label);
    push_str(&mut r, " ");
    let ghost head = r@;
    let mut i: usize = 0;
    while i < rule
        invariant
            i <= rule,
            r@ == head + Seq::new(i as nat, |_k: int| '─'),
        decreases rule - i,
    {
        push_char(&mut r, '─');
        i = i + 1;
        assert(r@ =~= head + Seq::new(i as nat, |_k: int| '─'));
    }
    assert(r@ =~= section_text(label@, width));
    r
}

/// One key hint: the key, a gap, and what it does.
pub open spec fn entry_text(entry: (Seq<char>, Seq<char>), key_gap: nat) -> Seq<char> {
    entry.0 + spaces(key_gap) + entry.1
}

/// A line of key hints, `entry_gap` spaces apart.
pub open spec fn action_text(entries: Seq<(Seq<char>, Seq<char>)>, entry_gap: nat, key_gap: nat) -> Seq<char>
    decreases entries.len(),
{
    if entries.len() == 0 {
        Seq::empty()
    } else {
        let init = entries.drop_last();
        action_text(init, entry_gap, key_gap) + (if init.len() > 0 {
            spaces(entry_gap)
        } else {
            Seq::empty()
        }) + entry_text(entries.last(), key_gap)
    }
}

/// The footer's key hints, line by line: two to a line below 40 columns,
/// three lines from there on.
pub open spec fn footer_groups(width: usize) -> Seq<Seq<(Seq<char>, Seq<char>)>> {
    if width < 40 {
        seq![
            seq![("b"@, "backup"@), ("c"@, "commit"@)],
            seq![("p"@, "push"@), ("f"@, "fetch"@)],
            seq![("i"@, "interval"@), ("u"@, "auto push"@)],
            seq![("o"@, "on quit"@), ("C"@, "message"@)],
            seq![("a"@, "pause"@), ("r"@, "refresh"@)],
            seq![("Esc"@, "close"@)],
        ]
    } else {
        seq![
            seq![("b"@, "backup"@), ("c"@, "commit"@), ("p"@, "push"@), ("f"@, "fetch"@)],
            seq![("i"@, "interval"@), ("u"@, "auto push"@), ("o"@, "on quit"@)],
            seq![("C"@, "message"@), ("a"@, "pause"@), ("r"@, "refresh"@), ("Esc"@, "close"@)],
        ]
    }
}

/// The gaps between hints and between a key and its label: narrower below
/// 50 columns.
pub open spec fn footer_gaps(width: usize) -> (nat, nat) {
    if width < 50 {
        (2, 1)
    } else {
        (4, 2)
    }
}

/// The footer's lines before padding.
pub open spec fn footer_texts(width: usize) -> Seq<Seq<char>> {
    footer_groups(width).map_values(
        |g: Seq<(Seq<char>, Seq<char>)>| action_text(g, footer_gaps(width).0, footer_gaps(width).1),
    )
}

/// The length of the longest text.
pub open spec fn widest(texts: Seq<Seq<char>>) -> nat
    decreases texts.len(),
{
    if texts.len() == 0 {
        0
    } else {
        let w = widest(texts.drop_last());
        if texts.last().len() > w {
            texts.last().len()
        } else {
            w
        }
    }
}

/// The footer's lines, each padded with spaces to the widest, so that they
/// line up when centred.
pub open spec fn footer_spec(width: usize) -> Seq<Seq<char>> {
    let texts = footer_texts(width);
    texts.map_values(|t: Seq<char>| t + spaces((widest(texts) - t.len()) as nat))
}

/// The widest text is as long as any of them.
proof fn lemma_widest(texts: Seq<Seq<char>>)
    ensures
        forall|i: int| 0 <= i < texts.len() ==> #[trigger] texts[i].len() <= widest(texts),
    decreases texts.len(),
{
    if texts.len() > 0 {
        lemma_widest(texts.drop_last());
        assert forall|i: int| 0 <= i < texts.len() implies #[trigger] texts[i].len() <= widest(texts) by {
            if i < texts.len() - 1 {
                assert(texts[i] == texts.drop_last()[i]);
            }
        }
    }
}

/// Key hints as spec values.
pub open spec fn pairs_view(v: Seq<(String, String)>) -> Seq<(Seq<char>, Seq<char>)> {
    v.map_values(|p: (String, String)| (p.0@, p.1@))
}

fn hint(key: &str, label: &str) -> (p: (String, String))
    ensures
        p.0@ == key@,
        p.1@ == label@,
{
    (copy_string(key), copy_string(label))
}

/// Appends `n` spaces.
fn push_spaces(s: &mut String, n: usize)
    ensures
        final(s)@ == old(s)@ + spaces(n as nat),
{
    let ghost start = s@;
    let mut i: usize = 0;
    while i < n
        invariant
            i <= n,
            s@ == start + spaces(i as nat),
        decreases n - i,
    {
        push_char(s, ' ');
        i = i + 1;
        assert(s@ =~= start + spaces(i as nat));
    }
}

/// The text of a line of key hints.
fn action_line_text(entries: &Vec<(String, String)>, entry_gap: usize, key_gap: usize) -> (r: String)
    ensures
        r@ == action_text(pairs_view(entries@), entry_gap as nat, key_gap as nat),
{
    let ghost all = pairs_view(entries@);
    let mut r = String::new();
    let mut i: usize = 0;
    assert(all.take(0) =~= Seq::<(Seq<char>, Seq<char>)>::empty());
    while i < entries.len()
        invariant
            i <= entries@.len(),
            all == pairs_view(entries@),
            r@ == action_text(all.take(i as int), entry_gap as nat, key_gap as nat),
        decreases entries@.len() - i,
    {
        if i > 0 {
            push_spaces(&mut r, entry_gap);
        }
        push_str(&mut r, entries[i].0.as_str());
        push_spaces(&mut r, key_gap);
        push_str(&mut r, entries[i].1.as_str());
        assert(all.take(i + 1).drop_last() =~= all.take(i as int));
        assert(all.take(i + 1).last() == all[i as int]);
        i = i + 1;
        assert(r@ =~= action_text(all.take(i as int), entry_gap as nat, key_gap as nat));
    }
    assert(all.take(entries@.len() as int) =~= all);
    r
}

/// The footer's hints, line by line.
fn footer_hint_groups(width: usize) -> (g: Vec<Vec<(String, String)>>)
    ensures
        g@.len() == footer_groups(width).len(),
        forall|i: int| 0 <= i < g@.len() ==> pairs_view(#[trigger] g@[i]@) == footer_groups(width)[i],
{
    let mut g: Vec<Vec<(String, String)>> = Vec::new();
    if width < 40 {
        g.push(vec![hint("b", "backup"), hint("c", "commit")]);
        g.push(vec![hint("p", "push"), hint("f", "fetch")]);
        g.push(vec![hint("i", "interval"), hint("u", "auto push")]);
        g.push(vec![hint("o", "on quit"), hint("C", "message")]);
        g.push(vec![hint("a", "pause"), hint("r", "refresh")]);
        g.push(vec![hint("Esc", "close")]);
    } else {
        g.push(vec![hint("b", "backup"), hint("c", "commit"), hint("p", "push"), hint("f", "fetch")]);
        g.push(vec![hint("i", "interval"), hint("u", "auto push"), hint("o", "on quit")]);
        g.push(vec![hint("C", "message"), hint("a", "pause"), hint("r", "refresh"), hint("Esc", "close")]);
    }
    assert forall|i: int| 0 <= i < g@.len() implies pairs_view(#[trigger] g@[i]@) == footer_groups(width)[i] by {
        assert(pairs_view(g@[i]@) =~= footer_groups(width)[i]);
    }
    g
}

/// The git console's footer of key hints for a console `width` columns
/// wide: the lines, each padded to the widest.
pub fn repository_footer(width: usize) -> (lines: Vec<String>)
    ensures
        lines@.len() == footer_spec(width).len(),
        forall|i: int| 0 <= i < lines@.len() ==> (#[trigger] lines@[i])@ == footer_spec(width)[i],
{
    let (entry_gap, key_gap): (usize, usize) = if width < 50 {
        (2, 1)
    } else {
        (4, 2)
    };
    let groups = footer_hint_groups(width);
    let ghost texts = footer_texts(width);
    let mut plain: Vec<String> = Vec::new();
    let mut most: usize = 0;
    let mut i: usize = 0;
    while i < groups.len()
        invariant
            i <= groups@.len(),
            groups@.len() == footer_groups(width).len(),
            forall|k: int| 0 <= k < groups@.len() ==> pairs_view(#[trigger] groups@[k]@) == footer_groups(width)[k],
            entry_gap == footer_gaps(width).0,
            key_gap == footer_gaps(width).1,
            texts == footer_texts(width),
            plain@.len() == i,
            forall|k: int| 0 <= k < i ==> (#[trigger] plain@[k])@ == texts[k],
            most == widest(texts.take(i as int)),
        decreases groups@.len() - i,
    {
        let line = action_line_text(&groups[i], entry_gap, key_gap);
        let n = line.unicode_len();
        assert(texts.take(i + 1).drop_last() =~= texts.take(i as int));
        if n > most {
            most = n;
        }
        plain.push(line);
        i = i + 1;
    }
    assert(texts.take(groups@.len() as int) =~= texts);
    proof {
        lemma_widest(texts);
    }
    let mut lines: Vec<String> = Vec::new();
    let mut j: usize = 0;
    while j < plain.len()
        invariant
            j <= plain@.len(),
            plain@.len() == texts.len(),
            forall|k: int| 0 <= k < plain@.len() ==> (#[trigger] plain@[k])@ == texts[k],
            forall|k: int| 0 <= k < texts.len() ==> #[trigger] texts[k].len() <= most,
            most == widest(texts),
            texts == footer_texts(width),
            lines@.len() == j,
            forall|k: int| 0 <= k < j ==> (#[trigger] lines@[k])@ == footer_spec(width)[k],
        decreases plain@.len() - j,
    {
        let mut line = copy_string(plain[j].as_str());
        let pad = most - plain[j].unicode_len();
        push_spaces(&mut line, pad);
        lines.push(line);
        j = j + 1;
    }
    lines
}

/// The git console's lines for the library `name` rooted at `root`, laid
/// out `width` columns wide.
pub fn console_lines(git: &GitState, name: &str, root: &str, width: usize) -> (lines: Vec<ConsoleLine>)
    ensures
        lines_view(lines@) == console_spec(*git, name@, root@, width),
{
    match &git.unavailable {
        Some(Unavailable::NotARepository) => not_repository_text(name, root, width),
        Some(Unavailable::ProbeFailed { message }) => probe_failed_text(name, message.as_str(), width),
        _ => match &git.status {
            Some(s) => repository_text(git, s, width),
            None => no_status_lines(git, name),
        },
    }
}

} // verus!
