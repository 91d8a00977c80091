//! How the library's repository status reads: the status-bar badge and the
//! git console's one-line verdict.
use vstd::prelude::*;

use crate::text::{copy_string, decimal, decimal_string, push_str};
use crate::tui::icons::{IconMode, Tone};

verus! {

/// Where HEAD points.
pub enum Branch {
    Named { name: String },
    Detached { short_id: String },
    Unborn,
}

/// Whether the repository is in the middle of an operation (a merge, a
/// rebase, ...); such an operation is shown by its label.
pub enum RepoState {
    Clean,
    InProgress { label: String },
}

/// A commit at the head of a branch: its abbreviated id, when it was made
/// (seconds since the Unix epoch) and its subject line.
pub struct Commit {
    pub short_id: String,
    pub timestamp: i64,
    pub subject: String,
}

/// What the badge and the console read of a repository's status: where
/// HEAD points, the upstream branch and how far the two have parted, the
/// counts of changed files, the conflicted paths, an operation under way,
/// and the local and upstream head commits.
pub struct Status {
    pub branch: Branch,
    pub upstream: Option<String>,
    pub ahead: u32,
    pub behind: u32,
    pub staged: u32,
    pub unstaged: u32,
    pub untracked: u32,
    pub conflicted: Vec<String>,
    pub state: RepoState,
    pub last_commit: Option<Commit>,
    pub upstream_commit: Option<Commit>,
}

/// Why git cannot show the library's repository.
pub enum Unavailable {
    NotARepository,
    ProbeFailed { message: String },
    BinaryMissing,
}

/// What the badge and the console read of the git state: the last status
/// (if one was read), why there is no repository (if so), the last status
/// error, the automation settings (the commit interval in minutes, 0 when
/// off), which network task runs, for how long the running push has run (in
/// nanoseconds), how long ago the last fetch was (as the console words it),
/// the last error of each automatic task, and whether a manual operation is
/// under way.
pub struct GitState {
    pub status: Option<Status>,
    pub unavailable: Option<Unavailable>,
    pub error: Option<String>,
    pub auto_commit_interval: u32,
    pub auto_push: bool,
    pub auto_pull: bool,
    pub backup_on_quit: bool,
    pub auto_backup_paused: bool,
    pub pull_in_flight: bool,
    pub fetch_in_flight: bool,
    pub push_in_flight: bool,
    pub push_running_nanos: Option<u64>,
    pub last_fetch: Option<String>,
    pub last_commit_error: Option<String>,
    pub last_push_error: Option<String>,
    pub last_fetch_error: Option<String>,
    pub operation_queued: bool,
}

/// Changes not yet committed: staged, modified and new files.
pub open spec fn dirty_count(s: Status) -> int {
    s.staged + s.unstaged + s.untracked
}

/// The paused marker, appended while automatic commits are on but paused.
pub open spec fn with_auto_suffix_spec(state: GitState, text: Seq<char>) -> Seq<char> {
    if state.auto_commit_interval > 0 && state.auto_backup_paused {
        text + " [auto paused]"@
    } else {
        text
    }
}

/// `text` followed by `n` in decimal, or nothing when `n` is 0.
pub open spec fn counted(text: Seq<char>, n: int) -> Seq<char> {
    if n > 0 {
        text + decimal(n as nat)
    } else {
        Seq::empty()
    }
}

/// The glyphs of a named-branch badge: prefix, changed, ahead, behind,
/// backed-up and pushing marks.
pub open spec fn glyphs(icons: IconMode) -> (Seq<char>, Seq<char>, Seq<char>, Seq<char>, Seq<char>, Seq<char>) {
    match icons {
        IconMode::Nerd => ("⎇ "@, " ✚"@, " ↑"@, " ↓"@, " ✓"@, " ⇡"@),
        IconMode::Ascii => ("git:"@, " +"@, " ^"@, " v"@, " ok"@, " >>"@),
    }
}

/// Whether everything is committed and pushed, with no push running.
pub open spec fn backed_up(state: GitState, s: Status) -> bool {
    dirty_count(s) == 0 && s.ahead == 0 && !state.push_in_flight
}

/// The badge of a clean repository on the branch `name`: the branch, then
/// the uncommitted, ahead and behind counts where they are not 0, a mark
/// while a push runs, and a backed-up mark when there is nothing to do.
pub open spec fn named_badge(state: GitState, s: Status, name: Seq<char>, icons: IconMode) -> Seq<char> {
    let (prefix, changed, up, down, clean, flight) = glyphs(icons);
    prefix + name + counted(changed, dirty_count(s)) + counted(up, s.ahead as int) + counted(down, s.behind as int)
        + (if state.push_in_flight { flight } else { Seq::empty() })
        + (if backed_up(state, s) { clean } else { Seq::empty() })
}

/// The status-bar badge: none before a status was read; conflicts first,
/// then an operation in progress, a detached HEAD, a branch without commits,
/// and otherwise the named-branch badge; each with the paused marker.
pub open spec fn badge_spec(state: GitState, icons: IconMode) -> Option<(Seq<char>, Tone)> {
    match state.status {
        None => None,
        Some(s) => Some(
            if s.conflicted@.len() > 0 {
                (with_auto_suffix_spec(state, "git !conflict"@), Tone::Error)
            } else if s.state is InProgress {
                (with_auto_suffix_spec(state, "git "@ + s.state->label@), Tone::Warning)
            } else {
                match s.branch {
                    Branch::Detached { short_id } => (
                        with_auto_suffix_spec(state, "git detached@"@ + short_id@),
                        Tone::Warning,
                    ),
                    Branch::Unborn => (with_auto_suffix_spec(state, "git no commits"@), Tone::Muted),
                    Branch::Named { name } => (
                        with_auto_suffix_spec(state, named_badge(state, s, name@, icons)),
                        if backed_up(state, s) {
                            Tone::Success
                        } else {
                            Tone::Warning
                        },
                    ),
                }
            },
        ),
    }
}

/// The console's verdict on the repository, the most pressing risk first:
/// conflicts, an operation in progress, a detached HEAD, commits on the
/// remote, uncommitted changes, unpushed commits, no remote at all.
pub open spec fn sync_verdict_spec(s: Status) -> (Seq<char>, Tone) {
    if s.conflicted@.len() > 0 {
        (decimal(s.conflicted@.len()) + " conflicts need terminal resolution"@, Tone::Error)
    } else if s.state is InProgress {
        ("repository is in "@ + s.state->label@ + " state"@, Tone::Error)
    } else if s.branch is Detached {
        ("HEAD is detached"@, Tone::Warning)
    } else if s.behind > 0 {
        ("remote is "@ + decimal(s.behind as nat) + " commit(s) ahead"@, Tone::Warning)
    } else if dirty_count(s) > 0 {
        (decimal(dirty_count(s) as nat) + " change(s) not committed"@, Tone::Warning)
    } else if s.ahead > 0 {
        (decimal(s.ahead as nat) + " commit(s) not pushed"@, Tone::Warning)
    } else if s.upstream is None {
        ("committed locally; no remote configured"@, Tone::Muted)
    } else {
        ("backed up and pushed"@, Tone::Success)
    }
}

/// How a branch reads in the console.
pub open spec fn branch_text_spec(b: Branch) -> Seq<char> {
    match b {
        Branch::Named { name } => name@,
        Branch::Detached { short_id } => "detached@"@ + short_id@,
        Branch::Unborn => "no commits"@,
    }
}

/// Changes not yet committed.
pub fn dirty(s: &Status) -> (n: u64)
    ensures
        n == dirty_count(*s),
{
    s.staged as u64 + s.unstaged as u64 + s.untracked as u64
}

/// Appends the paused marker where automatic commits are on but paused.
fn with_auto_suffix(state: &GitState, text: String) -> (r: String)
    ensures
        r@ == with_auto_suffix_spec(*state, text@),
{
    let mut text = text;
    if state.auto_commit_interval > 0 && state.auto_backup_paused {
        push_str(&mut text, " [auto paused]");
    }
    text
}

/// Appends `label` and `n` in decimal, where `n` is not 0.
fn push_counted(text: &mut String, label: &str, n: u64)
    ensures
        final(text)@ == old(text)@ + counted(label@, n as int),
{
    if n > 0 {
        push_str(text, label);
        let digits = decimal_string(n);
        push_str(text, digits.as_str());
    } else {
        assert(old(text)@ + counted(label@, n as int) =~= old(text)@);
    }
}

/// The status-bar badge for the git state, with the theme role to draw it in.
pub fn badge(state: &GitState, icons: IconMode) -> (r: Option<(String, Tone)>)
    ensures
        match badge_spec(*state, icons) {
            None => r is None,
            Some((text, tone)) => r matches Some((t, k)) && t@ == text && k == tone,
        },
{
    let s = match &state.status {
        None => {
            return None;
        },
        Some(s) => s,
    };
    if s.conflicted.len() > 0 {
        return Some((with_auto_suffix(state, copy_string("git !conflict")), Tone::Error));
    }
    match &s.state {
        RepoState::InProgress { label } => {
            let mut text = copy_string("git ");
            push_str(&mut text, label.as_str());
            return Some((with_auto_suffix(state, text), Tone::Warning));
        },
        RepoState::Clean => {},
    }
    let name = match &s.branch {
        Branch::Detached { short_id } => {
            let mut text = copy_string("git detached@");
            push_str(&mut text, short_id.as_str());
            return Some((with_auto_suffix(state, text), Tone::Warning));
        },
        Branch::Unborn => {
            return Some((with_auto_suffix(state, copy_string("git no commits")), Tone::Muted));
        },
        Branch::Named { name } => name,
    };
    let dirty = dirty(s);
    let (prefix, changed, up, down, clean, flight) = match icons {
        IconMode::Nerd => ("⎇ ", " ✚", " ↑", " ↓", " ✓", " ⇡"),
        IconMode::Ascii => ("git:", " +", " ^", " v", " ok", " >>"),
    };
    let mut text = copy_string(prefix);
    push_str(&mut text, name.as_str());
    push_counted(&mut text, changed, dirty);
    push_counted(&mut text, up, s.ahead as u64);
    push_counted(&mut text, down, s.behind as u64);
    if state.push_in_flight {
        push_str(&mut text, flight);
    }
    let backed_up = dirty == 0 && s.ahead == 0 && !state.push_in_flight;
    if backed_up {
        push_str(&mut text, clean);
    }
    proof {
        let ghost g = glyphs(icons);
        assert(prefix@ == g.0 && changed@ == g.1 && up@ == g.2 && down@ == g.3 && clean@ == g.4 && flight@ == g.5);
        assert(text@ =~= named_badge(*state, *s, name@, icons));
    }
    let tone = if backed_up {
        Tone::Success
    } else {
        Tone::Warning
    };
    Some((with_auto_suffix(state, text), tone))
}

/// The console's verdict on the repository, with the theme role to draw it in.
pub fn sync_verdict(s: &Status) -> (r: (String, Tone))
    ensures
        r.0@ == sync_verdict_spec(*s).0,
        r.1 == sync_verdict_spec(*s).1,
{
    if s.conflicted.len() > 0 {
        let mut text = decimal_string(s.conflicted.len() as u64);
        push_str(&mut text, " conflicts need terminal resolution");
        return (text, Tone::Error);
    }
    match &s.state {
        RepoState::InProgress { label } => {
            let mut text = copy_string("repository is in ");
            push_str(&mut text, label.as_str());
            push_str(&mut text, " state");
            return (text, Tone::Error);
        },
        RepoState::Clean => {},
    }
    match &s.branch {
        Branch::Detached { .. } => {
            return (copy_string("HEAD is detached"), Tone::Warning);
        },
        _ => {},
    }
    if s.behind > 0 {
        let mut text = copy_string("remote is ");
        let digits = decimal_string(s.behind as u64);
        push_str(&mut text, digits.as_str());
        push_str(&mut text, " commit(s) ahead");
        return (text, Tone::Warning);
    }
    let dirty = dirty(s);
    if dirty > 0 {
        let mut text = decimal_string(dirty);
        push_str(&mut text, " change(s) not committed");
        return (text, Tone::Warning);
    }
    if s.ahead > 0 {
        let mut text = decimal_string(s.ahead as u64);
        push_str(&mut text, " commit(s) not pushed");
        return (text, Tone::Warning);
    }
    if s.upstream.is_none() {
        return (copy_string("committed locally; no remote configured"), Tone::Muted);
    }
    (copy_string("backed up and pushed"), Tone::Success)
}

/// How a branch reads in the console: its name, `detached@` and the short
/// commit id, or `no commits`.
pub fn branch_text(b: &Branch) -> (r: String)
    ensures
        r@ == branch_text_spec(*b),
{
    match b {
        Branch::Named { name } => copy_string(name.as_str()),
        Branch::Detached { short_id } => {
            let mut text = copy_string("detached@");
            push_str(&mut text, short_id.as_str());
            text
        },
        Branch::Unborn => copy_string("no commits"),
    }
}

/// Conflicts come first: a repository with conflicts shows the conflict
/// badge and verdict, in the error role, whatever its branch, operation in
/// progress or counts.
pub proof fn law_conflicts_come_first(state: GitState, icons: IconMode)
    requires
        state.status matches Some(s) && s.conflicted@.len() > 0,
    ensures
        badge_spec(state, icons) == Some((with_auto_suffix_spec(state, "git !conflict"@), Tone::Error)),
        sync_verdict_spec(state.status->0) == (
            decimal(state.status->0.conflicted@.len()) + " conflicts need terminal resolution"@,
            Tone::Error,
        ),
{
}

} // verus!
