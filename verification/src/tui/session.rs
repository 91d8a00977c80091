//! Decisions the interface takes for the session: pausing automatic git
//! work, refusing git work while a network task runs, quitting once
//! background work is done, and switching the appearance.
use vstd::prelude::*;

use crate::text::{copy_string, push_str};
use crate::theme::select::TuiThemeSetting;
use crate::theme::{appearance_str, Appearance};
use crate::tui::git_panel::GitState;

verus! {

/// What pausing or resuming automatic git work says.
pub open spec fn toggle_auto_backup_message(git: GitState) -> Seq<char> {
    if git.auto_commit_interval == 0 {
        "automatic Git operations are off; set git-auto-commit-interval to enable them"@
    } else if !git.auto_backup_paused {
        "automatic Git operations paused for this session"@
    } else {
        "automatic Git operations resumed"@
    }
}

/// Pauses automatic git work for the session, or resumes it; nothing
/// changes while automatic commits are off. Returns what to tell the user.
pub fn toggle_auto_backup(git: &mut GitState) -> (message: &'static str)
    ensures
        message@ == toggle_auto_backup_message(*old(git)),
        final(git).auto_backup_paused == (if old(git).auto_commit_interval == 0 {
            old(git).auto_backup_paused
        } else {
            !old(git).auto_backup_paused
        }),
        final(git).auto_commit_interval == old(git).auto_commit_interval,
        final(git).push_in_flight == old(git).push_in_flight,
        final(git).operation_queued == old(git).operation_queued,
{
    if git.auto_commit_interval == 0 {
        return "automatic Git operations are off; set git-auto-commit-interval to enable them";
    }
    git.auto_backup_paused = !git.auto_backup_paused;
    if git.auto_backup_paused {
        "automatic Git operations paused for this session"
    } else {
        "automatic Git operations resumed"
    }
}

/// Why git work must wait: the network task that runs, a push first.
pub open spec fn busy_message_spec(git: GitState) -> Option<Seq<char>> {
    if git.push_in_flight {
        Some("a background push is running"@)
    } else if git.pull_in_flight {
        Some("a background pull is running"@)
    } else if git.fetch_in_flight {
        Some("a background fetch is running"@)
    } else {
        None
    }
}

/// Why git work must wait, if a background push, pull or fetch runs.
pub fn busy_message(git: &GitState) -> (r: Option<&'static str>)
    ensures
        match busy_message_spec(*git) {
            Some(m) => r matches Some(t) && t@ == m,
            None => r is None,
        },
{
    if git.push_in_flight {
        Some("a background push is running")
    } else if git.pull_in_flight {
        Some("a background pull is running")
    } else if git.fetch_in_flight {
        Some("a background fetch is running")
    } else {
        None
    }
}

/// What quitting does now.
#[derive(Debug, PartialEq, Eq)]
pub enum QuitPlan {
    /// Wait for background work, saying which.
    Wait(&'static str),
    /// Back the library up first, then quit.
    BackupFirst,
    Quit,
}

/// A quit plan as a spec value.
pub enum QuitView {
    Wait(Seq<char>),
    BackupFirst,
    Quit,
}

impl View for QuitPlan {
    type V = QuitView;

    open spec fn view(&self) -> QuitView {
        match self {
            QuitPlan::Wait(m) => QuitView::Wait(m@),
            QuitPlan::BackupFirst => QuitView::BackupFirst,
            QuitPlan::Quit => QuitView::Quit,
        }
    }
}

/// Quitting waits for a running gist operation, push, pull or fetch (named
/// in that order); otherwise it backs up first where backing up on quit is
/// on and the fresh status allows a backup; otherwise it quits.
pub open spec fn quit_plan_spec(git: GitState, gist_in_flight: bool, status_allows_backup: bool) -> QuitView {
    if git.push_in_flight || git.pull_in_flight || git.fetch_in_flight || gist_in_flight {
        QuitView::Wait(
            if gist_in_flight {
                "finishing gist operation…"@
            } else if git.push_in_flight {
                "finishing background push…"@
            } else if git.pull_in_flight {
                "finishing background pull…"@
            } else {
                "finishing background fetch…"@
            },
        )
    } else if git.backup_on_quit && status_allows_backup {
        QuitView::BackupFirst
    } else {
        QuitView::Quit
    }
}

/// What quitting does now, given whether a gist operation runs and whether
/// the freshly read status allows a backup.
pub fn quit_plan(git: &GitState, gist_in_flight: bool, status_allows_backup: bool) -> (plan: QuitPlan)
    ensures
        plan@ == quit_plan_spec(*git, gist_in_flight, status_allows_backup),
{
    if git.push_in_flight || git.pull_in_flight || git.fetch_in_flight || gist_in_flight {
        let message = if gist_in_flight {
            "finishing gist operation…"
        } else if git.push_in_flight {
            "finishing background push…"
        } else if git.pull_in_flight {
            "finishing background pull…"
        } else {
            "finishing background fetch…"
        };
        return QuitPlan::Wait(message);
    }
    if git.backup_on_quit && status_allows_backup {
        QuitPlan::BackupFirst
    } else {
        QuitPlan::Quit
    }
}

/// The other appearance.
pub open spec fn other_appearance(a: Appearance) -> Appearance {
    match a {
        Appearance::Dark => Appearance::Light,
        Appearance::Light => Appearance::Dark,
    }
}

/// The appearance cycling switches to: away from the session's override,
/// or from the theme's own appearance where there is none.
pub open spec fn cycled_appearance(override_: Option<Appearance>, current: Appearance) -> Appearance {
    match override_ {
        Some(a) => other_appearance(a),
        None => other_appearance(current),
    }
}

/// The appearance cycling switches to, and what it says.
pub fn cycle_appearance(override_: Option<Appearance>, current: Appearance) -> (r: (Appearance, String))
    ensures
        r.0 == cycled_appearance(override_, current),
        r.1@ == "appearance: "@ + appearance_str(r.0) + " (this session)"@,
{
    let from = match override_ {
        Some(a) => a,
        None => current,
    };
    let next = match from {
        Appearance::Dark => Appearance::Light,
        Appearance::Light => Appearance::Dark,
    };
    let mut message = copy_string("appearance: ");
    push_str(&mut message, next.as_str());
    push_str(&mut message, " (this session)");
    (next, message)
}

/// Whether the host's appearance is worth asking again: only when the theme
/// follows it, no session override or preview stands, and the last look is
/// at least five seconds old.
pub open spec fn should_recheck_theme_spec(
    setting: TuiThemeSetting,
    has_override: bool,
    previewing: bool,
    since_last_check_ms: u64,
) -> bool {
    setting == TuiThemeSetting::Auto && !has_override && !previewing && since_last_check_ms >= 5000
}

/// Whether the host's appearance is worth asking again, `since_last_check_ms`
/// milliseconds after the last look.
pub fn should_recheck_theme(
    setting: TuiThemeSetting,
    has_override: bool,
    previewing: bool,
    since_last_check_ms: u64,
) -> (r: bool)
    ensures
        r == should_recheck_theme_spec(setting, has_override, previewing, since_last_check_ms),
{
    let auto = match setting {
        TuiThemeSetting::Auto => true,
        _ => false,
    };
    auto && !has_override && !previewing && since_last_check_ms >= 5000
}

} // verus!
