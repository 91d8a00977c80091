//! What the interface does when a background git task finishes: which
//! flags it clears, which errors it keeps, what it reloads and what it says.
//! Reloading and showing the message are the caller's.
use vstd::prelude::*;

use crate::text::{copy_string, push_str};
use crate::tui::app::auto_error_transition;
use crate::tui::git_panel::GitState;

verus! {

/// How important a status message is.
#[derive(Clone, Copy, Debug, PartialEq, Eq, Structural)]
pub enum StatusLevel {
    Info,
    Error,
}

/// What a finished git action reports: whether it pushed, how many commits
/// it pulled, and its message.
pub struct ActionOutcome {
    pub pushed: bool,
    pub pulled: u64,
    pub message: String,
}

/// A finished background git task: its action (`push`, `pull`, `fetch`, or
/// another), how it ended, and whether the user started it.
pub struct GitTaskResult {
    pub action: String,
    pub outcome: Result<ActionOutcome, String>,
    pub manual: bool,
}

/// What the library must reload after a task: everything, after commits
/// were pulled, or else the git status alone.
#[derive(Clone, Copy, Debug, PartialEq, Eq, Structural)]
pub enum Reload {
    Rescan,
    RefreshGit,
}

/// What the caller does after a task: reload, then show the status message
/// (if any); where `finished`, a manual operation is over (a quit that
/// waited for it may proceed); where `fetched_now`, the fetch time is now.
pub struct TaskEffects {
    pub reload: Reload,
    pub status: Option<(String, StatusLevel)>,
    pub finished: bool,
    pub fetched_now: bool,
}

/// The status message as a spec value.
pub open spec fn status_view(s: Option<(String, StatusLevel)>) -> Option<(Seq<char>, StatusLevel)> {
    match s {
        Some((text, level)) => Some((text@, level)),
        None => None,
    }
}

/// A task's action is `name`.
pub open spec fn is_action(result: GitTaskResult, name: Seq<char>) -> bool {
    result.action@ == name
}

/// An automatic push ended: it is no longer in flight.
pub open spec fn clears_push(result: GitTaskResult) -> bool {
    is_action(result, "push"@) && !result.manual
}

/// A pull ended (and the task was no automatic push).
pub open spec fn clears_pull(result: GitTaskResult) -> bool {
    !clears_push(result) && is_action(result, "pull"@)
}

/// A fetch ended (and the task was no automatic push or pull).
pub open spec fn clears_fetch(result: GitTaskResult) -> bool {
    !clears_push(result) && !is_action(result, "pull"@) && is_action(result, "fetch"@)
}

/// Commits were pulled.
pub open spec fn pulled_any(result: GitTaskResult) -> bool {
    result.outcome matches Ok(o) && o.pulled > 0
}

/// An optional error is `m`.
pub open spec fn slot_is(slot: Option<String>, m: Seq<char>) -> bool {
    slot matches Some(s) && s@ == m
}

/// The message of a failed automatic task.
pub open spec fn background_failure(action: Seq<char>, message: Seq<char>) -> Seq<char> {
    "background "@ + action + " failed: "@ + message
}

/// The status message after a task: a manual task always reports how it
/// ended; an automatic fetch reports its success, an automatic pull the
/// commits it brought, and an automatic failure only a message that differs
/// from the one last reported for that kind of task.
pub open spec fn task_status(git: GitState, result: GitTaskResult) -> Option<(Seq<char>, StatusLevel)> {
    if result.manual {
        match result.outcome {
            Ok(o) => Some((o.message@, StatusLevel::Info)),
            Err(m) => Some((m@, StatusLevel::Error)),
        }
    } else {
        match result.outcome {
            Ok(o) => if is_action(result, "fetch"@) {
                Some(("remote status refreshed"@, StatusLevel::Info))
            } else if is_action(result, "pull"@) {
                if o.pulled > 0 {
                    Some((o.message@, StatusLevel::Info))
                } else {
                    None
                }
            } else {
                None
            },
            Err(m) => {
                let last = if is_action(result, "fetch"@) {
                    git.last_fetch_error
                } else {
                    git.last_push_error
                };
                if slot_is(last, m@) {
                    None
                } else {
                    Some((background_failure(result.action@, m@), StatusLevel::Error))
                }
            },
        }
    }
}

/// The last push error after a task: cleared by a successful manual push
/// or a successful automatic task other than a fetch or pull; set by a new
/// automatic failure other than a fetch's.
pub open spec fn push_error_after(git: GitState, result: GitTaskResult) -> Option<Seq<char>> {
    let before = match git.last_push_error {
        Some(e) => Some(e@),
        None => None,
    };
    match result.outcome {
        Ok(o) => if result.manual {
            if o.pushed {
                None
            } else {
                before
            }
        } else if is_action(result, "fetch"@) || is_action(result, "pull"@) {
            before
        } else {
            None
        },
        Err(m) => if !result.manual && !is_action(result, "fetch"@) {
            Some(m@)
        } else {
            before
        },
    }
}

/// The last fetch error after a task: cleared by a successful automatic
/// fetch; set by a failed automatic fetch.
pub open spec fn fetch_error_after(git: GitState, result: GitTaskResult) -> Option<Seq<char>> {
    let before = match git.last_fetch_error {
        Some(e) => Some(e@),
        None => None,
    };
    if result.manual || !is_action(result, "fetch"@) {
        before
    } else {
        match result.outcome {
            Ok(_) => None,
            Err(m) => Some(m@),
        }
    }
}

/// An optional text as a spec value.
pub open spec fn text_view(s: Option<String>) -> Option<Seq<char>> {
    match s {
        Some(t) => Some(t@),
        None => None,
    }
}

/// Whether a task's action is the literal `name`.
fn action_is(result: &GitTaskResult, name: &str) -> (r: bool)
    ensures
        r == is_action(*result, name@),
{
    let a = crate::text::chars_of(result.action.as_str());
    crate::text::eq_lit(a.as_slice(), name)
}

/// Takes in a finished background git task: clears the flag of the task
/// that ended, keeps or clears the automatic tasks' last errors, ends a
/// manual operation, and says what to reload and what to report.
pub fn handle_git_task(git: &mut GitState, result: GitTaskResult) -> (effects: TaskEffects)
    ensures
        final(git).push_in_flight == (if clears_push(result) {
            false
        } else {
            old(git).push_in_flight
        }),
        final(git).pull_in_flight == (if clears_pull(result) {
            false
        } else {
            old(git).pull_in_flight
        }),
        final(git).fetch_in_flight == (if clears_fetch(result) {
            false
        } else {
            old(git).fetch_in_flight
        }),
        effects.reload == (if pulled_any(result) {
            Reload::Rescan
        } else {
            Reload::RefreshGit
        }),
        status_view(effects.status) == task_status(*old(git), result),
        text_view(final(git).last_push_error) == push_error_after(*old(git), result),
        text_view(final(git).last_fetch_error) == fetch_error_after(*old(git), result),
        effects.finished == result.manual,
        final(git).operation_queued == (if result.manual {
            false
        } else {
            old(git).operation_queued
        }),
        effects.fetched_now == (!result.manual && is_action(result, "fetch"@) && result.outcome is Ok),
        final(git).status == old(git).status,
        final(git).unavailable == old(git).unavailable,
        final(git).error == old(git).error,
        final(git).last_commit_error == old(git).last_commit_error,
        final(git).auto_commit_interval == old(git).auto_commit_interval,
        final(git).auto_backup_paused == old(git).auto_backup_paused,
{
    let push = action_is(&result, "push");
    let pull = action_is(&result, "pull");
    let fetch = action_is(&result, "fetch");
    if push && !result.manual {
        git.push_in_flight = false;
    } else if pull {
        git.pull_in_flight = false;
    } else if fetch {
        git.fetch_in_flight = false;
    }
    let reload = match &result.outcome {
        Ok(outcome) => if outcome.pulled > 0 {
            Reload::Rescan
        } else {
            Reload::RefreshGit
        },
        Err(_) => Reload::RefreshGit,
    };
    if result.manual {
        let status = match &result.outcome {
            Ok(outcome) => {
                if outcome.pushed {
                    git.last_push_error = None;
                }
                (copy_string(outcome.message.as_str()), StatusLevel::Info)
            },
            Err(message) => (copy_string(message.as_str()), StatusLevel::Error),
        };
        git.operation_queued = false;
        return TaskEffects { reload, status: Some(status), finished: true, fetched_now: false };
    }
    match &result.outcome {
        Ok(outcome) => {
            if fetch {
                git.last_fetch_error = None;
                TaskEffects {
                    reload,
                    status: Some((copy_string("remote status refreshed"), StatusLevel::Info)),
                    finished: false,
                    fetched_now: true,
                }
            } else if pull {
                let status = if outcome.pulled > 0 {
                    Some((copy_string(outcome.message.as_str()), StatusLevel::Info))
                } else {
                    None
                };
                TaskEffects { reload, status, finished: false, fetched_now: false }
            } else {
                git.last_push_error = None;
                TaskEffects { reload, status: None, finished: false, fetched_now: false }
            }
        },
        Err(message) => {
            let changed = if fetch {
                auto_error_transition(&mut git.last_fetch_error, copy_string(message.as_str()))
            } else {
                auto_error_transition(&mut git.last_push_error, copy_string(message.as_str()))
            };
            let status = if changed {
                let mut text = copy_string("background ");
                push_str(&mut text, result.action.as_str());
                push_str(&mut text, " failed: ");
                push_str(&mut text, message.as_str());
                assert(text@ =~= background_failure(result.action@, message@));
                Some((text, StatusLevel::Error))
            } else {
                None
            };
            TaskEffects { reload, status, finished: false, fetched_now: false }
        },
    }
}

} // verus!
