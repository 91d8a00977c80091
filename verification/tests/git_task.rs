use snip::tui::git_panel::GitState;
use snip::tui::git_task::{handle_git_task, ActionOutcome, GitTaskResult, Reload, StatusLevel};

fn idle() -> GitState {
    GitState {
        status: None,
        unavailable: None,
        error: None,
        auto_commit_interval: 10,
        auto_push: true,
        auto_pull: false,
        backup_on_quit: false,
        auto_backup_paused: false,
        pull_in_flight: false,
        fetch_in_flight: false,
        push_in_flight: false,
        push_running_nanos: None,
        last_fetch: None,
        last_commit_error: None,
        last_push_error: None,
        last_fetch_error: None,
        operation_queued: false,
    }
}

fn done(action: &str, pushed: bool, pulled: u64, message: &str, manual: bool) -> GitTaskResult {
    GitTaskResult {
        action: action.to_owned(),
        outcome: Ok(ActionOutcome { pushed, pulled, message: message.to_owned() }),
        manual,
    }
}

fn failed(action: &str, message: &str, manual: bool) -> GitTaskResult {
    GitTaskResult { action: action.to_owned(), outcome: Err(message.to_owned()), manual }
}

#[test]
fn an_automatic_push_clears_its_flag_and_its_last_error_quietly() {
    let mut git = GitState { push_in_flight: true, last_push_error: Some("rejected".to_owned()), ..idle() };
    let effects = handle_git_task(&mut git, done("push", true, 0, "backup pushed", false));
    assert!(!git.push_in_flight);
    assert_eq!(git.last_push_error, None);
    assert_eq!(effects.reload, Reload::RefreshGit);
    assert!(effects.status.is_none() && !effects.finished && !effects.fetched_now);
}

#[test]
fn a_manual_operation_reports_and_finishes() {
    let mut git = GitState {
        push_in_flight: true,
        operation_queued: true,
        last_push_error: Some("rejected".to_owned()),
        ..idle()
    };
    let effects = handle_git_task(&mut git, done("push", true, 0, "pushed main", true));
    assert!(git.push_in_flight, "a manual push does not own the background flag");
    assert_eq!(git.last_push_error, None);
    assert!(!git.operation_queued);
    assert_eq!(effects.status, Some(("pushed main".to_owned(), StatusLevel::Info)));
    assert!(effects.finished);

    let mut git = GitState { operation_queued: true, last_push_error: Some("old".to_owned()), ..idle() };
    let effects = handle_git_task(&mut git, done("commit", false, 0, "committed", true));
    assert_eq!(git.last_push_error.as_deref(), Some("old"));
    assert_eq!(effects.status, Some(("committed".to_owned(), StatusLevel::Info)));

    let effects = handle_git_task(&mut git, failed("backup", "nothing to commit", true));
    assert_eq!(effects.status, Some(("nothing to commit".to_owned(), StatusLevel::Error)));
    assert!(effects.finished && !git.operation_queued);
}

#[test]
fn pulled_commits_rescan_and_fetches_record_their_time() {
    let mut git = GitState { pull_in_flight: true, ..idle() };
    let effects = handle_git_task(&mut git, done("pull", false, 3, "pulled 3 commits", false));
    assert!(!git.pull_in_flight);
    assert_eq!(effects.reload, Reload::Rescan);
    assert_eq!(effects.status, Some(("pulled 3 commits".to_owned(), StatusLevel::Info)));
    let effects = handle_git_task(&mut git, done("pull", false, 0, "up to date", false));
    assert_eq!(effects.reload, Reload::RefreshGit);
    assert!(effects.status.is_none());

    let mut git = GitState { fetch_in_flight: true, last_fetch_error: Some("offline".to_owned()), ..idle() };
    let effects = handle_git_task(&mut git, done("fetch", false, 0, "remote status refreshed", false));
    assert!(!git.fetch_in_flight);
    assert_eq!(git.last_fetch_error, None);
    assert!(effects.fetched_now);
    assert_eq!(effects.status, Some(("remote status refreshed".to_owned(), StatusLevel::Info)));
}

#[test]
fn automatic_failures_are_reported_once_per_message() {
    let mut git = GitState { push_in_flight: true, ..idle() };
    let first = handle_git_task(&mut git, failed("push", "rejected", false));
    assert_eq!(first.status, Some(("background push failed: rejected".to_owned(), StatusLevel::Error)));
    assert_eq!(git.last_push_error.as_deref(), Some("rejected"));
    let again = handle_git_task(&mut git, failed("push", "rejected", false));
    assert!(again.status.is_none());
    let other = handle_git_task(&mut git, failed("push", "timed out", false));
    assert_eq!(other.status, Some(("background push failed: timed out".to_owned(), StatusLevel::Error)));

    let fetch = handle_git_task(&mut git, failed("fetch", "offline", false));
    assert_eq!(fetch.status, Some(("background fetch failed: offline".to_owned(), StatusLevel::Error)));
    assert_eq!(git.last_fetch_error.as_deref(), Some("offline"));
    assert_eq!(git.last_push_error.as_deref(), Some("timed out"));
}
