use snip::tui::git_panel::{badge, branch_text, sync_verdict, Branch, GitState, RepoState, Status};
use snip::tui::icons::{IconMode, Tone};

fn idle() -> GitState {
    GitState {
        status: None,
        unavailable: None,
        error: None,
        auto_commit_interval: 0,
        auto_push: false,
        auto_pull: false,
        backup_on_quit: false,
        auto_backup_paused: false,
        pull_in_flight: false,
        fetch_in_flight: false,
        push_in_flight: false,
        push_running_nanos: None,
        last_fetch: None,
        last_commit_error: None,
        last_push_error: None,
        last_fetch_error: None,
        operation_queued: false,
    }
}

fn state(status: Status) -> GitState {
    GitState { status: Some(status), ..idle() }
}

fn status() -> Status {
    Status {
        branch: Branch::Named { name: "main".to_owned() },
        upstream: Some("origin/main".to_owned()),
        ahead: 0,
        behind: 0,
        staged: 0,
        unstaged: 0,
        untracked: 0,
        conflicted: Vec::new(),
        state: RepoState::Clean,
        last_commit: None,
        upstream_commit: None,
    }
}

fn badge_supports_ascii_and_icon_columns() {
    let clean = state(status());
    assert_eq!(badge(&clean, IconMode::Ascii).unwrap().0, "git:main ok");
    assert_eq!(badge(&clean, IconMode::Nerd).unwrap().0, "⎇ main ✓");

    let mut changed = status();
    changed.unstaged = 2;
    changed.ahead = 1;
    changed.behind = 3;
    assert_eq!(badge(&state(changed), IconMode::Ascii).unwrap().0, "git:main +2 ^1 v3");

    let mut pushing = state(status());
    pushing.status.as_mut().unwrap().ahead = 2;
    pushing.push_in_flight = true;
    assert_eq!(badge(&pushing, IconMode::Ascii).unwrap().0, "git:main ^2 >>");
    assert_eq!(badge(&pushing, IconMode::Nerd).unwrap().0, "⎇ main ↑2 ⇡");
}

fn badge_prioritizes_conflicts_and_special_states() {
    let mut conflicted = status();
    conflicted.conflicted = vec!["snippet.toml".to_owned()];
    conflicted.state = RepoState::InProgress { label: "merging".to_owned() };
    assert_eq!(badge(&state(conflicted), IconMode::Ascii).unwrap().0, "git !conflict");

    let mut detached = status();
    detached.branch = Branch::Detached { short_id: "abc1234".to_owned() };
    assert_eq!(badge(&state(detached), IconMode::Ascii).unwrap().0, "git detached@abc1234");
}

fn console_verdict_prioritizes_remote_and_worktree_risk() {
    let mut current = status();
    assert_eq!(sync_verdict(&current).0, "backed up and pushed");
    current.ahead = 2;
    assert!(sync_verdict(&current).0.contains("not pushed"));
    current.unstaged = 1;
    assert!(sync_verdict(&current).0.contains("not committed"));
    current.behind = 3;
    assert!(sync_verdict(&current).0.contains("remote is 3"));
    current.conflicted.push("snippet.toml".to_owned());
    assert!(sync_verdict(&current).0.contains("conflicts"));
}

#[test]
fn git_panel_badge_supports_ascii_and_icon_columns() {
    badge_supports_ascii_and_icon_columns();
}

#[test]
fn git_panel_badge_prioritizes_conflicts_and_special_states() {
    badge_prioritizes_conflicts_and_special_states();
}

#[test]
fn git_panel_console_verdict_prioritizes_remote_and_worktree_risk() {
    console_verdict_prioritizes_remote_and_worktree_risk();
}

#[test]
fn mod_badge_supports_ascii_and_icon_columns() {
    badge_supports_ascii_and_icon_columns();
}

#[test]
fn mod_badge_prioritizes_conflicts_and_special_states() {
    badge_prioritizes_conflicts_and_special_states();
}

#[test]
fn mod_console_verdict_prioritizes_remote_and_worktree_risk() {
    console_verdict_prioritizes_remote_and_worktree_risk();
}

#[test]
fn no_status_gives_no_badge() {
    let state = GitState { auto_commit_interval: 30, auto_backup_paused: true, ..idle() };
    assert!(badge(&state, IconMode::Ascii).is_none());
}

#[test]
fn badges_carry_their_tone_and_the_paused_marker() {
    let clean = state(status());
    assert_eq!(badge(&clean, IconMode::Ascii).unwrap().1, Tone::Success);

    let mut paused = state(status());
    paused.auto_commit_interval = 300;
    paused.auto_backup_paused = true;
    assert_eq!(badge(&paused, IconMode::Ascii).unwrap(), ("git:main ok [auto paused]".to_owned(), Tone::Success));

    let mut paused_but_off = state(status());
    paused_but_off.auto_backup_paused = true;
    assert_eq!(badge(&paused_but_off, IconMode::Ascii).unwrap().0, "git:main ok");

    let mut unborn = status();
    unborn.branch = Branch::Unborn;
    assert_eq!(badge(&state(unborn), IconMode::Nerd).unwrap(), ("git no commits".to_owned(), Tone::Muted));

    let mut rebasing = status();
    rebasing.state = RepoState::InProgress { label: "rebasing".to_owned() };
    assert_eq!(badge(&state(rebasing), IconMode::Ascii).unwrap(), ("git rebasing".to_owned(), Tone::Warning));

    let mut conflicted = state(status());
    conflicted.status.as_mut().unwrap().conflicted = vec!["a".to_owned()];
    conflicted.auto_commit_interval = 60;
    conflicted.auto_backup_paused = true;
    assert_eq!(badge(&conflicted, IconMode::Nerd).unwrap(), ("git !conflict [auto paused]".to_owned(), Tone::Error));

    let mut behind = status();
    behind.behind = 12;
    behind.staged = 1;
    behind.untracked = 9;
    assert_eq!(badge(&state(behind), IconMode::Nerd).unwrap(), ("⎇ main ✚10 ↓12".to_owned(), Tone::Warning));
}

#[test]
fn verdicts_read_each_risk_exactly() {
    let mut s = status();
    s.conflicted = vec!["a".to_owned(), "b".to_owned()];
    assert_eq!(sync_verdict(&s), ("2 conflicts need terminal resolution".to_owned(), Tone::Error));

    let mut s = status();
    s.state = RepoState::InProgress { label: "merging".to_owned() };
    assert_eq!(sync_verdict(&s), ("repository is in merging state".to_owned(), Tone::Error));

    let mut s = status();
    s.branch = Branch::Detached { short_id: "abc".to_owned() };
    s.behind = 4;
    assert_eq!(sync_verdict(&s), ("HEAD is detached".to_owned(), Tone::Warning));

    let mut s = status();
    s.behind = 1;
    assert_eq!(sync_verdict(&s), ("remote is 1 commit(s) ahead".to_owned(), Tone::Warning));

    let mut s = status();
    s.staged = 2;
    s.untracked = 1;
    assert_eq!(sync_verdict(&s), ("3 change(s) not committed".to_owned(), Tone::Warning));

    let mut s = status();
    s.ahead = 7;
    assert_eq!(sync_verdict(&s), ("7 commit(s) not pushed".to_owned(), Tone::Warning));

    let mut s = status();
    s.upstream = None;
    assert_eq!(sync_verdict(&s), ("committed locally; no remote configured".to_owned(), Tone::Muted));
}

#[test]
fn branches_read_by_name_id_or_absence() {
    assert_eq!(branch_text(&Branch::Named { name: "main".to_owned() }), "main");
    assert_eq!(branch_text(&Branch::Detached { short_id: "abc1234".to_owned() }), "detached@abc1234");
    assert_eq!(branch_text(&Branch::Unborn), "no commits");
}
