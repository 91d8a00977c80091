use snip::theme::select::TuiThemeSetting;
use snip::theme::Appearance;
use snip::tui::git_panel::GitState;
use snip::tui::session::{busy_message, cycle_appearance, quit_plan, should_recheck_theme, toggle_auto_backup, QuitPlan};

fn idle() -> GitState {
    GitState {
        status: None,
        unavailable: None,
        error: None,
        auto_commit_interval: 15,
        auto_push: false,
        auto_pull: false,
        backup_on_quit: false,
        auto_backup_paused: false,
        pull_in_flight: false,
        fetch_in_flight: false,
        push_in_flight: false,
        push_running_nanos: None,
        last_fetch: None,
        last_commit_error: None,
        last_push_error: None,
        last_fetch_error: None,
        operation_queued: false,
    }
}

#[test]
fn pausing_needs_automatic_commits_and_toggles() {
    let mut off = GitState { auto_commit_interval: 0, ..idle() };
    assert_eq!(
        toggle_auto_backup(&mut off),
        "automatic Git operations are off; set git-auto-commit-interval to enable them"
    );
    assert!(!off.auto_backup_paused);
    let mut on = idle();
    assert_eq!(toggle_auto_backup(&mut on), "automatic Git operations paused for this session");
    assert!(on.auto_backup_paused);
    assert_eq!(toggle_auto_backup(&mut on), "automatic Git operations resumed");
    assert!(!on.auto_backup_paused);
}

#[test]
fn git_work_waits_for_the_running_network_task() {
    assert_eq!(busy_message(&idle()), None);
    assert_eq!(busy_message(&GitState { fetch_in_flight: true, ..idle() }), Some("a background fetch is running"));
    assert_eq!(
        busy_message(&GitState { fetch_in_flight: true, pull_in_flight: true, ..idle() }),
        Some("a background pull is running")
    );
    assert_eq!(
        busy_message(&GitState { push_in_flight: true, pull_in_flight: true, ..idle() }),
        Some("a background push is running")
    );
}

#[test]
fn quitting_waits_then_backs_up_then_quits() {
    assert_eq!(quit_plan(&idle(), true, true), QuitPlan::Wait("finishing gist operation…"));
    let pushing = GitState { push_in_flight: true, fetch_in_flight: true, ..idle() };
    assert_eq!(quit_plan(&pushing, false, true), QuitPlan::Wait("finishing background push…"));
    assert_eq!(quit_plan(&GitState { fetch_in_flight: true, ..idle() }, false, false), QuitPlan::Wait("finishing background fetch…"));
    let backing = GitState { backup_on_quit: true, ..idle() };
    assert_eq!(quit_plan(&backing, false, true), QuitPlan::BackupFirst);
    assert_eq!(quit_plan(&backing, false, false), QuitPlan::Quit);
    assert_eq!(quit_plan(&idle(), false, true), QuitPlan::Quit);
}

#[test]
fn cycling_the_appearance_flips_the_override_or_the_theme() {
    assert_eq!(cycle_appearance(None, Appearance::Dark), (Appearance::Light, "appearance: light (this session)".to_owned()));
    assert_eq!(cycle_appearance(Some(Appearance::Light), Appearance::Light).0, Appearance::Dark);
    assert_eq!(cycle_appearance(Some(Appearance::Dark), Appearance::Dark), (Appearance::Light, "appearance: light (this session)".to_owned()));
    assert_eq!(cycle_appearance(None, Appearance::Light).1, "appearance: dark (this session)");
}

#[test]
fn the_host_appearance_is_asked_again_only_when_followed() {
    assert!(should_recheck_theme(TuiThemeSetting::Auto, false, false, 5000));
    assert!(!should_recheck_theme(TuiThemeSetting::Auto, false, false, 4999));
    assert!(!should_recheck_theme(TuiThemeSetting::Dark, false, false, 60_000));
    assert!(!should_recheck_theme(TuiThemeSetting::Auto, true, false, 60_000));
    assert!(!should_recheck_theme(TuiThemeSetting::Auto, false, true, 60_000));
}
