use snip::tui::git_console::{console_lines, content_width, network, repository_footer, section_rule, ConsoleLine};
use unicode_width::UnicodeWidthStr;
use snip::tui::git_panel::{Branch, Commit, GitState, RepoState, Status, Unavailable};
use snip::tui::icons::Tone;

fn idle() -> GitState {
    GitState {
        status: None,
        unavailable: None,
        error: None,
        auto_commit_interval: 0,
        auto_push: false,
        auto_pull: false,
        backup_on_quit: false,
        auto_backup_paused: false,
        pull_in_flight: false,
        fetch_in_flight: false,
        push_in_flight: false,
        push_running_nanos: None,
        last_fetch: None,
        last_commit_error: None,
        last_push_error: None,
        last_fetch_error: None,
        operation_queued: false,
    }
}

fn status() -> Status {
    Status {
        branch: Branch::Named { name: "main".to_owned() },
        upstream: Some("origin/main".to_owned()),
        ahead: 0,
        behind: 0,
        staged: 1,
        unstaged: 2,
        untracked: 3,
        conflicted: Vec::new(),
        state: RepoState::Clean,
        last_commit: None,
        upstream_commit: None,
    }
}

fn kv(key: &str, value: &str) -> ConsoleLine {
    ConsoleLine::KeyValue { key: key.to_owned(), value: value.to_owned() }
}

fn section(label: &str) -> ConsoleLine {
    ConsoleLine::Section { label: label.to_owned() }
}

fn plain(text: &str, tone: Tone) -> ConsoleLine {
    ConsoleLine::Note { prefix: String::new(), text: text.to_owned(), limit: None, tone, bold: false }
}

fn checkbox(checked: bool, key: &str, label: &str) -> ConsoleLine {
    ConsoleLine::Checkbox { checked, key: key.to_owned(), label: label.to_owned() }
}

#[test]
fn a_repository_console_lists_worktree_automation_and_footer() {
    let git = GitState {
        status: Some(status()),
        auto_commit_interval: 15,
        auto_push: true,
        backup_on_quit: true,
        last_fetch: Some("3m ago".to_owned()),
        last_push_error: Some("rejected".to_owned()),
        ..idle()
    };
    let lines = console_lines(&git, "notes", "/home/me/notes", 54);
    assert_eq!(
        lines,
        vec![
            ConsoleLine::Verdict { text: "6 change(s) not committed".to_owned(), tone: Tone::Warning },
            ConsoleLine::Relationship {
                local: "local none".to_owned(),
                arrow: " ─── ".to_owned(),
                remote: "origin/main none".to_owned(),
                remote_width: 39,
            },
            ConsoleLine::RelationshipTime,
            ConsoleLine::Blank,
            section("WORKTREE"),
            kv("branch", "main"),
            kv("remote", "origin/main"),
            kv("changes", "1 staged · 2 modified · 3 new"),
            kv("last fetch", "3m ago"),
            ConsoleLine::Blank,
            section("AUTOMATION"),
            checkbox(true, "i", "commit every 15 min"),
            checkbox(true, "u", "push after commit"),
            checkbox(false, "U", "pull on start"),
            checkbox(true, "o", "backup on quit"),
            kv("session", "active (a to pause)"),
            kv("network", "idle"),
            kv("push error", "rejected"),
            ConsoleLine::RepositoryFooter,
        ]
    );
}

#[test]
fn fallbacks_read_when_nothing_is_known() {
    let mut s = status();
    s.upstream = None;
    s.branch = Branch::Unborn;
    let git = GitState { status: Some(s), auto_backup_paused: true, ..idle() };
    let lines = console_lines(&git, "notes", "/n", 40);
    assert!(lines.contains(&kv("branch", "no commits")));
    assert!(lines.contains(&kv("remote", "none")));
    assert!(lines.contains(&kv("last fetch", "not fetched this session")));
    assert!(lines.contains(&checkbox(false, "i", "automatic commits off")));
    assert!(lines.contains(&kv("session", "paused (a to resume)")));
    assert_eq!(lines.last(), Some(&ConsoleLine::RepositoryFooter));
}

#[test]
fn the_network_row_names_the_running_task() {
    assert_eq!(network(&idle()), "idle");
    let pushing = GitState { push_in_flight: true, push_running_nanos: Some(180_000_000_000), ..idle() };
    assert_eq!(network(&pushing), "pushing…");
    let stalled = GitState { push_in_flight: true, push_running_nanos: Some(180_000_000_001), ..idle() };
    assert_eq!(network(&stalled), "background push stalled");
    let unknown_start = GitState { push_in_flight: true, ..idle() };
    assert_eq!(network(&unknown_start), "pushing…");
    let fetching = GitState { fetch_in_flight: true, ..stalled };
    assert_eq!(network(&fetching), "fetching remote status…");
    let pulling = GitState { pull_in_flight: true, ..fetching };
    assert_eq!(network(&pulling), "pulling…");
}

#[test]
fn attention_names_the_operation_the_detached_head_and_the_conflicts() {
    let mut s = status();
    s.state = RepoState::InProgress { label: "merging".to_owned() };
    s.branch = Branch::Detached { short_id: "abc1234".to_owned() };
    s.conflicted = (1..=7).map(|i| format!("snippet-{i}.toml")).collect();
    let git = GitState { status: Some(s), error: Some("status failed".to_owned()), ..idle() };
    let lines = console_lines(&git, "notes", "/n", 30);
    let start = lines.iter().position(|line| *line == section("ATTENTION")).unwrap();
    let path = |i: usize| ConsoleLine::Note {
        prefix: "    ".to_owned(),
        text: format!("snippet-{i}.toml"),
        limit: Some(46),
        tone: Tone::Muted,
        bold: false,
    };
    assert_eq!(lines[start - 1], ConsoleLine::Blank);
    assert_eq!(
        lines[start + 1..],
        [
            plain("  repository is in merging state", Tone::Warning),
            plain("  HEAD is detached", Tone::Warning),
            plain("  conflicts in 7 files", Tone::Error),
            path(1),
            path(2),
            path(3),
            path(4),
            path(5),
            plain("    … and 2 more", Tone::Muted),
            ConsoleLine::Blank,
            ConsoleLine::Note {
                prefix: String::new(),
                text: "status failed".to_owned(),
                limit: Some(30),
                tone: Tone::Error,
                bold: false,
            },
            ConsoleLine::RepositoryFooter,
        ]
    );
    assert_eq!(lines[0], ConsoleLine::Verdict { text: "7 conflicts need terminal resolution".to_owned(), tone: Tone::Error });
}

#[test]
fn a_clean_named_branch_has_no_attention_section() {
    let git = GitState { status: Some(status()), ..idle() };
    let lines = console_lines(&git, "notes", "/n", 30);
    assert!(!lines.contains(&section("ATTENTION")));
}

#[test]
fn unavailable_repositories_explain_themselves() {
    let not_repo = GitState { unavailable: Some(Unavailable::NotARepository), status: Some(status()), ..idle() };
    let lines = console_lines(&not_repo, "notes", "/home/me/notes", 40);
    assert_eq!(
        lines,
        vec![
            ConsoleLine::Title { name: "notes".to_owned() },
            ConsoleLine::Blank,
            section("REPOSITORY"),
            ConsoleLine::Blank,
            plain("  This library is not a git repository.", Tone::Muted),
            ConsoleLine::Blank,
            ConsoleLine::Note {
                prefix: "  ".to_owned(),
                text: "/home/me/notes".to_owned(),
                limit: Some(38),
                tone: Tone::BarFg,
                bold: false,
            },
            ConsoleLine::Blank,
            plain("  snip already wrote a .gitignore here.", Tone::Muted),
            plain("  To enable backups, run:", Tone::Muted),
            ConsoleLine::Blank,
            ConsoleLine::Note {
                prefix: String::new(),
                text: "      git init".to_owned(),
                limit: None,
                tone: Tone::Accent,
                bold: true,
            },
            plain("  Or initialize it here:", Tone::Muted),
            ConsoleLine::Blank,
            ConsoleLine::InitFooter,
        ]
    );

    let failed = GitState { unavailable: Some(Unavailable::ProbeFailed { message: "bad object".to_owned() }), ..idle() };
    let lines = console_lines(&failed, "notes", "/n", 1);
    assert_eq!(lines[4], plain("  Git could not inspect this library.", Tone::Error));
    assert_eq!(
        lines[6],
        ConsoleLine::Note { prefix: "  ".to_owned(), text: "bad object".to_owned(), limit: Some(0), tone: Tone::Muted, bold: false }
    );
    assert_eq!(lines.last(), Some(&ConsoleLine::BasicFooter));
    assert_eq!(lines.len(), 9);

    let missing = GitState { unavailable: Some(Unavailable::BinaryMissing), ..idle() };
    let lines = console_lines(&missing, "notes", "/n", 40);
    assert_eq!(lines[4], plain("Git status is not available yet.", Tone::Error));
    assert_eq!(lines.len(), 7);

    let errored = GitState { error: Some("git status failed".to_owned()), ..idle() };
    let lines = console_lines(&errored, "notes", "/n", 40);
    assert_eq!(lines[0], ConsoleLine::Title { name: "notes".to_owned() });
    assert_eq!(lines[4], plain("git status failed", Tone::Error));
    assert_eq!(lines[6], ConsoleLine::BasicFooter);
}

#[test]
fn the_console_is_at_most_fifty_four_columns_wide() {
    assert_eq!(content_width(200), 54);
    assert_eq!(content_width(64), 54);
    assert_eq!(content_width(40), 30);
    assert_eq!(content_width(10), 0);
    assert_eq!(content_width(3), 0);
}

const FOOTER_LABELS: [&str; 11] = [
    "backup",
    "commit",
    "push",
    "fetch",
    "interval",
    "auto push",
    "on quit",
    "message",
    "pause",
    "refresh",
    "close",
];

fn sections_and_footers_fit(widths: [usize; 4], footer_widths: [usize; 2]) {
    for width in widths {
        assert_eq!(section_rule("AUTOMATION", width).as_str().width(), width);
    }
    for width in footer_widths {
        let footer = repository_footer(width);
        assert!(footer.iter().all(|line| line.as_str().width() <= width));
        let rendered = footer.concat();
        for label in FOOTER_LABELS {
            assert!(rendered.contains(label), "missing footer action {label}");
        }
    }
}

#[test]
fn git_panel_unicode_sections_and_narrow_footers_respect_display_width() {
    sections_and_footers_fit([30, 40, 48, 54], [30, 40]);
}

#[test]
fn mod_unicode_sections_and_narrow_footers_respect_display_width() {
    sections_and_footers_fit([30, 40, 48, 54], [30, 40]);
}

#[test]
fn section_rules_run_to_the_width() {
    assert_eq!(section_rule("WORKTREE", 20), "── WORKTREE ────────");
    assert_eq!(section_rule("ATTENTION", 5), "── ATTENTION ");
}

#[test]
fn footer_lines_line_up_at_every_width() {
    assert_eq!(
        repository_footer(30),
        vec![
            "b backup  c commit     ",
            "p push  f fetch        ",
            "i interval  u auto push",
            "o on quit  C message   ",
            "a pause  r refresh     ",
            "Esc close              ",
        ]
    );
    assert_eq!(
        repository_footer(44),
        vec![
            "b backup  c commit  p push  f fetch     ",
            "i interval  u auto push  o on quit      ",
            "C message  a pause  r refresh  Esc close",
        ]
    );
    let wide = repository_footer(60);
    assert_eq!(wide.len(), 3);
    assert_eq!(wide[2], "C  message    a  pause    r  refresh    Esc  close");
    assert!(wide.iter().all(|line| line.len() == 50));
    assert_eq!(wide[0], "b  backup    c  commit    p  push    f  fetch     ");
}

/// The heads' line of the console, `width` columns wide, as the text it
/// shows before the remote head is cut.
fn relationship_text(status: Status, width: usize) -> String {
    let git = GitState { status: Some(status), ..idle() };
    console_lines(&git, "notes", "/n", width)
        .into_iter()
        .find_map(|line| match line {
            ConsoleLine::Relationship { local, arrow, remote, .. } => Some(format!("{local}{arrow}{remote}")),
            _ => None,
        })
        .unwrap()
}

fn relationship_arrows_follow_ahead_and_behind() {
    let text = |ahead: u32, behind: u32| relationship_text(Status { ahead, behind, ..status() }, 80);
    assert!(text(0, 0).contains("───"));
    assert!(text(1, 0).contains("──▶"));
    assert!(text(0, 1).contains("◀──"));
    assert!(text(1, 1).contains("◀─▶"));
}

#[test]
fn git_panel_relationship_line_distinguishes_sync_lead_lag_and_divergence() {
    relationship_arrows_follow_ahead_and_behind();
}

#[test]
fn mod_relationship_line_distinguishes_sync_lead_lag_and_divergence() {
    relationship_arrows_follow_ahead_and_behind();
}

#[test]
fn relationship_names_both_heads_and_leaves_the_rest_to_the_remote() {
    let commit = |id: &str| Commit { short_id: id.to_owned(), timestamp: 0, subject: "initial".to_owned() };
    let s = Status { last_commit: Some(commit("abc1234")), upstream_commit: Some(commit("def5678")), ahead: 2, ..status() };
    let git = GitState { status: Some(s), ..idle() };
    let lines = console_lines(&git, "notes", "/n", 30);
    assert_eq!(
        lines[1],
        ConsoleLine::Relationship {
            local: "local abc1234".to_owned(),
            arrow: " ──▶ ".to_owned(),
            remote: "origin/main def5678".to_owned(),
            remote_width: 12,
        }
    );
    assert_eq!(" ◀─▶ ".width(), 5);
    let narrow = GitState { status: Some(Status { last_commit: Some(commit("abc1234")), ..status() }), ..idle() };
    assert_eq!(
        console_lines(&narrow, "notes", "/n", 16)[1],
        ConsoleLine::Relationship {
            local: "local abc1234".to_owned(),
            arrow: " ─── ".to_owned(),
            remote: String::new(),
            remote_width: 0,
        }
    );
}
