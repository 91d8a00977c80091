use snip::tui::command::CommandId;
use snip::tui::gist::GistBadge;
use snip::tui::gist_panel::{
    binding_label, gist_panel_text, gist_state, unavailable_reason, GhUnavailable, GistRecord, PanelLine, SelectedGist,
};
use snip::tui::help::Mode;
use snip::tui::icons::Tone;

fn action(command: CommandId, label: &str) -> PanelLine {
    PanelLine::Action { mode: Mode::Gist, command, label: label.to_owned(), primary: true }
}

fn note(text: &str, tone: Tone) -> PanelLine {
    PanelLine::Note { text: text.to_owned(), tone }
}

fn record() -> GistRecord {
    GistRecord {
        url: "https://gist.github.com/octocat/5b0e0062eb8e9654adad7bb1d81cc75f".to_owned(),
        public: false,
        pushed: "2h ago".to_owned(),
    }
}

fn strings(items: &[&str]) -> Vec<String> {
    items.iter().map(|item| (*item).to_owned()).collect()
}

#[test]
fn a_missing_or_signed_out_cli_explains_how_to_set_it_up() {
    let lines = gist_panel_text(&Some(GhUnavailable::NotAuthenticated), &None, None, None);
    assert_eq!(
        lines,
        vec![
            PanelLine::Blank,
            note("  gh is not authenticated.", Tone::Error),
            PanelLine::Blank,
            note("  snip publishes gists through the GitHub CLI.", Tone::Muted),
            note("  Install it from https://cli.github.com, then run:", Tone::Muted),
            PanelLine::Blank,
            note("    gh auth login", Tone::AccentAlt),
            note("    gh auth refresh -h github.com -s gist", Tone::AccentAlt),
            PanelLine::Blank,
            PanelLine::CloseFooter,
        ]
    );
    assert_eq!(unavailable_reason(&Some(GhUnavailable::BinaryMissing)), Some("gh was not found in PATH."));
    assert_eq!(unavailable_reason(&Some(GhUnavailable::Failed)), None);
    assert_eq!(unavailable_reason(&None), None);
}

#[test]
fn a_snippet_without_a_gist_offers_to_publish_it() {
    let selected = Some(SelectedGist { title: "Brewfile".to_owned(), record: None });
    let lines = gist_panel_text(&Some(GhUnavailable::Failed), &selected, None, None);
    assert_eq!(
        lines,
        vec![
            PanelLine::Blank,
            PanelLine::Field { key: "title".to_owned(), value: "Brewfile".to_owned(), bold: true },
            PanelLine::KeyValue { key: "gist".to_owned(), value: "not published".to_owned() },
            PanelLine::Blank,
            PanelLine::Section { label: "ACTIONS".to_owned() },
            PanelLine::Blank,
            action(CommandId::GistPush, "publish as a secret gist"),
            action(CommandId::GistPushPublic, "publish as a public gist"),
            action(CommandId::GistAttach, "link an existing gist…"),
            PanelLine::Blank,
            PanelLine::CloseFooter,
        ]
    );
    let nothing = gist_panel_text(&None, &None, None, None);
    assert_eq!(nothing[1], PanelLine::Field { key: "title".to_owned(), value: String::new(), bold: true });
    assert_eq!(nothing.len(), 11);
}

#[test]
fn a_published_snippet_shows_its_gist_and_actions() {
    let selected = Some(SelectedGist { title: "Brewfile".to_owned(), record: Some(record()) });
    let lines = gist_panel_text(&None, &selected, None, Some(GistBadge::Synced));
    assert_eq!(
        lines,
        vec![
            PanelLine::Blank,
            PanelLine::Field { key: "title".to_owned(), value: "Brewfile".to_owned(), bold: true },
            PanelLine::Field {
                key: "url".to_owned(),
                value: "https://gist.github.com/octocat/5b0e0062eb8e9654adad7bb1d81cc75f".to_owned(),
                bold: false,
            },
            PanelLine::Blank,
            PanelLine::KeyValue { key: "visibility".to_owned(), value: "secret".to_owned() },
            PanelLine::State { value: "clean".to_owned(), tone: Tone::BarFg },
            PanelLine::KeyValue { key: "pushed".to_owned(), value: "2h ago".to_owned() },
            PanelLine::Blank,
            PanelLine::Section { label: "ACTIONS".to_owned() },
            PanelLine::Blank,
            action(CommandId::GistPush, "update the gist"),
            action(CommandId::GistCopyUrl, "copy link"),
            action(CommandId::GistOpenInBrowser, "open in browser"),
            PanelLine::Blank,
            action(CommandId::GistVerifyRemote, "check it still exists"),
            action(CommandId::GistDetach, "unlink (keeps the gist)…"),
            action(CommandId::GistDelete, "delete on GitHub…"),
            PanelLine::Blank,
            PanelLine::CloseFooter,
        ]
    );
    let public = Some(SelectedGist { title: "x".to_owned(), record: Some(GistRecord { public: true, ..record() }) });
    let lines = gist_panel_text(&None, &public, None, None);
    assert_eq!(lines[4], PanelLine::KeyValue { key: "visibility".to_owned(), value: "public".to_owned() });
}

#[test]
fn the_state_reads_missing_clean_or_modified() {
    let gone = Some("gist no longer exists on GitHub");
    assert_eq!(gist_state(gone, Some(GistBadge::Synced)), ("missing", Tone::Error));
    assert_eq!(gist_state(None, Some(GistBadge::Synced)), ("clean", Tone::BarFg));
    assert_eq!(gist_state(None, Some(GistBadge::Modified)), ("modified", Tone::Warning));
    assert_eq!(gist_state(None, None), ("modified", Tone::Warning));
    assert_eq!(gist_state(Some("network down"), Some(GistBadge::Synced)), ("clean", Tone::BarFg));
    assert_eq!(gist_state(Some("gist no longer exists on GitHub."), None), ("modified", Tone::Warning));
}

#[test]
fn binding_labels_list_each_chord_once_between_slashes() {
    assert_eq!(binding_label(&Vec::new()), "—");
    assert_eq!(binding_label(&strings(&["p"])), "p");
    assert_eq!(binding_label(&strings(&["p", "Ctrl+P", "p", "Esc", "Ctrl+P"])), "p / Ctrl+P / Esc");
    assert_eq!(binding_label(&strings(&["", ""])), "");
}
