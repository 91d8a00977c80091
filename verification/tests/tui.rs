use snip::paths::PathPart;
use snip::tui::event::relevant_parts;
use snip::tui::app::{auto_error_transition, grab_order, startup_status, FragmentGrab};
use snip::tui::clipboard::{base64, ClipboardMethod};
use snip::tui::gist::{compute, GistBadge};
use snip::tui::help::{context_label, scroll_positions, wrap_with_widths, wrap_words, HelpGroup, Mode};

#[test]
fn repeated_auto_backup_errors_are_silent_until_the_message_changes() {
    let mut last = None;
    assert!(auto_error_transition(&mut last, "first".to_owned()));
    assert!(!auto_error_transition(&mut last, "first".to_owned()));
    assert!(auto_error_transition(&mut last, "second".to_owned()));
    assert_eq!(last.as_deref(), Some("second"));
}

#[test]
fn grab_order_moves_down_up_and_preserves_identity() {
    assert_eq!(grab_order(5, 1, 3), vec![0, 2, 3, 1, 4]);
    assert_eq!(grab_order(5, 3, 1), vec![0, 3, 1, 2, 4]);
    assert_eq!(grab_order(5, 2, 2), vec![0, 1, 2, 3, 4]);
    assert_eq!(grab_order(1, 0, 0), vec![0]);
}

#[test]
fn grab_order_ignores_positions_out_of_range() {
    assert_eq!(grab_order(3, 5, 0), vec![0, 1, 2]);
    assert_eq!(grab_order(3, 0, 3), vec![0, 1, 2]);
    assert_eq!(grab_order(0, 0, 0), Vec::<usize>::new());
    let grab = FragmentGrab { origin: 2, current: 0 };
    assert_eq!(grab_order(4, grab.origin, grab.current), vec![2, 0, 1, 3]);
}

#[test]
fn base64_encodes_osc52_payloads() {
    assert_eq!(base64(b"hello"), "aGVsbG8=");
}

#[test]
fn base64_pads_every_remainder() {
    assert_eq!(base64(b""), "");
    assert_eq!(base64(b"f"), "Zg==");
    assert_eq!(base64(b"fo"), "Zm8=");
    assert_eq!(base64(b"foo"), "Zm9v");
    assert_eq!(base64(b"foobar"), "Zm9vYmFy");
    assert_eq!(base64(&[0xfb, 0xff]), "+/8=");
    assert_ne!(ClipboardMethod::System, ClipboardMethod::Osc52);
}

#[test]
fn wrapping_preserves_source_ranges_and_never_ellipsizes() {
    let text = "Move 你好 through one-unbreakable-long-word safely";
    let lines = wrap_words(text, 9);
    assert!(!lines.iter().any(|line| line.text.contains('…')));
    for line in lines {
        let source = text.chars().collect::<Vec<_>>()[line.source]
            .iter()
            .collect::<String>();
        assert_eq!(line.text, source);
    }
}

#[test]
fn wrapping_breaks_at_spaces_and_inside_long_words() {
    let lines = wrap_words("alpha beta gamma", 10);
    let texts = lines.iter().map(|line| line.text.clone()).collect::<Vec<_>>();
    assert_eq!(texts, vec!["alpha", "beta gamma"]);
    assert_eq!(lines[1].source, 6..16);
    let lines = wrap_words("abcdefgh", 3);
    let texts = lines.iter().map(|line| line.text.clone()).collect::<Vec<_>>();
    assert_eq!(texts, vec!["abc", "def", "gh"]);
    let empty = wrap_words("", 5);
    assert_eq!(empty.len(), 1);
    assert_eq!(empty[0].text, "");
    assert_eq!(empty[0].source, 0..0);
    assert!(wrap_words("   ", 5).is_empty());
    let wide = wrap_words("你好你好", 0);
    assert_eq!(wide.len(), 4);
}

#[test]
fn help_groups_and_contexts_have_their_headings() {
    assert_eq!(HelpGroup::Mode(Mode::List).label(), "SNIPPET LIST");
    assert_eq!(HelpGroup::Inherited.label(), "INHERITED FROM GLOBAL");
    assert_eq!(HelpGroup::Mode(Mode::Sidebar).label(), "SIDEBAR — LEFT PANE");
    assert_eq!(context_label(Mode::Fragment), "Preview");
    assert_eq!(context_label(Mode::Git), "Git console");
    assert_eq!(scroll_positions(10, 4), 7);
    assert_eq!(scroll_positions(3, 4), 1);
}

#[test]
fn internal_cache_and_git_events_are_ignored() {
    let root = "/library";
    assert!(snip::tui::event::is_relevant(root, "/library/snippets/a/file"));
    assert!(!snip::tui::event::is_relevant(root, "/library/.snip/locks/library.lock"));
    assert!(!snip::tui::event::is_relevant(root, "/library/.git/index"));
}

#[test]
fn gist_badges_compare_pushed_and_current_digests() {
    assert_eq!(compute(None, Some("d1")), None);
    assert_eq!(compute(Some(Some("d1")), None), None);
    assert_eq!(compute(Some(Some("d1")), Some("d1")), Some(GistBadge::Synced));
    assert_eq!(compute(Some(Some("d1")), Some("d2")), Some(GistBadge::Modified));
    assert_eq!(compute(Some(None), Some("d1")), Some(GistBadge::Modified));
}

#[test]
fn wide_characters_take_two_columns() {
    let lines = wrap_words("你好你好", 4);
    let texts = lines.iter().map(|line| line.text.clone()).collect::<Vec<_>>();
    assert_eq!(texts, vec!["你好", "你好"]);
    assert_eq!(lines[1].source, 2..4);
}

#[test]
fn only_the_part_below_the_root_is_inspected() {
    assert!(snip::tui::event::is_relevant("/home/.snip/library", "/home/.snip/library/snippets/a"));
    assert!(!snip::tui::event::is_relevant("/home/.snip/library", "/home/.snip/library/.git/HEAD"));
    assert!(!snip::tui::event::is_relevant("/library", "/elsewhere/.snip/file"));
}

#[test]
fn components_below_the_root_decide_relevance() {
    let normal = |name: &str| PathPart::Normal(name.to_owned());
    assert!(relevant_parts(&vec![normal("rust"), normal("snippet.toml")]));
    assert!(relevant_parts(&Vec::new()));
    assert!(!relevant_parts(&vec![normal("rust"), normal(".git"), normal("HEAD")]));
    assert!(!relevant_parts(&vec![normal(".snip")]));
    assert!(relevant_parts(&vec![PathPart::RootDir, normal(".gitignore"), normal(".snippets")]));
}

#[test]
fn wrapping_follows_the_widths_it_is_given() {
    let texts = |lines: &[snip::tui::help::WrappedLine]| {
        lines.iter().map(|line| (line.text.clone(), line.source.start, line.source.end)).collect::<Vec<_>>()
    };
    let narrow = wrap_with_widths("ab cd", &vec![1, 1, 1, 1, 1], 2);
    assert_eq!(texts(&narrow), vec![("ab".to_owned(), 0, 2), ("cd".to_owned(), 3, 5)]);
    let wide = wrap_with_widths("ab cd", &vec![2, 2, 1, 2, 2], 4);
    assert_eq!(texts(&wide), vec![("ab".to_owned(), 0, 2), ("cd".to_owned(), 3, 5)]);
    let one = wrap_with_widths("abcd", &vec![3, 3, 3, 3], 4);
    assert_eq!(texts(&one), vec![("a".to_owned(), 0, 1), ("b".to_owned(), 1, 2), ("c".to_owned(), 2, 3), ("d".to_owned(), 3, 4)]);
    let zero = wrap_with_widths("abc", &vec![0, 0, 0], 1);
    assert_eq!(texts(&zero), vec![("abc".to_owned(), 0, 3)]);
    assert_eq!(texts(&wrap_with_widths("", &Vec::new(), 5)), vec![(String::new(), 0, 0)]);
}

#[test]
fn wrapping_keeps_every_word_and_trims_every_line() {
    let text = "  move   你好 through one-unbreakable-long-word  ";
    let lines = wrap_words(text, 9);
    let chars: Vec<char> = text.chars().collect();
    for line in &lines {
        assert!(!line.text.is_empty());
        assert!(!line.text.starts_with(char::is_whitespace) && !line.text.ends_with(char::is_whitespace));
        assert!(unicode_width::UnicodeWidthStr::width(line.text.as_str()) <= 9 || line.text.chars().count() == 1);
    }
    for (k, c) in chars.iter().enumerate() {
        if !c.is_whitespace() {
            assert!(lines.iter().any(|line| line.source.contains(&k)), "character {k} dropped");
        }
    }
    assert!(wrap_words("   \t  ", 4).is_empty());
}

#[test]
fn the_interface_opens_with_ignored_keys_then_theme_warnings() {
    let warnings = vec!["theme a not found".to_owned(), "low contrast".to_owned()];
    assert_eq!(startup_status(&warnings, 0).as_deref(), Some("theme a not found; low contrast"));
    assert_eq!(startup_status(&warnings, 1).as_deref(), Some("1 key binding ignored; run \"snip keys check\""));
    assert_eq!(startup_status(&Vec::new(), 3).as_deref(), Some("3 key bindings ignored; run \"snip keys check\""));
    assert_eq!(startup_status(&Vec::new(), 0), None);
}
