use snip::tui::help::HelpKey;
use std::collections::HashSet;

use snip::tui::help::extras::extras;
use snip::tui::help::{HelpExtraGroup, Mode};

#[test]
fn help_extra_ids_are_unique() {
    let mut ids = HashSet::new();
    for extra in extras() {
        assert!(!extra.id.is_empty());
        assert!(ids.insert(extra.id), "duplicate extra id: {}", extra.id);
    }
}

#[test]
fn extras_cover_quitting_digits_search_and_the_mouse() {
    let all = extras();
    assert_eq!(all.len(), 12);
    let quit = &all[0];
    assert_eq!((quit.id, quit.key, quit.slug), ("system.force-quit", "Ctrl-c", "app.quit"));
    assert_eq!(quit.group, HelpExtraGroup::System);
    assert_eq!(quit.modes.len(), 11);
    assert!(quit.modes.contains(&Mode::Help) && quit.modes.contains(&Mode::FragmentGrab));
    let search: Vec<_> = all.iter().filter(|extra| extra.group == HelpExtraGroup::Mode(Mode::Search)).collect();
    assert_eq!(search.len(), 4);
    assert!(search.iter().all(|extra| extra.modes == [Mode::Search] && extra.slug.is_empty()));
    let last = all.last().unwrap();
    assert_eq!((last.id, last.group, last.aliases), ("help.wheel", HelpExtraGroup::HelpControls, &["mouse", "scroll", "navigate"][..]));
    assert_eq!(all[1].description, "Jump to the first through tenth item");
}

#[test]
fn help_keys_read_as_their_chords_between_slashes() {
    let chords = HelpKey::Chords(vec!["j".to_owned(), "↓".to_owned(), "^n".to_owned()]);
    assert_eq!(chords.display(), "j / ↓ / ^n");
    assert_eq!(HelpKey::Chords(vec!["q".to_owned()]).display(), "q");
    assert_eq!(HelpKey::Chords(Vec::new()).display(), "");
    assert_eq!(HelpKey::Literal("1-9").display(), "1-9");
}
