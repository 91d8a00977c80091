use std::cmp::Ordering;

use snip::sort::{text_compare, SnippetSortKey, SortMode};

fn key(pinned: bool, title: &str, modified: Option<&str>, created: &str) -> SnippetSortKey {
    SnippetSortKey {
        pinned,
        title: title.to_owned(),
        modified_at: modified.map(str::to_owned),
        created_at: created.to_owned(),
    }
}

#[test]
fn sort_modes_cycle_and_name_themselves() {
    assert_eq!(SortMode::Manual.next(), SortMode::Title);
    assert_eq!(SortMode::Created.next(), SortMode::Manual);
    assert_eq!(SortMode::Manual.next().next().next().next(), SortMode::Manual);
    assert_eq!(SortMode::Modified.as_str(), "modified");
    assert_eq!(SortMode::Title.as_str(), "title");
}

#[test]
fn pinned_snippets_sort_first_in_every_mode() {
    let pinned = key(true, "zebra", None, "2026-01-01T00:00:00Z");
    let plain = key(false, "apple", Some("2026-05-01T00:00:00Z"), "2026-02-01T00:00:00Z");
    for mode in [SortMode::Manual, SortMode::Title, SortMode::Modified, SortMode::Created] {
        assert_eq!(mode.compare(&pinned, &plain), Ordering::Less);
        assert_eq!(mode.compare(&plain, &pinned), Ordering::Greater);
    }
}

#[test]
fn modes_break_ties_by_title_modification_and_creation() {
    let a = key(false, "Beta", Some("2026-01-01T00:00:00Z"), "2025-01-01T00:00:00Z");
    let b = key(false, "alpha", None, "2026-01-01T00:00:00Z");
    assert_eq!(SortMode::Manual.compare(&a, &b), Ordering::Equal);
    assert_eq!(SortMode::Title.compare(&a, &b), Ordering::Greater);
    assert_eq!(SortMode::Modified.compare(&a, &b), Ordering::Less);
    assert_eq!(SortMode::Created.compare(&a, &b), Ordering::Greater);
    let c = key(false, "gamma", Some("2026-03-01T00:00:00Z"), "2024-01-01T00:00:00Z");
    assert_eq!(SortMode::Modified.compare(&a, &c), Ordering::Greater);
    assert_eq!(SortMode::Title.compare(&b, &key(false, "ALPHA", None, "x")), Ordering::Equal);
}

#[test]
fn texts_compare_character_by_character() {
    let chars = |s: &str| s.chars().collect::<Vec<char>>();
    assert_eq!(text_compare(&chars("apple"), &chars("apricot")), Ordering::Less);
    assert_eq!(text_compare(&chars("zebra"), &chars("apple")), Ordering::Greater);
    assert_eq!(text_compare(&chars("app"), &chars("apple")), Ordering::Less);
    assert_eq!(text_compare(&chars(""), &chars("")), Ordering::Equal);
    assert_eq!(text_compare(&chars("Zebra"), &chars("apple")), Ordering::Less);
    assert_eq!(text_compare(&chars("élan"), &chars("zoo")), Ordering::Greater);
}
