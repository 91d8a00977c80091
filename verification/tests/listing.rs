use snip::listing::sort_order;
use snip::sort::{SnippetSortKey, SortMode};

fn key(pinned: bool, title: &str, modified: Option<&str>, created: &str) -> SnippetSortKey {
    SnippetSortKey {
        pinned,
        title: title.to_owned(),
        modified_at: modified.map(str::to_owned),
        created_at: created.to_owned(),
    }
}

fn catalog() -> Vec<SnippetSortKey> {
    vec![
        key(false, "delta", Some("2026-03-01T00:00:00Z"), "2025-01-01T00:00:00Z"),
        key(false, "Alpha", None, "2025-06-01T00:00:00Z"),
        key(true, "zulu", Some("2026-01-01T00:00:00Z"), "2024-01-01T00:00:00Z"),
        key(false, "charlie", Some("2026-05-01T00:00:00Z"), "2025-03-01T00:00:00Z"),
        key(false, "bravo", None, "2025-06-01T00:00:00Z"),
    ]
}

#[test]
fn manual_order_lifts_pinned_snippets_and_keeps_catalog_order() {
    assert_eq!(sort_order(SortMode::Manual, &catalog()), vec![2, 0, 1, 3, 4]);
}

#[test]
fn title_order_ignores_case_after_pins() {
    assert_eq!(sort_order(SortMode::Title, &catalog()), vec![2, 1, 4, 3, 0]);
}

#[test]
fn modified_order_is_newest_first_with_unknown_times_last_in_catalog_order() {
    assert_eq!(sort_order(SortMode::Modified, &catalog()), vec![2, 3, 0, 1, 4]);
}

#[test]
fn created_order_is_newest_first_and_stable_for_equal_times() {
    assert_eq!(sort_order(SortMode::Created, &catalog()), vec![2, 1, 4, 3, 0]);
}

#[test]
fn sorting_nothing_gives_nothing() {
    assert_eq!(sort_order(SortMode::Title, &Vec::new()), Vec::<usize>::new());
}

#[test]
fn equal_keys_keep_their_catalog_order_in_every_mode() {
    let same = vec![
        key(false, "same", None, "2025-01-01T00:00:00Z"),
        key(false, "SAME", None, "2025-01-01T00:00:00Z"),
        key(false, "Same", None, "2025-01-01T00:00:00Z"),
    ];
    for mode in [SortMode::Manual, SortMode::Title, SortMode::Modified, SortMode::Created] {
        assert_eq!(sort_order(mode, &same), vec![0, 1, 2]);
    }
}

use snip::listing::{clamp_offset, refresh_selection, viewport_rows};

/// Rows of the list are two lines tall in the default density.
const ROW_HEIGHT: u16 = 2;

#[test]
fn refreshing_a_short_list_keeps_and_selects_its_first_row() {
    // The catalog holds two snippets in the filtered folder and one outside
    // it; the selected snippet is the one outside.
    let (first_id, second_id, outside_id) = (11u128, 12u128, 13u128);
    let ids = [first_id, second_id];
    let keys = vec![
        key(false, "First Dotfile", None, "2025-01-01T00:00:00Z"),
        key(false, "Second Dotfile", None, "2025-01-01T00:00:00Z"),
    ];
    let visible: Vec<u128> = sort_order(SortMode::Title, &keys).into_iter().map(|i| ids[i]).collect();
    assert_eq!(visible, vec![first_id, second_id]);

    let selection = refresh_selection(Some(outside_id), &visible);
    assert_eq!(selection, Some(0));
    assert_eq!(selection.map(|i| visible[i]), Some(first_id));

    // A stale offset of 25 in a pane six lines tall is cut back so that both
    // rows show.
    let offset = clamp_offset(25, visible.len(), viewport_rows(6, ROW_HEIGHT));
    assert_eq!(offset, 0);
}

#[test]
fn refreshing_an_unchanged_list_preserves_the_rendered_viewport() {
    let keys: Vec<SnippetSortKey> =
        (0..59).map(|i| key(false, &format!("Snippet {i:02}"), None, "2025-01-01T00:00:00Z")).collect();
    let ids: Vec<u128> = (0..59u128).map(|i| 1000 + i).collect();
    let visible: Vec<u128> = sort_order(SortMode::Title, &keys).into_iter().map(|i| ids[i]).collect();
    let selected = Some(visible[40]);
    let viewport = viewport_rows(42, ROW_HEIGHT);

    let again: Vec<u128> = sort_order(SortMode::Title, &keys).into_iter().map(|i| ids[i]).collect();
    assert_eq!(again, visible);
    assert_eq!(refresh_selection(selected, &again), Some(40));
    assert_eq!(clamp_offset(30, again.len(), viewport), 30);
}

#[test]
fn rebuilding_sidebar_clamps_only_an_excess_viewport_offset() {
    // A sidebar pane five lines tall shows three one-line rows; the sample
    // sidebar has seven rows.
    let rows = 7;
    let viewport = viewport_rows(5, 1);
    assert_eq!(viewport, 3);
    assert_eq!(clamp_offset(25, rows, viewport), rows.saturating_sub(3));
    assert_eq!(clamp_offset(2, rows, viewport), 2);
}

#[test]
fn selection_follows_the_selected_snippet_to_its_new_row() {
    assert_eq!(refresh_selection(Some(7), &vec![3, 5, 7, 9]), Some(2));
    assert_eq!(refresh_selection(None, &vec![3, 5]), Some(0));
    assert_eq!(refresh_selection(Some(7), &Vec::new()), None);
}

#[test]
fn viewports_count_whole_rows_inside_the_borders() {
    assert_eq!(viewport_rows(42, 2), 20);
    assert_eq!(viewport_rows(7, 2), 2);
    assert_eq!(viewport_rows(1, 2), 0);
    assert_eq!(clamp_offset(5, 3, 10), 0);
}
