use snip::tui::command::{by_slug, CommandId};
use snip::tui::help::state::{same_row, HelpRowId, HelpState};
use snip::tui::help::{HelpScope, HelpSort, Mode};

fn rows(n: usize) -> Vec<HelpRowId> {
    CommandId::all().into_iter().take(n).map(|id| HelpRowId::Command { source_mode: Mode::List, id }).collect()
}

fn one_line_each(n: usize) -> Vec<(usize, usize)> {
    (0..n).map(|line| (line, line + 1)).collect()
}

#[test]
fn growing_viewport_reclamps_scroll_without_bottom_blank_space() {
    let mut state = HelpState::default();
    state.open(vec![Mode::List, Mode::Global], rows(30));
    let content_lines = state.count();
    let ranges = one_line_each(content_lines);
    state.selected = state.count() - 1;

    state.update_layout(5, ranges.clone());
    assert_eq!(state.scroll, content_lines - 5);

    state.update_layout(20, ranges);
    assert_eq!(state.scroll, content_lines - 20);
    assert_eq!(state.scroll + state.viewport_lines, content_lines);
}

#[test]
fn scope_change_preserves_stable_global_identity() {
    let console = HelpRowId::Command { source_mode: Mode::Global, id: by_slug("git.toggle-console").unwrap() };
    let mut context = rows(4);
    context.push(console);
    let mut state = HelpState::default();
    state.open(vec![Mode::Help], context);
    state.selected = state.visible.iter().position(|row| *row == console).unwrap();
    state.toggle_scope();
    assert_eq!(state.scope, HelpScope::All);
    let mut all = rows(40);
    all.insert(17, console);
    state.show_rows(all);
    assert_eq!(state.visible[state.selected], console);
    assert_eq!(state.selected, 17);
}

#[test]
fn a_vanished_row_keeps_the_position_as_far_as_the_rows_reach() {
    let mut state = HelpState::default();
    state.open(vec![Mode::List], rows(10));
    state.move_selection(7);
    assert_eq!(state.selected, 7);
    state.show_rows(rows(10).into_iter().skip(3).collect());
    assert_eq!(state.selected, 4);
    state.show_rows(rows(10).into_iter().skip(9).chain(rows(2)).collect());
    assert_eq!(state.selected, 2);
    state.show_rows(Vec::new());
    assert_eq!((state.selected, state.scroll), (0, 0));
}

#[test]
fn moving_the_selection_stops_at_the_ends_and_scrolls_to_it() {
    let mut state = HelpState::default();
    state.open(vec![Mode::List], rows(12));
    state.update_layout(4, one_line_each(12));
    state.move_selection(-3);
    assert_eq!((state.selected, state.scroll), (0, 0));
    state.move_selection(5);
    assert_eq!((state.selected, state.scroll), (5, 2));
    state.move_selection(100);
    assert_eq!((state.selected, state.scroll), (11, 8));
    state.move_selection(-9);
    assert_eq!((state.selected, state.scroll), (2, 2));

    let mut empty = HelpState::default();
    empty.move_selection(3);
    assert_eq!((empty.selected, empty.scroll), (0, 0));
}

#[test]
fn half_pages_jump_to_the_nearest_row_start() {
    let mut state = HelpState::default();
    state.open(vec![Mode::List], rows(6));
    // Rows of 1, 3, 1, 4, 1 and 2 lines.
    let ranges = vec![(0, 1), (1, 4), (4, 5), (5, 9), (9, 10), (10, 12)];
    state.update_layout(6, ranges);
    state.move_half_page(1);
    assert_eq!((state.selected, state.scroll), (2, 0));
    state.move_half_page(1);
    assert_eq!((state.selected, state.scroll), (3, 3));
    state.move_half_page(1);
    assert_eq!((state.selected, state.scroll), (4, 4));
    state.move_half_page(-1);
    assert_eq!((state.selected, state.scroll), (3, 4));
    state.move_half_page(-1);
    assert_eq!((state.selected, state.scroll), (1, 1));

    state.update_layout(1, vec![(0, 1), (1, 2), (2, 3), (3, 4), (4, 5), (5, 6)]);
    state.move_half_page(1);
    assert_eq!(state.selected, 2);
}

#[test]
fn closing_and_filtering_reset_what_they_should() {
    let mut state = HelpState::default();
    assert_eq!(state.viewport_lines, 1);
    state.open(vec![Mode::Git, Mode::Global], rows(8));
    state.update_layout(3, one_line_each(8));
    state.move_selection(6);
    state.start_filtering();
    state.filter.push_str("push");
    assert!(state.filtering);
    state.leave_filtering(false);
    assert!(!state.filtering);
    assert_eq!(state.filter, "push");
    state.leave_filtering(true);
    assert_eq!(state.filter, "");
    state.cycle_sort();
    assert_eq!(state.sort, HelpSort::Action);
    state.cycle_sort();
    assert_eq!(state.sort, HelpSort::Key);
    state.close();
    assert_eq!((state.selected, state.scroll, state.filtering), (0, 0, false));
    state.update_layout(0, Vec::new());
    assert_eq!(state.viewport_lines, 1);
}

#[test]
fn rows_are_the_same_by_mode_and_command_or_by_extra_id() {
    let a = HelpRowId::Command { source_mode: Mode::List, id: CommandId::GistPush };
    let b = HelpRowId::Command { source_mode: Mode::Gist, id: CommandId::GistPush };
    assert!(same_row(&a, &a));
    assert!(!same_row(&a, &b));
    assert!(same_row(&HelpRowId::Extra("digits"), &HelpRowId::Extra("digits")));
    assert!(!same_row(&HelpRowId::Extra("digits"), &HelpRowId::Extra("mouse")));
    assert!(!same_row(&a, &HelpRowId::Extra("digits")));
}
