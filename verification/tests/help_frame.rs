use snip::tui::help::frame::{
    body_height, count_label, fit_hints, hint_items, hint_width, hints_line_text, plan_width, popup_height,
    popup_width, title_text,
};
use snip::tui::help::{HelpScope, HelpSort, Mode};
use unicode_width::UnicodeWidthStr;

/// The help mode's default keys for switching the scope, the order and the
/// filter.
const KEYS: (&str, &str, &str) = ("a", "s", "/");

fn hints(scope: HelpScope, sort: HelpSort, filtering: bool, max_width: usize) -> String {
    let items = hint_items(scope, Some(Mode::Preview), sort, filtering, KEYS.0, KEYS.1, KEYS.2);
    hints_line_text(&fit_hints(&items, max_width))
}

#[test]
fn title_and_hints_track_scope_context_and_sort() {
    assert_eq!(title_text(HelpScope::Context, Some(Mode::Preview), HelpSort::Key).trim(), "Help › Preview · Sort: Key ↑");
    assert_eq!(hints(HelpScope::Context, HelpSort::Key, false, 100), "[a] All modes · [s] Sort by action · [/] Filter");
    assert_eq!(title_text(HelpScope::All, Some(Mode::Preview), HelpSort::Action).trim(), "Help › All modes · Sort: Action ↑");
    assert_eq!(hints(HelpScope::All, HelpSort::Action, false, 100), "[a] Preview only · [s] Sort by key · [/] Filter");
    assert_eq!(hints(HelpScope::Context, HelpSort::Key, true, 100), "[Esc] Clear · [Enter] Keep filter · [↑/↓] Select");
}

#[test]
fn eighty_column_chrome_budget_keeps_hint_clear_of_count() {
    let popup = 76u16;
    let count = " 1/50 ";
    let available = hint_width(popup, count);
    assert_eq!(available, 76 - 2 - count.width() - 1);
    let title = title_text(HelpScope::All, Some(Mode::Preview), HelpSort::Action);
    let hint = hints(HelpScope::All, HelpSort::Action, false, available);
    assert_eq!(hint, "[a] Preview only · [s] Sort by key · [/] Filter");
    assert!(title.width() <= 76 - 2);
    assert!(format!(" {hint} ").width() + count.width() < 76 - 2);
}

#[test]
fn hints_that_do_not_fit_drop_from_the_end() {
    assert_eq!(hints(HelpScope::Context, HelpSort::Key, false, 40), "[a] All modes · [s] Sort by action");
    assert_eq!(hints(HelpScope::Context, HelpSort::Key, false, 16), "[a] All modes");
    assert_eq!(hints(HelpScope::Context, HelpSort::Key, false, 5), "");
    let unbound = hint_items(HelpScope::Context, None, HelpSort::Key, false, "", "s", "");
    assert_eq!(hints_line_text(&unbound), "[s] Sort by action");
}

#[test]
fn the_popup_takes_seven_tenths_within_its_bounds() {
    assert_eq!(popup_width(80), 76);
    assert_eq!(popup_width(200), 100);
    assert_eq!(popup_width(3), 2);
    assert_eq!(popup_width(120), 84);
    assert_eq!(plan_width(76), 69);
    assert_eq!(popup_height(100, false, 40), 28);
    assert_eq!(popup_height(3, false, 40), 12);
    assert_eq!(popup_height(3, true, 8), 8);
    assert_eq!(body_height(28, true), 23);
    assert_eq!(body_height(3, false), 0);
}

#[test]
fn the_count_names_the_selected_row_and_matches() {
    assert_eq!(count_label(0, 50, false), " 1/50 ");
    assert_eq!(count_label(4, 7, true), " 5/7 matches ");
    assert_eq!(count_label(0, 0, false), " 0/0 ");
    assert_eq!(count_label(usize::MAX, 3, false), " 3/3 ");
}
