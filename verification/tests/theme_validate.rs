use snip::theme::color::ThemeColor;
use snip::theme::resolve::empty_ui;
use snip::theme::resolve::runtime_findings;
use snip::theme::validate::{check, Level};
use snip::theme::{Appearance, Syntax, SyntaxDerive, Theme};

/// A dark theme shaped like the default dark one: terminal surfaces and
/// RGB selection colours.
fn theme() -> Theme {
    let mut ui = empty_ui();
    ui.background = ThemeColor::Terminal;
    ui.foreground = ThemeColor::Terminal;
    ui.selection_bg = ThemeColor::Rgb(0x43, 0x4c, 0x5e);
    ui.selection_fg = ThemeColor::Rgb(0xec, 0xef, 0xf4);
    Theme {
        schema_version: 1,
        name: "sample".to_owned(),
        display_name: "Sample".to_owned(),
        appearance: Appearance::Dark,
        source: None,
        ui,
        syntax: Syntax::Derive { derive: SyntaxDerive::Base16 },
        palette: None,
    }
}

fn level(theme: &Theme, id: &str) -> (Level, String) {
    let item = check(theme).into_iter().find(|item| item.id == id).unwrap();
    (item.level, item.detail)
}

#[test]
fn checks_come_in_a_fixed_order() {
    let ids = check(&theme()).into_iter().map(|item| item.id).collect::<Vec<_>>();
    assert_eq!(
        ids,
        vec![
            "roles-distinct",
            "selection-contrast",
            "foreground-contrast",
            "role-legibility",
            "appearance-luminance",
            "surface-pairing",
            "computed-foreground"
        ]
    );
}

#[test]
fn equal_selection_colors_fail() {
    let mut theme = theme();
    assert_eq!(level(&theme, "selection-contrast").0, Level::Pass);
    theme.ui.selection_fg = theme.ui.selection_bg;
    assert!(check(&theme)
        .iter()
        .any(|item| item.id == "selection-contrast" && item.level == Level::Fail));
    assert_eq!(level(&theme, "selection-contrast"), (Level::Fail, "1.00".to_owned()));
}

#[test]
fn unpaired_surface_fails() {
    let mut theme = theme();
    assert_eq!(level(&theme, "surface-pairing").0, Level::Pass);
    theme.ui.foreground = ThemeColor::Rgb(255, 255, 255);
    assert!(check(&theme)
        .iter()
        .any(|item| item.id == "surface-pairing" && item.level == Level::Fail));
}

#[test]
fn indexed_colors_skip_contrast_without_failing() {
    let mut theme = theme();
    theme.ui.selection_bg = ThemeColor::Indexed(1);
    theme.ui.selection_fg = ThemeColor::Indexed(2);
    let item = check(&theme)
        .into_iter()
        .find(|item| item.id == "selection-contrast")
        .unwrap();
    assert_eq!(item.level, Level::Pass);
    assert_eq!(item.detail, "skipped: terminal-defined color");
}

#[test]
fn illegible_pill_labels_are_a_note_and_never_a_warning() {
    // The bar foreground is black on a black secondary pill.
    let theme = theme();
    assert_eq!(
        level(&theme, "computed-foreground"),
        (Level::Note, "black/white labels on: pill_secondary".to_owned())
    );
    let warnings = runtime_findings("sample", &check(&theme)).unwrap();
    assert!(warnings.iter().all(|warning| !warning.contains("computed-foreground")));
}

#[test]
fn both_pills_can_need_computed_labels() {
    let mut theme = theme();
    theme.ui.pill_primary = ThemeColor::Rgb(0xec, 0xef, 0xf4);
    assert_eq!(
        level(&theme, "computed-foreground"),
        (Level::Note, "black/white labels on: pill_primary, pill_secondary".to_owned())
    );
}

#[test]
fn legible_pill_labels_pass_and_terminal_ones_are_skipped() {
    let mut theme = theme();
    theme.ui.bar_fg = ThemeColor::Rgb(0xff, 0xff, 0xff);
    assert_eq!(level(&theme, "computed-foreground"), (Level::Pass, "pill labels keep their colors".to_owned()));
    theme.ui.pill_primary = ThemeColor::Terminal;
    theme.ui.pill_secondary = ThemeColor::Terminal;
    assert_eq!(
        level(&theme, "computed-foreground"),
        (Level::Pass, "skipped: terminal-defined color".to_owned())
    );
}
