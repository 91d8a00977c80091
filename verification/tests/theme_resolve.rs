use snip::error::ErrorKind;
use snip::theme::color::{NamedColor, ThemeColor};
use snip::theme::resolve::{
    apply_overrides, check_raw, next_in_chain, parse_palette, resolve_chain, resolve_raw, runtime_findings, RawSyntax,
    RawTheme, RawUi,
};
use snip::theme::validate::{check, Check, Level};
use snip::theme::{Appearance, Syntax, SyntaxDerive, Theme};

const ROLES: [&str; 18] = [
    "background",
    "foreground",
    "accent",
    "accent_alt",
    "border",
    "muted",
    "selection_bg",
    "selection_fg",
    "retained_bg",
    "pill_primary",
    "pill_secondary",
    "bar_bg",
    "bar_fg",
    "tag",
    "rule",
    "success",
    "warning",
    "error",
];

fn full_ui() -> RawUi {
    RawUi {
        background: Some("terminal".to_owned()),
        foreground: Some("terminal".to_owned()),
        accent: Some("#81a1c1".to_owned()),
        accent_alt: Some("#b48ead".to_owned()),
        border: Some("#4c566a".to_owned()),
        muted: Some("#d8dee9".to_owned()),
        selection_bg: Some("#434c5e".to_owned()),
        selection_fg: Some("#eceff4".to_owned()),
        retained_bg: Some("#3b4252".to_owned()),
        pill_primary: Some("#88c0d0".to_owned()),
        pill_secondary: Some("#4c566a".to_owned()),
        bar_bg: Some("#3b4252".to_owned()),
        bar_fg: Some("#e5e9f0".to_owned()),
        tag: Some("#d08770".to_owned()),
        rule: Some("#4c566a".to_owned()),
        success: Some("#a3be8c".to_owned()),
        warning: Some("#ebcb8b".to_owned()),
        error: Some("#bf616a".to_owned()),
    }
}

fn raw(name: &str, extends: Option<&str>, ui: RawUi) -> RawTheme {
    RawTheme {
        schema_version: 1,
        name: name.to_owned(),
        display_name: None,
        appearance: Appearance::Dark,
        source: None,
        extends: extends.map(str::to_owned),
        ui,
        syntax: Some(RawSyntax { theme: Some("Nord".to_owned()), derive: None }),
        palette: None,
    }
}

fn parent() -> Theme {
    resolve_raw(raw("parent", None, full_ui()), None).unwrap()
}

fn palette_entries() -> Vec<(String, String)> {
    (0..16).map(|index| (format!("base{index:02X}"), format!("#0{index:X}0{index:X}0{index:X}"))).collect()
}

#[test]
fn a_standalone_theme_resolves_every_role() {
    let theme = parent();
    assert_eq!(theme.name, "parent");
    assert_eq!(theme.display_name, "parent");
    assert_eq!(theme.ui.background, ThemeColor::Terminal);
    assert_eq!(theme.ui.accent, ThemeColor::Rgb(0x81, 0xa1, 0xc1));
    assert_eq!(theme.syntax, Syntax::Theme { theme: "Nord".to_owned() });
    assert_eq!(theme.palette, None);
}

#[test]
fn extends_overlays_only_named_roles() {
    let parent = parent();
    let ui = RawUi { accent: Some("#010203".to_owned()), ..RawUi::default() };
    let mut child = raw("child", Some("parent"), ui);
    child.syntax = None;
    let theme = resolve_raw(child, Some(parent.clone())).unwrap();
    assert_eq!(theme.ui.accent, ThemeColor::Rgb(1, 2, 3));
    assert_eq!(theme.ui.error, parent.ui.error);
    assert_eq!(theme.syntax, parent.syntax);
}

#[test]
fn extends_may_override_nothing_at_all() {
    let parent = parent();
    let mut child = raw("child", Some("parent"), RawUi::default());
    child.syntax = None;
    let theme = resolve_raw(child, Some(parent.clone())).unwrap();
    assert_eq!(theme.ui, parent.ui);
    assert_eq!(theme.syntax, parent.syntax);
    assert_eq!(theme.palette, parent.palette);
}

#[test]
fn standalone_theme_missing_a_ui_key_names_that_key() {
    let ui = RawUi { background: Some("terminal".to_owned()), ..RawUi::default() };
    let error = resolve_raw(raw("incomplete", None, ui), None).unwrap_err();
    assert!(error.to_string().contains("missing ui key foreground"));
    assert_eq!(error.to_string(), "theme incomplete: missing ui key foreground");
}

#[test]
fn a_standalone_theme_missing_a_role_names_it() {
    for (index, role) in ROLES.iter().enumerate().skip(1) {
        let mut ui = full_ui();
        match index {
            5 => ui.muted = None,
            17 => ui.error = None,
            _ => continue,
        }
        let error = resolve_raw(raw("gap", None, ui), None).unwrap_err();
        assert_eq!(error.to_string(), format!("theme gap: missing ui key {role}"));
    }
}

#[test]
fn a_bad_role_colour_is_reported_under_the_theme() {
    let ui = RawUi { accent: Some("nonsense".to_owned()), ..full_ui() };
    let error = resolve_raw(raw("bad", None, ui), None).unwrap_err();
    assert_eq!(error.kind, ErrorKind::Validation);
    assert!(error.to_string().starts_with("theme bad: invalid color \"nonsense\" for accent"));
}

#[test]
fn unpaired_surfaces_are_refused() {
    let ui = RawUi { foreground: Some("#ffffff".to_owned()), ..full_ui() };
    let error = resolve_raw(raw("odd", None, ui), None).unwrap_err();
    assert_eq!(
        error.to_string(),
        "theme odd: background and foreground must both be set or both be \"terminal\""
    );
}

#[test]
fn syntax_needs_exactly_one_choice_and_derive_needs_a_palette() {
    let mut both = raw("both", None, full_ui());
    both.syntax = Some(RawSyntax { theme: Some("Nord".to_owned()), derive: Some(SyntaxDerive::Base16) });
    assert_eq!(
        resolve_raw(both, None).unwrap_err().to_string(),
        "theme both: [syntax] must contain exactly one of theme or derive"
    );
    let mut derived = raw("derived", None, full_ui());
    derived.syntax = Some(RawSyntax { theme: None, derive: Some(SyntaxDerive::Base16) });
    assert_eq!(
        resolve_raw(derived, None).unwrap_err().to_string(),
        "theme derived: syntax derive = \"base16\" requires [palette]"
    );
    let mut none = raw("none", None, full_ui());
    none.syntax = None;
    assert_eq!(resolve_raw(none, None).unwrap_err().to_string(), "theme none: missing [syntax]");
    let mut unknown = raw("unknown", None, full_ui());
    unknown.syntax = Some(RawSyntax { theme: Some("NotATheme".to_owned()), derive: None });
    assert_eq!(resolve_raw(unknown, None).unwrap_err().to_string(), "unknown syntax theme NotATheme");
}

#[test]
fn a_palette_alone_derives_the_syntax() {
    let mut theme = raw("paletted", None, full_ui());
    theme.syntax = None;
    theme.palette = Some(palette_entries());
    let resolved = resolve_raw(theme, None).unwrap();
    assert_eq!(resolved.syntax, Syntax::Derive { derive: SyntaxDerive::Base16 });
    let colors = resolved.palette.unwrap().colors;
    assert_eq!(colors.len(), 16);
    assert_eq!(colors[10], ("base0A".to_owned(), ThemeColor::Rgb(0x0a, 0x0a, 0x0a)));
}

#[test]
fn palettes_need_all_sixteen_rgb_slots() {
    let mut entries = palette_entries();
    entries.remove(3);
    assert_eq!(
        parse_palette("p", &entries).unwrap_err().to_string(),
        "theme p: missing palette key base03"
    );
    let mut entries = palette_entries();
    entries.push(("base10".to_owned(), "#000000".to_owned()));
    assert_eq!(
        parse_palette("p", &entries).unwrap_err().to_string(),
        "theme p: [palette] must contain exactly base00 through base0F"
    );
    let mut entries = palette_entries();
    entries[4].1 = "red".to_owned();
    assert_eq!(
        parse_palette("p", &entries).unwrap_err().to_string(),
        "theme p: palette base04 must be a #rrggbb literal"
    );
    let mut entries = palette_entries();
    entries[5].1 = "#abc".to_owned();
    assert_eq!(
        parse_palette("p", &entries).unwrap_err().to_string(),
        "theme p: palette base05 must be a #rrggbb literal"
    );
}

#[test]
fn raw_themes_need_a_good_name_and_schema() {
    assert!(check_raw(&raw("fine", None, full_ui()), Some("fine")).is_ok());
    assert_eq!(
        check_raw(&raw("other", None, full_ui()), Some("fine")).unwrap_err().to_string(),
        "theme name other must equal file stem fine"
    );
    assert_eq!(
        check_raw(&raw("Bad Name", None, full_ui()), None).unwrap_err().to_string(),
        "invalid theme name Bad Name"
    );
    let mut future = raw("future", None, full_ui());
    future.schema_version = 99;
    assert_eq!(
        check_raw(&future, None).unwrap_err().to_string(),
        "theme future uses schema version 99, but this snip supports up to 1"
    );
    future.schema_version = 0;
    assert_eq!(check_raw(&future, None).unwrap_err().to_string(), "theme future has invalid schema version 0");
}

#[test]
fn extends_cycles_and_depth_nine_fail() {
    assert_eq!(next_in_chain("a", &Vec::new()).unwrap(), Some("a".to_owned()));
    let cycle = vec![raw("a", Some("b"), RawUi::default()), raw("b", Some("a"), RawUi::default())];
    assert!(next_in_chain("a", &cycle).unwrap_err().to_string().contains("extends cycle"));
    let deep = (0..9)
        .map(|index| raw(&format!("theme-{index}"), Some(&format!("theme-{}", index + 1)), RawUi::default()))
        .collect::<Vec<_>>();
    assert_eq!(next_in_chain("theme-0", &deep).unwrap_err().to_string(), "theme theme-9: extends chain too deep");
    assert_eq!(next_in_chain("theme-0", &deep[..8].to_vec()).unwrap(), Some("theme-8".to_owned()));
    let done = vec![raw("solo", None, full_ui())];
    assert_eq!(next_in_chain("solo", &done).unwrap(), None);
}

#[test]
fn a_chain_resolves_from_its_root() {
    let mut child = raw("child", Some("parent"), RawUi { tag: Some("red".to_owned()), ..RawUi::default() });
    child.syntax = None;
    let theme = resolve_chain(vec![child, raw("parent", None, full_ui())]).unwrap();
    assert_eq!(theme.name, "child");
    assert_eq!(theme.ui.tag, ThemeColor::Named(NamedColor::Red));
    assert_eq!(theme.ui.accent, ThemeColor::Rgb(0x81, 0xa1, 0xc1));
}

#[test]
fn runtime_findings_refuse_failures_and_keep_warnings() {
    let theme = parent();
    let findings = runtime_findings("parent", &check(&theme)).unwrap();
    assert!(findings.iter().all(|line| line.starts_with("theme parent: ")));
    let checks = vec![
        Check { id: "a", level: Level::Pass, detail: "fine".to_owned() },
        Check { id: "b", level: Level::Warn, detail: "hmm".to_owned() },
        Check { id: "c", level: Level::Warn, detail: "again".to_owned() },
    ];
    assert_eq!(
        runtime_findings("t", &checks).unwrap(),
        vec!["theme t: b: hmm".to_owned(), "theme t: c: again".to_owned()]
    );
    let mut failing = checks.clone();
    failing.push(Check { id: "d", level: Level::Fail, detail: "no".to_owned() });
    assert_eq!(runtime_findings("t", &failing).unwrap_err().to_string(), "theme t: d: no");
}

#[test]
fn config_colors_override_the_theme_and_skip_bad_values() {
    let mut theme = parent();
    let plain = theme.clone();
    let mut warnings = Vec::new();
    let entries = vec![
        ("accent".to_owned(), Some("#010203".to_owned())),
        ("bogus".to_owned(), Some("#040506".to_owned())),
        ("tag".to_owned(), Some("nonsense".to_owned())),
        ("rule".to_owned(), None),
    ];
    apply_overrides(&mut theme, &entries, &mut warnings);
    assert_eq!(theme.ui.accent, ThemeColor::Rgb(1, 2, 3));
    assert_eq!(theme.ui.tag, plain.ui.tag);
    assert_eq!(theme.ui.rule, plain.ui.rule);
    assert_eq!(warnings.len(), 2);
    assert!(warnings.iter().any(|warning| warning.contains("nonsense")));
    assert!(warnings.iter().any(|warning| warning == "invalid color for rule: expected a string"));
}

#[test]
fn unpaired_overrides_put_the_surfaces_back() {
    let mut theme = parent();
    let mut warnings = Vec::new();
    let entries = vec![("background".to_owned(), Some("#101010".to_owned()))];
    apply_overrides(&mut theme, &entries, &mut warnings);
    assert_eq!(theme.ui.background, ThemeColor::Terminal);
    assert_eq!(
        warnings,
        vec!["theme parent: background and foreground must both be set or both be \"terminal\"".to_owned()]
    );
}
