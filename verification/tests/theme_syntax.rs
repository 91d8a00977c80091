use snip::theme::color::ThemeColor;
use snip::theme::resolve::empty_ui;
use snip::theme::highlight::to_syntect;
use snip::theme::syntax::{derive_syntax, embedded_index, resolve, validate_embedded_name, DerivedSyntax};
use snip::theme::{Appearance, Palette, Syntax, SyntaxDerive, Theme};
use syntect::highlighting::Color;

fn palette() -> Palette {
    Palette {
        colors: (0..16u8)
            .map(|index| (format!("base{index:02X}"), ThemeColor::Rgb(index, index * 2, index * 3)))
            .collect(),
    }
}

fn theme(syntax: Syntax, palette: Option<Palette>) -> Theme {
    Theme {
        schema_version: 1,
        name: "sample".to_owned(),
        display_name: "Sample Theme".to_owned(),
        appearance: Appearance::Dark,
        source: Some("someone".to_owned()),
        ui: empty_ui(),
        syntax,
        palette,
    }
}

fn derived(palette: Option<Palette>) -> Theme {
    theme(Syntax::Derive { derive: SyntaxDerive::Base16 }, palette)
}

fn named(name: &str) -> Theme {
    theme(Syntax::Theme { theme: name.to_owned() }, None)
}

#[test]
fn embedded_themes_are_found_by_either_label_in_any_case() {
    assert_eq!(embedded_index("Nord"), Some(24));
    assert_eq!(embedded_index("nord"), Some(24));
    assert_eq!(embedded_index("ansi"), Some(0));
    assert_eq!(embedded_index("base16-256"), Some(6));
    assert_eq!(embedded_index("Base16_256"), Some(6));
    assert_eq!(embedded_index("monokaiextendedbright"), Some(21));
    assert_eq!(embedded_index("Solarized (dark)"), Some(27));
    assert_eq!(embedded_index("zenburn"), Some(31));
    assert_eq!(embedded_index("1337"), Some(19));
    assert_eq!(embedded_index("Leet"), Some(19));
    assert_eq!(embedded_index("nordic"), None);
    assert_eq!(embedded_index(""), None);
    assert!(validate_embedded_name("gruvbox-dark").is_ok());
    assert_eq!(validate_embedded_name("nope").unwrap_err().to_string(), "unknown syntax theme nope");
}

#[test]
fn a_named_syntax_theme_resolves_to_the_embedded_one() {
    let nord = resolve(&named("nord")).unwrap();
    assert!(!nord.scopes.is_empty());
    assert_eq!(resolve(&named("Nord")).unwrap(), nord);
    assert_ne!(resolve(&named("Dracula")).unwrap(), nord);
    assert_eq!(resolve(&named("Nordic")).unwrap_err().to_string(), "unknown syntax theme Nordic");
}

#[test]
fn a_derived_syntax_theme_takes_its_colours_from_the_palette() {
    let d = derive_syntax(&derived(Some(palette()))).unwrap();
    assert_eq!(d.name, "Sample Theme");
    assert_eq!(d.author.as_deref(), Some("someone"));
    assert_eq!(d.foreground, (5, 10, 15));
    assert_eq!(d.background, (0, 0, 0));
    assert_eq!(d.caret, (5, 10, 15));
    assert_eq!(d.selection, (2, 4, 6));
    assert_eq!(d.gutter_foreground, (3, 6, 9));
    assert_eq!(d.line_highlight, (1, 2, 3));
    assert_eq!(d.gutter, (0, 0, 0));
    assert_eq!(d.rules.len(), 10);
    assert_eq!(d.rules[0], ("comment".to_owned(), (3, 6, 9)));
    assert_eq!(d.rules[1], ("string, constant.character".to_owned(), (11, 22, 33)));
    assert_eq!(d.rules[4], ("keyword, storage, keyword.operator".to_owned(), (14, 28, 42)));
    assert_eq!(d.rules[9], ("invalid".to_owned(), (8, 16, 24)));

    let syntect = resolve(&derived(Some(palette()))).unwrap();
    assert_eq!(syntect.name.as_deref(), Some("Sample Theme"));
    assert_eq!(syntect.author.as_deref(), Some("someone"));
    assert_eq!(syntect.settings.foreground, Some(Color { r: 5, g: 10, b: 15, a: 255 }));
    assert_eq!(syntect.settings.gutter, Some(Color { r: 0, g: 0, b: 0, a: 255 }));
    assert_eq!(syntect.settings.accent, None);
    assert_eq!(syntect.scopes.len(), 10);
    assert_eq!(syntect.scopes[2].style.foreground, Some(Color { r: 9, g: 18, b: 27, a: 255 }));
    assert_eq!(syntect.scopes[2].style.background, None);
}

#[test]
fn derivation_fails_without_a_palette_or_at_the_first_bad_slot() {
    let error = resolve(&derived(None)).unwrap_err();
    assert_eq!(error.to_string(), "theme sample: base16 syntax requires [palette]");

    let mut gaps = palette();
    gaps.colors.retain(|(key, _)| key != "base0E");
    gaps.colors[13].1 = ThemeColor::Indexed(4);
    assert_eq!(gaps.colors[13].0, "base0D");
    assert_eq!(derive_syntax(&derived(Some(gaps))).unwrap_err().to_string(), "missing palette key base0E");

    let mut indexed = palette();
    indexed.colors[2].1 = ThemeColor::Terminal;
    indexed.colors.retain(|(key, _)| key != "base03");
    assert_eq!(
        derive_syntax(&derived(Some(indexed))).unwrap_err().to_string(),
        "palette key base02 is not an RGB color"
    );
}

#[test]
fn the_first_entry_of_a_slot_counts() {
    let mut doubled = palette();
    doubled.colors.insert(0, ("base05".to_owned(), ThemeColor::Rgb(9, 9, 9)));
    let d = derive_syntax(&derived(Some(doubled))).unwrap();
    assert_eq!(d.foreground, (9, 9, 9));
}

fn derived_with_rules(rules: &[&str]) -> DerivedSyntax {
    DerivedSyntax {
        name: "Rules".to_owned(),
        author: None,
        foreground: (1, 2, 3),
        background: (4, 5, 6),
        caret: (7, 8, 9),
        selection: (10, 11, 12),
        gutter_foreground: (13, 14, 15),
        line_highlight: (16, 17, 18),
        gutter: (19, 20, 21),
        rules: rules.iter().map(|r| ((*r).to_owned(), (30, 40, 50))).collect(),
    }
}

#[test]
fn syntect_theme_reports_the_first_selector_it_cannot_parse() {
    let long = "a.b.c.d.e.f.g.h.i";
    let error = to_syntect(&derived_with_rules(&["comment", long, "x.y.z.a.b.c.d.e.f"])).unwrap_err();
    assert_eq!(
        error.to_string(),
        format!("invalid built-in scope selector {long}: Too many atoms. Max 2^16-2 atoms allowed.")
    );
}

#[test]
fn syntect_theme_keeps_every_rule_and_colour() {
    let theme = to_syntect(&derived_with_rules(&["comment", "string, constant"])).unwrap();
    assert_eq!(theme.name.as_deref(), Some("Rules"));
    assert_eq!(theme.author, None);
    assert_eq!(theme.settings.caret, Some(Color { r: 7, g: 8, b: 9, a: 255 }));
    assert_eq!(theme.settings.line_highlight, Some(Color { r: 16, g: 17, b: 18, a: 255 }));
    assert_eq!(theme.scopes.len(), 2);
    assert_eq!(theme.scopes[1].scope.selectors.len(), 2);
    assert_eq!(theme.scopes[1].style.foreground, Some(Color { r: 30, g: 40, b: 50, a: 255 }));
}
