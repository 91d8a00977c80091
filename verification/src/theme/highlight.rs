//! `syntect` themes: those `two_face` embeds, and the one built from a
//! derived syntax theme.
use vstd::prelude::*;

use std::str::FromStr;

use syntect::highlighting::Theme as SyntaxTheme;
use syntect::highlighting::{Color, ScopeSelectors, StyleModifier, ThemeItem, ThemeSettings};
use two_face::theme::EmbeddedLazyThemeSet;

use crate::error::{ErrorKind, SnipError};
use crate::text::{copy_opt_string, copy_string, push_str};
use crate::theme::syntax::{embedded_theme_labels, DerivedSyntax, DerivedView};

verus! {

/// syntect's theme, `syntect::highlighting::Theme` (imported here as
/// `SyntaxTheme`, apart from the library's own `Theme`).
#[verifier::external_type_specification]
#[verifier::external_body]
pub struct ExSyntaxTheme(SyntaxTheme);

/// syntect's editor settings of a theme.
#[verifier::external_type_specification]
#[verifier::external_body]
pub struct ExThemeSettings(syntect::highlighting::ThemeSettings);

/// syntect's styling rule of a theme.
#[verifier::external_type_specification]
#[verifier::external_body]
pub struct ExThemeItem(syntect::highlighting::ThemeItem);

/// syntect's parsed scope selectors.
#[verifier::external_type_specification]
#[verifier::external_body]
pub struct ExScopeSelectors(syntect::highlighting::ScopeSelectors);

/// syntect's RGBA colour.
#[verifier::external_type_specification]
#[verifier::external_body]
pub struct ExColor(syntect::highlighting::Color);

/// The syntect theme that two-face embeds at position `index` of
/// `EmbeddedLazyThemeSet::theme_names`.
pub uninterp spec fn embedded_syntect_theme(index: nat) -> SyntaxTheme;

/// The embedded theme at position `index` of
/// `EmbeddedLazyThemeSet::theme_names`, loaded from `two_face::theme::extra`
/// with `EmbeddedLazyThemeSet::get` (infallible for its listed names) and
/// cloned: it is the theme two-face lists for that name, which the set loads
/// once and then hands out again, so the position alone decides it.
#[verifier::external_body]
pub(crate) fn embedded_theme(index: usize) -> (t: SyntaxTheme)
    requires
        index < embedded_theme_labels().len(),
    ensures
        t == embedded_syntect_theme(index as nat),
{
    two_face::theme::extra().get(EmbeddedLazyThemeSet::theme_names()[index]).clone()
}

/// `ScopeSelectors::from_str` on `selectors`: the parsed selectors, or the
/// parse error's `Display` text. Nothing is stated of either: syntect interns
/// each scope's atoms in a process-wide table, so the parsed value (and
/// whether the table has room) depends on what the process parsed before.
#[verifier::external_body]
fn parse_selectors(selectors: &str) -> Result<ScopeSelectors, String> {
    match ScopeSelectors::from_str(selectors) {
        Ok(parsed) => Ok(parsed),
        Err(error) => Err(error.to_string()),
    }
}

/// syntect's `Color` with these red, green and blue components, opaque.
pub uninterp spec fn syntect_color_of(rgb: (u8, u8, u8)) -> Color;

/// syntect's opaque `Color` with these red, green and blue components (and
/// full opacity).
#[verifier::external_body]
fn syntect_color(rgb: (u8, u8, u8)) -> (c: Color)
    ensures
        c == syntect_color_of(rgb),
{
    Color { r: rgb.0, g: rgb.1, b: rgb.2, a: 255 }
}

/// syntect's `ThemeItem` for these selectors and foreground, opaque.
pub uninterp spec fn theme_item_of(scope: ScopeSelectors, foreground: Color) -> ThemeItem;

/// syntect's `ThemeItem` colouring the text its selectors match, with no
/// background and no font style.
#[verifier::external_body]
fn theme_item(scope: ScopeSelectors, foreground: Color) -> (item: ThemeItem)
    ensures
        item == theme_item_of(scope, foreground),
{
    ThemeItem { scope, style: StyleModifier { foreground: Some(foreground), background: None, font_style: None } }
}

/// syntect's `ThemeSettings` with these editor colours, opaque.
pub uninterp spec fn theme_settings_of(
    foreground: Color,
    background: Color,
    caret: Color,
    selection: Color,
    gutter_foreground: Color,
    line_highlight: Color,
    gutter: Color,
) -> ThemeSettings;

/// syntect's `ThemeSettings` with these editor colours and every other
/// setting at its default.
#[verifier::external_body]
fn theme_settings(
    foreground: Color,
    background: Color,
    caret: Color,
    selection: Color,
    gutter_foreground: Color,
    line_highlight: Color,
    gutter: Color,
) -> (t: ThemeSettings)
    ensures
        t == theme_settings_of(foreground, background, caret, selection, gutter_foreground, line_highlight, gutter),
{
    ThemeSettings {
        foreground: Some(foreground),
        background: Some(background),
        caret: Some(caret),
        selection: Some(selection),
        gutter_foreground: Some(gutter_foreground),
        line_highlight: Some(line_highlight),
        gutter: Some(gutter),
        ..ThemeSettings::default()
    }
}

/// syntect's `Theme` with this name, author, settings and rules, opaque.
pub uninterp spec fn syntect_theme_of(
    name: Seq<char>,
    author: Option<Seq<char>>,
    settings: ThemeSettings,
    scopes: Seq<ThemeItem>,
) -> SyntaxTheme;

/// syntect's `Theme` with this name, author, settings and rules.
#[verifier::external_body]
fn syntect_theme(name: String, author: Option<String>, settings: ThemeSettings, scopes: Vec<ThemeItem>) -> (t: SyntaxTheme)
    ensures
        t == syntect_theme_of(
            name@,
            match author {
                Some(a) => Some(a@),
                None => None,
            },
            settings,
            scopes@,
        ),
{
    SyntaxTheme { name: Some(name), author, settings, scopes }
}

/// The editor settings of the syntect theme for `d`.
pub open spec fn derived_settings(d: DerivedView) -> ThemeSettings {
    theme_settings_of(
        syntect_color_of(d.foreground),
        syntect_color_of(d.background),
        syntect_color_of(d.caret),
        syntect_color_of(d.selection),
        syntect_color_of(d.gutter_foreground),
        syntect_color_of(d.line_highlight),
        syntect_color_of(d.gutter),
    )
}

/// syntect's rules for `d`, given what syntect parsed each selector to: one
/// per rule, in order, with the rule's colour.
pub open spec fn derived_items(d: DerivedView, parsed: Seq<ScopeSelectors>) -> Seq<ThemeItem> {
    Seq::new(d.rules.len(), |k: int| theme_item_of(parsed[k], syntect_color_of(d.rules[k].1)))
}

/// syntect's theme for `d`, given what syntect parsed each selector to: its
/// name, author, editor colours and rules.
pub open spec fn syntect_spec(d: DerivedView, parsed: Seq<ScopeSelectors>) -> SyntaxTheme {
    syntect_theme_of(d.name, d.author, derived_settings(d), derived_items(d, parsed))
}

/// The start of the message for a rule selector that syntect cannot parse;
/// syntect's own error follows.
pub open spec fn selector_error_prefix(selector: Seq<char>) -> Seq<char> {
    "invalid built-in scope selector "@ + selector + ": "@
}

/// `m` is the message for one of the derived theme's selectors.
pub open spec fn is_selector_error(d: DerivedView, m: Seq<char>) -> bool {
    exists|k: int|
        0 <= k < d.rules.len() && m.len() >= selector_error_prefix(#[trigger] d.rules[k].0).len() && m.subrange(
            0,
            selector_error_prefix(d.rules[k].0).len() as int,
        ) == selector_error_prefix(d.rules[k].0)
}

/// syntect's theme for a derived one: its name and author, the editor's
/// colours and one rule per selector. It fails only where syntect cannot
/// parse one of the selectors.
pub fn to_syntect(d: &DerivedSyntax) -> (r: Result<SyntaxTheme, SnipError>)
    ensures
        r matches Ok(t) ==> exists|parsed: Seq<ScopeSelectors>|
            parsed.len() == d@.rules.len() && t == #[trigger] syntect_spec(d@, parsed),
        r matches Err(e) ==> e@.0 == ErrorKind::Validation && is_selector_error(d@, e@.1),
{
    let settings = theme_settings(
        syntect_color(d.foreground),
        syntect_color(d.background),
        syntect_color(d.caret),
        syntect_color(d.selection),
        syntect_color(d.gutter_foreground),
        syntect_color(d.line_highlight),
        syntect_color(d.gutter),
    );
    assert(settings == derived_settings(d@));
    let mut scopes: Vec<ThemeItem> = Vec::new();
    let ghost mut parsed: Seq<ScopeSelectors> = Seq::empty();
    let mut i: usize = 0;
    while i < d.rules.len()
        invariant
            i <= d.rules.len(),
            scopes@.len() == i,
            parsed.len() == i,
            forall|j: int| 0 <= j < i ==> #[trigger] scopes@[j] == theme_item_of(parsed[j], syntect_color_of(d@.rules[j].1)),
        decreases d.rules.len() - i,
    {
        assert(d@.rules[i as int].0 == d.rules@[i as int].0@);
        assert(d@.rules[i as int].1 == d.rules@[i as int].1);
        let selector = d.rules[i].0.as_str();
        let parsed_now = match parse_selectors(selector) {
            Ok(parsed) => parsed,
            Err(error) => {
                let mut m = String::new();
                push_str(&mut m, "invalid built-in scope selector ");
                push_str(&mut m, selector);
                push_str(&mut m, ": ");
                push_str(&mut m, error.as_str());
                proof {
                    let prefix = selector_error_prefix(d@.rules[i as int].0);
                    assert(d@.rules[i as int].0 == d.rules@[i as int].0@);
                    assert(m@ =~= prefix + error@);
                    assert(m@.subrange(0, prefix.len() as int) =~= prefix);
                }
                return Err(SnipError::validation(m));
            },
        };
        let ghost p = parsed_now;
        let item = theme_item(parsed_now, syntect_color(d.rules[i].1));
        scopes.push(item);
        proof {
            parsed = parsed.push(p);
        }
        i = i + 1;
    }
    let name = copy_string(d.name.as_str());
    let author = copy_opt_string(&d.author);
    assert(scopes@ =~= derived_items(d@, parsed));
    assert(match author {
        Some(a) => Some(a@),
        None => None,
    } == d@.author);
    let t = syntect_theme(name, author, settings, scopes);
    assert(t == syntect_spec(d@, parsed));
    Ok(t)
}

} // verus!
