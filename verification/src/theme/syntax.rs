//! Syntax themes: those `two_face` embeds, and those derived from a theme's
//! base16 palette, as `syntect` themes.
use vstd::prelude::*;

use syntect::highlighting::Theme as SyntectTheme;
use two_face::theme::{EmbeddedLazyThemeSet, EmbeddedThemeName};

use crate::error::{ErrorKind, SnipError};
use crate::text::{chars_of, copy_opt_string, copy_string, eq_chars, eq_ignore_case, push_str, string_of};
use crate::theme::base16::{
    lemma_parsed_palette, palette_get, parse_scheme_result, scheme_to_theme_result, slot_name,
};
use crate::theme::color::ThemeColor;
use crate::theme::highlight::{embedded_syntect_theme, embedded_theme, is_selector_error, syntect_spec, to_syntect};
use syntect::highlighting::ScopeSelectors;
use crate::theme::{Palette, Syntax, Theme, ThemeView};

verus! {

/// The embedded theme names, each as its display name and its identifier.
pub open spec fn embedded_theme_labels() -> Seq<(Seq<char>, Seq<char>)> {
    seq![
        ("ansi"@, "Ansi"@),
        ("base16"@, "Base16"@),
        ("base16-eighties.dark"@, "Base16EightiesDark"@),
        ("base16-mocha.dark"@, "Base16MochaDark"@),
        ("base16-ocean.dark"@, "Base16OceanDark"@),
        ("base16-ocean.light"@, "Base16OceanLight"@),
        ("base16-256"@, "Base16_256"@),
        ("Catppuccin Frappe"@, "CatppuccinFrappe"@),
        ("Catppuccin Latte"@, "CatppuccinLatte"@),
        ("Catppuccin Macchiato"@, "CatppuccinMacchiato"@),
        ("Catppuccin Mocha"@, "CatppuccinMocha"@),
        ("Coldark-Cold"@, "ColdarkCold"@),
        ("Coldark-Dark"@, "ColdarkDark"@),
        ("DarkNeon"@, "DarkNeon"@),
        ("Dracula"@, "Dracula"@),
        ("GitHub"@, "Github"@),
        ("gruvbox-dark"@, "GruvboxDark"@),
        ("gruvbox-light"@, "GruvboxLight"@),
        ("InspiredGitHub"@, "InspiredGithub"@),
        ("1337"@, "Leet"@),
        ("Monokai Extended"@, "MonokaiExtended"@),
        ("Monokai Extended Bright"@, "MonokaiExtendedBright"@),
        ("Monokai Extended Light"@, "MonokaiExtendedLight"@),
        ("Monokai Extended Origin"@, "MonokaiExtendedOrigin"@),
        ("Nord"@, "Nord"@),
        ("OneHalfDark"@, "OneHalfDark"@),
        ("OneHalfLight"@, "OneHalfLight"@),
        ("Solarized (dark)"@, "SolarizedDark"@),
        ("Solarized (light)"@, "SolarizedLight"@),
        ("Sublime Snazzy"@, "SublimeSnazzy"@),
        ("TwoDark"@, "TwoDark"@),
        ("zenburn"@, "Zenburn"@),
    ]
}

/// A list of label pairs, as spec values.
pub open spec fn label_pairs_view(labels: Seq<(String, String)>) -> Seq<(Seq<char>, Seq<char>)> {
    labels.map_values(|p: (String, String)| (p.0@, p.1@))
}

/// `two_face`'s embedded theme list (`EmbeddedLazyThemeSet::theme_names`),
/// each entry given as its `as_name()` and its variant name (`Debug`). The
/// contract states the list the crate's source holds, in its order.
#[verifier::external_body]
fn embedded_labels() -> (labels: Vec<(String, String)>)
    ensures
        label_pairs_view(labels@) == embedded_theme_labels(),
{
    EmbeddedLazyThemeSet::theme_names()
        .iter()
        .map(|name: &EmbeddedThemeName| (name.as_name().to_owned(), format!("{name:?}")))
        .collect()
}

/// `name` names an embedded syntax theme, by its display name or its
/// identifier, ignoring ASCII case.
pub open spec fn is_embedded_name(name: Seq<char>) -> bool {
    exists|i: int|
        0 <= i < embedded_theme_labels().len() && matches_label(
            #[trigger] embedded_theme_labels()[i],
            name,
        )
}

/// `name` is one of the two labels of an embedded theme.
pub open spec fn matches_label(label: (Seq<char>, Seq<char>), name: Seq<char>) -> bool {
    eq_ignore_case(label.0, name) || eq_ignore_case(label.1, name)
}

/// The message for an unknown syntax theme.
pub open spec fn unknown_syntax_message(name: Seq<char>) -> Seq<char> {
    "unknown syntax theme "@ + name
}

/// The position of the first embedded theme that `name` names, from
/// position `i` on.
pub open spec fn embedded_index_from(name: Seq<char>, i: int) -> Option<int>
    decreases embedded_theme_labels().len() - i,
{
    if i < 0 || i >= embedded_theme_labels().len() {
        None
    } else if matches_label(embedded_theme_labels()[i], name) {
        Some(i)
    } else {
        embedded_index_from(name, i + 1)
    }
}

/// The first embedded theme from position `i` on is named by `name` exactly
/// when some theme from there on is.
proof fn lemma_embedded_index_from(name: Seq<char>, i: int)
    requires
        0 <= i <= embedded_theme_labels().len(),
    ensures
        embedded_index_from(name, i) is Some <==> exists|j: int|
            i <= j < embedded_theme_labels().len() && matches_label(#[trigger] embedded_theme_labels()[j], name),
        embedded_index_from(name, i) matches Some(j) ==> i <= j < embedded_theme_labels().len() && matches_label(
            embedded_theme_labels()[j],
            name,
        ),
    decreases embedded_theme_labels().len() - i,
{
    if i < embedded_theme_labels().len() {
        lemma_embedded_index_from(name, i + 1);
    }
}

/// The position, in `two_face`'s list, of the first embedded syntax theme
/// that `name` names by its display name or its identifier, ignoring ASCII
/// case.
pub fn embedded_index(name: &str) -> (r: Option<usize>)
    ensures
        match embedded_index_from(name@, 0) {
            Some(i) => r == Some(i as usize),
            None => r is None,
        },
        r matches Some(i) ==> i < embedded_theme_labels().len(),
{
    let target = chars_of(name);
    let labels = embedded_labels();
    let ghost lv = label_pairs_view(labels@);
    let mut i: usize = 0;
    while i < labels.len()
        invariant
            i <= labels@.len(),
            lv == label_pairs_view(labels@),
            lv == embedded_theme_labels(),
            target@ == name@,
            embedded_index_from(name@, 0) == embedded_index_from(name@, i as int),
        decreases labels@.len() - i,
    {
        let display = chars_of(labels[i].0.as_str());
        let ident = chars_of(labels[i].1.as_str());
        assert(lv[i as int] == (labels@[i as int].0@, labels@[i as int].1@));
        if crate::text::eq_ignore_case_chars(display.as_slice(), target.as_slice()) || crate::text::eq_ignore_case_chars(
            ident.as_slice(),
            target.as_slice(),
        ) {
            return Some(i);
        }
        i = i + 1;
    }
    None
}

/// Checks that `name` is one of the syntax themes `two_face` embeds, by its
/// display name or its identifier, ignoring ASCII case.
pub fn validate_embedded_name(name: &str) -> (r: Result<(), SnipError>)
    ensures
        r is Ok <==> is_embedded_name(name@),
        r matches Err(e) ==> e@ == (ErrorKind::Validation, unknown_syntax_message(name@)),
{
    proof {
        lemma_embedded_index_from(name@, 0);
    }
    match embedded_index(name) {
        Some(_) => Ok(()),
        None => Err(unknown_syntax(name)),
    }
}

/// The error for an unknown syntax theme.
fn unknown_syntax(name: &str) -> (e: SnipError)
    ensures
        e@ == (ErrorKind::Validation, unknown_syntax_message(name@)),
{
    let mut m = String::new();
    push_str(&mut m, "unknown syntax theme ");
    push_str(&mut m, name);
    assert(m@ =~= unknown_syntax_message(name@));
    SnipError::validation(m)
}

// ---------------------------------------------------------------------------
// Themes derived from a base16 palette
// ---------------------------------------------------------------------------

/// A syntax theme derived from a base16 palette, as plain values: its name
/// and author, the editor's colours, and each scope selector with the
/// colour of its text. Every colour is an opaque RGB triple.
#[derive(Debug)]
pub struct DerivedSyntax {
    pub name: String,
    pub author: Option<String>,
    pub foreground: (u8, u8, u8),
    pub background: (u8, u8, u8),
    pub caret: (u8, u8, u8),
    pub selection: (u8, u8, u8),
    pub gutter_foreground: (u8, u8, u8),
    pub line_highlight: (u8, u8, u8),
    pub gutter: (u8, u8, u8),
    pub rules: Vec<(String, (u8, u8, u8))>,
}

/// A derived syntax theme as a spec value.
pub struct DerivedView {
    pub name: Seq<char>,
    pub author: Option<Seq<char>>,
    pub foreground: (u8, u8, u8),
    pub background: (u8, u8, u8),
    pub caret: (u8, u8, u8),
    pub selection: (u8, u8, u8),
    pub gutter_foreground: (u8, u8, u8),
    pub line_highlight: (u8, u8, u8),
    pub gutter: (u8, u8, u8),
    pub rules: Seq<(Seq<char>, (u8, u8, u8))>,
}

impl View for DerivedSyntax {
    type V = DerivedView;

    open spec fn view(&self) -> DerivedView {
        DerivedView {
            name: self.name@,
            author: match self.author {
                Some(a) => Some(a@),
                None => None,
            },
            foreground: self.foreground,
            background: self.background,
            caret: self.caret,
            selection: self.selection,
            gutter_foreground: self.gutter_foreground,
            line_highlight: self.line_highlight,
            gutter: self.gutter,
            rules: self.rules@.map_values(|r: (String, (u8, u8, u8))| (r.0@, r.1)),
        }
    }
}

/// The scope rules of a derived theme: each selector and the palette slot
/// that colours it.
pub open spec fn derive_rules() -> Seq<(Seq<char>, Seq<char>)> {
    seq![
        ("comment"@, "base03"@),
        ("string, constant.character"@, "base0B"@),
        ("constant.numeric, constant.language"@, "base09"@),
        ("variable, entity.name.tag"@, "base08"@),
        ("keyword, storage, keyword.operator"@, "base0E"@),
        ("entity.name.function, support.function, markup.heading"@, "base0D"@),
        ("entity.name.class, entity.name.type, support.type, support.class"@, "base0A"@),
        ("support.constant, constant.character.escape, string.regexp"@, "base0C"@),
        ("entity.other.attribute-name"@, "base09"@),
        ("invalid"@, "base08"@),
    ]
}

/// The palette slots a derived theme reads, in the order it reads them: the
/// foreground, background, caret, selection, gutter foreground, line
/// highlight and gutter colours, then the colour of each rule.
pub open spec fn derive_keys() -> Seq<Seq<char>> {
    seq!["base05"@, "base00"@, "base05"@, "base02"@, "base03"@, "base01"@, "base00"@]
        + derive_rules().map_values(|r: (Seq<char>, Seq<char>)| r.1)
}

/// The RGB colour of palette slot `key`, or why it has none.
pub open spec fn slot_rgb(palette: Seq<(Seq<char>, ThemeColor)>, key: Seq<char>) -> Result<(u8, u8, u8), Seq<char>> {
    match palette_get(palette, key) {
        None => Err("missing palette key "@ + key),
        Some(ThemeColor::Rgb(r, g, b)) => Ok((r, g, b)),
        Some(_) => Err("palette key "@ + key + " is not an RGB color"@),
    }
}

/// The RGB colour of palette slot `key` (meaningful where it has one).
pub open spec fn rgb_of(palette: Seq<(Seq<char>, ThemeColor)>, key: Seq<char>) -> (u8, u8, u8) {
    match slot_rgb(palette, key) {
        Ok(c) => c,
        Err(_) => (0, 0, 0),
    }
}

/// The first of the slots without an RGB colour, by its message.
pub open spec fn first_slot_error(palette: Seq<(Seq<char>, ThemeColor)>, keys: Seq<Seq<char>>) -> Option<Seq<char>>
    decreases keys.len(),
{
    if keys.len() == 0 {
        None
    } else {
        match slot_rgb(palette, keys[0]) {
            Err(m) => Some(m),
            Ok(_) => first_slot_error(palette, keys.drop_first()),
        }
    }
}

/// The message for a theme that asks for a derived syntax without a palette.
pub open spec fn no_palette_message(name: Seq<char>) -> Seq<char> {
    "theme "@ + name + ": base16 syntax requires [palette]"@
}

/// The syntax theme derived from a theme's palette: named and credited as
/// the theme, with the editor's colours and each rule's colour taken from
/// their slots. It fails without a palette, and at the first slot (in the
/// order they are read) that is missing or not an RGB colour.
pub open spec fn derive_spec(theme: ThemeView) -> Result<DerivedView, Seq<char>> {
    match theme.palette {
        None => Err(no_palette_message(theme.name)),
        Some(p) => match first_slot_error(p, derive_keys()) {
            Some(m) => Err(m),
            None => Ok(
                DerivedView {
                    name: theme.display_name,
                    author: theme.source,
                    foreground: rgb_of(p, "base05"@),
                    background: rgb_of(p, "base00"@),
                    caret: rgb_of(p, "base05"@),
                    selection: rgb_of(p, "base02"@),
                    gutter_foreground: rgb_of(p, "base03"@),
                    line_highlight: rgb_of(p, "base01"@),
                    gutter: rgb_of(p, "base00"@),
                    rules: derive_rules().map_values(|r: (Seq<char>, Seq<char>)| (r.0, rgb_of(p, r.1))),
                },
            ),
        },
    }
}

/// Where every slot before `m` has an RGB colour, the first error is that of
/// slot `m` if it has none, and there is none when `m` is the last.
proof fn lemma_first_slot_error(palette: Seq<(Seq<char>, ThemeColor)>, keys: Seq<Seq<char>>, m: int)
    requires
        0 <= m <= keys.len(),
        forall|j: int| 0 <= j < m ==> #[trigger] slot_rgb(palette, keys[j]) is Ok,
    ensures
        m == keys.len() ==> first_slot_error(palette, keys) is None,
        m < keys.len() && slot_rgb(palette, keys[m]) is Err ==> first_slot_error(palette, keys) == Some(
            slot_rgb(palette, keys[m])->Err_0,
        ),
    decreases m,
{
    if m > 0 {
        let rest = keys.drop_first();
        assert forall|j: int| 0 <= j < m - 1 implies #[trigger] slot_rgb(palette, rest[j]) is Ok by {
            assert(rest[j] == keys[j + 1]);
        }
        lemma_first_slot_error(palette, rest, m - 1);
        assert(slot_rgb(palette, keys[0]) is Ok);
    }
}

/// The first palette entry named `key`, from entry `i` on, is the first one.
proof fn lemma_palette_get_skip(palette: Seq<(Seq<char>, ThemeColor)>, key: Seq<char>, i: int)
    requires
        0 <= i <= palette.len(),
        forall|j: int| 0 <= j < i ==> #[trigger] palette[j].0 != key,
    ensures
        palette_get(palette, key) == palette_get(palette.skip(i), key),
    decreases i,
{
    if i > 0 {
        let rest = palette.drop_first();
        assert forall|j: int| 0 <= j < i - 1 implies #[trigger] rest[j].0 != key by {
            assert(rest[j] == palette[j + 1]);
        }
        lemma_palette_get_skip(rest, key, i - 1);
        assert(palette[0].0 != key);
        assert(palette_get(palette, key) == palette_get(rest, key));
        assert(palette.skip(i) =~= rest.skip(i - 1));
    } else {
        assert(palette.skip(0) =~= palette);
    }
}

/// The palette slot each key of a derived theme reads.
pub open spec fn derive_slot(j: int) -> int {
    seq![5int, 0, 5, 2, 3, 1, 0, 3, 11, 9, 8, 14, 13, 10, 12, 9, 8][j]
}

/// Each key a derived theme reads names one of the sixteen slots.
proof fn lemma_derive_keys_are_slots()
    ensures
        derive_keys().len() == 17,
        forall|j: int| 0 <= j < 17 ==> 0 <= derive_slot(j) < 16 && #[trigger] derive_keys()[j] == slot_name(derive_slot(j)),
{
    reveal_strlit("base00");
    reveal_strlit("base01");
    reveal_strlit("base02");
    reveal_strlit("base03");
    reveal_strlit("base05");
    reveal_strlit("base08");
    reveal_strlit("base09");
    reveal_strlit("base0A");
    reveal_strlit("base0B");
    reveal_strlit("base0C");
    reveal_strlit("base0D");
    reveal_strlit("base0E");
    let keys = derive_keys();
    assert forall|j: int| 0 <= j < 17 implies 0 <= derive_slot(j) < 16 && #[trigger] keys[j] == slot_name(
        derive_slot(j),
    ) by {
        assert(keys[j] =~= slot_name(derive_slot(j)));
    }
}

/// The RGB colour of base16 slot `i` in `palette` (`base00` is slot 0,
/// `base0F` slot 15).
pub open spec fn slot_rgb_of(palette: Seq<(Seq<char>, ThemeColor)>, i: int) -> (u8, u8, u8) {
    rgb_of(palette, slot_name(i))
}

/// A derived syntax theme colours each kind of code with the base16 slot the
/// base16 styling guide gives it: comments `base03`; strings `base0B`;
/// numbers and language constants `base09`; variables and tags `base08`;
/// keywords and storage `base0E`; functions and headings `base0D`; classes
/// and types `base0A`; escapes, regular expressions and support constants
/// `base0C`; attribute names `base09`; invalid code `base08`. The editor
/// takes its text and caret from `base05`, its background and gutter from
/// `base00`, the selection from `base02`, gutter numbers from `base03` and
/// the current line from `base01`. So functions and keywords, for one, are
/// told apart exactly where the palette tells `base0D` and `base0E` apart.
pub proof fn law_derived_rules_follow_the_base16_slots(theme: ThemeView)
    requires
        derive_spec(theme) is Ok,
    ensures
        ({
            let p = theme.palette->0;
            let d = derive_spec(theme)->Ok_0;
            &&& d.rules.len() == 10
            &&& d.rules[0] == ("comment"@, slot_rgb_of(p, 3))
            &&& d.rules[1] == ("string, constant.character"@, slot_rgb_of(p, 11))
            &&& d.rules[2] == ("constant.numeric, constant.language"@, slot_rgb_of(p, 9))
            &&& d.rules[3] == ("variable, entity.name.tag"@, slot_rgb_of(p, 8))
            &&& d.rules[4] == ("keyword, storage, keyword.operator"@, slot_rgb_of(p, 14))
            &&& d.rules[5] == ("entity.name.function, support.function, markup.heading"@, slot_rgb_of(p, 13))
            &&& d.rules[6] == ("entity.name.class, entity.name.type, support.type, support.class"@, slot_rgb_of(p, 10))
            &&& d.rules[7] == ("support.constant, constant.character.escape, string.regexp"@, slot_rgb_of(p, 12))
            &&& d.rules[8] == ("entity.other.attribute-name"@, slot_rgb_of(p, 9))
            &&& d.rules[9] == ("invalid"@, slot_rgb_of(p, 8))
            &&& d.foreground == slot_rgb_of(p, 5)
            &&& d.caret == slot_rgb_of(p, 5)
            &&& d.background == slot_rgb_of(p, 0)
            &&& d.gutter == slot_rgb_of(p, 0)
            &&& d.selection == slot_rgb_of(p, 2)
            &&& d.gutter_foreground == slot_rgb_of(p, 3)
            &&& d.line_highlight == slot_rgb_of(p, 1)
            &&& (d.rules[5].1 != d.rules[4].1 <==> slot_rgb_of(p, 13) != slot_rgb_of(p, 14))
        }),
{
    lemma_derive_keys_are_slots();
    let keys = derive_keys();
    let rules = derive_rules();
    assert forall|j: int| 0 <= j < 10 implies #[trigger] rules[j].1 == keys[7 + j] by {}
    assert(keys[0] == slot_name(5));
    assert(keys[1] == slot_name(0));
    assert(keys[3] == slot_name(2));
    assert(keys[4] == slot_name(3));
    assert(keys[5] == slot_name(1));
    assert(keys[7] == slot_name(3));
    assert(keys[8] == slot_name(11));
    assert(keys[9] == slot_name(9));
    assert(keys[10] == slot_name(8));
    assert(keys[11] == slot_name(14));
    assert(keys[12] == slot_name(13));
    assert(keys[13] == slot_name(10));
    assert(keys[14] == slot_name(12));
    assert(keys[15] == slot_name(9));
    assert(keys[16] == slot_name(8));
}

/// A theme converted from a parsed base16 scheme, with its syntax derived
/// from the palette, derives a syntax theme: every slot the derivation reads
/// is one of the scheme's RGB colours.
pub proof fn law_converted_schemes_derive_their_syntax(text: Seq<char>, name: Seq<char>, source: Seq<char>)
    requires
        parse_scheme_result(text) is Ok,
        scheme_to_theme_result(parse_scheme_result(text)->Ok_0, name, source, None) is Ok,
    ensures
        derive_spec(scheme_to_theme_result(parse_scheme_result(text)->Ok_0, name, source, None)->Ok_0) is Ok,
{
    let colors = lemma_parsed_palette(text);
    let scheme = parse_scheme_result(text)->Ok_0;
    let theme = scheme_to_theme_result(scheme, name, source, None)->Ok_0;
    assert(theme.palette == Some(scheme.palette));
    lemma_derive_keys_are_slots();
    let keys = derive_keys();
    assert forall|j: int| 0 <= j < keys.len() implies #[trigger] slot_rgb(scheme.palette, keys[j]) is Ok by {
        assert(palette_get(scheme.palette, slot_name(derive_slot(j))) == Some(colors[derive_slot(j)]));
        assert(colors[derive_slot(j)] is Rgb);
    }
    lemma_first_slot_error(scheme.palette, keys, keys.len() as int);
}

/// The RGB colour of palette slot `key`, or the validation error naming it.
pub fn palette_color(palette: &Palette, key: &str) -> (r: Result<(u8, u8, u8), SnipError>)
    ensures
        match slot_rgb(palette@, key@) {
            Ok(c) => r == Ok::<(u8, u8, u8), SnipError>(c),
            Err(m) => r matches Err(e) && e@ == (ErrorKind::Validation, m),
        },
{
    let target = chars_of(key);
    let ghost pv = palette@;
    let mut i: usize = 0;
    while i < palette.colors.len()
        invariant
            i <= palette.colors.len(),
            pv == palette@,
            target@ == key@,
            forall|j: int| 0 <= j < i ==> #[trigger] pv[j].0 != key@,
        decreases palette.colors.len() - i,
    {
        let name = chars_of(palette.colors[i].0.as_str());
        assert(pv[i as int] == (palette.colors@[i as int].0@, palette.colors@[i as int].1));
        if eq_chars(name.as_slice(), target.as_slice()) {
            proof {
                lemma_palette_get_skip(pv, key@, i as int);
                assert(pv.skip(i as int)[0] == pv[i as int]);
            }
            match palette.colors[i].1 {
                ThemeColor::Rgb(r, g, b) => {
                    return Ok((r, g, b));
                },
                _ => {
                    let mut m = String::new();
                    push_str(&mut m, "palette key ");
                    push_str(&mut m, key);
                    push_str(&mut m, " is not an RGB color");
                    assert(m@ =~= "palette key "@ + key@ + " is not an RGB color"@);
                    return Err(SnipError::validation(m));
                },
            }
        }
        i = i + 1;
    }
    proof {
        lemma_palette_get_skip(pv, key@, i as int);
        assert(pv.skip(i as int).len() == 0);
    }
    let mut m = String::new();
    push_str(&mut m, "missing palette key ");
    push_str(&mut m, key);
    assert(m@ =~= "missing palette key "@ + key@);
    Err(SnipError::validation(m))
}

/// The rules of a derived theme, each selector with its palette slot.
fn rule_table() -> (t: Vec<(&'static str, &'static str)>)
    ensures
        t@.map_values(|r: (&str, &str)| (r.0@, r.1@)) == derive_rules(),
{
    let t = vec![
        ("comment", "base03"),
        ("string, constant.character", "base0B"),
        ("constant.numeric, constant.language", "base09"),
        ("variable, entity.name.tag", "base08"),
        ("keyword, storage, keyword.operator", "base0E"),
        ("entity.name.function, support.function, markup.heading", "base0D"),
        ("entity.name.class, entity.name.type, support.type, support.class", "base0A"),
        ("support.constant, constant.character.escape, string.regexp", "base0C"),
        ("entity.other.attribute-name", "base09"),
        ("invalid", "base08"),
    ];
    assert(t@.map_values(|r: (&str, &str)| (r.0@, r.1@)) =~= derive_rules());
    t
}

/// The slots a derived theme reads, in order.
fn key_table(rules: &Vec<(&'static str, &'static str)>) -> (t: Vec<&'static str>)
    requires
        rules@.map_values(|r: (&str, &str)| (r.0@, r.1@)) == derive_rules(),
    ensures
        t@.map_values(|k: &str| k@) == derive_keys(),
{
    let mut t = vec!["base05", "base00", "base05", "base02", "base03", "base01", "base00"];
    let ghost head = t@.map_values(|k: &str| k@);
    assert(head =~= seq!["base05"@, "base00"@, "base05"@, "base02"@, "base03"@, "base01"@, "base00"@]);
    let mut i: usize = 0;
    while i < rules.len()
        invariant
            i <= rules.len(),
            rules@.map_values(|r: (&str, &str)| (r.0@, r.1@)) == derive_rules(),
            t@.map_values(|k: &str| k@) == head + derive_rules().map_values(|r: (Seq<char>, Seq<char>)| r.1).take(
                i as int,
            ),
        decreases rules.len() - i,
    {
        let ghost before = t@.map_values(|k: &str| k@);
        t.push(rules[i].1);
        proof {
            let slots = derive_rules().map_values(|r: (Seq<char>, Seq<char>)| r.1);
            assert(rules@.map_values(|r: (&str, &str)| (r.0@, r.1@))[i as int] == derive_rules()[i as int]);
            assert(t@.map_values(|k: &str| k@) =~= before.push(rules@[i as int].1@));
            assert(slots[i as int] == rules@[i as int].1@);
            assert(slots.take(i + 1) =~= slots.take(i as int).push(slots[i as int]));
            assert(t@.map_values(|k: &str| k@) =~= head + slots.take(i + 1));
        }
        i = i + 1;
    }
    proof {
        let slots = derive_rules().map_values(|r: (Seq<char>, Seq<char>)| r.1);
        assert(slots.take(i as int) =~= slots);
    }
    t
}

/// Derives a syntax theme from a theme's base16 palette.
pub fn derive_syntax(theme: &Theme) -> (r: Result<DerivedSyntax, SnipError>)
    ensures
        match derive_spec(theme@) {
            Ok(d) => r matches Ok(x) && x@ == d,
            Err(m) => r matches Err(e) && e@ == (ErrorKind::Validation, m),
        },
{
    let palette = match &theme.palette {
        Some(p) => p,
        None => {
            let mut m = String::new();
            push_str(&mut m, "theme ");
            push_str(&mut m, theme.name.as_str());
            push_str(&mut m, ": base16 syntax requires [palette]");
            assert(m@ =~= no_palette_message(theme.name@));
            return Err(SnipError::validation(m));
        },
    };
    let rules = rule_table();
    let keys = key_table(&rules);
    let ghost kv = keys@.map_values(|k: &str| k@);
    let mut colors: Vec<(u8, u8, u8)> = Vec::new();
    let mut i: usize = 0;
    while i < keys.len()
        invariant
            i <= keys.len(),
            kv == keys@.map_values(|k: &str| k@),
            kv == derive_keys(),
            theme.palette == Some(*palette),
            colors@.len() == i,
            forall|j: int| 0 <= j < i ==> #[trigger] slot_rgb(palette@, kv[j]) is Ok,
            forall|j: int| 0 <= j < i ==> colors@[j] == rgb_of(palette@, #[trigger] kv[j]),
        decreases keys.len() - i,
    {
        assert(kv[i as int] == keys@[i as int]@);
        match palette_color(palette, keys[i]) {
            Ok(c) => {
                colors.push(c);
            },
            Err(e) => {
                proof {
                    lemma_first_slot_error(palette@, kv, i as int);
                    assert(slot_rgb(palette@, kv[i as int]) is Err);
                    assert(first_slot_error(palette@, derive_keys()) == Some(e@.1));
                    assert(theme.palette == Some(*palette));
                    assert(e@.0 == ErrorKind::Validation);
                    assert(derive_spec(theme@) == Err::<DerivedView, Seq<char>>(e@.1));
                }
                return Err(e);
            },
        }
        i = i + 1;
    }
    proof {
        lemma_first_slot_error(palette@, kv, i as int);
    }
    let mut derived_rules: Vec<(String, (u8, u8, u8))> = Vec::new();
    let mut k: usize = 0;
    while k < rules.len()
        invariant
            k <= rules.len(),
            rules@.len() == 10,
            rules@.map_values(|r: (&str, &str)| (r.0@, r.1@)) == derive_rules(),
            kv == derive_keys(),
            colors@.len() == kv.len(),
            forall|j: int| 0 <= j < kv.len() ==> colors@[j] == rgb_of(palette@, #[trigger] kv[j]),
            derived_rules@.map_values(|r: (String, (u8, u8, u8))| (r.0@, r.1)) == derive_rules().map_values(
                |r: (Seq<char>, Seq<char>)| (r.0, rgb_of(palette@, r.1)),
            ).take(k as int),
        decreases rules.len() - k,
    {
        proof {
            assert(rules@.map_values(|r: (&str, &str)| (r.0@, r.1@))[k as int] == derive_rules()[k as int]);
            assert(kv[7 + k] == derive_rules()[k as int].1);
        }
        let ghost before = derived_rules@.map_values(|r: (String, (u8, u8, u8))| (r.0@, r.1));
        let selector = copy_string(rules[k].0);
        let color = colors[7 + k];
        derived_rules.push((selector, color));
        proof {
            let want = derive_rules().map_values(|r: (Seq<char>, Seq<char>)| (r.0, rgb_of(palette@, r.1)));
            assert(colors@[7 + k] == rgb_of(palette@, kv[7 + k]));
            assert(want[k as int] == (rules@[k as int].0@, color));
            assert(derived_rules@.map_values(|r: (String, (u8, u8, u8))| (r.0@, r.1)) =~= before.push(
                (rules@[k as int].0@, color),
            ));
            assert(derived_rules@.map_values(|r: (String, (u8, u8, u8))| (r.0@, r.1)) =~= want.take(k + 1));
        }
        k = k + 1;
    }
    proof {
        let want = derive_rules().map_values(|r: (Seq<char>, Seq<char>)| (r.0, rgb_of(palette@, r.1)));
        assert(want.take(k as int) =~= want);
        assert(kv[0] == "base05"@ && kv[1] == "base00"@ && kv[2] == "base05"@ && kv[3] == "base02"@);
        assert(kv[4] == "base03"@ && kv[5] == "base01"@ && kv[6] == "base00"@);
    }
    let derived = DerivedSyntax {
        name: copy_string(theme.display_name.as_str()),
        author: copy_opt_string(&theme.source),
        foreground: colors[0],
        background: colors[1],
        caret: colors[2],
        selection: colors[3],
        gutter_foreground: colors[4],
        line_highlight: colors[5],
        gutter: colors[6],
        rules: derived_rules,
    };
    assert(derived@.rules =~= derive_spec(theme@)->Ok_0.rules);
    Ok(derived)
}

/// The syntax theme a theme asks for: an embedded one, named by its display
/// name or identifier (ignoring ASCII case), or one derived from its base16
/// palette.
pub fn resolve(theme: &Theme) -> (r: Result<SyntectTheme, SnipError>)
    ensures
        match theme.syntax {
            Syntax::Theme { theme: name } => (r is Ok <==> is_embedded_name(name@)) && (r matches Err(e) ==> e@
                == (ErrorKind::Validation, unknown_syntax_message(name@))) && (embedded_index_from(name@, 0) matches Some(
                i,
            ) ==> r == Ok::<SyntectTheme, SnipError>(embedded_syntect_theme(i as nat))),
            Syntax::Derive { .. } => match derive_spec(theme@) {
                Err(m) => r matches Err(e) && e@ == (ErrorKind::Validation, m),
                Ok(d) => (r matches Err(e) ==> e@.0 == ErrorKind::Validation && is_selector_error(d, e@.1)) && (r matches Ok(
                    t,
                ) ==> exists|parsed: Seq<ScopeSelectors>| parsed.len() == d.rules.len() && t == #[trigger] syntect_spec(d, parsed)),
            },
        },
{
    match &theme.syntax {
        Syntax::Theme { theme: name } => {
            proof {
                lemma_embedded_index_from(name@, 0);
            }
            match embedded_index(name.as_str()) {
                Some(index) => Ok(embedded_theme(index)),
                None => Err(unknown_syntax(name.as_str())),
            }
        },
        Syntax::Derive { .. } => {
            let derived = derive_syntax(theme)?;
            to_syntect(&derived)
        },
    }
}

} // verus!
