//! Resolving a theme as read from its file: the interface roles it names, the
//! parent it extends, its base16 palette and its syntax choice.
use vstd::prelude::*;

use crate::error::{invalid, result_view, ErrorKind, SnipError};
use crate::text::{
    chars_of, copy_opt_string, copy_string, decimal, decimal_string, eq_chars, eq_ignore_case,
    eq_ignore_case_lit, push_str, utf8_len, utf8_len_from_is,
};
use crate::theme::base16::{copy_named_colors, is_slot_name, slot_name, slot_name_string};
use crate::theme::color::{color_parse_panics, parse_color, ThemeColor};
use crate::theme::syntax::{is_embedded_name, unknown_syntax_message, validate_embedded_name};
use crate::theme::validate::{check, check_views, Check, CheckView, Level};
use crate::theme::{
    appearance_str, invalid_name_message, valid_theme_name, validate_theme_name, MAX_EXTENDS_DEPTH,
    THEME_SCHEMA_VERSION, named_colors_view, opt_view, palette_opt_view, Appearance, Palette, Syntax, SyntaxDerive,
    SyntaxView, Theme, ThemeUi, ThemeView,
};

verus! {

/// How many interface roles a theme has.
pub const UI_ROLE_COUNT: usize = 18;

/// The name of interface role `i`, in the order the theme format lists them.
pub open spec fn ui_role_name(i: int) -> Seq<char> {
    if i == 0 {
        "background"@
    } else if i == 1 {
        "foreground"@
    } else if i == 2 {
        "accent"@
    } else if i == 3 {
        "accent_alt"@
    } else if i == 4 {
        "border"@
    } else if i == 5 {
        "muted"@
    } else if i == 6 {
        "selection_bg"@
    } else if i == 7 {
        "selection_fg"@
    } else if i == 8 {
        "retained_bg"@
    } else if i == 9 {
        "pill_primary"@
    } else if i == 10 {
        "pill_secondary"@
    } else if i == 11 {
        "bar_bg"@
    } else if i == 12 {
        "bar_fg"@
    } else if i == 13 {
        "tag"@
    } else if i == 14 {
        "rule"@
    } else if i == 15 {
        "success"@
    } else if i == 16 {
        "warning"@
    } else {
        "error"@
    }
}

/// The colour of interface role `i`.
pub open spec fn ui_role(ui: ThemeUi, i: int) -> ThemeColor {
    if i == 0 {
        ui.background
    } else if i == 1 {
        ui.foreground
    } else if i == 2 {
        ui.accent
    } else if i == 3 {
        ui.accent_alt
    } else if i == 4 {
        ui.border
    } else if i == 5 {
        ui.muted
    } else if i == 6 {
        ui.selection_bg
    } else if i == 7 {
        ui.selection_fg
    } else if i == 8 {
        ui.retained_bg
    } else if i == 9 {
        ui.pill_primary
    } else if i == 10 {
        ui.pill_secondary
    } else if i == 11 {
        ui.bar_bg
    } else if i == 12 {
        ui.bar_fg
    } else if i == 13 {
        ui.tag
    } else if i == 14 {
        ui.rule
    } else if i == 15 {
        ui.success
    } else if i == 16 {
        ui.warning
    } else {
        ui.error
    }
}

/// `ui` with interface role `i` set to `c`.
pub open spec fn ui_with_role(ui: ThemeUi, i: int, c: ThemeColor) -> ThemeUi {
    ThemeUi {
        background: if i == 0 { c } else { ui.background },
        foreground: if i == 1 { c } else { ui.foreground },
        accent: if i == 2 { c } else { ui.accent },
        accent_alt: if i == 3 { c } else { ui.accent_alt },
        border: if i == 4 { c } else { ui.border },
        muted: if i == 5 { c } else { ui.muted },
        selection_bg: if i == 6 { c } else { ui.selection_bg },
        selection_fg: if i == 7 { c } else { ui.selection_fg },
        retained_bg: if i == 8 { c } else { ui.retained_bg },
        pill_primary: if i == 9 { c } else { ui.pill_primary },
        pill_secondary: if i == 10 { c } else { ui.pill_secondary },
        bar_bg: if i == 11 { c } else { ui.bar_bg },
        bar_fg: if i == 12 { c } else { ui.bar_fg },
        tag: if i == 13 { c } else { ui.tag },
        rule: if i == 14 { c } else { ui.rule },
        success: if i == 15 { c } else { ui.success },
        warning: if i == 16 { c } else { ui.warning },
        error: if i == 17 { c } else { ui.error },
    }
}

/// The `[ui]` table of a theme file: each role's colour text, if given.
#[derive(Clone, Debug, Default)]
pub struct RawUi {
    pub background: Option<String>,
    pub foreground: Option<String>,
    pub accent: Option<String>,
    pub accent_alt: Option<String>,
    pub border: Option<String>,
    pub muted: Option<String>,
    pub selection_bg: Option<String>,
    pub selection_fg: Option<String>,
    pub retained_bg: Option<String>,
    pub pill_primary: Option<String>,
    pub pill_secondary: Option<String>,
    pub bar_bg: Option<String>,
    pub bar_fg: Option<String>,
    pub tag: Option<String>,
    pub rule: Option<String>,
    pub success: Option<String>,
    pub warning: Option<String>,
    pub error: Option<String>,
}

/// An optional string, as a spec value.
pub open spec fn opt_chars(s: Option<String>) -> Option<Seq<char>> {
    match s {
        Some(v) => Some(v@),
        None => None,
    }
}

impl View for RawUi {
    /// The roles' texts in role order.
    type V = Seq<Option<Seq<char>>>;

    open spec fn view(&self) -> Seq<Option<Seq<char>>> {
        seq![
            opt_chars(self.background),
            opt_chars(self.foreground),
            opt_chars(self.accent),
            opt_chars(self.accent_alt),
            opt_chars(self.border),
            opt_chars(self.muted),
            opt_chars(self.selection_bg),
            opt_chars(self.selection_fg),
            opt_chars(self.retained_bg),
            opt_chars(self.pill_primary),
            opt_chars(self.pill_secondary),
            opt_chars(self.bar_bg),
            opt_chars(self.bar_fg),
            opt_chars(self.tag),
            opt_chars(self.rule),
            opt_chars(self.success),
            opt_chars(self.warning),
            opt_chars(self.error),
        ]
    }
}

/// A parse error reported under the theme's name.
pub open spec fn under_theme(name: Seq<char>, e: (ErrorKind, Seq<char>)) -> (ErrorKind, Seq<char>) {
    (ErrorKind::Validation, "theme "@ + name + ": "@ + e.1)
}

/// The roles from `i` on that `raw` names, parsed and laid over `ui`; the
/// first colour that does not parse stops it.
pub open spec fn apply_ui_from(ui: ThemeUi, raw: Seq<Option<Seq<char>>>, name: Seq<char>, i: int) -> Result<
    ThemeUi,
    (ErrorKind, Seq<char>),
>
    decreases 18 - i,
{
    if i < 0 || i >= 18 {
        Ok(ui)
    } else {
        match raw[i] {
            None => apply_ui_from(ui, raw, name, i + 1),
            Some(text) => match parse_color(text, ui_role_name(i)) {
                Err(e) => Err(under_theme(name, e)),
                Ok(c) => apply_ui_from(ui_with_role(ui, i, c), raw, name, i + 1),
            },
        }
    }
}

/// Parsing the roles from `i` on panics: a named role
/// whose text would be sliced inside a character, reached before any error.
pub open spec fn apply_ui_panics_from(raw: Seq<Option<Seq<char>>>, i: int) -> bool
    decreases 18 - i,
{
    if i < 0 || i >= 18 {
        false
    } else {
        match raw[i] {
            None => apply_ui_panics_from(raw, i + 1),
            Some(text) => color_parse_panics(text) || (parse_color(text, ui_role_name(i)) is Ok
                && apply_ui_panics_from(raw, i + 1)),
        }
    }
}

/// The first role from `i` on that `raw` leaves out.
pub open spec fn first_missing_role(raw: Seq<Option<Seq<char>>>, i: int) -> Option<int>
    decreases 18 - i,
{
    if i < 0 || i >= 18 {
        None
    } else if raw[i] is None {
        Some(i)
    } else {
        first_missing_role(raw, i + 1)
    }
}

/// The message for a standalone theme that leaves a role out.
pub open spec fn missing_role_message(name: Seq<char>, i: int) -> Seq<char> {
    "theme "@ + name + ": missing ui key "@ + ui_role_name(i)
}

/// The name of interface role `i`.
pub fn ui_role_name_str(i: usize) -> (s: &'static str)
    requires
        i < UI_ROLE_COUNT,
    ensures
        s@ == ui_role_name(i as int),
{
    match i {
        0 => "background",
        1 => "foreground",
        2 => "accent",
        3 => "accent_alt",
        4 => "border",
        5 => "muted",
        6 => "selection_bg",
        7 => "selection_fg",
        8 => "retained_bg",
        9 => "pill_primary",
        10 => "pill_secondary",
        11 => "bar_bg",
        12 => "bar_fg",
        13 => "tag",
        14 => "rule",
        15 => "success",
        16 => "warning",
        _ => "error",
    }
}

/// The colour text `raw` gives role `i`.
fn raw_role(raw: &RawUi, i: usize) -> (r: &Option<String>)
    requires
        i < UI_ROLE_COUNT,
    ensures
        opt_chars(*r) == raw@[i as int],
{
    match i {
        0 => &raw.background,
        1 => &raw.foreground,
        2 => &raw.accent,
        3 => &raw.accent_alt,
        4 => &raw.border,
        5 => &raw.muted,
        6 => &raw.selection_bg,
        7 => &raw.selection_fg,
        8 => &raw.retained_bg,
        9 => &raw.pill_primary,
        10 => &raw.pill_secondary,
        11 => &raw.bar_bg,
        12 => &raw.bar_fg,
        13 => &raw.tag,
        14 => &raw.rule,
        15 => &raw.success,
        16 => &raw.warning,
        _ => &raw.error,
    }
}

/// The colour of role `i`.
pub fn role_color(ui: &ThemeUi, i: usize) -> (c: ThemeColor)
    requires
        i < UI_ROLE_COUNT,
    ensures
        c == ui_role(*ui, i as int),
{
    match i {
        0 => ui.background,
        1 => ui.foreground,
        2 => ui.accent,
        3 => ui.accent_alt,
        4 => ui.border,
        5 => ui.muted,
        6 => ui.selection_bg,
        7 => ui.selection_fg,
        8 => ui.retained_bg,
        9 => ui.pill_primary,
        10 => ui.pill_secondary,
        11 => ui.bar_bg,
        12 => ui.bar_fg,
        13 => ui.tag,
        14 => ui.rule,
        15 => ui.success,
        16 => ui.warning,
        _ => ui.error,
    }
}

/// Sets role `i` to `c`.
pub fn set_role(ui: &mut ThemeUi, i: usize, c: ThemeColor)
    requires
        i < UI_ROLE_COUNT,
    ensures
        *final(ui) == ui_with_role(*old(ui), i as int, c),
{
    match i {
        0 => ui.background = c,
        1 => ui.foreground = c,
        2 => ui.accent = c,
        3 => ui.accent_alt = c,
        4 => ui.border = c,
        5 => ui.muted = c,
        6 => ui.selection_bg = c,
        7 => ui.selection_fg = c,
        8 => ui.retained_bg = c,
        9 => ui.pill_primary = c,
        10 => ui.pill_secondary = c,
        11 => ui.bar_bg = c,
        12 => ui.bar_fg = c,
        13 => ui.tag = c,
        14 => ui.rule = c,
        15 => ui.success = c,
        16 => ui.warning = c,
        _ => ui.error = c,
    }
}

/// A colour error reported under the theme's name.
fn theme_error(name: &str, e: SnipError) -> (r: SnipError)
    ensures
        r@ == under_theme(name@, e@),
{
    let mut m = String::new();
    push_str(&mut m, "theme ");
    push_str(&mut m, name);
    push_str(&mut m, ": ");
    push_str(&mut m, e.message.as_str());
    assert(m@ =~= under_theme(name@, e@).1);
    SnipError::validation(m)
}

/// Lays the roles that `raw` names over `ui`, parsing each; the first colour
/// that does not parse is reported under the theme's name.
pub fn apply_ui(ui: &mut ThemeUi, raw: &RawUi, name: &str) -> (r: Result<(), SnipError>)
    requires
        !apply_ui_panics_from(raw@, 0),
    ensures
        match apply_ui_from(*old(ui), raw@, name@, 0) {
            Ok(applied) => r is Ok && *final(ui) == applied,
            Err(e) => r matches Err(err) && err@ == e,
        },
{
    let mut i: usize = 0;
    while i < UI_ROLE_COUNT
        invariant
            i <= UI_ROLE_COUNT,
            !apply_ui_panics_from(raw@, i as int),
            apply_ui_from(*old(ui), raw@, name@, 0) == apply_ui_from(*ui, raw@, name@, i as int),
        decreases UI_ROLE_COUNT - i,
    {
        match raw_role(raw, i) {
            Some(text) => {
                match ThemeColor::parse(text.as_str(), ui_role_name_str(i)) {
                    Ok(c) => set_role(ui, i, c),
                    Err(e) => {
                        return Err(theme_error(name, e));
                    },
                }
            },
            None => {},
        }
        i = i + 1;
    }
    Ok(())
}

/// Requires a standalone theme to name every role; the first one left out is
/// reported.
pub fn require_all_ui(raw: &RawUi, name: &str) -> (r: Result<(), SnipError>)
    ensures
        match first_missing_role(raw@, 0) {
            None => r is Ok,
            Some(i) => r matches Err(e) && e@ == (ErrorKind::Validation, missing_role_message(name@, i)),
        },
{
    let mut i: usize = 0;
    while i < UI_ROLE_COUNT
        invariant
            i <= UI_ROLE_COUNT,
            first_missing_role(raw@, 0) == first_missing_role(raw@, i as int),
        decreases UI_ROLE_COUNT - i,
    {
        if raw_role(raw, i).is_none() {
            let mut m = String::new();
            push_str(&mut m, "theme ");
            push_str(&mut m, name);
            push_str(&mut m, ": missing ui key ");
            push_str(&mut m, ui_role_name_str(i));
            assert(m@ =~= missing_role_message(name@, i as int));
            return Err(SnipError::validation(m));
        }
        i = i + 1;
    }
    Ok(())
}

/// Every role black: the ground a standalone theme is laid over.
pub open spec fn black_ui() -> ThemeUi {
    let black = ThemeColor::Rgb(0, 0, 0);
    ThemeUi {
        background: black,
        foreground: black,
        accent: black,
        accent_alt: black,
        border: black,
        muted: black,
        selection_bg: black,
        selection_fg: black,
        retained_bg: black,
        pill_primary: black,
        pill_secondary: black,
        bar_bg: black,
        bar_fg: black,
        tag: black,
        rule: black,
        success: black,
        warning: black,
        error: black,
    }
}

/// Every role black.
pub fn empty_ui() -> (ui: ThemeUi)
    ensures
        ui == black_ui(),
{
    let black = ThemeColor::Rgb(0, 0, 0);
    ThemeUi {
        background: black,
        foreground: black,
        accent: black,
        accent_alt: black,
        border: black,
        muted: black,
        selection_bg: black,
        selection_fg: black,
        retained_bg: black,
        pill_primary: black,
        pill_secondary: black,
        bar_bg: black,
        bar_fg: black,
        tag: black,
        rule: black,
        success: black,
        warning: black,
        error: black,
    }
}

// ---------------------------------------------------------------------------
// The palette
// ---------------------------------------------------------------------------

/// The entries of a `[palette]` table, as spec values.
pub open spec fn entries_view(entries: Seq<(String, String)>) -> Seq<(Seq<char>, Seq<char>)> {
    entries.map_values(|e: (String, String)| (e.0@, e.1@))
}

/// A table's keys are pairwise distinct.
pub open spec fn keys_distinct(entries: Seq<(Seq<char>, Seq<char>)>) -> bool {
    forall|i: int, j: int| 0 <= i < j < entries.len() ==> entries[i].0 != entries[j].0
}

/// The value of `key` in a table.
pub open spec fn entry_value<V>(entries: Seq<(Seq<char>, V)>, key: Seq<char>) -> Option<V>
    decreases entries.len(),
{
    if entries.len() == 0 {
        None
    } else if entries[0].0 == key {
        Some(entries[0].1)
    } else {
        entry_value(entries.drop_first(), key)
    }
}

/// The first palette slot from `k` on that the table leaves out.
pub open spec fn first_missing_slot(entries: Seq<(Seq<char>, Seq<char>)>, k: int) -> Option<int>
    decreases 16 - k,
{
    if k < 0 || k >= 16 {
        None
    } else if entry_value(entries, slot_name(k)) is None {
        Some(k)
    } else {
        first_missing_slot(entries, k + 1)
    }
}

/// A `#rrggbb` literal by shape: seven bytes, the first `#`.
pub open spec fn rgb_literal_shape(v: Seq<char>) -> bool {
    utf8_len(v) == 7 && v.len() > 0 && v[0] == '#'
}

/// The message for a palette value that is no `#rrggbb` literal.
pub open spec fn palette_literal_message(name: Seq<char>, key: Seq<char>) -> Seq<char> {
    "theme "@ + name + ": palette "@ + key + " must be a #rrggbb literal"@
}

/// The message for a palette that leaves a slot out.
pub open spec fn missing_slot_key_message(name: Seq<char>, key: Seq<char>) -> Seq<char> {
    "theme "@ + name + ": missing palette key "@ + key
}

/// The message for a palette with keys beyond the sixteen slots.
pub open spec fn palette_extra_message(name: Seq<char>) -> Seq<char> {
    "theme "@ + name + ": [palette] must contain exactly base00 through base0F"@
}

/// What slot `key`'s value `v` gives: an RGB colour, or the error that stops
/// the palette.
pub open spec fn palette_slot_result(name: Seq<char>, key: Seq<char>, v: Seq<char>) -> Result<
    ThemeColor,
    (ErrorKind, Seq<char>),
> {
    if !rgb_literal_shape(v) {
        invalid(palette_literal_message(name, key))
    } else {
        match parse_color(v, key) {
            Err(e) => Err(e),
            Ok(c) => if c is Rgb {
                Ok(c)
            } else {
                invalid(palette_literal_message(name, key))
            },
        }
    }
}

/// The colours of slots `k` through `base0F`, in slot order (which is the
/// order of the keys); the first value that is not an RGB literal stops it.
pub open spec fn palette_colors_from(name: Seq<char>, entries: Seq<(Seq<char>, Seq<char>)>, k: int) -> Result<
    Seq<(Seq<char>, ThemeColor)>,
    (ErrorKind, Seq<char>),
>
    decreases 16 - k,
{
    if k < 0 || k >= 16 {
        Ok(Seq::empty())
    } else {
        match palette_slot_result(name, slot_name(k), entry_value(entries, slot_name(k))->0) {
            Err(e) => Err(e),
            Ok(c) => match palette_colors_from(name, entries, k + 1) {
                Err(e) => Err(e),
                Ok(rest) => Ok(seq![(slot_name(k), c)] + rest),
            },
        }
    }
}

/// Reading the slots from `k` on panics: a value
/// shaped like a literal whose hex digits would be sliced inside a character.
pub open spec fn palette_panics_from(entries: Seq<(Seq<char>, Seq<char>)>, k: int) -> bool
    decreases 16 - k,
{
    if k < 0 || k >= 16 {
        false
    } else {
        let v = entry_value(entries, slot_name(k))->0;
        (rgb_literal_shape(v) && color_parse_panics(v)) || (palette_slot_result(""@, slot_name(k), v) is Ok
            && palette_panics_from(entries, k + 1))
    }
}

/// What reading a `[palette]` table gives: all sixteen slots, nothing else,
/// each an RGB literal.
pub open spec fn palette_result(name: Seq<char>, entries: Seq<(Seq<char>, Seq<char>)>) -> Result<
    Seq<(Seq<char>, ThemeColor)>,
    (ErrorKind, Seq<char>),
> {
    match first_missing_slot(entries, 0) {
        Some(k) => invalid(missing_slot_key_message(name, slot_name(k))),
        None => if entries.len() != 16 {
            invalid(palette_extra_message(name))
        } else {
            palette_colors_from(name, entries, 0)
        },
    }
}

/// The colours read from the slots from `k` on are those slots, in order.
proof fn lemma_palette_colors_in_slot_order(name: Seq<char>, entries: Seq<(Seq<char>, Seq<char>)>, k: int)
    requires
        0 <= k <= 16,
        palette_colors_from(name, entries, k) is Ok,
    ensures
        palette_colors_from(name, entries, k)->Ok_0.len() == 16 - k,
        forall|i: int|
            0 <= i < 16 - k ==> (#[trigger] palette_colors_from(name, entries, k)->Ok_0[i]).0 == slot_name(k + i),
    decreases 16 - k,
{
    if k < 16 {
        lemma_palette_colors_in_slot_order(name, entries, k + 1);
        let rest = palette_colors_from(name, entries, k + 1)->Ok_0;
        let all = palette_colors_from(name, entries, k)->Ok_0;
        assert forall|i: int| 0 <= i < 16 - k implies (#[trigger] all[i]).0 == slot_name(k + i) by {
            if i > 0 {
                assert(all[i] == rest[i - 1]);
            }
        }
    }
}

/// A palette that reads holds the sixteen slots `base00` through `base0F`,
/// in that order, which is the ascending key order that a sorted map (the
/// theme file's table) iterates in.
pub proof fn law_read_palettes_are_in_key_order(name: Seq<char>, entries: Seq<(Seq<char>, Seq<char>)>)
    requires
        palette_result(name, entries) is Ok,
    ensures
        palette_result(name, entries)->Ok_0.len() == 16,
        forall|i: int| 0 <= i < 16 ==> (#[trigger] palette_result(name, entries)->Ok_0[i]).0 == slot_name(i),
        forall|i: int, j: int|
            0 <= i < j < 16 ==> (#[trigger] palette_result(name, entries)->Ok_0[i]).0.subrange(0, 5) == (
            #[trigger] palette_result(name, entries)->Ok_0[j]).0.subrange(0, 5) && (palette_result(
                name,
                entries,
            )->Ok_0[i].0[5] as u32) < (palette_result(name, entries)->Ok_0[j].0[5] as u32),
{
    lemma_palette_colors_in_slot_order(name, entries, 0);
    assert forall|i: int, j: int| 0 <= i < j < 16 implies (#[trigger] palette_result(name, entries)->Ok_0[i]).0.subrange(
        0,
        5,
    ) == (#[trigger] palette_result(name, entries)->Ok_0[j]).0.subrange(0, 5) && (palette_result(
        name,
        entries,
    )->Ok_0[i].0[5] as u32) < (palette_result(name, entries)->Ok_0[j].0[5] as u32) by {
        crate::theme::base16::law_slot_names_ascend(i, j);
    }
}

/// Reading the table panics (see `palette_panics_from`).
pub open spec fn palette_panics(entries: Seq<(Seq<char>, Seq<char>)>) -> bool {
    first_missing_slot(entries, 0) is None && entries.len() == 16 && palette_panics_from(entries, 0)
}

/// Where slot `k`'s key stands in the table.
fn find_slot(entries: &Vec<(String, String)>, k: usize) -> (r: Option<usize>)
    requires
        k < 16,
    ensures
        match r {
            None => entry_value(entries_view(entries@), slot_name(k as int)) is None,
            Some(i) => i < entries@.len() && entry_value(entries_view(entries@), slot_name(k as int))
                == Some(entries@[i as int].1@),
        },
{
    let ghost ev = entries_view(entries@);
    let mut i: usize = 0;
    assert(ev.skip(0) =~= ev);
    while i < entries.len()
        invariant
            k < 16,
            i <= entries@.len(),
            ev == entries_view(entries@),
            entry_value(ev, slot_name(k as int)) == entry_value(ev.skip(i as int), slot_name(k as int)),
        decreases entries@.len() - i,
    {
        assert(ev.skip(i as int)[0] == ev[i as int]);
        assert(ev.skip(i as int).drop_first() =~= ev.skip(i + 1));
        if is_slot_name(&entries[i].0, k) {
            return Some(i);
        }
        i = i + 1;
    }
    None
}

/// The message for a palette value that is no `#rrggbb` literal.
fn palette_literal_error(name: &str, k: usize) -> (e: SnipError)
    requires
        k < 16,
    ensures
        e@ == (ErrorKind::Validation, palette_literal_message(name@, slot_name(k as int))),
{
    let mut m = String::new();
    push_str(&mut m, "theme ");
    push_str(&mut m, name);
    push_str(&mut m, ": palette ");
    push_str(&mut m, slot_name_string(k).as_str());
    push_str(&mut m, " must be a #rrggbb literal");
    assert(m@ =~= palette_literal_message(name@, slot_name(k as int)));
    SnipError::validation(m)
}

/// Reads slot `k`'s value.
fn palette_slot(name: &str, value: &String, k: usize) -> (r: Result<ThemeColor, SnipError>)
    requires
        k < 16,
        !(rgb_literal_shape(value@) && color_parse_panics(value@)),
    ensures
        result_view(r) == palette_slot_result(name@, slot_name(k as int), value@),
        r is Ok <==> palette_slot_result(""@, slot_name(k as int), value@) is Ok,
{
    let v = chars_of(value.as_str());
    assert(v@.skip(0) =~= v@);
    if !(utf8_len_from_is(v.as_slice(), 0, 7) && v.len() > 0 && v[0] == '#') {
        return Err(palette_literal_error(name, k));
    }
    let key = slot_name_string(k);
    match ThemeColor::parse(value.as_str(), key.as_str()) {
        Err(e) => Err(e),
        Ok(c) => match c {
            ThemeColor::Rgb(_, _, _) => Ok(c),
            _ => Err(palette_literal_error(name, k)),
        },
    }
}

/// Reads a `[palette]` table: it must hold exactly `base00` through `base0F`,
/// each a `#rrggbb` literal. The colours come out in slot order.
pub fn parse_palette(name: &str, entries: &Vec<(String, String)>) -> (r: Result<Palette, SnipError>)
    requires
        keys_distinct(entries_view(entries@)),
        !palette_panics(entries_view(entries@)),
    ensures
        match palette_result(name@, entries_view(entries@)) {
            Ok(colors) => r matches Ok(p) && p@ == colors,
            Err(e) => r matches Err(err) && err@ == e,
        },
{
    let ghost ev = entries_view(entries@);
    let mut found: Vec<usize> = Vec::new();
    let mut k: usize = 0;
    while k < 16
        invariant
            k <= 16,
            ev == entries_view(entries@),
            found@.len() == k,
            first_missing_slot(ev, 0) == first_missing_slot(ev, k as int),
            forall|j: int| 0 <= j < k ==> (#[trigger] found@[j]) < entries@.len() && entry_value(ev, slot_name(j))
                == Some(entries@[found@[j] as int].1@),
        decreases 16 - k,
    {
        match find_slot(entries, k) {
            Some(i) => found.push(i),
            None => {
                let mut m = String::new();
                push_str(&mut m, "theme ");
                push_str(&mut m, name);
                push_str(&mut m, ": missing palette key ");
                push_str(&mut m, slot_name_string(k).as_str());
                assert(m@ =~= missing_slot_key_message(name@, slot_name(k as int)));
                return Err(SnipError::validation(m));
            },
        }
        k = k + 1;
    }
    if entries.len() != 16 {
        let mut m = String::new();
        push_str(&mut m, "theme ");
        push_str(&mut m, name);
        push_str(&mut m, ": [palette] must contain exactly base00 through base0F");
        assert(m@ =~= palette_extra_message(name@));
        return Err(SnipError::validation(m));
    }
    let mut colors: Vec<(String, ThemeColor)> = Vec::new();
    let mut k: usize = 0;
    proof {
        match palette_colors_from(name@, ev, 0) {
            Ok(rest) => {
                assert(named_colors_view(colors@) + rest =~= rest);
            },
            Err(e) => {},
        }
    }
    while k < 16
        invariant
            k <= 16,
            ev == entries_view(entries@),
            found@.len() == 16,
            first_missing_slot(ev, 0) is None,
            entries@.len() == 16,
            forall|j: int| 0 <= j < 16 ==> (#[trigger] found@[j]) < entries@.len() && entry_value(ev, slot_name(j))
                == Some(entries@[found@[j] as int].1@),
            !palette_panics_from(ev, k as int),
            palette_colors_from(name@, ev, 0) == (match palette_colors_from(name@, ev, k as int) {
                Err(e) => Err(e),
                Ok(rest) => Ok(named_colors_view(colors@) + rest),
            }),
        decreases 16 - k,
    {
        let value = &entries[found[k]].1;
        assert(entry_value(ev, slot_name(k as int))->0 == value@);
        match palette_slot(name, value, k) {
            Err(e) => {
                assert(palette_colors_from(name@, ev, k as int) == Err::<Seq<(Seq<char>, ThemeColor)>, (ErrorKind, Seq<char>)>(e@));
                return Err(e);
            },
            Ok(c) => {
                let key = slot_name_string(k);
                proof {
                    match palette_colors_from(name@, ev, k + 1) {
                        Ok(rest) => {
                            assert(named_colors_view(colors@.push((key, c))) + rest =~= named_colors_view(
                                colors@,
                            ) + (seq![(key@, c)] + rest));
                        },
                        Err(e) => {},
                    }
                }
                colors.push((key, c));
            },
        }
        k = k + 1;
    }
    assert(named_colors_view(colors@) + Seq::<(Seq<char>, ThemeColor)>::empty() =~= named_colors_view(colors@));
    Ok(Palette { colors })
}

// ---------------------------------------------------------------------------
// Syntax
// ---------------------------------------------------------------------------

/// The `[syntax]` table of a theme file.
#[derive(Clone, Debug)]
pub struct RawSyntax {
    pub theme: Option<String>,
    pub derive: Option<SyntaxDerive>,
}

impl View for RawSyntax {
    type V = (Option<Seq<char>>, Option<SyntaxDerive>);

    open spec fn view(&self) -> (Option<Seq<char>>, Option<SyntaxDerive>) {
        (opt_chars(self.theme), self.derive)
    }
}

/// The message for a `[syntax]` table with both or neither choice.
pub open spec fn syntax_choice_message(name: Seq<char>) -> Seq<char> {
    "theme "@ + name + ": [syntax] must contain exactly one of theme or derive"@
}

/// What reading a `[syntax]` table gives.
pub open spec fn syntax_result(name: Seq<char>, raw: (Option<Seq<char>>, Option<SyntaxDerive>)) -> Result<
    SyntaxView,
    (ErrorKind, Seq<char>),
> {
    match raw {
        (Some(theme), None) => if is_embedded_name(theme) {
            Ok(SyntaxView::Theme(theme))
        } else {
            invalid(unknown_syntax_message(theme))
        },
        (None, Some(derive)) => Ok(SyntaxView::Derive(derive)),
        _ => invalid(syntax_choice_message(name)),
    }
}

/// Reads a `[syntax]` table: exactly one of an embedded theme's name or a
/// derivation.
pub fn parse_syntax(name: &str, raw: RawSyntax) -> (r: Result<Syntax, SnipError>)
    ensures
        match syntax_result(name@, raw@) {
            Ok(s) => r matches Ok(syntax) && syntax@ == s,
            Err(e) => r matches Err(err) && err@ == e,
        },
{
    match (raw.theme, raw.derive) {
        (Some(theme), None) => {
            match validate_embedded_name(theme.as_str()) {
                Ok(()) => Ok(Syntax::Theme { theme }),
                Err(e) => Err(e),
            }
        },
        (None, Some(derive)) => Ok(Syntax::Derive { derive }),
        _ => {
            let mut m = String::new();
            push_str(&mut m, "theme ");
            push_str(&mut m, name);
            push_str(&mut m, ": [syntax] must contain exactly one of theme or derive");
            assert(m@ =~= syntax_choice_message(name@));
            Err(SnipError::validation(m))
        },
    }
}

// ---------------------------------------------------------------------------
// Resolution
// ---------------------------------------------------------------------------

/// A theme file as read, before resolution.
#[derive(Clone, Debug)]
pub struct RawTheme {
    pub schema_version: u32,
    pub name: String,
    pub display_name: Option<String>,
    pub appearance: Appearance,
    pub source: Option<String>,
    pub extends: Option<String>,
    pub ui: RawUi,
    pub syntax: Option<RawSyntax>,
    pub palette: Option<Vec<(String, String)>>,
}

/// A theme file as read, as a spec value.
pub struct RawThemeView {
    pub schema_version: u32,
    pub name: Seq<char>,
    pub display_name: Option<Seq<char>>,
    pub appearance: Appearance,
    pub source: Option<Seq<char>>,
    pub extends: Option<Seq<char>>,
    pub ui: Seq<Option<Seq<char>>>,
    pub syntax: Option<(Option<Seq<char>>, Option<SyntaxDerive>)>,
    pub palette: Option<Seq<(Seq<char>, Seq<char>)>>,
}

impl View for RawTheme {
    type V = RawThemeView;

    open spec fn view(&self) -> RawThemeView {
        RawThemeView {
            schema_version: self.schema_version,
            name: self.name@,
            display_name: opt_chars(self.display_name),
            appearance: self.appearance,
            source: opt_chars(self.source),
            extends: opt_chars(self.extends),
            ui: self.ui@,
            syntax: match self.syntax {
                Some(s) => Some(s@),
                None => None,
            },
            palette: match self.palette {
                Some(entries) => Some(entries_view(entries@)),
                None => None,
            },
        }
    }
}

/// The first finding named `id` that failed.
pub open spec fn first_failure(checks: Seq<CheckView>, id: Seq<char>) -> Option<CheckView>
    decreases checks.len(),
{
    if checks.len() == 0 {
        None
    } else if checks[0].id == id && checks[0].level == Level::Fail {
        Some(checks[0])
    } else {
        first_failure(checks.drop_first(), id)
    }
}

/// The message for a theme with neither `[syntax]` nor anything to inherit
/// or derive it from.
pub open spec fn missing_syntax_message(name: Seq<char>) -> Seq<char> {
    "theme "@ + name + ": missing [syntax]"@
}

/// The message for a derived syntax without a palette.
pub open spec fn derive_needs_palette_message(name: Seq<char>) -> Seq<char> {
    "theme "@ + name + ": syntax derive = \"base16\" requires [palette]"@
}

/// The palette a theme ends up with: its own, read, or its parent's.
pub open spec fn resolved_palette(raw: RawThemeView, parent: Option<ThemeView>) -> Result<
    Option<Seq<(Seq<char>, ThemeColor)>>,
    (ErrorKind, Seq<char>),
> {
    match raw.palette {
        Some(entries) => match palette_result(raw.name, entries) {
            Ok(p) => Ok(Some(p)),
            Err(e) => Err(e),
        },
        None => Ok(
            match parent {
                Some(p) => p.palette,
                None => None,
            },
        ),
    }
}

/// The syntax a theme ends up with: its own, read; else its parent's; else
/// derived from its palette.
pub open spec fn resolved_syntax(
    raw: RawThemeView,
    parent: Option<ThemeView>,
    palette: Option<Seq<(Seq<char>, ThemeColor)>>,
) -> Result<SyntaxView, (ErrorKind, Seq<char>)> {
    match raw.syntax {
        Some(rs) => syntax_result(raw.name, rs),
        None => match parent {
            Some(p) => Ok(p.syntax),
            None => if palette is Some {
                Ok(SyntaxView::Derive(SyntaxDerive::Base16))
            } else {
                invalid(missing_syntax_message(raw.name))
            },
        },
    }
}

/// The theme assembled from resolved parts.
pub open spec fn assembled(
    raw: RawThemeView,
    parent: Option<ThemeView>,
    ui: ThemeUi,
    syntax: SyntaxView,
    palette: Option<Seq<(Seq<char>, ThemeColor)>>,
) -> ThemeView {
    ThemeView {
        schema_version: raw.schema_version,
        name: raw.name,
        display_name: match raw.display_name {
            Some(d) => d,
            None => raw.name,
        },
        appearance: raw.appearance,
        source: match raw.source {
            Some(s) => Some(s),
            None => match parent {
                Some(p) => p.source,
                None => None,
            },
        },
        ui,
        syntax,
        palette,
    }
}

/// What resolving a theme file over its parent (if it extends one) gives.
/// The named roles are laid over the parent's (or over black); a theme
/// without a parent must name them all; the palette and syntax are its own
/// or inherited; a derived syntax needs a palette; and background and
/// foreground must agree on `terminal`.
#[verifier::opaque]
pub open spec fn resolve_result(raw: RawThemeView, parent: Option<ThemeView>) -> Result<
    ThemeView,
    (ErrorKind, Seq<char>),
> {
    let base = match parent {
        Some(p) => p.ui,
        None => black_ui(),
    };
    match apply_ui_from(base, raw.ui, raw.name, 0) {
        Err(e) => Err(e),
        Ok(ui) => if raw.extends is None && first_missing_role(raw.ui, 0) is Some {
            invalid(missing_role_message(raw.name, first_missing_role(raw.ui, 0)->0))
        } else {
            match resolved_palette(raw, parent) {
                Err(e) => Err(e),
                Ok(palette) => match resolved_syntax(raw, parent, palette) {
                    Err(e) => Err(e),
                    Ok(syntax) => if syntax is Derive && palette is None {
                        invalid(derive_needs_palette_message(raw.name))
                    } else {
                        match first_failure(check_views(ui, raw.appearance), "surface-pairing"@) {
                            Some(f) => invalid("theme "@ + raw.name + ": "@ + f.detail),
                            None => Ok(assembled(raw, parent, ui, syntax, palette)),
                        }
                    },
                },
            }
        },
    }
}

/// Resolving panics: a colour text that would be
/// sliced inside a character, reached before any error.
#[verifier::opaque]
pub open spec fn resolve_panics(raw: RawThemeView) -> bool {
    ||| apply_ui_panics_from(raw.ui, 0)
    ||| {
        &&& apply_ui_from(black_ui(), raw.ui, raw.name, 0) is Ok
        &&& !(raw.extends is None && first_missing_role(raw.ui, 0) is Some)
        &&& raw.palette matches Some(entries) && palette_panics(entries)
    }
}

/// Whether a colour list's table has pairwise distinct keys (as a map's do).
pub open spec fn raw_well_formed(raw: RawThemeView) -> bool {
    raw.palette matches Some(entries) ==> keys_distinct(entries)
}

/// Whether `ui` parses to the same outcome over any base.
proof fn lemma_apply_ui_outcome(a: ThemeUi, b: ThemeUi, raw: Seq<Option<Seq<char>>>, name: Seq<char>, i: int)
    ensures
        apply_ui_from(a, raw, name, i) is Ok <==> apply_ui_from(b, raw, name, i) is Ok,
        apply_ui_from(a, raw, name, i) matches Err(e) ==> apply_ui_from(b, raw, name, i) == Err::<
            ThemeUi,
            (ErrorKind, Seq<char>),
        >(e),
    decreases 18 - i,
{
    if 0 <= i < 18 {
        match raw[i] {
            None => lemma_apply_ui_outcome(a, b, raw, name, i + 1),
            Some(text) => match parse_color(text, ui_role_name(i)) {
                Err(e) => {},
                Ok(c) => lemma_apply_ui_outcome(ui_with_role(a, i, c), ui_with_role(b, i, c), raw, name, i + 1),
            },
        }
    }
}

/// The first finding named `id` that failed, by position.
fn find_failure(checks: &Vec<Check>, id: &str) -> (r: Option<usize>)
    ensures
        match first_failure(crate::theme::validate::checks_view(checks@), id@) {
            None => r is None,
            Some(f) => r matches Some(i) && i < checks@.len() && checks@[i as int]@ == f,
        },
{
    let ghost cv = crate::theme::validate::checks_view(checks@);
    let target = chars_of(id);
    let mut i: usize = 0;
    assert(cv.skip(0) =~= cv);
    while i < checks.len()
        invariant
            i <= checks@.len(),
            cv == crate::theme::validate::checks_view(checks@),
            target@ == id@,
            first_failure(cv, id@) == first_failure(cv.skip(i as int), id@),
        decreases checks@.len() - i,
    {
        assert(cv.skip(i as int)[0] == cv[i as int]);
        assert(cv.skip(i as int).drop_first() =~= cv.skip(i + 1));
        let c = chars_of(checks[i].id);
        if crate::text::eq_chars(c.as_slice(), target.as_slice()) && checks[i].level == Level::Fail {
            return Some(i);
        }
        i = i + 1;
    }
    None
}

/// The palette a theme ends up with.
fn resolve_palette(name: &str, palette: Option<Vec<(String, String)>>, parent: &Option<Theme>) -> (r: Result<
    Option<Palette>,
    SnipError,
>)
    requires
        palette matches Some(entries) ==> keys_distinct(entries_view(entries@)) && !palette_panics(
            entries_view(entries@),
        ),
    ensures
        match (match palette {
            Some(entries) => match palette_result(name@, entries_view(entries@)) {
                Ok(p) => Ok(Some(p)),
                Err(e) => Err(e),
            },
            None => Ok(
                match parent {
                    Some(p) => p@.palette,
                    None => None,
                },
            ),
        }) {
            Ok(p) => r matches Ok(q) && palette_opt_view(q) == p,
            Err(e) => r matches Err(err) && err@ == e,
        },
{
    match palette {
        Some(entries) => match parse_palette(name, &entries) {
            Ok(p) => Ok(Some(p)),
            Err(e) => Err(e),
        },
        None => match parent {
            Some(p) => match &p.palette {
                Some(q) => Ok(Some(Palette { colors: copy_named_colors(&q.colors) })),
                None => Ok(None),
            },
            None => Ok(None),
        },
    }
}

/// A copy of a syntax choice.
fn copy_syntax(s: &Syntax) -> (r: Syntax)
    ensures
        r@ == s@,
{
    match s {
        Syntax::Theme { theme } => Syntax::Theme { theme: copy_string(theme.as_str()) },
        Syntax::Derive { derive } => Syntax::Derive { derive: *derive },
    }
}

/// The syntax a theme ends up with.
fn resolve_syntax(
    name: &str,
    syntax: Option<RawSyntax>,
    parent: &Option<Theme>,
    has_palette: bool,
) -> (r: Result<Syntax, SnipError>)
    ensures
        match (match syntax {
            Some(rs) => syntax_result(name@, rs@),
            None => match parent {
                Some(p) => Ok(p@.syntax),
                None => if has_palette {
                    Ok(SyntaxView::Derive(SyntaxDerive::Base16))
                } else {
                    invalid(missing_syntax_message(name@))
                },
            },
        }) {
            Ok(v) => r matches Ok(x) && x@ == v,
            Err(e) => r matches Err(err) && err@ == e,
        },
{
    match syntax {
        Some(raw) => parse_syntax(name, raw),
        None => match parent {
            Some(p) => Ok(copy_syntax(&p.syntax)),
            None => if has_palette {
                Ok(Syntax::Derive { derive: SyntaxDerive::Base16 })
            } else {
                let mut m = String::new();
                push_str(&mut m, "theme ");
                push_str(&mut m, name);
                push_str(&mut m, ": missing [syntax]");
                assert(m@ =~= missing_syntax_message(name@));
                Err(SnipError::validation(m))
            },
        },
    }
}

/// Resolves a theme file over its parent (the theme it extends, already
/// resolved, if it extends one): the roles it names are laid over the
/// parent's, or over black; a theme without `extends` must name every role;
/// its palette and syntax are its own or inherited, and a syntax without a
/// parent falls back to deriving from the palette; a derived syntax needs a
/// palette; and background and foreground must agree on `terminal`.
pub fn resolve_raw(raw: RawTheme, parent: Option<Theme>) -> (r: Result<Theme, SnipError>)
    requires
        raw_well_formed(raw@),
        !resolve_panics(raw@),
    ensures
        match resolve_result(
            raw@,
            match parent {
                Some(p) => Some(p@),
                None => None,
            },
        ) {
            Ok(t) => r matches Ok(theme) && theme@ == t,
            Err(e) => r matches Err(err) && err@ == e,
        },
{
    reveal(resolve_result);
    reveal(resolve_panics);
    let ghost pv: Option<ThemeView> = match &parent {
        Some(p) => Some(p@),
        None => None,
    };
    let mut ui = match &parent {
        Some(p) => p.ui,
        None => empty_ui(),
    };
    proof {
        lemma_apply_ui_outcome(ui, black_ui(), raw@.ui, raw@.name, 0);
    }
    if let Err(e) = apply_ui(&mut ui, &raw.ui, raw.name.as_str()) {
        return Err(e);
    }
    if raw.extends.is_none() {
        if let Err(e) = require_all_ui(&raw.ui, raw.name.as_str()) {
            return Err(e);
        }
    }
    let palette = match resolve_palette(raw.name.as_str(), raw.palette, &parent) {
        Ok(p) => p,
        Err(e) => {
            return Err(e);
        },
    };
    let syntax = match resolve_syntax(raw.name.as_str(), raw.syntax, &parent, palette.is_some()) {
        Ok(s) => s,
        Err(e) => {
            return Err(e);
        },
    };
    let is_derive = match &syntax {
        Syntax::Derive { .. } => true,
        Syntax::Theme { .. } => false,
    };
    if is_derive && palette.is_none() {
        let mut m = String::new();
        push_str(&mut m, "theme ");
        push_str(&mut m, raw.name.as_str());
        push_str(&mut m, ": syntax derive = \"base16\" requires [palette]");
        assert(m@ =~= derive_needs_palette_message(raw@.name));
        return Err(SnipError::validation(m));
    }
    let display_name = match &raw.display_name {
        Some(d) => copy_string(d.as_str()),
        None => copy_string(raw.name.as_str()),
    };
    let source = match &raw.source {
        Some(s) => Some(copy_string(s.as_str())),
        None => match &parent {
            Some(p) => copy_opt_string(&p.source),
            None => None,
        },
    };
    let theme = Theme {
        schema_version: raw.schema_version,
        name: raw.name,
        display_name,
        appearance: raw.appearance,
        source,
        ui,
        syntax,
        palette,
    };
    assert(theme@ == assembled(raw@, pv, ui, syntax@, palette_opt_view(palette)));
    let checks = check(&theme);
    if let Some(i) = find_failure(&checks, "surface-pairing") {
        let mut m = String::new();
        push_str(&mut m, "theme ");
        push_str(&mut m, theme.name.as_str());
        push_str(&mut m, ": ");
        push_str(&mut m, checks[i].detail.as_str());
        assert(m@ =~= "theme "@ + raw@.name + ": "@ + checks@[i as int].detail@);
        return Err(SnipError::validation(m));
    }
    Ok(theme)
}

// ---------------------------------------------------------------------------
// Reading a chain of themes
// ---------------------------------------------------------------------------

/// The message for a file whose theme name is not its stem.
pub open spec fn stem_mismatch_message(name: Seq<char>, stem: Seq<char>) -> Seq<char> {
    "theme name "@ + name + " must equal file stem "@ + stem
}

/// The message for a schema newer than this library reads.
pub open spec fn schema_too_new_message(name: Seq<char>, version: nat) -> Seq<char> {
    "theme "@ + name + " uses schema version "@ + decimal(version) + ", but this snip supports up to "@
        + decimal(THEME_SCHEMA_VERSION as nat)
}

/// The message for schema version zero.
pub open spec fn schema_zero_message(name: Seq<char>) -> Seq<char> {
    "theme "@ + name + " has invalid schema version 0"@
}

/// What checking a theme file as read gives: its name must be a theme name
/// and, when it was read from a file, that file's stem; its schema version
/// must be 1 through the one this library reads.
pub open spec fn raw_check_result(raw: RawThemeView, expected: Option<Seq<char>>) -> Result<
    (),
    (ErrorKind, Seq<char>),
> {
    if !valid_theme_name(raw.name) {
        invalid(invalid_name_message(raw.name))
    } else if expected matches Some(stem) && stem != raw.name {
        invalid(stem_mismatch_message(raw.name, expected->0))
    } else if raw.schema_version > THEME_SCHEMA_VERSION {
        invalid(schema_too_new_message(raw.name, raw.schema_version as nat))
    } else if raw.schema_version == 0 {
        invalid(schema_zero_message(raw.name))
    } else {
        Ok(())
    }
}

/// Checks a theme file as read: a theme name, equal to the stem of the file
/// it came from, and a schema version this library reads.
pub fn check_raw(raw: &RawTheme, expected: Option<&str>) -> (r: Result<(), SnipError>)
    ensures
        result_view(r) == raw_check_result(
            raw@,
            match expected {
                Some(x) => Some(x@),
                None => None,
            },
        ),
{
    if let Err(e) = validate_theme_name(raw.name.as_str()) {
        return Err(e);
    }
    if let Some(stem) = expected {
        let a = chars_of(stem);
        let b = chars_of(raw.name.as_str());
        if !eq_chars(a.as_slice(), b.as_slice()) {
            let mut m = String::new();
            push_str(&mut m, "theme name ");
            push_str(&mut m, raw.name.as_str());
            push_str(&mut m, " must equal file stem ");
            push_str(&mut m, stem);
            assert(m@ =~= stem_mismatch_message(raw@.name, stem@));
            return Err(SnipError::validation(m));
        }
    }
    if raw.schema_version > THEME_SCHEMA_VERSION {
        let mut m = String::new();
        push_str(&mut m, "theme ");
        push_str(&mut m, raw.name.as_str());
        push_str(&mut m, " uses schema version ");
        push_str(&mut m, decimal_string(raw.schema_version as u64).as_str());
        push_str(&mut m, ", but this snip supports up to ");
        push_str(&mut m, decimal_string(THEME_SCHEMA_VERSION as u64).as_str());
        assert(m@ =~= schema_too_new_message(raw@.name, raw.schema_version as nat));
        return Err(SnipError::validation(m));
    }
    if raw.schema_version == 0 {
        let mut m = String::new();
        push_str(&mut m, "theme ");
        push_str(&mut m, raw.name.as_str());
        push_str(&mut m, " has invalid schema version 0");
        assert(m@ =~= schema_zero_message(raw@.name));
        return Err(SnipError::validation(m));
    }
    Ok(())
}

/// The names of a chain of theme files.
pub open spec fn chain_names(chain: Seq<RawThemeView>) -> Seq<Seq<char>> {
    chain.map_values(|r: RawThemeView| r.name)
}

/// The message for a chain deeper than `MAX_EXTENDS_DEPTH`.
pub open spec fn too_deep_message(name: Seq<char>) -> Seq<char> {
    "theme "@ + name + ": extends chain too deep"@
}

/// The message for a chain that comes back to a theme already in it.
pub open spec fn cycle_message(name: Seq<char>) -> Seq<char> {
    "theme "@ + name + ": extends cycle via "@ + name
}

/// What reading `name` at `depth`, below the themes `visited`, is allowed.
pub open spec fn chain_guard(name: Seq<char>, depth: int, visited: Seq<Seq<char>>) -> Result<
    (),
    (ErrorKind, Seq<char>),
> {
    if depth > MAX_EXTENDS_DEPTH {
        invalid(too_deep_message(name))
    } else if visited.contains(name) {
        invalid(cycle_message(name))
    } else {
        Ok(())
    }
}

/// The next theme to read for `requested`, given the files read so far
/// (each the parent of the one before): the requested theme itself first,
/// then each one's parent, until a theme extends nothing.
pub open spec fn next_in_chain_result(requested: Seq<char>, chain: Seq<RawThemeView>) -> Result<
    Option<Seq<char>>,
    (ErrorKind, Seq<char>),
> {
    if chain.len() == 0 {
        match chain_guard(requested, 0, Seq::empty()) {
            Err(e) => Err(e),
            Ok(()) => Ok(Some(requested)),
        }
    } else {
        match chain.last().extends {
            None => Ok(None),
            Some(parent) => match chain_guard(parent, chain.len() as int, chain_names(chain)) {
                Err(e) => Err(e),
                Ok(()) => Ok(Some(parent)),
            },
        }
    }
}

/// The chain's files, as spec values.
pub open spec fn chain_view(chain: Seq<RawTheme>) -> Seq<RawThemeView> {
    chain.map_values(|r: RawTheme| r@)
}

/// The next theme file to read while loading `requested`, or `None` once the
/// last file read extends nothing. A chain may be at most
/// `MAX_EXTENDS_DEPTH` parents deep and may not come back to a theme in it.
pub fn next_in_chain(requested: &str, chain: &Vec<RawTheme>) -> (r: Result<Option<String>, SnipError>)
    ensures
        match next_in_chain_result(requested@, chain_view(chain@)) {
            Ok(next) => r matches Ok(n) && opt_chars(n) == next,
            Err(e) => r matches Err(err) && err@ == e,
        },
{
    let ghost cv = chain_view(chain@);
    let (name, depth) = if chain.len() == 0 {
        (copy_string(requested), 0usize)
    } else {
        match &chain[chain.len() - 1].extends {
            None => {
                return Ok(None);
            },
            Some(parent) => (copy_string(parent.as_str()), chain.len()),
        }
    };
    if depth > MAX_EXTENDS_DEPTH {
        let mut m = String::new();
        push_str(&mut m, "theme ");
        push_str(&mut m, name.as_str());
        push_str(&mut m, ": extends chain too deep");
        assert(m@ =~= too_deep_message(name@));
        return Err(SnipError::validation(m));
    }
    let target = chars_of(name.as_str());
    let mut i: usize = 0;
    while i < chain.len()
        invariant
            i <= chain@.len(),
            target@ == name@,
            cv == chain_view(chain@),
            depth == chain@.len(),
            depth <= MAX_EXTENDS_DEPTH,
            chain@.len() == 0 ==> name@ == requested@,
            chain@.len() > 0 ==> cv.last().extends == Some(name@),
            chain_names(cv).len() == chain@.len(),
            forall|j: int| 0 <= j < i ==> chain_names(cv)[j] != name@,
        decreases chain@.len() - i,
    {
        let c = chars_of(chain[i].name.as_str());
        if eq_chars(c.as_slice(), target.as_slice()) {
            assert(chain_names(cv)[i as int] == name@);
            let mut m = String::new();
            push_str(&mut m, "theme ");
            push_str(&mut m, name.as_str());
            push_str(&mut m, ": extends cycle via ");
            push_str(&mut m, name.as_str());
            assert(m@ =~= cycle_message(name@));
            return Err(SnipError::validation(m));
        }
        i = i + 1;
    }
    assert(!chain_names(cv).contains(name@));
    assert(chain.len() == 0 ==> Seq::<Seq<char>>::empty() =~= chain_names(cv));
    Ok(Some(name))
}

/// The theme resolved from the files `chain[k..]`, each laid over the
/// resolution of the ones after it (its parents); `None` for no files.
pub open spec fn chain_resolution(chain: Seq<RawThemeView>, k: int) -> Result<
    Option<ThemeView>,
    (ErrorKind, Seq<char>),
>
    decreases chain.len() - k,
{
    if k < 0 || k >= chain.len() {
        Ok(None)
    } else {
        match chain_resolution(chain, k + 1) {
            Err(e) => Err(e),
            Ok(parent) => match resolve_result(chain[k], parent) {
                Err(e) => Err(e),
                Ok(t) => Ok(Some(t)),
            },
        }
    }
}

/// Resolving `chain[k..]` panics (see `resolve_panics`).
pub open spec fn chain_panics(chain: Seq<RawThemeView>, k: int) -> bool
    decreases chain.len() - k,
{
    if k < 0 || k >= chain.len() {
        false
    } else {
        chain_panics(chain, k + 1) || (chain_resolution(chain, k + 1) is Ok && resolve_panics(chain[k]))
    }
}

/// Resolves a chain of theme files, each the parent of the one before,
/// from the last (which extends nothing) back to the first.
pub fn resolve_chain(chain: Vec<RawTheme>) -> (r: Result<Theme, SnipError>)
    requires
        chain@.len() > 0,
        forall|i: int| 0 <= i < chain@.len() ==> raw_well_formed(#[trigger] chain@[i]@),
        !chain_panics(chain_view(chain@), 0),
    ensures
        match chain_resolution(chain_view(chain@), 0) {
            Ok(t) => r matches Ok(theme) && Some(theme@) == t,
            Err(e) => r matches Err(err) && err@ == e,
        },
{
    let ghost all = chain_view(chain@);
    let mut rest = chain;
    let mut parent: Option<Theme> = None;
    proof {
        lemma_chain_panics_suffix(all, 0, all.len() as int);
    }
    while rest.len() > 0
        invariant
            all == chain_view(chain@),
            all.len() > 0,
            rest@.len() <= all.len(),
            forall|i: int| 0 <= i < rest@.len() ==> rest@[i]@ == #[trigger] all[i],
            forall|i: int| 0 <= i < rest@.len() ==> raw_well_formed(#[trigger] rest@[i]@),
            !chain_panics(all, 0),
            forall|k: int| 0 <= k <= all.len() ==> !chain_panics(all, k),
            chain_resolution(all, rest@.len() as int) == Ok::<Option<ThemeView>, (ErrorKind, Seq<char>)>(
                match &parent {
                    Some(p) => Some(p@),
                    None => None,
                },
            ),
            rest@.len() < all.len() ==> parent is Some,
        decreases rest@.len(),
    {
        let raw = rest.pop().unwrap();
        let k: usize = rest.len();
        assert(raw@ == all[k as int]);
        assert(!chain_panics(all, k as int));
        match resolve_raw(raw, parent) {
            Ok(theme) => {
                parent = Some(theme);
            },
            Err(e) => {
                assert(chain_resolution(all, k as int) == Err::<Option<ThemeView>, (ErrorKind, Seq<char>)>(e@));
                proof {
                    lemma_chain_error_propagates(all, k as int);
                }
                return Err(e);
            },
        }
    }
    match parent {
        Some(theme) => Ok(theme),
        None => Err(SnipError::validation_lit("theme chain is empty")),
    }
}

/// Not panicking from the start means not panicking from any later file.
proof fn lemma_chain_panics_suffix(chain: Seq<RawThemeView>, k: int, upto: int)
    requires
        0 <= k,
        !chain_panics(chain, k),
    ensures
        forall|j: int| k <= j ==> !chain_panics(chain, j),
    decreases chain.len() - k,
{
    if k < chain.len() {
        lemma_chain_panics_suffix(chain, k + 1, upto);
    } else {
        assert forall|j: int| k <= j implies !chain_panics(chain, j) by {}
    }
}

/// An error resolving `chain[k..]` is the error of the whole chain.
proof fn lemma_chain_error_propagates(chain: Seq<RawThemeView>, k: int)
    requires
        0 <= k,
        chain_resolution(chain, k) is Err,
    ensures
        chain_resolution(chain, 0) == chain_resolution(chain, k),
    decreases k,
{
    if k > 0 {
        lemma_chain_error_propagates_step(chain, k - 1);
        lemma_chain_error_propagates(chain, k - 1);
    }
}

/// One step of the above.
proof fn lemma_chain_error_propagates_step(chain: Seq<RawThemeView>, k: int)
    requires
        0 <= k,
        chain_resolution(chain, k + 1) is Err,
    ensures
        chain_resolution(chain, k) == chain_resolution(chain, k + 1),
{
    if k >= chain.len() {
        assert(chain_resolution(chain, k + 1) is Ok);
    }
}

// ---------------------------------------------------------------------------
// Loading for the interface
// ---------------------------------------------------------------------------

/// The first finding at `level`.
pub open spec fn first_at_level(checks: Seq<CheckView>, level: Level) -> Option<CheckView>
    decreases checks.len(),
{
    if checks.len() == 0 {
        None
    } else if checks[0].level == level {
        Some(checks[0])
    } else {
        first_at_level(checks.drop_first(), level)
    }
}

/// A finding reported under the theme's name.
pub open spec fn finding_line(name: Seq<char>, c: CheckView) -> Seq<char> {
    "theme "@ + name + ": "@ + c.id + ": "@ + c.detail
}

/// The warnings among the findings, each reported under the theme's name.
pub open spec fn warning_lines(name: Seq<char>, checks: Seq<CheckView>) -> Seq<Seq<char>>
    decreases checks.len(),
{
    if checks.len() == 0 {
        Seq::empty()
    } else if checks[0].level == Level::Warn {
        seq![finding_line(name, checks[0])] + warning_lines(name, checks.drop_first())
    } else {
        warning_lines(name, checks.drop_first())
    }
}

/// What the interface makes of a loaded theme's findings: the first failure
/// refuses the theme; otherwise the warnings are shown (passing findings
/// never are).
pub open spec fn runtime_result(name: Seq<char>, checks: Seq<CheckView>) -> Result<
    Seq<Seq<char>>,
    (ErrorKind, Seq<char>),
> {
    match first_at_level(checks, Level::Fail) {
        Some(f) => invalid(finding_line(name, f)),
        None => Ok(warning_lines(name, checks)),
    }
}

/// Only warnings are shown: every line the interface shows for a loaded
/// theme reports a finding at the warning level, so a note (or a pass) is
/// never shown.
pub proof fn law_only_warnings_are_shown(name: Seq<char>, checks: Seq<CheckView>)
    ensures
        forall|i: int| 0 <= i < warning_lines(name, checks).len() ==> #[trigger] shown_from_warning(name, checks, i),
    decreases checks.len(),
{
    if checks.len() > 0 {
        let rest = checks.drop_first();
        law_only_warnings_are_shown(name, rest);
        let wl = warning_lines(name, checks);
        let wr = warning_lines(name, rest);
        assert forall|i: int| 0 <= i < wl.len() implies #[trigger] shown_from_warning(name, checks, i) by {
            if checks[0].level == Level::Warn && i == 0 {
                assert(wl[0] == finding_line(name, checks[0]));
            } else {
                let j = if checks[0].level == Level::Warn {
                    i - 1
                } else {
                    i
                };
                assert(wl[i] == wr[j]);
                assert(shown_from_warning(name, rest, j));
                let k = choose|k: int|
                    0 <= k < rest.len() && rest[k].level == Level::Warn && wr[j] == finding_line(name, rest[k]);
                assert(rest[k] == checks[k + 1]);
            }
        }
    }
}

/// The `i`th line shown reports a finding of `checks` at the warning level.
pub open spec fn shown_from_warning(name: Seq<char>, checks: Seq<CheckView>, i: int) -> bool {
    exists|k: int|
        0 <= k < checks.len() && checks[k].level == Level::Warn && warning_lines(name, checks)[i] == finding_line(
            name,
            #[trigger] checks[k],
        )
}

/// Strings, as spec values.
pub open spec fn strings_view(v: Seq<String>) -> Seq<Seq<char>> {
    v.map_values(|s: String| s@)
}

/// A finding reported under the theme's name.
fn finding_text(name: &str, c: &Check) -> (s: String)
    ensures
        s@ == finding_line(name@, c@),
{
    let mut m = String::new();
    push_str(&mut m, "theme ");
    push_str(&mut m, name);
    push_str(&mut m, ": ");
    push_str(&mut m, c.id);
    push_str(&mut m, ": ");
    push_str(&mut m, c.detail.as_str());
    assert(m@ =~= finding_line(name@, c@));
    m
}

/// Judges a loaded theme by its findings: the first failure refuses it;
/// otherwise its warnings come back, in order.
pub fn runtime_findings(name: &str, checks: &Vec<Check>) -> (r: Result<Vec<String>, SnipError>)
    ensures
        match runtime_result(name@, crate::theme::validate::checks_view(checks@)) {
            Ok(w) => r matches Ok(lines) && strings_view(lines@) == w,
            Err(e) => r matches Err(err) && err@ == e,
        },
{
    let ghost cv = crate::theme::validate::checks_view(checks@);
    let mut i: usize = 0;
    assert(cv.skip(0) =~= cv);
    while i < checks.len()
        invariant
            i <= checks@.len(),
            cv == crate::theme::validate::checks_view(checks@),
            first_at_level(cv, Level::Fail) == first_at_level(cv.skip(i as int), Level::Fail),
        decreases checks@.len() - i,
    {
        assert(cv.skip(i as int)[0] == cv[i as int]);
        assert(cv.skip(i as int).drop_first() =~= cv.skip(i + 1));
        if checks[i].level == Level::Fail {
            return Err(SnipError::validation(finding_text(name, &checks[i])));
        }
        i = i + 1;
    }
    let mut lines: Vec<String> = Vec::new();
    let mut i: usize = 0;
    assert(strings_view(lines@) + warning_lines(name@, cv.skip(0)) =~= warning_lines(name@, cv));
    while i < checks.len()
        invariant
            i <= checks@.len(),
            cv == crate::theme::validate::checks_view(checks@),
            strings_view(lines@) + warning_lines(name@, cv.skip(i as int)) == warning_lines(name@, cv),
        decreases checks@.len() - i,
    {
        assert(cv.skip(i as int)[0] == cv[i as int]);
        assert(cv.skip(i as int).drop_first() =~= cv.skip(i + 1));
        if checks[i].level == Level::Warn {
            let line = finding_text(name, &checks[i]);
            assert(strings_view(lines@.push(line)) =~= strings_view(lines@).push(line@));
            assert(strings_view(lines@).push(line@) + warning_lines(name@, cv.skip(i + 1)) =~= strings_view(
                lines@,
            ) + (seq![line@] + warning_lines(name@, cv.skip(i + 1))));
            lines.push(line);
        }
        i = i + 1;
    }
    assert(cv.skip(i as int) =~= Seq::<CheckView>::empty());
    assert(strings_view(lines@) + Seq::<Seq<char>>::empty() =~= strings_view(lines@));
    Ok(lines)
}

/// One entry of the configuration's `[colors]` table: a role's name and its
/// value, if the value is a string.
pub open spec fn override_entries_view(entries: Seq<(String, Option<String>)>) -> Seq<(Seq<char>, Option<Seq<char>>)> {
    entries.map_values(|e: (String, Option<String>)| (e.0@, opt_chars(e.1)))
}

/// The message for a `[colors]` value that is not a string.
pub open spec fn not_a_string_message(role: Seq<char>) -> Seq<char> {
    "invalid color for "@ + role + ": expected a string"@
}

/// The roles from `i` on that the `[colors]` table names, laid over `ui`,
/// and the warnings for the values that could not be used (which are
/// skipped).
pub open spec fn overrides_from(ui: ThemeUi, entries: Seq<(Seq<char>, Option<Seq<char>>)>, i: int) -> (
    ThemeUi,
    Seq<Seq<char>>,
)
    decreases 18 - i,
{
    if i < 0 || i >= 18 {
        (ui, Seq::empty())
    } else {
        match entry_value(entries, ui_role_name(i)) {
            None => overrides_from(ui, entries, i + 1),
            Some(None) => {
                let rest = overrides_from(ui, entries, i + 1);
                (rest.0, seq![not_a_string_message(ui_role_name(i))] + rest.1)
            },
            Some(Some(text)) => match parse_color(text, ui_role_name(i)) {
                Ok(c) => overrides_from(ui_with_role(ui, i, c), entries, i + 1),
                Err(e) => {
                    let rest = overrides_from(ui, entries, i + 1);
                    (rest.0, seq![e.1] + rest.1)
                },
            },
        }
    }
}

/// The message for overrides that leave background and foreground
/// disagreeing on `terminal`.
pub open spec fn unpaired_override_message(name: Seq<char>) -> Seq<char> {
    "theme "@ + name + ": background and foreground must both be set or both be \"terminal\""@
}

/// What laying the configuration's `[colors]` over a theme's roles gives:
/// the new roles and the warnings. When the result leaves background and
/// foreground disagreeing on `terminal`, those two go back to the theme's.
pub open spec fn overrides_result(name: Seq<char>, ui: ThemeUi, entries: Seq<(Seq<char>, Option<Seq<char>>)>) -> (
    ThemeUi,
    Seq<Seq<char>>,
) {
    let applied = overrides_from(ui, entries, 0);
    if (applied.0.background == ThemeColor::Terminal) != (applied.0.foreground == ThemeColor::Terminal) {
        (
            ThemeUi { background: ui.background, foreground: ui.foreground, ..applied.0 },
            applied.1.push(unpaired_override_message(name)),
        )
    } else {
        applied
    }
}

/// Applying the overrides panics: a string value that
/// would be sliced inside a character.
pub open spec fn overrides_panic(entries: Seq<(Seq<char>, Option<Seq<char>>)>) -> bool {
    exists|i: int| 0 <= i < 18 && (#[trigger] entry_value(entries, ui_role_name(i)) matches Some(Some(text))
        && color_parse_panics(text))
}

/// The value the `[colors]` table gives role `i`.
fn override_for(entries: &Vec<(String, Option<String>)>, i: usize) -> (r: Option<&Option<String>>)
    requires
        i < UI_ROLE_COUNT,
    ensures
        match entry_value(override_entries_view(entries@), ui_role_name(i as int)) {
            None => r is None,
            Some(v) => r matches Some(x) && opt_chars(*x) == v,
        },
{
    let ghost ev = override_entries_view(entries@);
    let role = chars_of(ui_role_name_str(i));
    let mut k: usize = 0;
    assert(ev.skip(0) =~= ev);
    while k < entries.len()
        invariant
            i < UI_ROLE_COUNT,
            k <= entries@.len(),
            ev == override_entries_view(entries@),
            role@ == ui_role_name(i as int),
            entry_value(ev, ui_role_name(i as int)) == entry_value(ev.skip(k as int), ui_role_name(i as int)),
        decreases entries@.len() - k,
    {
        assert(ev.skip(k as int)[0] == ev[k as int]);
        assert(ev.skip(k as int).drop_first() =~= ev.skip(k + 1));
        let key = chars_of(entries[k].0.as_str());
        if eq_chars(key.as_slice(), role.as_slice()) {
            return Some(&entries[k].1);
        }
        k = k + 1;
    }
    None
}

/// Lays the configuration's `[colors]` table (role name to value; `None`
/// where the value is not a string) over the theme's roles. A value that is
/// not a string or not a colour is skipped with a warning; when the result
/// leaves background and foreground disagreeing on `terminal`, both go back to
/// the theme's own, with a warning.
pub fn apply_overrides(
    theme: &mut Theme,
    entries: &Vec<(String, Option<String>)>,
    warnings: &mut Vec<String>,
)
    requires
        !overrides_panic(override_entries_view(entries@)),
    ensures
        ({
            let (ui, w) = overrides_result(old(theme).name@, old(theme).ui, override_entries_view(entries@));
            &&& final(theme).ui == ui
            &&& strings_view(final(warnings)@) == strings_view(old(warnings)@) + w
        }),
        final(theme).name == old(theme).name,
        final(theme).display_name == old(theme).display_name,
        final(theme).appearance == old(theme).appearance,
        final(theme).source == old(theme).source,
        final(theme).syntax == old(theme).syntax,
        final(theme).palette == old(theme).palette,
        final(theme).schema_version == old(theme).schema_version,
{
    let ghost ev = override_entries_view(entries@);
    let ghost ui0 = theme.ui;
    let ghost w0 = strings_view(warnings@);
    let original_background = theme.ui.background;
    let original_foreground = theme.ui.foreground;
    let mut i: usize = 0;
    assert(w0 + Seq::<Seq<char>>::empty() =~= w0);
    while i < UI_ROLE_COUNT
        invariant
            i <= UI_ROLE_COUNT,
            ev == override_entries_view(entries@),
            !overrides_panic(ev),
            ({
                let rest = overrides_from(theme.ui, ev, i as int);
                let all = overrides_from(ui0, ev, 0);
                &&& rest.0 == all.0
                &&& strings_view(warnings@) + rest.1 == w0 + all.1
            }),
            theme.name == old(theme).name,
            theme.display_name == old(theme).display_name,
            theme.appearance == old(theme).appearance,
            theme.source == old(theme).source,
            theme.syntax == old(theme).syntax,
            theme.palette == old(theme).palette,
            theme.schema_version == old(theme).schema_version,
        decreases UI_ROLE_COUNT - i,
    {
        match override_for(entries, i) {
            None => {},
            Some(None) => {
                let mut m = String::new();
                push_str(&mut m, "invalid color for ");
                push_str(&mut m, ui_role_name_str(i));
                push_str(&mut m, ": expected a string");
                assert(m@ =~= not_a_string_message(ui_role_name(i as int)));
                proof {
                    let rest = overrides_from(theme.ui, ev, i + 1);
                    assert(strings_view(warnings@.push(m)) + rest.1 =~= strings_view(warnings@) + (seq![m@]
                        + rest.1));
                }
                warnings.push(m);
            },
            Some(Some(text)) => {
                assert(!color_parse_panics(text@)) by {
                    if color_parse_panics(text@) {
                        assert(entry_value(ev, ui_role_name(i as int)) matches Some(Some(t)) && color_parse_panics(t));
                        assert(0 <= i < 18);
                    }
                }
                match ThemeColor::parse(text.as_str(), ui_role_name_str(i)) {
                    Ok(c) => set_role(&mut theme.ui, i, c),
                    Err(e) => {
                        let m = e.to_string();
                        proof {
                            let rest = overrides_from(theme.ui, ev, i + 1);
                            assert(strings_view(warnings@.push(m)) + rest.1 =~= strings_view(warnings@) + (
                            seq![m@] + rest.1));
                        }
                        warnings.push(m);
                    },
                }
            },
        }
        i = i + 1;
    }
    assert(strings_view(warnings@) + Seq::<Seq<char>>::empty() =~= strings_view(warnings@));
    let background_terminal = match theme.ui.background {
        ThemeColor::Terminal => true,
        _ => false,
    };
    let foreground_terminal = match theme.ui.foreground {
        ThemeColor::Terminal => true,
        _ => false,
    };
    if background_terminal != foreground_terminal {
        let mut m = String::new();
        push_str(&mut m, "theme ");
        push_str(&mut m, theme.name.as_str());
        push_str(&mut m, ": background and foreground must both be set or both be \"terminal\"");
        assert(m@ =~= unpaired_override_message(theme.name@));
        assert(strings_view(warnings@.push(m)) =~= strings_view(warnings@).push(m@));
        warnings.push(m);
        theme.ui.background = original_background;
        theme.ui.foreground = original_foreground;
    }
}

// ---------------------------------------------------------------------------
// Laws
// ---------------------------------------------------------------------------

/// The colour a role ends up with when `raw` is laid over `ui` from role
/// `from` on: the parsed text where `raw` names the role, else the colour it
/// had.
pub open spec fn overlaid_role(ui: ThemeUi, raw: Seq<Option<Seq<char>>>, from: int, j: int) -> ThemeColor {
    if from <= j && raw[j] is Some {
        parse_color(raw[j]->0, ui_role_name(j))->Ok_0
    } else {
        ui_role(ui, j)
    }
}

/// Laying roles over a base changes exactly the roles named.
proof fn lemma_apply_ui_roles(ui: ThemeUi, raw: Seq<Option<Seq<char>>>, name: Seq<char>, i: int)
    requires
        0 <= i <= 18,
        raw.len() == 18,
        apply_ui_from(ui, raw, name, i) is Ok,
    ensures
        forall|j: int| 0 <= j < 18 ==> #[trigger] ui_role(apply_ui_from(ui, raw, name, i)->Ok_0, j)
            == overlaid_role(ui, raw, i, j),
    decreases 18 - i,
{
    if i < 18 {
        match raw[i] {
            None => {
                lemma_apply_ui_roles(ui, raw, name, i + 1);
                assert forall|j: int| 0 <= j < 18 implies #[trigger] ui_role(
                    apply_ui_from(ui, raw, name, i)->Ok_0,
                    j,
                ) == overlaid_role(ui, raw, i, j) by {
                    assert(ui_role(apply_ui_from(ui, raw, name, i + 1)->Ok_0, j) == overlaid_role(ui, raw, i + 1, j));
                }
            },
            Some(text) => {
                let c = parse_color(text, ui_role_name(i))->Ok_0;
                let next = ui_with_role(ui, i, c);
                lemma_apply_ui_roles(next, raw, name, i + 1);
                assert forall|j: int| 0 <= j < 18 implies #[trigger] ui_role(
                    apply_ui_from(ui, raw, name, i)->Ok_0,
                    j,
                ) == overlaid_role(ui, raw, i, j) by {
                    assert(ui_role(apply_ui_from(next, raw, name, i + 1)->Ok_0, j) == overlaid_role(
                        next,
                        raw,
                        i + 1,
                        j,
                    ));
                }
            },
        }
    }
}

/// A theme that extends another keeps every role of its parent that it does
/// not name, and takes the colour it gives each role it names.
pub proof fn law_extends_overlays_only_named_roles(raw: RawThemeView, parent: ThemeView)
    requires
        raw.ui.len() == 18,
        resolve_result(raw, Some(parent)) is Ok,
    ensures
        forall|j: int| 0 <= j < 18 ==> #[trigger] ui_role(resolve_result(raw, Some(parent))->Ok_0.ui, j) == (
        match raw.ui[j] {
            Some(text) => parse_color(text, ui_role_name(j))->Ok_0,
            None => ui_role(parent.ui, j),
        }),
{
    reveal(resolve_result);
    lemma_apply_ui_roles(parent.ui, raw.ui, raw.name, 0);
    let t = resolve_result(raw, Some(parent))->Ok_0;
    assert(t.ui == apply_ui_from(parent.ui, raw.ui, raw.name, 0)->Ok_0);
    assert forall|j: int| 0 <= j < 18 implies #[trigger] ui_role(t.ui, j) == (match raw.ui[j] {
        Some(text) => parse_color(text, ui_role_name(j))->Ok_0,
        None => ui_role(parent.ui, j),
    }) by {
        assert(ui_role(apply_ui_from(parent.ui, raw.ui, raw.name, 0)->Ok_0, j) == overlaid_role(
            parent.ui,
            raw.ui,
            0,
            j,
        ));
    }
}

/// Laying no roles over a base leaves it as it was.
proof fn lemma_apply_nothing(ui: ThemeUi, raw: Seq<Option<Seq<char>>>, name: Seq<char>, i: int)
    requires
        0 <= i <= 18,
        raw.len() == 18,
        forall|j: int| 0 <= j < 18 ==> #[trigger] raw[j] is None,
    ensures
        apply_ui_from(ui, raw, name, i) == Ok::<ThemeUi, (ErrorKind, Seq<char>)>(ui),
    decreases 18 - i,
{
    if i < 18 {
        assert(raw[i] is None);
        lemma_apply_nothing(ui, raw, name, i + 1);
    }
}

/// The first failure named `id` among findings none of which is named `id`
/// except one that passes.
proof fn lemma_no_surface_failure(ui: ThemeUi, appearance: Appearance)
    requires
        crate::theme::validate::surfaces_paired(ui),
    ensures
        first_failure(check_views(ui, appearance), "surface-pairing"@) is None,
{
    let cs = check_views(ui, appearance);
    crate::theme::validate::lemma_check_ids(ui, appearance);
    reveal_strlit("surface-pairing");
    reveal_strlit("roles-distinct");
    reveal_strlit("selection-contrast");
    reveal_strlit("foreground-contrast");
    reveal_strlit("role-legibility");
    reveal_strlit("appearance-luminance");
    assert(cs[0].id[0] != "surface-pairing"@[0]);
    assert(cs[0].id != "surface-pairing"@);
    assert(cs[1].id[1] != "surface-pairing"@[1]);
    assert(cs[1].id != "surface-pairing"@);
    assert(cs[2].id[0] != "surface-pairing"@[0]);
    assert(cs[2].id != "surface-pairing"@);
    assert(cs[3].id[0] != "surface-pairing"@[0]);
    assert(cs[3].id != "surface-pairing"@);
    assert(cs[4].id[0] != "surface-pairing"@[0]);
    assert(cs[4].id != "surface-pairing"@);
    assert(cs[5].level != Level::Fail);
    assert(cs[6].id[0] != "surface-pairing"@[0]) by {
        reveal_strlit("computed-foreground");
    }
    let s1 = cs.drop_first();
    let s2 = s1.drop_first();
    let s3 = s2.drop_first();
    let s4 = s3.drop_first();
    let s5 = s4.drop_first();
    let s6 = s5.drop_first();
    let s7 = s6.drop_first();
    assert(s6[0] == cs[6]);
    assert(s5[0] == cs[5]);
    assert(s4[0] == cs[4]);
    assert(s3[0] == cs[3]);
    assert(s2[0] == cs[2]);
    assert(s1[0] == cs[1]);
    assert(first_failure(s7, "surface-pairing"@) is None);
    assert(first_failure(s6, "surface-pairing"@) is None);
    assert(first_failure(s5, "surface-pairing"@) is None);
    assert(first_failure(s4, "surface-pairing"@) is None);
    assert(first_failure(s3, "surface-pairing"@) is None);
    assert(first_failure(s2, "surface-pairing"@) is None);
    assert(first_failure(s1, "surface-pairing"@) is None);
}

/// A theme that extends another and names nothing of its own (no roles, no
/// palette, no syntax) resolves to its parent's roles, palette and syntax.
pub proof fn law_extends_may_override_nothing(raw: RawThemeView, parent: ThemeView)
    requires
        raw.ui.len() == 18,
        forall|j: int| 0 <= j < 18 ==> #[trigger] raw.ui[j] is None,
        raw.extends is Some,
        raw.palette is None,
        raw.syntax is None,
        crate::theme::validate::surfaces_paired(parent.ui),
        parent.syntax is Derive ==> parent.palette is Some,
    ensures
        resolve_result(raw, Some(parent)) is Ok,
        resolve_result(raw, Some(parent))->Ok_0.ui == parent.ui,
        resolve_result(raw, Some(parent))->Ok_0.palette == parent.palette,
        resolve_result(raw, Some(parent))->Ok_0.syntax == parent.syntax,
{
    reveal(resolve_result);
    lemma_apply_nothing(parent.ui, raw.ui, raw.name, 0);
    lemma_no_surface_failure(parent.ui, raw.appearance);
}

/// A theme that extends nothing and leaves a role out is refused, naming the
/// first role it leaves out (once the roles it does name have parsed).
pub proof fn law_standalone_theme_names_missing_role(raw: RawThemeView)
    requires
        raw.extends is None,
        apply_ui_from(black_ui(), raw.ui, raw.name, 0) is Ok,
        first_missing_role(raw.ui, 0) is Some,
    ensures
        resolve_result(raw, None) == invalid::<ThemeView>(
            missing_role_message(raw.name, first_missing_role(raw.ui, 0)->0),
        ),
{
    reveal(resolve_result);
}

/// Reading a chain refuses a parent more than `MAX_EXTENDS_DEPTH` files
/// below the requested theme, and a parent already in the chain.
pub proof fn law_extends_depth_and_cycles_fail(requested: Seq<char>, chain: Seq<RawThemeView>)
    requires
        chain.len() > 0,
        chain.last().extends is Some,
    ensures
        chain.len() > MAX_EXTENDS_DEPTH ==> next_in_chain_result(requested, chain) == invalid::<Option<Seq<char>>>(
            too_deep_message(chain.last().extends->0),
        ),
        chain.len() <= MAX_EXTENDS_DEPTH && chain_names(chain).contains(chain.last().extends->0)
            ==> next_in_chain_result(requested, chain) == invalid::<Option<Seq<char>>>(
            cycle_message(chain.last().extends->0),
        ),
{
}

/// A `[colors]` override that parses sets its role and one that does not is
/// skipped with a warning carrying the parse error, for every role but the
/// background/foreground pair (which may be put back together).
pub proof fn law_overrides_set_or_skip(
    name: Seq<char>,
    ui: ThemeUi,
    entries: Seq<(Seq<char>, Option<Seq<char>>)>,
    j: int,
)
    requires
        2 <= j < 18,
    ensures
        entry_value(entries, ui_role_name(j)) matches Some(Some(text)) ==> ui_role(
            overrides_result(name, ui, entries).0,
            j,
        ) == (match parse_color(text, ui_role_name(j)) {
            Ok(c) => c,
            Err(e) => ui_role(overrides_from(ui, entries, 0).0, j),
        }),
        entry_value(entries, ui_role_name(j)) is None ==> ui_role(overrides_result(name, ui, entries).0, j)
            == ui_role(ui, j),
{
    lemma_overrides_roles(ui, entries, 0);
}

/// The colour a role ends up with after the `[colors]` overrides from role
/// `from` on.
pub open spec fn overridden_role(ui: ThemeUi, entries: Seq<(Seq<char>, Option<Seq<char>>)>, from: int, j: int) -> ThemeColor {
    if from <= j && (entry_value(entries, ui_role_name(j)) matches Some(Some(text)) && parse_color(
        text,
        ui_role_name(j),
    ) is Ok) {
        parse_color(entry_value(entries, ui_role_name(j))->0->0, ui_role_name(j))->Ok_0
    } else {
        ui_role(ui, j)
    }
}

/// The overrides change exactly the roles given a colour that parses.
proof fn lemma_overrides_roles(ui: ThemeUi, entries: Seq<(Seq<char>, Option<Seq<char>>)>, i: int)
    requires
        0 <= i <= 18,
    ensures
        forall|j: int| 0 <= j < 18 ==> #[trigger] ui_role(overrides_from(ui, entries, i).0, j) == overridden_role(
            ui,
            entries,
            i,
            j,
        ),
    decreases 18 - i,
{
    if i < 18 {
        match entry_value(entries, ui_role_name(i)) {
            Some(Some(text)) => match parse_color(text, ui_role_name(i)) {
                Ok(c) => {
                    let next = ui_with_role(ui, i, c);
                    lemma_overrides_roles(next, entries, i + 1);
                    assert forall|j: int| 0 <= j < 18 implies #[trigger] ui_role(
                        overrides_from(ui, entries, i).0,
                        j,
                    ) == overridden_role(ui, entries, i, j) by {
                        assert(ui_role(overrides_from(next, entries, i + 1).0, j) == overridden_role(
                            next,
                            entries,
                            i + 1,
                            j,
                        ));
                    }
                },
                Err(e) => {
                    lemma_overrides_roles(ui, entries, i + 1);
                    assert forall|j: int| 0 <= j < 18 implies #[trigger] ui_role(
                        overrides_from(ui, entries, i).0,
                        j,
                    ) == overridden_role(ui, entries, i, j) by {
                        assert(ui_role(overrides_from(ui, entries, i + 1).0, j) == overridden_role(
                            ui,
                            entries,
                            i + 1,
                            j,
                        ));
                    }
                },
            },
            _ => {
                lemma_overrides_roles(ui, entries, i + 1);
                assert forall|j: int| 0 <= j < 18 implies #[trigger] ui_role(
                    overrides_from(ui, entries, i).0,
                    j,
                ) == overridden_role(ui, entries, i, j) by {
                    assert(ui_role(overrides_from(ui, entries, i + 1).0, j) == overridden_role(
                        ui,
                        entries,
                        i + 1,
                        j,
                    ));
                }
            },
        }
    }
}

} // verus!
