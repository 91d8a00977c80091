//! Themes: colours, base16 schemes, contrast, validation and resolution.
pub mod base16;
pub mod catalog;
pub mod color;
pub mod contrast;
pub mod highlight;
pub mod resolve;
pub mod select;
pub mod surface;
pub mod syntax;
pub mod validate;

use vstd::prelude::*;

use crate::error::{result_view, ErrorKind, SnipError};
use crate::text::{chars_of, push_str};
use crate::theme::color::ThemeColor;

verus! {

/// The theme format version this library reads.
pub const THEME_SCHEMA_VERSION: u32 = 1;

/// How deep an `extends` chain may go.
pub const MAX_EXTENDS_DEPTH: usize = 8;

/// Whether a theme is meant for a dark or a light terminal.
#[derive(Clone, Copy, Debug, PartialEq, Eq, PartialOrd, Ord, Hash, Structural)]
pub enum Appearance {
    Dark,
    Light,
}

/// The name of an appearance.
pub open spec fn appearance_str(appearance: Appearance) -> Seq<char> {
    match appearance {
        Appearance::Light => "light"@,
        Appearance::Dark => "dark"@,
    }
}

impl Appearance {
    /// `light` or `dark`.
    pub fn as_str(self) -> (s: &'static str)
        ensures
            s@ == appearance_str(self),
    {
        match self {
            Appearance::Light => "light",
            Appearance::Dark => "dark",
        }
    }
}

/// The colour of every interface role.
#[derive(Clone, Copy, Debug, PartialEq, Eq, Structural)]
pub struct ThemeUi {
    pub background: ThemeColor,
    pub foreground: ThemeColor,
    pub accent: ThemeColor,
    pub accent_alt: ThemeColor,
    pub border: ThemeColor,
    pub muted: ThemeColor,
    pub selection_bg: ThemeColor,
    pub selection_fg: ThemeColor,
    pub retained_bg: ThemeColor,
    pub pill_primary: ThemeColor,
    pub pill_secondary: ThemeColor,
    pub bar_bg: ThemeColor,
    pub bar_fg: ThemeColor,
    pub tag: ThemeColor,
    pub rule: ThemeColor,
    pub success: ThemeColor,
    pub warning: ThemeColor,
    pub error: ThemeColor,
}

/// How source code is highlighted: a named embedded theme, or colours derived
/// from the base16 palette.
#[derive(Clone, Debug, PartialEq, Eq)]
pub enum Syntax {
    Theme { theme: String },
    Derive { derive: SyntaxDerive },
}

/// The ways a syntax theme can be derived.
#[derive(Clone, Copy, Debug, PartialEq, Eq, Structural)]
pub enum SyntaxDerive {
    Base16,
}

/// A syntax choice, as a spec value.
pub enum SyntaxView {
    Theme(Seq<char>),
    Derive(SyntaxDerive),
}

impl View for Syntax {
    type V = SyntaxView;

    open spec fn view(&self) -> SyntaxView {
        match self {
            Syntax::Theme { theme } => SyntaxView::Theme(theme@),
            Syntax::Derive { derive } => SyntaxView::Derive(*derive),
        }
    }
}

/// The sixteen base16 palette slots, in order, by name.
#[derive(Clone, Debug, PartialEq, Eq)]
pub struct Palette {
    pub colors: Vec<(String, ThemeColor)>,
}

/// A list of named colours, as spec values.
pub open spec fn named_colors_view(colors: Seq<(String, ThemeColor)>) -> Seq<(Seq<char>, ThemeColor)> {
    colors.map_values(|entry: (String, ThemeColor)| (entry.0@, entry.1))
}

impl View for Palette {
    type V = Seq<(Seq<char>, ThemeColor)>;

    open spec fn view(&self) -> Seq<(Seq<char>, ThemeColor)> {
        named_colors_view(self.colors@)
    }
}

/// A resolved theme.
#[derive(Clone, Debug, PartialEq, Eq)]
pub struct Theme {
    pub schema_version: u32,
    pub name: String,
    pub display_name: String,
    pub appearance: Appearance,
    pub source: Option<String>,
    pub ui: ThemeUi,
    pub syntax: Syntax,
    pub palette: Option<Palette>,
}

/// A theme, as a spec value.
pub struct ThemeView {
    pub schema_version: u32,
    pub name: Seq<char>,
    pub display_name: Seq<char>,
    pub appearance: Appearance,
    pub source: Option<Seq<char>>,
    pub ui: ThemeUi,
    pub syntax: SyntaxView,
    pub palette: Option<Seq<(Seq<char>, ThemeColor)>>,
}

/// An optional string, as a spec value.
pub open spec fn opt_view(s: Option<String>) -> Option<Seq<char>> {
    match s {
        Some(v) => Some(v@),
        None => None,
    }
}

/// An optional palette, as a spec value.
pub open spec fn palette_opt_view(p: Option<Palette>) -> Option<Seq<(Seq<char>, ThemeColor)>> {
    match p {
        Some(v) => Some(v@),
        None => None,
    }
}

impl View for Theme {
    type V = ThemeView;

    open spec fn view(&self) -> ThemeView {
        ThemeView {
            schema_version: self.schema_version,
            name: self.name@,
            display_name: self.display_name@,
            appearance: self.appearance,
            source: opt_view(self.source),
            ui: self.ui,
            syntax: self.syntax@,
            palette: palette_opt_view(self.palette),
        }
    }
}

/// One line of the theme list.
#[derive(Clone, Debug)]
pub struct ThemeSummary {
    pub name: String,
    pub display_name: String,
    pub appearance: Appearance,
    pub source: Option<String>,
    pub builtin: bool,
    pub error: Option<String>,
}

/// A character a theme name may hold between dashes.
pub open spec fn name_char(c: char) -> bool {
    ('a' <= c && c <= 'z') || ('0' <= c && c <= '9')
}

/// A theme name: one or more non-empty runs of lowercase ASCII letters and
/// digits, joined by single dashes.
pub open spec fn valid_theme_name(name: Seq<char>) -> bool {
    &&& name.len() > 0
    &&& forall|i: int| 0 <= i < name.len() ==> name_char(#[trigger] name[i]) || name[i] == '-'
    &&& name[0] != '-'
    &&& name.last() != '-'
    &&& forall|i: int| 0 <= i < name.len() - 1 ==> !(#[trigger] name[i] == '-' && name[i + 1] == '-')
}

/// The message for a name that is not a theme name.
pub open spec fn invalid_name_message(name: Seq<char>) -> Seq<char> {
    "invalid theme name "@ + name
}

/// Checks that `name` is a theme name: non-empty parts of lowercase ASCII
/// letters and digits, separated by single dashes.
pub fn validate_theme_name(name: &str) -> (r: Result<(), SnipError>)
    ensures
        r is Ok <==> valid_theme_name(name@),
        r matches Err(e) ==> e@ == (ErrorKind::Validation, invalid_name_message(name@)),
{
    let v = chars_of(name);
    let n = v.len();
    let mut ok = n > 0 && v[0] != '-' && v[n - 1] != '-';
    let mut i: usize = 0;
    while i < n
        invariant
            n == v@.len(),
            v@ == name@,
            i <= n,
            ok ==> n > 0 && v@[0] != '-' && v@.last() != '-',
            ok ==> forall|j: int| 0 <= j < i ==> name_char(#[trigger] v@[j]) || v@[j] == '-',
            ok ==> forall|j: int| 0 <= j < i && j < n - 1 ==> !(#[trigger] v@[j] == '-' && v@[j + 1] == '-'),
            !ok ==> !valid_theme_name(name@),
        decreases n - i,
    {
        let c = v[i];
        let allowed = ('a' <= c && c <= 'z') || ('0' <= c && c <= '9') || c == '-';
        if !allowed {
            assert(!valid_theme_name(name@)) by {
                assert(!(name_char(name@[i as int]) || name@[i as int] == '-'));
            }
            ok = false;
        }
        if i + 1 < n && c == '-' && v[i + 1] == '-' {
            assert(!valid_theme_name(name@)) by {
                assert(name@[i as int] == '-' && name@[i + 1] == '-');
            }
            ok = false;
        }
        i = i + 1;
    }
    if ok {
        Ok(())
    } else {
        let mut m = String::new();
        push_str(&mut m, "invalid theme name ");
        push_str(&mut m, name);
        assert(m@ =~= invalid_name_message(name@));
        Err(SnipError::validation(m))
    }
}

} // verus!
