//! Theme colours: the four accepted forms and their text representation.
use vstd::prelude::*;

use crate::error::{invalid, result_view, SnipError};
use crate::text::{
    all_ascii, all_radix_digits, ascii_lower, digit_value, digits_value, hex_digit_char,
    lemma_decimal_digits, lemma_utf8_len_ascii, chars_of, decimal, decimal_string, eq_ignore_case, eq_ignore_case_lit,
    eq_lit, hex2, hex_digit, is_ascii_char, is_char_boundary, lower_seq, parse_unsigned,
    parse_unsigned_range, push_char, push_str, starts_with_lit_at, to_lower, utf8_len, utf8_len_from_is,
};

verus! {

/// The sixteen ANSI colour names.
#[derive(Clone, Copy, Debug, PartialEq, Eq, Hash, Structural)]
pub enum NamedColor {
    Black,
    Red,
    Green,
    Yellow,
    Blue,
    Magenta,
    Cyan,
    White,
    BrightBlack,
    BrightRed,
    BrightGreen,
    BrightYellow,
    BrightBlue,
    BrightMagenta,
    BrightCyan,
    BrightWhite,
}

/// A colour as a theme writes it.
#[derive(Clone, Copy, Debug, PartialEq, Eq, Hash, Structural)]
pub enum ThemeColor {
    Rgb(u8, u8, u8),
    Indexed(u8),
    Named(NamedColor),
    Terminal,
}

// ---------------------------------------------------------------------------
// Specification
// ---------------------------------------------------------------------------

/// The name of an ANSI colour.
pub open spec fn named_str(color: NamedColor) -> Seq<char> {
    match color {
        NamedColor::Black => "black"@,
        NamedColor::Red => "red"@,
        NamedColor::Green => "green"@,
        NamedColor::Yellow => "yellow"@,
        NamedColor::Blue => "blue"@,
        NamedColor::Magenta => "magenta"@,
        NamedColor::Cyan => "cyan"@,
        NamedColor::White => "white"@,
        NamedColor::BrightBlack => "bright-black"@,
        NamedColor::BrightRed => "bright-red"@,
        NamedColor::BrightGreen => "bright-green"@,
        NamedColor::BrightYellow => "bright-yellow"@,
        NamedColor::BrightBlue => "bright-blue"@,
        NamedColor::BrightMagenta => "bright-magenta"@,
        NamedColor::BrightCyan => "bright-cyan"@,
        NamedColor::BrightWhite => "bright-white"@,
    }
}

/// The ANSI colour that `value` names, ignoring ASCII case.
pub open spec fn named_of(value: Seq<char>) -> Option<NamedColor> {
    let l = lower_seq(value);
    if l == "black"@ {
        Some(NamedColor::Black)
    } else if l == "red"@ {
        Some(NamedColor::Red)
    } else if l == "green"@ {
        Some(NamedColor::Green)
    } else if l == "yellow"@ {
        Some(NamedColor::Yellow)
    } else if l == "blue"@ {
        Some(NamedColor::Blue)
    } else if l == "magenta"@ {
        Some(NamedColor::Magenta)
    } else if l == "cyan"@ {
        Some(NamedColor::Cyan)
    } else if l == "white"@ {
        Some(NamedColor::White)
    } else if l == "bright-black"@ {
        Some(NamedColor::BrightBlack)
    } else if l == "bright-red"@ {
        Some(NamedColor::BrightRed)
    } else if l == "bright-green"@ {
        Some(NamedColor::BrightGreen)
    } else if l == "bright-yellow"@ {
        Some(NamedColor::BrightYellow)
    } else if l == "bright-blue"@ {
        Some(NamedColor::BrightBlue)
    } else if l == "bright-magenta"@ {
        Some(NamedColor::BrightMagenta)
    } else if l == "bright-cyan"@ {
        Some(NamedColor::BrightCyan)
    } else if l == "bright-white"@ {
        Some(NamedColor::BrightWhite)
    } else {
        None
    }
}

/// `p` is a prefix of `s`.
pub open spec fn has_prefix(s: Seq<char>, p: Seq<char>) -> bool {
    p.len() <= s.len() && s.subrange(0, p.len() as int) == p
}

/// The hex digits after `#`, each doubled when they take exactly three bytes.
pub open spec fn hex_expand(h: Seq<char>) -> Seq<char> {
    if utf8_len(h) == 3 {
        Seq::new(h.len() * 2, |i: int| h[i / 2])
    } else {
        h
    }
}

/// The red, green and blue channels that the digits after `#` spell, if any.
pub open spec fn hex_rgb(h: Seq<char>) -> Option<ThemeColor> {
    let x = hex_expand(h);
    if all_ascii(x) && x.len() == 6 {
        match (
            parse_unsigned(x.subrange(0, 2), 16, 255),
            parse_unsigned(x.subrange(2, 4), 16, 255),
            parse_unsigned(x.subrange(4, 6), 16, 255),
        ) {
            (Some(r), Some(g), Some(b)) => Some(ThemeColor::Rgb(r as u8, g as u8, b as u8)),
            _ => None,
        }
    } else {
        None
    }
}

/// Parsing `value` as a colour slices its hex digits at a byte offset that
/// falls inside a character, which panics.
pub open spec fn color_parse_panics(value: Seq<char>) -> bool {
    &&& !eq_ignore_case(value, "terminal"@)
    &&& value.len() > 0
    &&& value[0] == '#'
    &&& {
        let x = hex_expand(value.drop_first());
        utf8_len(x) == 6 && !(is_char_boundary(x, 2) && is_char_boundary(x, 4))
    }
}

/// The message for `terminal` given to a role that cannot hold it.
pub open spec fn terminal_role_message(role: Seq<char>) -> Seq<char> {
    "color role "@ + role + " cannot be \"terminal\""@
}

/// The message for a value that is no colour.
pub open spec fn invalid_color_message(value: Seq<char>, role: Seq<char>) -> Seq<char> {
    "invalid color \""@ + value + "\" for "@ + role
        + ": expected #rgb, #rrggbb, ansi:N, an ANSI color name, or \"terminal\""@
}

/// The roles that may take the terminal's own colour.
pub open spec fn terminal_role(role: Seq<char>) -> bool {
    role == "background"@ || role == "foreground"@
}

/// What `ThemeColor::parse(value, role)` gives.
pub open spec fn parse_color(value: Seq<char>, role: Seq<char>) -> Result<
    ThemeColor,
    (crate::error::ErrorKind, Seq<char>),
> {
    if eq_ignore_case(value, "terminal"@) {
        if terminal_role(role) {
            Ok(ThemeColor::Terminal)
        } else {
            invalid(terminal_role_message(role))
        }
    } else if value.len() > 0 && value[0] == '#' && hex_rgb(value.drop_first()) is Some {
        Ok(hex_rgb(value.drop_first())->0)
    } else if has_prefix(value, "ansi:"@) && parse_unsigned(value.skip(5), 10, 255) is Some {
        Ok(ThemeColor::Indexed(parse_unsigned(value.skip(5), 10, 255)->0 as u8))
    } else if named_of(value) is Some {
        Ok(ThemeColor::Named(named_of(value)->0))
    } else {
        invalid(invalid_color_message(value, role))
    }
}

/// The text of a colour.
pub open spec fn color_text(color: ThemeColor) -> Seq<char> {
    match color {
        ThemeColor::Rgb(r, g, b) => seq!['#'] + hex2(r) + hex2(g) + hex2(b),
        ThemeColor::Indexed(i) => "ansi:"@ + decimal(i as nat),
        ThemeColor::Named(n) => named_str(n),
        ThemeColor::Terminal => "terminal"@,
    }
}

// ---------------------------------------------------------------------------
// Laws
// ---------------------------------------------------------------------------

/// The two hex digits of a byte read back as that byte.
proof fn lemma_hex2_parses(b: u8)
    ensures
        hex2(b).len() == 2,
        all_ascii(hex2(b)),
        parse_unsigned(hex2(b), 16, 255) == Some(b as int),
{
    let h = hex2(b);
    let hi = (b / 16) as int;
    let lo = (b % 16) as int;
    assert(hex_digit_char(hi) as u32 == if hi < 10 { hi + 48 } else { hi + 87 });
    assert(hex_digit_char(lo) as u32 == if lo < 10 { lo + 48 } else { lo + 87 });
    assert(digit_value(h[0]) == hi);
    assert(digit_value(h[1]) == lo);
    assert(h.drop_last() =~= seq![h[0]]);
    assert(h.drop_last().drop_last() =~= Seq::<char>::empty());
    assert(digits_value(h.drop_last().drop_last(), 16) == 0);
    assert(digits_value(h.drop_last(), 16) == digits_value(h.drop_last().drop_last(), 16) * 16
        + digit_value(h.drop_last().last()));
    assert(digits_value(h.drop_last(), 16) == hi);
    assert(digits_value(h, 16) == hi * 16 + lo);
    assert(all_radix_digits(h, 16));
    assert(all_ascii(h));
}

/// A sequence without ASCII capitals is its own lowercase.
proof fn lemma_lower_identity(s: Seq<char>)
    requires
        forall|i: int| 0 <= i < s.len() ==> !('A' <= #[trigger] s[i] && s[i] <= 'Z'),
    ensures
        lower_seq(s) == s,
{
    assert(lower_seq(s) =~= s);
}

/// An ANSI colour's name reads back as that colour.
proof fn lemma_named_round_trip(color: NamedColor)
    ensures
        named_of(named_str(color)) == Some(color),
        named_str(color).len() != 8,
        named_str(color).len() > 0,
        named_str(color)[0] != '#',
        named_str(color)[0] != 'a',
{
    reveal_strlit("black");
    reveal_strlit("red");
    reveal_strlit("green");
    reveal_strlit("yellow");
    reveal_strlit("blue");
    reveal_strlit("magenta");
    reveal_strlit("cyan");
    reveal_strlit("white");
    reveal_strlit("bright-black");
    reveal_strlit("bright-red");
    reveal_strlit("bright-green");
    reveal_strlit("bright-yellow");
    reveal_strlit("bright-blue");
    reveal_strlit("bright-magenta");
    reveal_strlit("bright-cyan");
    reveal_strlit("bright-white");
    lemma_lower_identity(named_str(color));
    let l = named_str(color);
    assert(l == lower_seq(l));
    match color {
        NamedColor::Black => {},
        NamedColor::Red => { assert(l != "black"@); },
        NamedColor::Green => { assert(l[0] != "black"@[0]); },
        NamedColor::Yellow => {},
        NamedColor::Blue => { assert(l != "red"@); },
        NamedColor::Magenta => {},
        NamedColor::Cyan => { assert(l[0] != "blue"@[0]); },
        NamedColor::White => { assert(l[0] != "black"@[0] && l[0] != "green"@[0]); },
        NamedColor::BrightBlack => {},
        NamedColor::BrightRed => { assert(l != "bright-blue"@); },
        NamedColor::BrightGreen => { assert(l[7] != "bright-black"@[7]); },
        NamedColor::BrightYellow => {},
        NamedColor::BrightBlue => { assert(l != "bright-red"@); },
        NamedColor::BrightMagenta => {},
        NamedColor::BrightCyan => { assert(l[7] != "bright-blue"@[7]); },
        NamedColor::BrightWhite => { assert(l[7] != "bright-black"@[7] && l[7] != "bright-green"@[7]); },
    }
}

/// Lower-casing undoes upper-casing on a text of lowercase letters and
/// hyphens.
proof fn lemma_upper_then_lower(s: Seq<char>)
    requires
        forall|i: int| 0 <= i < s.len() ==> ('a' <= #[trigger] s[i] && s[i] <= 'z') || s[i] == '-',
    ensures
        lower_seq(crate::text::upper_seq(s)) == s,
{
    assert forall|i: int| 0 <= i < s.len() implies #[trigger] lower_seq(crate::text::upper_seq(s))[i] == s[i] by {
        let c = s[i];
        if c != '-' {
            let u = c as u32;
            assert(97 <= u <= 122);
            let up = ((u - 32) as u32) as char;
            assert(up as u32 == u - 32);
            assert('A' <= up && up <= 'Z');
            assert((((up as u32) + 32) as u32) as char == c);
        }
    }
    assert(lower_seq(crate::text::upper_seq(s)) =~= s);
}

/// The sixteen ANSI colours have sixteen different names, and each name
/// reads back as its colour, in lower case as written and in upper case
/// (`red`, `RED`; `bright-black`, `BRIGHT-BLACK`).
pub proof fn law_named_colors_round_trip(color: NamedColor, other: NamedColor)
    ensures
        named_of(named_str(color)) == Some(color),
        named_of(crate::text::upper_seq(named_str(color))) == Some(color),
        color != other ==> named_str(color) != named_str(other),
{
    lemma_named_round_trip(color);
    lemma_named_round_trip(other);
    reveal_strlit("black");
    reveal_strlit("red");
    reveal_strlit("green");
    reveal_strlit("yellow");
    reveal_strlit("blue");
    reveal_strlit("magenta");
    reveal_strlit("cyan");
    reveal_strlit("white");
    reveal_strlit("bright-black");
    reveal_strlit("bright-red");
    reveal_strlit("bright-green");
    reveal_strlit("bright-yellow");
    reveal_strlit("bright-blue");
    reveal_strlit("bright-magenta");
    reveal_strlit("bright-cyan");
    reveal_strlit("bright-white");
    let l = named_str(color);
    lemma_upper_then_lower(l);
    assert(lower_seq(crate::text::upper_seq(l)) == lower_seq(l));
}

/// Reading back a colour's text gives the same colour, for any role that may
/// hold it (`terminal` only for the background and foreground).
pub proof fn law_color_text_round_trip(color: ThemeColor, role: Seq<char>)
    requires
        color == ThemeColor::Terminal ==> terminal_role(role),
    ensures
        !color_parse_panics(color_text(color)),
        parse_color(color_text(color), role) == Ok::<ThemeColor, (crate::error::ErrorKind, Seq<char>)>(color),
{
    reveal_strlit("terminal");
    reveal_strlit("ansi:");
    let text = color_text(color);
    match color {
        ThemeColor::Rgb(r, g, b) => {
            lemma_hex2_parses(r);
            lemma_hex2_parses(g);
            lemma_hex2_parses(b);
            let h = hex2(r) + hex2(g) + hex2(b);
            assert(text.drop_first() =~= h);
            assert(h.subrange(0, 2) =~= hex2(r));
            assert(h.subrange(2, 4) =~= hex2(g));
            assert(h.subrange(4, 6) =~= hex2(b));
            assert(all_ascii(h));
            lemma_utf8_len_ascii(h);
            assert(hex_expand(h) == h);
            lemma_utf8_len_ascii(h.subrange(0, 2));
            lemma_utf8_len_ascii(h.subrange(0, 4));
            assert(is_char_boundary(h, 2));
            assert(is_char_boundary(h, 4));
            assert(!eq_ignore_case(text, "terminal"@));
        },
        ThemeColor::Indexed(i) => {
            lemma_decimal_digits(i as nat);
            assert(text.subrange(0, 5) =~= "ansi:"@);
            assert(text.skip(5) =~= decimal(i as nat));
            assert(text[0] == 'a');
            assert(ascii_lower(text[0]) != ascii_lower("terminal"@[0]));
            assert(!eq_ignore_case(text, "terminal"@));
        },
        ThemeColor::Named(n) => {
            lemma_named_round_trip(n);
            assert(!eq_ignore_case(text, "terminal"@));
            assert(!has_prefix(text, "ansi:"@)) by {
                if has_prefix(text, "ansi:"@) {
                    assert(text.subrange(0, 5)[0] == text[0]);
                }
            }
        },
        ThemeColor::Terminal => {},
    }
}

// ---------------------------------------------------------------------------
// Implementation
// ---------------------------------------------------------------------------

/// The colour that the characters after `#` in `v` spell.
fn parse_hex(v: &[char]) -> (r: Option<ThemeColor>)
    requires
        v@.len() > 0,
    ensures
        r == hex_rgb(v@.drop_first()),
{
    let ghost h = v@.drop_first();
    assert(v@.skip(1) =~= h);
    let mut x: Vec<char> = Vec::new();
    if utf8_len_from_is(v, 1, 3) {
        let mut i: usize = 1;
        while i < v.len()
            invariant
                1 <= i <= v@.len(),
                h == v@.drop_first(),
                x@ =~= Seq::new(((i - 1) * 2) as nat, |j: int| h[j / 2]),
            decreases v@.len() - i,
        {
            x.push(v[i]);
            x.push(v[i]);
            i = i + 1;
        }
    } else {
        let mut i: usize = 1;
        while i < v.len()
            invariant
                1 <= i <= v@.len(),
                h == v@.drop_first(),
                x@ =~= h.subrange(0, i - 1),
            decreases v@.len() - i,
        {
            x.push(v[i]);
            i = i + 1;
        }
        assert(x@ =~= h);
    }
    assert(x@ =~= hex_expand(h));
    if x.len() != 6 {
        return None;
    }
    let mut i: usize = 0;
    while i < 6
        invariant
            x@.len() == 6,
            x@ == hex_expand(v@.drop_first()),
            i <= 6,
            forall|j: int| 0 <= j < i ==> is_ascii_char(#[trigger] x@[j]),
        decreases 6 - i,
    {
        if (x[i] as u32) >= 128 {
            assert(!is_ascii_char(x@[i as int]));
            return None;
        }
        i = i + 1;
    }
    assert(all_ascii(x@));
    let red = parse_unsigned_range(&x, 0, 2, 16, 255);
    let green = parse_unsigned_range(&x, 2, 4, 16, 255);
    let blue = parse_unsigned_range(&x, 4, 6, 16, 255);
    match (red, green, blue) {
        (Some(r), Some(g), Some(b)) => {
            assert(r <= 255 && g <= 255 && b <= 255);
            Some(ThemeColor::Rgb(r as u8, g as u8, b as u8))
        },
        _ => None,
    }
}

impl NamedColor {
    /// The ANSI colour that `value` names, ignoring ASCII case.
    pub fn parse_chars(value: &[char]) -> (r: Option<NamedColor>)
        ensures
            r == named_of(value@),
    {
        let l = to_lower(value);
        if eq_lit(&l, "black") {
            Some(NamedColor::Black)
        } else if eq_lit(&l, "red") {
            Some(NamedColor::Red)
        } else if eq_lit(&l, "green") {
            Some(NamedColor::Green)
        } else if eq_lit(&l, "yellow") {
            Some(NamedColor::Yellow)
        } else if eq_lit(&l, "blue") {
            Some(NamedColor::Blue)
        } else if eq_lit(&l, "magenta") {
            Some(NamedColor::Magenta)
        } else if eq_lit(&l, "cyan") {
            Some(NamedColor::Cyan)
        } else if eq_lit(&l, "white") {
            Some(NamedColor::White)
        } else if eq_lit(&l, "bright-black") {
            Some(NamedColor::BrightBlack)
        } else if eq_lit(&l, "bright-red") {
            Some(NamedColor::BrightRed)
        } else if eq_lit(&l, "bright-green") {
            Some(NamedColor::BrightGreen)
        } else if eq_lit(&l, "bright-yellow") {
            Some(NamedColor::BrightYellow)
        } else if eq_lit(&l, "bright-blue") {
            Some(NamedColor::BrightBlue)
        } else if eq_lit(&l, "bright-magenta") {
            Some(NamedColor::BrightMagenta)
        } else if eq_lit(&l, "bright-cyan") {
            Some(NamedColor::BrightCyan)
        } else if eq_lit(&l, "bright-white") {
            Some(NamedColor::BrightWhite)
        } else {
            None
        }
    }

    /// The ANSI colour that `value` names, ignoring ASCII case.
    pub fn parse(value: &str) -> (r: Option<NamedColor>)
        ensures
            r == named_of(value@),
    {
        let v = chars_of(value);
        NamedColor::parse_chars(&v)
    }

    /// The colour's name.
    pub fn as_str(self) -> (s: &'static str)
        ensures
            s@ == named_str(self),
    {
        match self {
            NamedColor::Black => "black",
            NamedColor::Red => "red",
            NamedColor::Green => "green",
            NamedColor::Yellow => "yellow",
            NamedColor::Blue => "blue",
            NamedColor::Magenta => "magenta",
            NamedColor::Cyan => "cyan",
            NamedColor::White => "white",
            NamedColor::BrightBlack => "bright-black",
            NamedColor::BrightRed => "bright-red",
            NamedColor::BrightGreen => "bright-green",
            NamedColor::BrightYellow => "bright-yellow",
            NamedColor::BrightBlue => "bright-blue",
            NamedColor::BrightMagenta => "bright-magenta",
            NamedColor::BrightCyan => "bright-cyan",
            NamedColor::BrightWhite => "bright-white",
        }
    }
}

/// The message for `terminal` given to a role that cannot hold it.
fn terminal_role_error(role: &str) -> (e: SnipError)
    ensures
        e@ == (crate::error::ErrorKind::Validation, terminal_role_message(role@)),
{
    let mut m = String::new();
    push_str(&mut m, "color role ");
    push_str(&mut m, role);
    push_str(&mut m, " cannot be \"terminal\"");
    assert(m@ =~= terminal_role_message(role@));
    SnipError::validation(m)
}

/// The message for a value that is no colour.
fn invalid_color_error(value: &str, role: &str) -> (e: SnipError)
    ensures
        e@ == (crate::error::ErrorKind::Validation, invalid_color_message(value@, role@)),
{
    let mut m = String::new();
    push_str(&mut m, "invalid color \"");
    push_str(&mut m, value);
    push_str(&mut m, "\" for ");
    push_str(&mut m, role);
    push_str(
        &mut m,
        ": expected #rgb, #rrggbb, ansi:N, an ANSI color name, or \"terminal\"",
    );
    assert(m@ =~= invalid_color_message(value@, role@));
    SnipError::validation(m)
}

impl ThemeColor {
    /// Parses `value` as the colour of `role`: `terminal` (background and
    /// foreground only), `#rgb`, `#rrggbb`, `ansi:N`, or an ANSI colour name.
    pub fn parse(value: &str, role: &str) -> (r: Result<ThemeColor, SnipError>)
        requires
            !color_parse_panics(value@),
        ensures
            result_view(r) == parse_color(value@, role@),
    {
        let v = chars_of(value);
        let r = chars_of(role);
        if eq_ignore_case_lit(&v, "terminal") {
            if eq_lit(&r, "background") || eq_lit(&r, "foreground") {
                return Ok(ThemeColor::Terminal);
            }
            return Err(terminal_role_error(role));
        }
        if v.len() > 0 && v[0] == '#' {
            if let Some(color) = parse_hex(&v) {
                return Ok(color);
            }
        }
        if starts_with_lit_at(&v, 0, "ansi:") {
            proof {
                reveal_strlit("ansi:");
            }
            assert(v@.skip(5) =~= v@.subrange(5, v@.len() as int));
            if let Some(index) = parse_unsigned_range(&v, 5, v.len(), 10, 255) {
                assert(index <= 255);
                return Ok(ThemeColor::Indexed(index as u8));
            }
        }
        if let Some(color) = NamedColor::parse_chars(&v) {
            return Ok(ThemeColor::Named(color));
        }
        Err(invalid_color_error(value, role))
    }

    /// The colour's text: `#rrggbb`, `ansi:N`, the ANSI name, or `terminal`.
    pub fn as_string(self) -> (s: String)
        ensures
            s@ == color_text(self),
    {
        match self {
            ThemeColor::Rgb(red, green, blue) => {
                let mut s = String::new();
                push_char(&mut s, '#');
                push_char(&mut s, hex_digit(red / 16));
                push_char(&mut s, hex_digit(red % 16));
                push_char(&mut s, hex_digit(green / 16));
                push_char(&mut s, hex_digit(green % 16));
                push_char(&mut s, hex_digit(blue / 16));
                push_char(&mut s, hex_digit(blue % 16));
                assert(s@ =~= color_text(self));
                s
            },
            ThemeColor::Indexed(index) => {
                let mut s = String::new();
                push_str(&mut s, "ansi:");
                let digits = decimal_string(index as u64);
                push_str(&mut s, digits.as_str());
                assert(s@ =~= color_text(self));
                s
            },
            ThemeColor::Named(color) => {
                let mut s = String::new();
                push_str(&mut s, color.as_str());
                assert(s@ =~= color_text(self));
                s
            },
            ThemeColor::Terminal => {
                let mut s = String::new();
                push_str(&mut s, "terminal");
                assert(s@ =~= color_text(self));
                s
            },
        }
    }
}

} // verus!
