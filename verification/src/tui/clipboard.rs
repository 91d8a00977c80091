//! Clipboard payloads: how a copy reached the clipboard, and the base64 text
//! that an OSC 52 escape sequence carries.
use vstd::prelude::*;

use crate::text::push_char;

verus! {

/// How a copy reached the clipboard: through the system clipboard, or through
/// the terminal's OSC 52 escape sequence.
#[derive(Clone, Copy, Debug, PartialEq, Eq, Structural)]
pub enum ClipboardMethod {
    System,
    Osc52,
}

/// The base64 digit for a six-bit value (standard alphabet).
pub open spec fn base64_digit(v: int) -> char {
    if v < 26 {
        ((v + 65) as u32) as char
    } else if v < 52 {
        ((v - 26 + 97) as u32) as char
    } else if v < 62 {
        ((v - 52 + 48) as u32) as char
    } else if v == 62 {
        '+'
    } else {
        '/'
    }
}

/// Standard base64 with `=` padding: each three bytes become four digits; a
/// final one or two bytes become two or three digits and padding.
pub open spec fn base64_spec(input: Seq<u8>) -> Seq<char>
    decreases input.len(),
{
    if input.len() == 0 {
        Seq::empty()
    } else {
        let a = input[0] as int;
        let b: int = if input.len() > 1 { input[1] as int } else { 0 };
        let c: int = if input.len() > 2 { input[2] as int } else { 0 };
        let d0 = base64_digit(a / 4);
        let d1 = base64_digit((a % 4) * 16 + b / 16);
        let d2 = if input.len() > 1 { base64_digit((b % 16) * 4 + c / 64) } else { '=' };
        let d3 = if input.len() > 2 { base64_digit(c % 64) } else { '=' };
        seq![d0, d1, d2, d3] + if input.len() > 3 { base64_spec(input.skip(3)) } else { Seq::empty() }
    }
}

/// The base64 digit for a six-bit value.
fn digit(v: u32) -> (c: char)
    requires
        v < 64,
    ensures
        c == base64_digit(v as int),
{
    if v < 26 {
        ((v + 65) as u8) as char
    } else if v < 52 {
        ((v - 26 + 97) as u8) as char
    } else if v < 62 {
        ((v - 52 + 48) as u8) as char
    } else if v == 62 {
        '+'
    } else {
        '/'
    }
}

/// Encodes `input` as standard base64 with padding, for an OSC 52 payload.
pub fn base64(input: &[u8]) -> (s: String)
    ensures
        s@ == base64_spec(input@),
{
    let mut out = String::new();
    let mut i: usize = 0;
    assert(input@.skip(0) =~= input@);
    while i < input.len()
        invariant
            i <= input@.len(),
            out@ + (if i < input@.len() { base64_spec(input@.skip(i as int)) } else { Seq::empty() })
                == base64_spec(input@),
        decreases input@.len() - i,
    {
        let rest = input.len() - i;
        let a = input[i] as u32;
        let b: u32 = if rest > 1 { input[i + 1] as u32 } else { 0 };
        let c: u32 = if rest > 2 { input[i + 2] as u32 } else { 0 };
        let ghost tail = input@.skip(i as int);
        assert(tail[0] == input@[i as int]);
        assert(rest > 1 ==> tail[1] == input@[i + 1]);
        assert(rest > 2 ==> tail[2] == input@[i + 2]);
        let ghost before = out@;
        push_char(&mut out, digit(a / 4));
        push_char(&mut out, digit((a % 4) * 16 + b / 16));
        if rest > 1 {
            push_char(&mut out, digit((b % 16) * 4 + c / 64));
        } else {
            push_char(&mut out, '=');
        }
        if rest > 2 {
            push_char(&mut out, digit(c % 64));
        } else {
            push_char(&mut out, '=');
        }
        let ghost chunk = seq![
            base64_digit(a as int / 4),
            base64_digit((a as int % 4) * 16 + b as int / 16),
            if rest > 1 { base64_digit((b as int % 16) * 4 + c as int / 64) } else { '=' },
            if rest > 2 { base64_digit(c as int % 64) } else { '=' },
        ];
        assert(out@ =~= before + chunk);
        if rest > 3 {
            assert(tail.skip(3) =~= input@.skip(i + 3));
            assert(before + chunk + base64_spec(input@.skip(i + 3)) =~= before + (chunk + base64_spec(tail.skip(3))));
            i = i + 3;
        } else {
            assert(before + chunk + Seq::<char>::empty() =~= before + (chunk + Seq::<char>::empty()));
            i = input.len();
        }
    }
    assert(out@ + Seq::<char>::empty() =~= out@);
    out
}

/// Base64 writes four characters for every three bytes, a final partial
/// group included.
pub proof fn law_base64_length(input: Seq<u8>)
    ensures
        base64_spec(input).len() == 4 * ((input.len() + 2) / 3),
    decreases input.len(),
{
    if input.len() > 3 {
        law_base64_length(input.skip(3));
    }
}

} // verus!
