//! Character-level text helpers shared by the parsers and formatters.
//!
//! Strings are handled as sequences of `char`; the spec functions here state
//! the std behaviours the library relies on (ASCII case folding, Unicode white
//! space, UTF-8 byte lengths, unsigned integer parsing and decimal output).
use vstd::prelude::*;

verus! {

// ---------------------------------------------------------------------------
// Specifications
// ---------------------------------------------------------------------------

/// An ASCII character (code point below 128).
pub open spec fn is_ascii_char(c: char) -> bool {
    (c as u32) < 128
}

/// Every character of `s` is ASCII.
pub open spec fn all_ascii(s: Seq<char>) -> bool {
    forall|i: int| 0 <= i < s.len() ==> is_ascii_char(#[trigger] s[i])
}

/// `char::to_ascii_lowercase`.
pub open spec fn ascii_lower(c: char) -> char {
    if 'A' <= c && c <= 'Z' {
        ((c as u32) + 32) as char
    } else {
        c
    }
}

/// `char::to_ascii_uppercase`.
pub open spec fn ascii_upper(c: char) -> char {
    if 'a' <= c && c <= 'z' {
        ((c as u32) - 32) as char
    } else {
        c
    }
}

/// `str::to_ascii_uppercase`, character by character.
pub open spec fn upper_seq(s: Seq<char>) -> Seq<char> {
    Seq::new(s.len(), |i: int| ascii_upper(s[i]))
}

/// `str::to_ascii_lowercase`, character by character.
pub open spec fn lower_seq(s: Seq<char>) -> Seq<char> {
    Seq::new(s.len(), |i: int| ascii_lower(s[i]))
}

/// `str::eq_ignore_ascii_case`.
pub open spec fn eq_ignore_case(a: Seq<char>, b: Seq<char>) -> bool {
    a.len() == b.len() && forall|i: int| 0 <= i < a.len() ==> ascii_lower(#[trigger] a[i]) == ascii_lower(b[i])
}

/// `char::is_whitespace`: the Unicode `White_Space` property.
pub open spec fn is_whitespace(c: char) -> bool {
    let u = c as u32;
    (0x09 <= u && u <= 0x0D) || u == 0x20 || u == 0x85 || u == 0xA0 || u == 0x1680 || (0x2000 <= u
        && u <= 0x200A) || u == 0x2028 || u == 0x2029 || u == 0x202F || u == 0x205F || u == 0x3000
}

/// Number of bytes of `c` in UTF-8.
pub open spec fn char_utf8_len(c: char) -> nat {
    let u = c as u32;
    if u < 0x80 {
        1
    } else if u < 0x800 {
        2
    } else if u < 0x10000 {
        3
    } else {
        4
    }
}

/// Number of bytes of `s` in UTF-8 (`str::len`).
pub open spec fn utf8_len(s: Seq<char>) -> nat
    decreases s.len(),
{
    if s.len() == 0 {
        0
    } else {
        utf8_len(s.drop_last()) + char_utf8_len(s.last())
    }
}

/// Byte offset `k` of `s` falls between two characters.
pub open spec fn is_char_boundary(s: Seq<char>, k: int) -> bool {
    exists|j: int| 0 <= j <= s.len() && #[trigger] utf8_len(s.subrange(0, j)) == k
}

/// `c` is a digit in `radix` (2 through 36), as `char::to_digit` decides.
pub open spec fn is_radix_digit(c: char, radix: int) -> bool {
    digit_value(c) < radix
}

/// The value `char::to_digit` gives a digit; 99 for anything else.
pub open spec fn digit_value(c: char) -> int {
    if '0' <= c && c <= '9' {
        (c as u32) - ('0' as u32)
    } else if 'a' <= c && c <= 'z' {
        (c as u32) - ('a' as u32) + 10
    } else if 'A' <= c && c <= 'Z' {
        (c as u32) - ('A' as u32) + 10
    } else {
        99
    }
}

/// Every character of `s` is a digit in `radix`.
pub open spec fn all_radix_digits(s: Seq<char>, radix: int) -> bool {
    forall|i: int| 0 <= i < s.len() ==> is_radix_digit(#[trigger] s[i], radix)
}

/// The number that the digits `s` write in `radix`.
pub open spec fn digits_value(s: Seq<char>, radix: int) -> int
    decreases s.len(),
{
    if s.len() == 0 {
        0
    } else {
        digits_value(s.drop_last(), radix) * radix + digit_value(s.last())
    }
}

/// `from_str_radix` for an unsigned type whose largest value is `max`: an
/// optional `+`, then at least one digit, and no overflow.
pub open spec fn parse_unsigned(s: Seq<char>, radix: int, max: int) -> Option<int> {
    let digits = if s.len() > 0 && s[0] == '+' {
        s.drop_first()
    } else {
        s
    };
    if digits.len() > 0 && all_radix_digits(digits, radix) && digits_value(digits, radix) <= max {
        Some(digits_value(digits, radix))
    } else {
        None
    }
}

/// The lowercase hexadecimal digit for `d` (0 through 15).
pub open spec fn hex_digit_char(d: int) -> char {
    if d < 10 {
        ((d + 48) as u32) as char
    } else {
        ((d + 87) as u32) as char
    }
}

/// The decimal digit character for `d` (0 through 9).
pub open spec fn decimal_digit_char(d: int) -> char {
    ((d + 48) as u32) as char
}

/// `n` written in decimal, without leading zeros.
pub open spec fn decimal(n: nat) -> Seq<char>
    decreases n,
{
    if n < 10 {
        seq![decimal_digit_char(n as int)]
    } else {
        decimal(n / 10).push(decimal_digit_char((n % 10) as int))
    }
}

/// `b` as two lowercase hexadecimal digits (`{:02x}`).
pub open spec fn hex2(b: u8) -> Seq<char> {
    seq![hex_digit_char((b / 16) as int), hex_digit_char((b % 16) as int)]
}

/// `s` with leading and trailing white space removed (`str::trim`).
pub open spec fn trim(s: Seq<char>) -> Seq<char> {
    trim_end(trim_start(s))
}

/// `str::trim_start`.
pub open spec fn trim_start(s: Seq<char>) -> Seq<char>
    decreases s.len(),
{
    if s.len() > 0 && is_whitespace(s[0]) {
        trim_start(s.drop_first())
    } else {
        s
    }
}

/// `str::trim_end`.
pub open spec fn trim_end(s: Seq<char>) -> Seq<char>
    decreases s.len(),
{
    if s.len() > 0 && is_whitespace(s.last()) {
        trim_end(s.drop_last())
    } else {
        s
    }
}

// ---------------------------------------------------------------------------
// Lemmas
// ---------------------------------------------------------------------------

/// A parsed unsigned number is not negative.
pub proof fn lemma_parse_unsigned_nonneg(s: Seq<char>, radix: int, max: int)
    requires
        radix >= 0,
    ensures
        parse_unsigned(s, radix, max) matches Some(v) ==> v >= 0,
{
    let digits = if s.len() > 0 && s[0] == '+' {
        s.drop_first()
    } else {
        s
    };
    lemma_digits_value_nonneg(digits, radix);
}

/// The value of a digit string is not negative.
pub proof fn lemma_digits_value_nonneg(s: Seq<char>, radix: int)
    requires
        radix >= 0,
    ensures
        digits_value(s, radix) >= 0,
    decreases s.len(),
{
    if s.len() > 0 {
        lemma_digits_value_nonneg(s.drop_last(), radix);
        assert(digits_value(s.drop_last(), radix) * radix >= 0) by (nonlinear_arith)
            requires
                digits_value(s.drop_last(), radix) >= 0,
                radix >= 0,
        ;
    }
}

/// The digits that `decimal` writes read back as the same number.
pub proof fn lemma_decimal_digits(n: nat)
    ensures
        decimal(n).len() > 0,
        all_radix_digits(decimal(n), 10),
        digits_value(decimal(n), 10) == n,
        decimal(n)[0] != '+',
        all_ascii(decimal(n)),
    decreases n,
{
    let c = decimal_digit_char((n % 10) as int);
    assert(c as u32 == (n % 10) + 48);
    assert(digit_value(c) == n % 10);
    if n < 10 {
        let d = decimal(n);
        assert(d.drop_last() =~= Seq::<char>::empty());
        assert(digits_value(d, 10) == digits_value(d.drop_last(), 10) * 10 + digit_value(d.last()));
    } else {
        lemma_decimal_digits(n / 10);
        let d = decimal(n);
        assert(d.drop_last() =~= decimal(n / 10));
        assert forall|i: int| 0 <= i < d.len() implies is_radix_digit(#[trigger] d[i], 10)
            && is_ascii_char(d[i]) by {
            if i < d.len() - 1 {
                assert(d[i] == decimal(n / 10)[i]);
            }
        }
    }
}

/// `utf8_len` of a concatenation is the sum of the parts.
pub proof fn lemma_utf8_len_concat(a: Seq<char>, b: Seq<char>)
    ensures
        utf8_len(a + b) == utf8_len(a) + utf8_len(b),
    decreases b.len(),
{
    if b.len() > 0 {
        lemma_utf8_len_concat(a, b.drop_last());
        assert((a + b).drop_last() =~= a + b.drop_last());
    } else {
        assert(a + b =~= a);
    }
}

/// For an ASCII sequence, bytes and characters count the same.
pub proof fn lemma_utf8_len_ascii(s: Seq<char>)
    requires
        all_ascii(s),
    ensures
        utf8_len(s) == s.len(),
    decreases s.len(),
{
    if s.len() > 0 {
        assert(is_ascii_char(s[s.len() - 1]));
        lemma_utf8_len_ascii(s.drop_last());
    }
}

/// A sequence holding a non-ASCII character has more bytes than characters.
pub proof fn lemma_utf8_len_at_least(s: Seq<char>)
    ensures
        utf8_len(s) >= s.len(),
        !all_ascii(s) ==> utf8_len(s) > s.len(),
    decreases s.len(),
{
    if s.len() > 0 {
        lemma_utf8_len_at_least(s.drop_last());
        if !all_ascii(s) && all_ascii(s.drop_last()) {
            let i = choose|i: int| 0 <= i < s.len() && !is_ascii_char(#[trigger] s[i]);
            if i < s.len() - 1 {
                assert(s.drop_last()[i] == s[i]);
            }
        }
    }
}

// ---------------------------------------------------------------------------
// Executable helpers
// ---------------------------------------------------------------------------

/// The byte length of a character in UTF-8 (`char::len_utf8`).
pub fn char_len(c: char) -> (n: u64)
    ensures
        n == char_utf8_len(c),
{
    let u: u32 = c as u32;
    if u < 0x80 {
        1
    } else if u < 0x800 {
        2
    } else if u < 0x10000 {
        3
    } else {
        4
    }
}

/// Whether `v[from..]` takes exactly `n` bytes in UTF-8.
pub fn utf8_len_from_is(v: &[char], from: usize, n: u64) -> (r: bool)
    requires
        from <= v@.len(),
        n < u64::MAX - 4,
    ensures
        r == (utf8_len(v@.skip(from as int)) == n),
{
    let ghost s = v@.skip(from as int);
    let mut total: u64 = 0;
    let mut i = from;
    while i < v.len()
        invariant
            from <= i <= v@.len(),
            s == v@.skip(from as int),
            total == utf8_len(s.subrange(0, i - from)),
            total <= n,
            n < u64::MAX - 4,
        decreases v@.len() - i,
    {
        assert(s.subrange(0, i + 1 - from).drop_last() =~= s.subrange(0, i - from));
        total = total + char_len(v[i]);
        if total > n {
            proof {
                lemma_utf8_len_prefix(s, i + 1 - from);
            }
            return false;
        }
        i = i + 1;
    }
    assert(s.subrange(0, i - from) =~= s);
    total == n
}

/// The byte length of a prefix is at most that of the whole.
pub proof fn lemma_utf8_len_prefix(s: Seq<char>, k: int)
    requires
        0 <= k <= s.len(),
    ensures
        utf8_len(s.subrange(0, k)) <= utf8_len(s),
    decreases s.len(),
{
    if k < s.len() {
        lemma_utf8_len_prefix(s.drop_last(), k);
        assert(s.drop_last().subrange(0, k) =~= s.subrange(0, k));
    } else {
        assert(s.subrange(0, k) =~= s);
    }
}

/// The characters of `s`, in order.
pub fn chars_of(s: &str) -> (v: Vec<char>)
    ensures
        v@ == s@,
{
    let mut v: Vec<char> = Vec::new();
    let n = s.unicode_len();
    let mut i: usize = 0;
    while i < n
        invariant
            n == s@.len(),
            i <= n,
            v@ == s@.subrange(0, i as int),
        decreases n - i,
    {
        v.push(s.get_char(i));
        i = i + 1;
    }
    v
}

/// Appends one character (std's `String::push`).
#[verifier::external_body]
pub(crate) fn push_char(s: &mut String, c: char)
    ensures
        final(s)@ == old(s)@.push(c),
{
    s.push(c);
}

/// Appends `t` to `s`.
pub fn push_str(s: &mut String, t: &str)
    ensures
        final(s)@ == old(s)@ + t@,
{
    s.append(t);
}

/// What `str::to_lowercase` gives: the lowercase mapping of the Unicode
/// standard, character by character.
pub uninterp spec fn unicode_lowercase(s: Seq<char>) -> Seq<char>;

/// `s.to_lowercase()`.
#[verifier::external_body]
pub(crate) fn to_lowercase(s: &str) -> (r: String)
    ensures
        r@ == unicode_lowercase(s@),
{
    s.to_lowercase()
}

/// What `format!("{:?}", s)` writes for a string: the text in double quotes,
/// with the characters that `str::escape_debug` escapes escaped.
pub uninterp spec fn debug_quoted(s: Seq<char>) -> Seq<char>;

/// `format!("{s:?}")`.
#[verifier::external_body]
pub(crate) fn quoted(s: &str) -> (r: String)
    ensures
        r@ == debug_quoted(s@),
{
    format!("{s:?}")
}

/// A machine index as a mathematical integer.
pub open spec fn index_int(i: usize) -> int {
    i as int
}

/// How many leading characters `a` and `b` share.
pub fn common_prefix_len(a: &[char], b: &[char]) -> (r: usize)
    ensures
        r <= a@.len(),
        r <= b@.len(),
        a@.subrange(0, r as int) == b@.subrange(0, r as int),
        r < a@.len() && r < b@.len() ==> a@[r as int] != b@[r as int],
{
    let mut i: usize = 0;
    while i < a.len() && i < b.len()
        invariant
            i <= a@.len(),
            i <= b@.len(),
            a@.subrange(0, i as int) == b@.subrange(0, i as int),
        decreases a@.len() - i,
    {
        if a[i] != b[i] {
            return i;
        }
        assert(a@.subrange(0, i + 1) =~= a@.subrange(0, i as int).push(a@[i as int]));
        assert(b@.subrange(0, i + 1) =~= b@.subrange(0, i as int).push(b@[i as int]));
        i = i + 1;
    }
    i
}

/// `s.trim()`: `s` without leading and trailing white space.
pub fn trim_string(s: &str) -> (r: String)
    ensures
        r@ == trim(s@),
{
    let v = chars_of(s);
    assert(v@.subrange(0, v@.len() as int) =~= v@);
    let start = skip_whitespace(v.as_slice(), 0, v.len());
    let end = trim_end_index(v.as_slice(), start, v.len());
    string_of_range(v.as_slice(), start, end)
}

/// Whether `a` and `b` are equal ignoring ASCII case.
pub fn eq_ignore_case_chars(a: &[char], b: &[char]) -> (r: bool)
    ensures
        r == eq_ignore_case(a@, b@),
{
    if a.len() != b.len() {
        return false;
    }
    let mut i: usize = 0;
    while i < a.len()
        invariant
            a@.len() == b@.len(),
            i <= a@.len(),
            forall|j: int| 0 <= j < i ==> ascii_lower(#[trigger] a@[j]) == ascii_lower(b@[j]),
        decreases a@.len() - i,
    {
        if lower_char(a[i]) != lower_char(b[i]) {
            return false;
        }
        i = i + 1;
    }
    true
}

/// A copy of `s`.
pub fn copy_string(s: &str) -> (r: String)
    ensures
        r@ == s@,
{
    let mut r = String::new();
    push_str(&mut r, s);
    assert(r@ =~= s@);
    r
}

/// A copy of an optional string.
pub fn copy_opt_string(s: &Option<String>) -> (r: Option<String>)
    ensures
        match (r, *s) {
            (Some(a), Some(b)) => a@ == b@,
            (None, None) => true,
            _ => false,
        },
{
    match s {
        Some(v) => Some(copy_string(v.as_str())),
        None => None,
    }
}

/// The string whose characters are `v`.
pub fn string_of(v: &[char]) -> (s: String)
    ensures
        s@ == v@,
{
    let mut s = String::new();
    let mut i: usize = 0;
    while i < v.len()
        invariant
            i <= v@.len(),
            s@ == v@.subrange(0, i as int),
        decreases v@.len() - i,
    {
        push_char(&mut s, v[i]);
        i = i + 1;
    }
    s
}

/// The string holding `v[from..to]`.
pub fn string_of_range(v: &[char], from: usize, to: usize) -> (s: String)
    requires
        from <= to <= v@.len(),
    ensures
        s@ == v@.subrange(from as int, to as int),
{
    let mut s = String::new();
    let mut i: usize = from;
    while i < to
        invariant
            from <= i <= to <= v@.len(),
            s@ == v@.subrange(from as int, i as int),
        decreases to - i,
    {
        push_char(&mut s, v[i]);
        i = i + 1;
    }
    s
}

/// `char::to_ascii_lowercase`.
pub fn lower_char(c: char) -> (r: char)
    ensures
        r == ascii_lower(c),
{
    if 'A' <= c && c <= 'Z' {
        let code: u32 = c as u32;
        let lowered: u8 = (code + 32) as u8;
        lowered as char
    } else {
        c
    }
}

/// `str::to_ascii_lowercase`.
pub fn to_lower(v: &[char]) -> (r: Vec<char>)
    ensures
        r@ == lower_seq(v@),
{
    let mut r: Vec<char> = Vec::new();
    let mut i: usize = 0;
    while i < v.len()
        invariant
            i <= v@.len(),
            r@ =~= lower_seq(v@).subrange(0, i as int),
        decreases v@.len() - i,
    {
        r.push(lower_char(v[i]));
        i = i + 1;
    }
    r
}

/// `v` equals the literal `lit`.
pub fn eq_lit(v: &[char], lit: &str) -> (r: bool)
    ensures
        r == (v@ == lit@),
{
    let n = lit.unicode_len();
    if v.len() != n {
        return false;
    }
    let mut i: usize = 0;
    while i < n
        invariant
            n == lit@.len() == v@.len(),
            i <= n,
            forall|j: int| 0 <= j < i ==> v@[j] == lit@[j],
        decreases n - i,
    {
        if v[i] != lit.get_char(i) {
            return false;
        }
        i = i + 1;
    }
    assert(v@ =~= lit@);
    true
}

/// Two character sequences are equal.
pub fn eq_chars(a: &[char], b: &[char]) -> (r: bool)
    ensures
        r == (a@ == b@),
{
    if a.len() != b.len() {
        return false;
    }
    let mut i: usize = 0;
    while i < a.len()
        invariant
            a@.len() == b@.len(),
            i <= a@.len(),
            forall|j: int| 0 <= j < i ==> a@[j] == b@[j],
        decreases a@.len() - i,
    {
        if a[i] != b[i] {
            return false;
        }
        i = i + 1;
    }
    assert(a@ =~= b@);
    true
}

/// `str::eq_ignore_ascii_case` against a literal.
pub fn eq_ignore_case_lit(v: &[char], lit: &str) -> (r: bool)
    ensures
        r == eq_ignore_case(v@, lit@),
{
    let n = lit.unicode_len();
    if v.len() != n {
        return false;
    }
    let mut i: usize = 0;
    while i < n
        invariant
            n == lit@.len() == v@.len(),
            i <= n,
            forall|j: int| 0 <= j < i ==> ascii_lower(#[trigger] v@[j]) == ascii_lower(lit@[j]),
        decreases n - i,
    {
        if lower_char(v[i]) != lower_char(lit.get_char(i)) {
            return false;
        }
        i = i + 1;
    }
    true
}

/// `v[from..]` starts with the literal `lit`.
pub fn starts_with_lit_at(v: &[char], from: usize, lit: &str) -> (r: bool)
    requires
        from <= v@.len(),
    ensures
        r == (lit@.len() <= v@.len() - from && v@.subrange(from as int, from + lit@.len()) == lit@),
{
    let n = lit.unicode_len();
    if v.len() - from < n {
        return false;
    }
    let mut i: usize = 0;
    while i < n
        invariant
            n == lit@.len(),
            from + n <= v@.len() <= usize::MAX,
            i <= n,
            forall|j: int| 0 <= j < i ==> v@[from + j] == lit@[j],
        decreases n - i,
    {
        if v[from + i] != lit.get_char(i) {
            assert(v@.subrange(from as int, from + n)[i as int] != lit@[i as int]);
            return false;
        }
        i = i + 1;
    }
    assert(v@.subrange(from as int, from + n) =~= lit@);
    true
}

/// `char::is_whitespace`.
pub fn is_whitespace_char(c: char) -> (r: bool)
    ensures
        r == is_whitespace(c),
{
    let u: u32 = c as u32;
    (0x09 <= u && u <= 0x0D) || u == 0x20 || u == 0x85 || u == 0xA0 || u == 0x1680 || (0x2000 <= u
        && u <= 0x200A) || u == 0x2028 || u == 0x2029 || u == 0x202F || u == 0x205F || u == 0x3000
}

/// The value of a digit character (`char::to_digit`), 99 for a non-digit.
pub fn digit_of(c: char) -> (r: u32)
    ensures
        r == digit_value(c),
{
    if '0' <= c && c <= '9' {
        (c as u32) - ('0' as u32)
    } else if 'a' <= c && c <= 'z' {
        (c as u32) - ('a' as u32) + 10
    } else if 'A' <= c && c <= 'Z' {
        (c as u32) - ('A' as u32) + 10
    } else {
        99
    }
}

/// `from_str_radix` on `v[from..to]` for an unsigned type whose largest value
/// is `max`.
pub fn parse_unsigned_range(v: &[char], from: usize, to: usize, radix: u32, max: u64) -> (r:
    Option<u64>)
    requires
        from <= to <= v@.len(),
        2 <= radix <= 36,
    ensures
        match parse_unsigned(v@.subrange(from as int, to as int), radix as int, max as int) {
            Some(x) => r == Some(x as u64) && 0 <= x <= max,
            None => r is None,
        },
{
    let ghost s = v@.subrange(from as int, to as int);
    let mut start = from;
    if from < to && v[from] == '+' {
        start = from + 1;
    }
    let ghost digits = v@.subrange(start as int, to as int);
    assert(digits =~= (if s.len() > 0 && s[0] == '+' {
        s.drop_first()
    } else {
        s
    }));
    if start == to {
        return None;
    }
    let mut value: u128 = 0;
    let mut i = start;
    while i < to
        invariant
            from <= start <= i <= to <= v@.len(),
            digits == v@.subrange(start as int, to as int),
            digits.len() > 0,
            s == v@.subrange(from as int, to as int),
            parse_unsigned(s, radix as int, max as int) == (if all_radix_digits(digits, radix as int)
                && digits_value(digits, radix as int) <= max {
                Some(digits_value(digits, radix as int))
            } else {
                None
            }),
            2 <= radix <= 36,
            all_radix_digits(v@.subrange(start as int, i as int), radix as int),
            value == digits_value(v@.subrange(start as int, i as int), radix as int),
            value <= max,
        decreases to - i,
    {
        let d = digit_of(v[i]);
        let ghost prefix = v@.subrange(start as int, i as int);
        let ghost next = v@.subrange(start as int, i + 1);
        assert(next.drop_last() =~= prefix);
        if d >= radix {
            assert(!all_radix_digits(digits, radix as int)) by {
                assert(digits[i - start] == v@[i as int]);
                assert(!is_radix_digit(digits[i - start], radix as int));
            }
            return None;
        }
        assert(value * radix <= (max as u128) * 36) by (nonlinear_arith)
            requires
                value <= max,
                radix <= 36,
        ;
        value = value * (radix as u128) + (d as u128);
        if value > max as u128 {
            proof {
                assert(digits.subrange(0, (i + 1 - start) as int) =~= next);
                if all_radix_digits(digits, radix as int) {
                    lemma_digits_value_monotone(digits, (i + 1 - start) as int, radix as int);
                }
            }
            return None;
        }
        i = i + 1;
    }
    assert(v@.subrange(start as int, to as int) =~= digits);
    Some(value as u64)
}

/// The value of a digit prefix is at most the value of the whole.
pub proof fn lemma_digits_value_monotone(s: Seq<char>, k: int, radix: int)
    requires
        0 <= k <= s.len(),
        radix >= 2,
        all_radix_digits(s, radix),
    ensures
        digits_value(s.subrange(0, k), radix) <= digits_value(s, radix),
        digits_value(s, radix) >= 0,
    decreases s.len(),
{
    if s.len() > 0 {
        assert(all_radix_digits(s.drop_last(), radix)) by {
            assert forall|i: int| 0 <= i < s.drop_last().len() implies is_radix_digit(
                #[trigger] s.drop_last()[i],
                radix,
            ) by {
                assert(s.drop_last()[i] == s[i]);
            }
        }
        assert(is_radix_digit(s[s.len() - 1], radix));
        if k == s.len() {
            assert(s.subrange(0, k) =~= s);
            lemma_digits_value_monotone(s.drop_last(), 0, radix);
        } else {
            lemma_digits_value_monotone(s.drop_last(), k, radix);
            assert(s.drop_last().subrange(0, k) =~= s.subrange(0, k));
            let p = digits_value(s.drop_last(), radix);
            assert(p * radix >= p) by (nonlinear_arith)
                requires
                    p >= 0,
                    radix >= 2,
            ;
        }
    }
}

/// `n` in decimal (`{}` on an unsigned integer).
pub fn decimal_string(n: u64) -> (s: String)
    ensures
        s@ == decimal(n as nat),
    decreases n,
{
    if n < 10 {
        let mut s = String::new();
        push_char(&mut s, ((n as u8) + 48) as char);
        assert(s@ =~= decimal(n as nat));
        s
    } else {
        let mut s = decimal_string(n / 10);
        push_char(&mut s, (((n % 10) as u8) + 48) as char);
        s
    }
}

/// The lowercase hexadecimal digit for `d`.
pub fn hex_digit(d: u8) -> (c: char)
    requires
        d < 16,
    ensures
        c == hex_digit_char(d as int),
{
    if d < 10 {
        (d + 48) as char
    } else {
        (d + 87) as char
    }
}

/// Index of the first white-space-free character at or after `from`, looking
/// no further than `to`.
pub fn skip_whitespace(v: &[char], from: usize, to: usize) -> (r: usize)
    requires
        from <= to <= v@.len(),
    ensures
        from <= r <= to,
        v@.subrange(r as int, to as int) == trim_start(v@.subrange(from as int, to as int)),
    decreases to - from,
{
    if from < to && is_whitespace_char(v[from]) {
        let ghost s = v@.subrange(from as int, to as int);
        assert(s.drop_first() =~= v@.subrange(from + 1, to as int));
        skip_whitespace(v, from + 1, to)
    } else {
        from
    }
}

/// End of `v[from..to]` with trailing white space removed.
pub fn trim_end_index(v: &[char], from: usize, to: usize) -> (r: usize)
    requires
        from <= to <= v@.len(),
    ensures
        from <= r <= to,
        v@.subrange(from as int, r as int) == trim_end(v@.subrange(from as int, to as int)),
    decreases to - from,
{
    if from < to && is_whitespace_char(v[to - 1]) {
        let ghost s = v@.subrange(from as int, to as int);
        assert(s.drop_last() =~= v@.subrange(from as int, to - 1));
        trim_end_index(v, from, to - 1)
    } else {
        to
    }
}

} // verus!
