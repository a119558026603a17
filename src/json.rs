use vstd::prelude::*;

verus! {

/// The lower-case hexadecimal digit for `n` (0 to 15).
pub open spec fn hex_digit(n: int) -> char {
    if n == 0 { '0' } else if n == 1 { '1' } else if n == 2 { '2' } else if n == 3 { '3' }
    else if n == 4 { '4' } else if n == 5 { '5' } else if n == 6 { '6' } else if n == 7 { '7' }
    else if n == 8 { '8' } else if n == 9 { '9' } else if n == 10 { 'a' } else if n == 11 { 'b' }
    else if n == 12 { 'c' } else if n == 13 { 'd' } else if n == 14 { 'e' } else { 'f' }
}

/// The value of a hexadecimal digit of either case.
pub open spec fn hex_value(c: char) -> Option<int> {
    if '0' <= c && c <= '9' {
        Some(c as int - '0' as int)
    } else if 'a' <= c && c <= 'f' {
        Some(c as int - 'a' as int + 10)
    } else if 'A' <= c && c <= 'F' {
        Some(c as int - 'A' as int + 10)
    } else {
        None
    }
}

/// How one character is written inside a JSON string literal: the quote and
/// the backslash are escaped, the control characters below U+0020 get their
/// short escape where JSON has one and `\u00XX` otherwise, every other
/// character stands for itself.
pub open spec fn escape_char(c: char) -> Seq<char> {
    if c == '"' {
        seq!['\\', '"']
    } else if c == '\\' {
        seq!['\\', '\\']
    } else if c == '\x08' {
        seq!['\\', 'b']
    } else if c == '\x0c' {
        seq!['\\', 'f']
    } else if c == '\n' {
        seq!['\\', 'n']
    } else if c == '\r' {
        seq!['\\', 'r']
    } else if c == '\t' {
        seq!['\\', 't']
    } else if (c as u32) < 0x20 {
        seq!['\\', 'u', '0', '0', hex_digit(c as int / 16), hex_digit(c as int % 16)]
    } else {
        seq![c]
    }
}

/// The escaped body of a JSON string literal for `s`.
pub open spec fn escape(s: Seq<char>) -> Seq<char>
    decreases s.len(),
{
    if s.len() == 0 {
        Seq::empty()
    } else {
        escape_char(s[0]) + escape(s.drop_first())
    }
}

/// The JSON string literal for `s`, quotes included.
pub open spec fn quote(s: Seq<char>) -> Seq<char> {
    seq!['"'] + escape(s) + seq!['"']
}

/// Compact JSON text of an object with the single member `key: value`,
/// both strings.
pub open spec fn object_text(key: Seq<char>, value: Seq<char>) -> Seq<char> {
    seq!['{'] + quote(key) + seq![':'] + quote(value) + seq!['}']
}

/// The character an escape `\X` stands for, for the one-letter escapes.
pub open spec fn short_escape(e: char) -> Option<char> {
    if e == '"' {
        Some('"')
    } else if e == '\\' {
        Some('\\')
    } else if e == '/' {
        Some('/')
    } else if e == 'b' {
        Some('\x08')
    } else if e == 'f' {
        Some('\x0c')
    } else if e == 'n' {
        Some('\n')
    } else if e == 'r' {
        Some('\r')
    } else if e == 't' {
        Some('\t')
    } else {
        None
    }
}

/// The number written by four hexadecimal digits.
pub open spec fn hex4_value(d: Seq<char>) -> Option<int> {
    if d.len() == 4 && hex_value(d[0]) is Some && hex_value(d[1]) is Some
        && hex_value(d[2]) is Some && hex_value(d[3]) is Some {
        Some(
            hex_value(d[0])->0 * 4096 + hex_value(d[1])->0 * 256 + hex_value(d[2])->0 * 16
                + hex_value(d[3])->0,
        )
    } else {
        None
    }
}

/// A code point of the Basic Multilingual Plane that is not a surrogate.
pub open spec fn is_bmp_scalar(v: int) -> bool {
    (0 <= v < 0xD800) || (0xE000 <= v < 0x10000)
}

/// The code point of a character.
pub open spec fn code_point(c: char) -> int {
    c as int
}

/// The character with code point `v`.
pub open spec fn char_of(v: int) -> char {
    choose|c: char| #[trigger] code_point(c) == v
}

/// Reads the rest of a JSON string literal whose opening quote has been
/// consumed: the decoded characters, and the text after the closing quote.
/// `None` where the literal is malformed: it is unterminated, holds a raw
/// control character or an unknown escape. A `\u` escape is read where it
/// names a character of the Basic Multilingual Plane outside the surrogate
/// range.
pub open spec fn scan_string(t: Seq<char>) -> Option<(Seq<char>, Seq<char>)>
    decreases t.len(),
{
    if t.len() == 0 {
        None
    } else if t[0] == '"' {
        Some((Seq::empty(), t.drop_first()))
    } else if t[0] == '\\' {
        if t.len() < 2 {
            None
        } else if t[1] == 'u' {
            if t.len() < 6 {
                None
            } else if hex4_value(t.subrange(2, 6)) is Some && is_bmp_scalar(
                hex4_value(t.subrange(2, 6))->0,
            ) {
                match scan_string(t.subrange(6, t.len() as int)) {
                    Some((s, rest)) => Some(
                        (seq![char_of(hex4_value(t.subrange(2, 6))->0)] + s, rest),
                    ),
                    None => None,
                }
            } else {
                None
            }
        } else if short_escape(t[1]) is Some {
            match scan_string(t.subrange(2, t.len() as int)) {
                Some((s, rest)) => Some((seq![short_escape(t[1])->0] + s, rest)),
                None => None,
            }
        } else {
            None
        }
    } else if (t[0] as u32) < 0x20 {
        None
    } else {
        match scan_string(t.drop_first()) {
            Some((s, rest)) => Some((seq![t[0]] + s, rest)),
            None => None,
        }
    }
}

/// Reads compact JSON text that is an object with exactly one member whose
/// value is a string: the member's key and value.
pub open spec fn parse_single_member_object(t: Seq<char>) -> Option<(Seq<char>, Seq<char>)> {
    if t.len() >= 2 && t[0] == '{' && t[1] == '"' {
        match scan_string(t.subrange(2, t.len() as int)) {
            Some((key, r1)) => if r1.len() >= 2 && r1[0] == ':' && r1[1] == '"' {
                match scan_string(r1.subrange(2, r1.len() as int)) {
                    Some((value, r2)) => if r2 == seq!['}'] {
                        Some((key, value))
                    } else {
                        None
                    },
                    None => None,
                }
            } else {
                None
            },
            None => None,
        }
    } else {
        None
    }
}

proof fn lemma_hex_digit_value(n: int)
    requires
        0 <= n < 16,
    ensures
        hex_value(hex_digit(n)) == Some(n),
{
}

proof fn lemma_char_of(c: char)
    ensures
        char_of(c as int) == c,
{
    let d = char_of(c as int);
    assert(code_point(c) == c as int);
    assert(code_point(d) == c as int);
}

/// Reading back one escaped character puts that character in front of what
/// the text after it reads as.
proof fn lemma_scan_escaped_char(c: char, x: Seq<char>, s: Seq<char>, rest: Seq<char>)
    requires
        scan_string(x) == Some((s, rest)),
    ensures
        scan_string(escape_char(c) + x) == Some((seq![c] + s, rest)),
{
    let t = escape_char(c) + x;
    let e = escape_char(c);
    if c == '"' || c == '\\' || c == '\x08' || c == '\x0c' || c == '\n' || c == '\r' || c
        == '\t' {
        assert(t[0] == '\\');
        assert(t[1] == e[1]);
        assert(t.subrange(2, t.len() as int) =~= x);
        assert(short_escape(e[1]) == Some(c));
    } else if (c as u32) < 0x20 {
        let hi = c as int / 16;
        let lo = c as int % 16;
        lemma_hex_digit_value(hi);
        lemma_hex_digit_value(lo);
        assert(t[0] == '\\');
        assert(t[1] == 'u');
        assert(t.subrange(2, 6) =~= seq!['0', '0', hex_digit(hi), hex_digit(lo)]);
        assert(hex_value('0') == Some(0int));
        assert(hex4_value(t.subrange(2, 6)) == Some(c as int));
        lemma_char_of(c);
        assert(t.subrange(6, t.len() as int) =~= x);
    } else {
        assert(e =~= seq![c]);
        assert(t[0] == c);
        assert(t.drop_first() =~= x);
    }
}

/// The escaped body of `s`, closed by a quote, reads back as `s` and leaves
/// whatever followed the quote.
pub proof fn lemma_scan_escape(s: Seq<char>, rest: Seq<char>)
    ensures
        scan_string(escape(s) + seq!['"'] + rest) == Some((s, rest)),
    decreases s.len(),
{
    if s.len() == 0 {
        let t = escape(s) + seq!['"'] + rest;
        assert(t =~= seq!['"'] + rest);
        assert(t.drop_first() =~= rest);
    } else {
        let tail = s.drop_first();
        let x = escape(tail) + seq!['"'] + rest;
        lemma_scan_escape(tail, rest);
        lemma_scan_escaped_char(s[0], x, tail, rest);
        assert(escape(s) + seq!['"'] + rest =~= escape_char(s[0]) + x);
        assert(seq![s[0]] + tail =~= s);
    }
}

/// The compact text of a one-member object reads back as that member.
pub proof fn lemma_object_text_round_trip(key: Seq<char>, value: Seq<char>)
    ensures
        parse_single_member_object(object_text(key, value)) == Some((key, value)),
{
    let t = object_text(key, value);
    let r1 = seq![':'] + quote(value) + seq!['}'];
    assert(t.subrange(2, t.len() as int) =~= escape(key) + seq!['"'] + r1);
    lemma_scan_escape(key, r1);
    assert(r1.subrange(2, r1.len() as int) =~= escape(value) + seq!['"'] + seq!['}']);
    lemma_scan_escape(value, seq!['}']);
}

#[verifier::external_type_specification]
#[verifier::external_body]
pub struct ExJsonError(serde_json::Error);

/// Relies on `serde_json::to_string` applied to a `serde_json::Value` object
/// holding one member, `key` mapped to the string `value`. The compact
/// serializer writes `{`, the key and the value as string literals, `:`
/// between them, and `}`. In a string literal it escapes `"`, `\` and every
/// character below U+0020 (`\b`, `\f`, `\n`, `\r`, `\t` where those exist,
/// `\u00` and two lower-case hexadecimal digits otherwise) and copies every
/// other character. An object whose keys are strings always serializes.
#[verifier::external_body]
pub(crate) fn to_json_object(key: &str, value: &str) -> (r: Result<String, serde_json::Error>)
    ensures
        r is Ok,
        r matches Ok(text) ==> text@ == object_text(key@, value@),
{
    let mut members = serde_json::Map::new();
    members.insert(key.to_string(), serde_json::Value::String(value.to_string()));
    serde_json::to_string(&serde_json::Value::Object(members))
}

} // verus!
