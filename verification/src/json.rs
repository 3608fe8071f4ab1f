//! JSON string literals, as serde_json writes them.

use vstd::prelude::*;

verus! {

#[verifier::external_type_specification]
#[verifier::external_body]
pub struct ExJsonError(serde_json::Error);

/// Lower-case hexadecimal digit `d` (for `d < 16`).
pub open spec fn hex_digit(d: nat) -> char {
    if d < 10 {
        (d + 48) as char
    } else {
        (d + 87) as char
    }
}

/// How one character appears inside a JSON string literal: `"` and `\` are
/// backslash-escaped, the control characters below U+0020 use their short
/// escape where JSON has one and `\u00XX` otherwise; everything else is kept.
pub open spec fn escaped(c: char) -> Seq<char> {
    if c == '"' {
        seq!['\\', '"']
    } else if c == '\\' {
        seq!['\\', '\\']
    } else if c == '\u{8}' {
        seq!['\\', 'b']
    } else if c == '\t' {
        seq!['\\', 't']
    } else if c == '\n' {
        seq!['\\', 'n']
    } else if c == '\u{c}' {
        seq!['\\', 'f']
    } else if c == '\r' {
        seq!['\\', 'r']
    } else if (c as nat) < 32 {
        seq!['\\', 'u', '0', '0', hex_digit((c as nat) / 16), hex_digit((c as nat) % 16)]
    } else {
        seq![c]
    }
}

/// Every character of `s` escaped, in order.
pub open spec fn escaped_all(s: Seq<char>) -> Seq<char>
    decreases s.len(),
{
    if s.len() == 0 {
        seq![]
    } else {
        escaped(s[0]) + escaped_all(s.drop_first())
    }
}

/// The JSON string literal that denotes `s`.
pub open spec fn json_string(s: Seq<char>) -> Seq<char> {
    seq!['"'] + escaped_all(s) + seq!['"']
}

/// Calls `serde_json::to_string` on a string slice. Its contract claims that
/// the call succeeds and gives the quoted literal of `s` with serde_json's
/// escape table (`format_escaped_str` and the `ESCAPE` table in `ser.rs`).
/// Success: `to_string` serialises into a `Vec<u8>` (`to_vec`); a string is
/// written by `serialize_str`, whose only error is a failed write, and
/// writing into a `Vec` does not fail.
#[verifier::external_body]
pub(crate) fn to_json_string(s: &str) -> (r: Result<String, serde_json::Error>)
    ensures
        r is Ok,
        r matches Ok(q) ==> q@ == json_string(s@),
{
    serde_json::to_string(s)
}


/// Value of a lower-case hexadecimal digit.
pub open spec fn hex_value(c: char) -> int {
    if c <= '9' {
        (c as int) - 48
    } else {
        (c as int) - 87
    }
}

/// The character that the escape `\e` stands for (`e` other than `u`).
pub open spec fn unescaped(e: char) -> char {
    if e == 'b' {
        '\u{8}'
    } else if e == 't' {
        '\t'
    } else if e == 'n' {
        '\n'
    } else if e == 'f' {
        '\u{c}'
    } else if e == 'r' {
        '\r'
    } else {
        e
    }
}

/// Reads back the inside of a string literal that serde_json wrote: each
/// escape serde_json writes (`\"`, `\\`, `\b`, `\t`, `\n`, `\f`, `\r` and
/// `\u` with four lower-case hex digits) is replaced by the character it stands
/// for; other characters are kept. Upper-case hex digits and surrogate pairs,
/// which serde_json does not write, are not read.
pub open spec fn unescape(t: Seq<char>) -> Seq<char>
    decreases t.len(),
{
    if t.len() == 0 {
        seq![]
    } else if t[0] == '\\' && t.len() >= 6 && t[1] == 'u' {
        seq![(hex_value(t[2]) * 4096 + hex_value(t[3]) * 256 + hex_value(t[4]) * 16 + hex_value(
            t[5],
        )) as char] + unescape(t.subrange(6, t.len() as int))
    } else if t[0] == '\\' && t.len() >= 2 {
        seq![unescaped(t[1])] + unescape(t.subrange(2, t.len() as int))
    } else {
        seq![t[0]] + unescape(t.drop_first())
    }
}

proof fn lemma_unescape_one(c: char, rest: Seq<char>)
    ensures
        unescape(escaped(c) + rest) == seq![c] + unescape(rest),
{
    let t = escaped(c) + rest;
    if c == '"' || c == '\\' || c == '\u{8}' || c == '\t' || c == '\n' || c == '\u{c}' || c
        == '\r' {
        assert(t.subrange(2, t.len() as int) == rest);
    } else if (c as nat) < 32 {
        assert(t.subrange(6, t.len() as int) == rest);
        let v = c as nat;
        assert(hex_value(hex_digit(v / 16)) == v / 16);
        assert(hex_value(hex_digit(v % 16)) == v % 16);
        assert((v / 16) * 16 + v % 16 == v);
        assert(((v as int) as char) == c);
    } else {
        assert(t.drop_first() == rest);
    }
}

/// Reading back the inside of the JSON literal of `s` (its characters
/// between the enclosing quotes) gives `s`: what the
/// server receives is exactly the string that was quoted.
pub proof fn lemma_json_string_round_trip(s: Seq<char>)
    ensures
        unescape(escaped_all(s)) == s,
    decreases s.len(),
{
    if s.len() > 0 {
        lemma_json_string_round_trip(s.drop_first());
        lemma_unescape_one(s[0], escaped_all(s.drop_first()));
        assert(seq![s[0]] + s.drop_first() == s);
    }
}

} // verus!
