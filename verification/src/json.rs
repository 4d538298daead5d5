//! Pieces of JSON text: string literals and numbers as `serde_json` writes
//! them, and the parsing of untrusted JSON documents.

use crate::digest::hex_digit;
use vstd::prelude::*;

verus! {

/// How `serde_json` writes one character inside a string literal: `"` and
/// `\` are escaped with a backslash, backspace, tab, line feed, form feed
/// and carriage return as `\b \t \n \f \r`, any other character below
/// U+0020 as `\u00` and two lowercase hex digits; everything else as is.
pub open spec fn json_escape_char(c: char) -> Seq<char> {
    if c == '"' {
        seq!['\\', '"']
    } else if c == '\\' {
        seq!['\\', '\\']
    } else if c == '\u{8}' {
        seq!['\\', 'b']
    } else if c == '\t' {
        seq!['\\', 't']
    } else if c == '\n' {
        seq!['\\', 'n']
    } else if c == '\u{c}' {
        seq!['\\', 'f']
    } else if c == '\r' {
        seq!['\\', 'r']
    } else if (c as u32) < 0x20 {
        seq!['\\', 'u', '0', '0', hex_digit((c as u32 / 16) as u8), hex_digit((c as u32 % 16) as u8)]
    } else {
        seq![c]
    }
}

/// Each character of `s` as `serde_json` writes it inside a string literal.
pub open spec fn json_escape(s: Seq<char>) -> Seq<char>
    decreases s.len(),
{
    if s.len() == 0 {
        Seq::empty()
    } else {
        json_escape_char(s[0]) + json_escape(s.drop_first())
    }
}

/// The JSON text that `serde_json` writes for the string value `s`: the
/// escaped characters between double quotes.
pub open spec fn json_string_spec(s: Seq<char>) -> Seq<char> {
    seq!['"'] + json_escape(s) + seq!['"']
}

/// What `serde_json` makes of a JSON document: `Ok` with the compact text it
/// writes back for the parsed value, or `Err` with the text of its parse
/// error.
pub uninterp spec fn json_parse_spec(text: Seq<char>) -> Result<Seq<char>, Seq<char>>;

/// Calls `serde_json::Value::String` and the value's `Display` (compact
/// serialization). Claims what `serde_json`'s string writer does: the
/// characters between quotes, escaped as `json_escape_char` states.
#[verifier::external_body]
pub(crate) fn json_string(s: &str) -> (text: String)
    ensures
        text@ == json_string_spec(s@),
{
    serde_json::Value::String(s.to_owned()).to_string()
}

/// Calls `serde_json::from_str::<serde_json::Value>` and writes the parsed
/// value back with its `Display` (compact form); a parse error is rendered
/// with its `Display`. Claims that the outcome is the one named by
/// `json_parse_spec` for the input text.
#[verifier::external_body]
pub(crate) fn parse_json(text: &str) -> (parsed: Result<String, String>)
    ensures
        match parsed {
            Ok(value) => json_parse_spec(text@) == Ok::<Seq<char>, Seq<char>>(value@),
            Err(err) => json_parse_spec(text@) == Err::<Seq<char>, Seq<char>>(err@),
        },
{
    match serde_json::from_str::<serde_json::Value>(text) {
        Ok(value) => Ok(value.to_string()),
        Err(err) => Err(err.to_string()),
    }
}

/// Calls std's `String::push`, which appends one character.
#[verifier::external_body]
pub(crate) fn push_char(s: &mut String, c: char)
    ensures
        final(s)@ == old(s)@.push(c),
{
    s.push(c)
}

/// The decimal digit character for `d < 10`.
pub open spec fn digit_char(d: nat) -> char {
    if d == 0 { '0' }
    else if d == 1 { '1' }
    else if d == 2 { '2' }
    else if d == 3 { '3' }
    else if d == 4 { '4' }
    else if d == 5 { '5' }
    else if d == 6 { '6' }
    else if d == 7 { '7' }
    else if d == 8 { '8' }
    else { '9' }
}

/// The decimal text of a natural number, without leading zeros.
pub open spec fn decimal_spec(n: nat) -> Seq<char>
    decreases n,
{
    if n < 10 {
        seq![digit_char(n)]
    } else {
        decimal_spec(n / 10).push(digit_char(n % 10))
    }
}

fn digit(d: u64) -> (c: char)
    requires
        d < 10,
    ensures
        c == digit_char(d as nat),
{
    match d {
        0 => '0',
        1 => '1',
        2 => '2',
        3 => '3',
        4 => '4',
        5 => '5',
        6 => '6',
        7 => '7',
        8 => '8',
        _ => '9',
    }
}

fn push_decimal(out: &mut String, n: u64)
    ensures
        final(out)@ == old(out)@ + decimal_spec(n as nat),
    decreases n,
{
    if n < 10 {
        push_char(out, digit(n));
    } else {
        push_decimal(out, n / 10);
        push_char(out, digit(n % 10));
    }
}

/// The decimal text of `n`, as JSON writes an unsigned integer.
pub fn decimal(n: u64) -> (text: String)
    ensures
        text@ == decimal_spec(n as nat),
{
    let mut text = String::new();
    push_decimal(&mut text, n);
    assert(text@ =~= decimal_spec(n as nat));
    text
}

} // verus!
