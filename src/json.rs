//! JSON text for request bodies: the escaping of strings comes from serde_json,
//! the layout of each value is written here.

use vstd::prelude::*;
use crate::text::{decimal, opt_str_view, push_decimal};

verus! {

#[verifier::external_type_specification]
#[verifier::external_body]
pub struct ExJsonError(serde_json::Error);

/// The sixteen hexadecimal digits, in lower case.
pub open spec fn hex_digits() -> Seq<char> {
    seq!['0', '1', '2', '3', '4', '5', '6', '7', '8', '9', 'a', 'b', 'c', 'd', 'e', 'f']
}

/// How one character is written inside a JSON string literal: the quote and the
/// backslash are escaped, backspace, tab, newline, form feed and carriage return
/// take their short escapes, the other control characters below U+0020 are
/// written `\u00XX` in lower-case hexadecimal, and every other character stands
/// as it is.
pub open spec fn escape_char(c: char) -> Seq<char> {
    if c == '"' {
        seq!['\\', '"']
    } else if c == '\\' {
        seq!['\\', '\\']
    } else if c == '\u{8}' {
        seq!['\\', 'b']
    } else if c == '\t' {
        seq!['\\', 't']
    } else if c == '\n' {
        seq!['\\', 'n']
    } else if c == '\u{c}' {
        seq!['\\', 'f']
    } else if c == '\r' {
        seq!['\\', 'r']
    } else if (c as u32) < 0x20 {
        seq![
            '\\',
            'u',
            '0',
            '0',
            hex_digits()[((c as u32) / 16) as int],
            hex_digits()[((c as u32) % 16) as int],
        ]
    } else {
        seq![c]
    }
}

/// The characters of `s`, each escaped as inside a JSON string literal.
pub open spec fn escape_chars(s: Seq<char>) -> Seq<char>
    decreases s.len(),
{
    if s.len() == 0 {
        Seq::empty()
    } else {
        escape_chars(s.drop_last()) + escape_char(s.last())
    }
}

/// The JSON string literal that encodes the characters `s`.
pub open spec fn json_str_of(s: Seq<char>) -> Seq<char> {
    seq!['"'] + escape_chars(s) + seq!['"']
}

/// Relies on serde_json::to_string on a string slice, which writes `s` between
/// quotes into a `Vec<u8>` with the escapes of `escape_char`. The only error it
/// can meet on a string is the writer's, and writing to a `Vec<u8>` does not fail.
#[verifier::external_body]
pub(crate) fn json_string(s: &str) -> (r: Result<String, serde_json::Error>)
    ensures
        r is Ok,
        r matches Ok(t) ==> t@ == json_str_of(s@),
{
    serde_json::to_string(s)
}

/// How an object member whose value is absent is written.
#[derive(Clone, Copy, Debug, PartialEq, Eq, Structural)]
pub enum AbsentFields {
    /// The member is written with the value `null`.
    Null,
    /// The member is left out.
    Omit,
}

/// An object member after the first, `key` being its text up to the value (the
/// leading comma, the quoted name and the colon) and `value` an already encoded
/// JSON value, if there is one.
pub open spec fn member(policy: AbsentFields, key: Seq<char>, value: Option<Seq<char>>) -> Seq<char> {
    match value {
        Some(v) => key + v,
        None => match policy {
            AbsentFields::Null => key + "null"@,
            AbsentFields::Omit => Seq::empty(),
        },
    }
}

/// A JSON number for an unsigned integer, if there is one.
pub open spec fn number_json(o: Option<u64>) -> Option<Seq<char>> {
    match o {
        Some(n) => Some(decimal(n as nat)),
        None => None,
    }
}

/// Appends an object member after the first whose value is already encoded.
pub fn push_member(out: &mut String, policy: AbsentFields, key: &str, value: Option<&str>)
    ensures
        final(out)@ == old(out)@ + member(policy, key@, opt_str_view(value)),
{
    match value {
        Some(v) => {
            out.append(key);
            out.append(v);
        },
        None => match policy {
            AbsentFields::Null => {
                out.append(key);
                out.append("null");
            },
            AbsentFields::Omit => {},
        },
    }
}

/// Appends an object member after the first whose value is a number.
pub fn push_number_member(out: &mut String, policy: AbsentFields, key: &str, value: Option<u64>)
    ensures
        final(out)@ == old(out)@ + member(policy, key@, number_json(value)),
{
    match value {
        Some(n) => {
            out.append(key);
            push_decimal(out, n);
        },
        None => match policy {
            AbsentFields::Null => {
                out.append(key);
                out.append("null");
            },
            AbsentFields::Omit => {},
        },
    }
}

} // verus!
