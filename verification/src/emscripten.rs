//! JSON text of the error replies of the Emscripten interface.
//!
//! A failed call answers `{"error":"..."}`, with the message as a JSON
//! string literal.

use vstd::prelude::*;

use crate::text::{concat2, concat3, digit_char};

verus! {

/// A lowercase hexadecimal digit.
pub open spec fn hex_digit(d: nat) -> char
    recommends
        d < 16,
{
    if d < 10 {
        digit_char(d)
    } else if d == 10 {
        'a'
    } else if d == 11 {
        'b'
    } else if d == 12 {
        'c'
    } else if d == 13 {
        'd'
    } else if d == 14 {
        'e'
    } else {
        'f'
    }
}

/// How serde_json writes one character inside a string literal: the quote
/// and the backslash behind a backslash; backspace, tab, line feed, form
/// feed and carriage return by their short escapes; the other control
/// characters below 0x20 as `\u00` and two lowercase hexadecimal digits;
/// every other character as itself.
pub open spec fn json_escaped_char(c: char) -> Seq<char> {
    let n = c as nat;
    if c == '"' {
        seq!['\\', '"']
    } else if c == '\\' {
        seq!['\\', '\\']
    } else if n == 8 {
        seq!['\\', 'b']
    } else if n == 9 {
        seq!['\\', 't']
    } else if n == 10 {
        seq!['\\', 'n']
    } else if n == 12 {
        seq!['\\', 'f']
    } else if n == 13 {
        seq!['\\', 'r']
    } else if n < 32 {
        seq!['\\', 'u', '0', '0', hex_digit(n / 16), hex_digit(n % 16)]
    } else {
        seq![c]
    }
}

/// The escaped characters of a string, in order.
pub open spec fn json_escaped(s: Seq<char>) -> Seq<char>
    decreases s.len(),
{
    if s.len() == 0 {
        Seq::empty()
    } else {
        json_escaped_char(s[0]) + json_escaped(s.drop_first())
    }
}

/// The JSON string literal that serde_json writes for a string: the escaped
/// text between double quotes.
pub open spec fn json_string_literal(s: Seq<char>) -> Seq<char> {
    seq!['"'] + json_escaped(s) + seq!['"']
}

/// Calls `serde_json::to_string` on a string slice. Its contract claims
/// that the result is the string between double quotes with the escapes
/// of serde_json's escape table (`json_escaped_char`); serializing a
/// string into serde_json's in-memory buffer does not fail.
#[verifier::external_body]
fn json_quote(msg: &str) -> (res: String)
    ensures
        res@ == json_string_literal(msg@),
{
    serde_json::to_string(msg).unwrap_or_default()
}

/// The error reply around a message already written as a JSON value.
pub open spec fn error_reply(json_value: Seq<char>) -> Seq<char> {
    "{\"error\":"@ + json_value + "}"@
}

/// Builds the error reply around `json_value`, a message already written
/// as a JSON value.
pub fn error_envelope(json_value: &str) -> (res: String)
    ensures
        res@ == error_reply(json_value@),
{
    concat3("{\"error\":", json_value, "}")
}

/// Builds the `{"error":...}` reply for a message.
pub fn error_json(msg: &str) -> (res: String)
    ensures
        res@ == error_reply(json_string_literal(msg@)),
{
    let quoted = json_quote(msg);
    error_envelope(quoted.as_str())
}

/// The reply for input that is not valid JSON of the expected shape.
pub fn invalid_input_reply(detail: &str) -> (res: String)
    ensures
        res@ == error_reply(json_string_literal("invalid input: "@ + detail@)),
{
    let msg = concat2("invalid input: ", detail);
    error_json(msg.as_str())
}

/// The reply for a result that could not be serialized.
pub fn serialization_failure_reply(detail: &str) -> (res: String)
    ensures
        res@ == error_reply(json_string_literal("serialization failed: "@ + detail@)),
{
    let msg = concat2("serialization failed: ", detail);
    error_json(msg.as_str())
}

/// The reply for a call that panicked.
pub fn internal_panic_reply() -> (res: String)
    ensures
        res@ == error_reply(json_string_literal("internal panic"@)),
{
    error_json("internal panic")
}

} // verus!
