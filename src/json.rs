//! The JSON primitives the library takes from `serde_json`.
use vstd::prelude::*;

verus! {

/// The lowercase hexadecimal digit of `d`, for `d < 16`.
pub open spec fn hex_digit(d: u32) -> char {
    if d < 10 {
        (('0' as u32) + d) as char
    } else {
        (('a' as u32) + d - 10) as char
    }
}

/// How `serde_json` writes one character inside a string literal: `"` and
/// `\` get a backslash, the control characters with a short form get it, the
/// other control characters become `\u00XX`, and every other character
/// stands for itself.
pub open spec fn escape_char(c: char) -> Seq<char> {
    if c == '"' {
        seq!['\\', '"']
    } else if c == '\\' {
        seq!['\\', '\\']
    } else if c == '\u{8}' {
        seq!['\\', 'b']
    } else if c == '\t' {
        seq!['\\', 't']
    } else if c == '\n' {
        seq!['\\', 'n']
    } else if c == '\u{c}' {
        seq!['\\', 'f']
    } else if c == '\r' {
        seq!['\\', 'r']
    } else if (c as u32) < 0x20 {
        seq!['\\', 'u', '0', '0', hex_digit((c as u32) / 16), hex_digit((c as u32) % 16)]
    } else {
        seq![c]
    }
}

/// The escaped characters of a text.
pub open spec fn json_escape(s: Seq<char>) -> Seq<char>
    decreases s.len(),
{
    if s.len() == 0 {
        Seq::empty()
    } else {
        json_escape(s.drop_last()) + escape_char(s.last())
    }
}

/// The JSON string literal for the text `s`.
pub open spec fn json_string_of(s: Seq<char>) -> Seq<char> {
    seq!['"'] + json_escape(s) + seq!['"']
}

/// Whether the text is one well-formed JSON value, as `serde_json` reads it.
pub uninterp spec fn is_json(t: Seq<char>) -> bool;

/// The text of the string member `name` of the JSON object that the text
/// holds; `None` when it holds no object or the object has no such string.
pub uninterp spec fn name_of_body(t: Seq<char>) -> Option<Seq<char>>;

/// The members of the object `error` of the JSON object that the text holds:
/// the unsigned integer `code`, the strings `message` and `status`, and the
/// number of items of the array `details`; `None` when any is missing or of
/// another kind.
pub uninterp spec fn error_of_body(t: Seq<char>) -> Option<(nat, Seq<char>, Seq<char>, nat)>;

/// Relies on `serde_json::from_str`: parses `text` as one JSON value, or
/// reports why it is not one.
#[verifier::external_body]
pub(crate) fn parse_json(text: &str) -> (r: Result<serde_json::Value, serde_json::Error>)
    ensures
        r is Ok <==> is_json(text@),
{
    serde_json::from_str(text)
}

/// Relies on `serde_json::from_str` into a `serde_json::Value`, then
/// `Value::get` and `Value::as_str`: the string member `name` of the object
/// that `text` holds.
#[verifier::external_body]
pub(crate) fn body_name(text: &str) -> (r: Option<String>)
    ensures
        r is Some <==> name_of_body(text@) is Some,
        r is Some ==> r->Some_0@ == name_of_body(text@)->Some_0 && is_json(text@),
{
    let v: serde_json::Value = serde_json::from_str(text).ok()?;
    v.get("name")?.as_str().map(str::to_owned)
}

/// Relies on `serde_json::from_str` into a `serde_json::Value`, then
/// `Value::get`, `Value::as_u64`, `Value::as_str` and `Value::as_array`: the
/// four members of the object `error` of the object that `text` holds.
#[verifier::external_body]
pub(crate) fn body_error(text: &str) -> (r: Option<(u64, String, String, Vec<serde_json::Value>)>)
    ensures
        r is Some <==> error_of_body(text@) is Some,
        r is Some ==> is_json(text@) && error_of_body(text@)->Some_0 == (
            r->Some_0.0 as nat,
            r->Some_0.1@,
            r->Some_0.2@,
            r->Some_0.3@.len(),
        ),
{
    let v: serde_json::Value = serde_json::from_str(text).ok()?;
    let e = v.get("error")?;
    let code = e.get("code")?.as_u64()?;
    let message = e.get("message")?.as_str()?.to_owned();
    let status = e.get("status")?.as_str()?.to_owned();
    Some((code, message, status, e.get("details")?.as_array()?.clone()))
}

/// Relies on `serde::de::Error::custom` as `serde_json::Error` implements it:
/// a decoding error that carries the message `msg`.
#[verifier::external_body]
pub(crate) fn decode_error(msg: &str) -> (r: serde_json::Error) {
    <serde_json::Error as serde::de::Error>::custom(msg)
}

/// Relies on `serde_json::to_string` on a `str`, which cannot fail: the
/// JSON string literal for `s`, escaped by serde_json's table.
#[verifier::external_body]
pub(crate) fn quote(s: &str) -> (r: String)
    ensures
        r@ == json_string_of(s@),
{
    serde_json::to_string(s).unwrap_or_default()
}

/// The decimal digits of `n`, most significant first, without leading zeros.
pub open spec fn decimal_of(n: nat) -> Seq<char>
    decreases n,
{
    if n < 10 {
        seq![(('0' as nat) + n) as char]
    } else {
        decimal_of(n / 10) + seq![(('0' as nat) + n % 10) as char]
    }
}

/// Relies on the `Display` impl of `usize`: the number in decimal digits.
#[verifier::external_body]
pub(crate) fn decimal(n: usize) -> (r: String)
    ensures
        r@ == decimal_of(n as nat),
{
    n.to_string()
}

/// Relies on the `Display` impl of `serde_json::Value`: the value written as
/// compact JSON text.
#[verifier::external_body]
pub(crate) fn value_text(v: &serde_json::Value) -> (r: String) {
    v.to_string()
}

} // verus!
