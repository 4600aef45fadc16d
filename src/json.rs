//! What the library relies on from serde_json: whether a text is JSON, the
//! values found at JSON pointers in a text, and quoting a string as a JSON
//! literal.
use vstd::prelude::*;

verus! {

/// Whether serde_json reads `text` as one JSON document.
pub uninterp spec fn is_json(text: Seq<char>) -> bool;

/// The non-negative integer that serde_json finds at JSON pointer `ptr` in
/// `text`, if `text` is JSON and holds one there.
pub uninterp spec fn json_u64_at(text: Seq<char>, ptr: Seq<char>) -> Option<u64>;

/// The string that serde_json finds at JSON pointer `ptr` in `text`.
pub uninterp spec fn json_str_at(text: Seq<char>, ptr: Seq<char>) -> Option<Seq<char>>;

/// The value that serde_json finds at JSON pointer `ptr` in `text`, written
/// back as compact JSON text.
pub uninterp spec fn json_text_at(text: Seq<char>, ptr: Seq<char>) -> Option<Seq<char>>;

/// The hexadecimal digit of `n`, lower case.
pub open spec fn hex_digit(n: int) -> char {
    "0123456789abcdef"@[n]
}

/// How a JSON string literal writes `c`: a short escape for the quote, the
/// backslash and five control characters, `\u00XX` for the other control
/// characters below U+0020, and the character itself otherwise.
pub open spec fn escaped(c: char) -> Seq<char> {
    if c == '"' {
        seq!['\\', '"']
    } else if c == '\\' {
        seq!['\\', '\\']
    } else if c == '\u{8}' {
        seq!['\\', 'b']
    } else if c == '\t' {
        seq!['\\', 't']
    } else if c == '\n' {
        seq!['\\', 'n']
    } else if c == '\u{c}' {
        seq!['\\', 'f']
    } else if c == '\r' {
        seq!['\\', 'r']
    } else if (c as u32) < 0x20 {
        seq!['\\', 'u', '0', '0', hex_digit(((c as u32) / 16) as int), hex_digit(((c as u32) % 16) as int)]
    } else {
        seq![c]
    }
}

/// The escaped characters of `s`, in order.
pub open spec fn escaped_all(s: Seq<char>) -> Seq<char>
    decreases s.len(),
{
    if s.len() == 0 {
        Seq::empty()
    } else {
        escaped_all(s.drop_last()) + escaped(s.last())
    }
}

/// The JSON string literal for `s`.
pub open spec fn json_quoted(s: Seq<char>) -> Seq<char> {
    seq!['"'] + escaped_all(s) + seq!['"']
}

/// Relies on serde_json::from_str into a Value: its outcome depends on the text alone.
#[verifier::external_body]
pub(crate) fn parses(text: &str) -> (r: bool)
    ensures
        r == is_json(text@),
{
    serde_json::from_str::<serde_json::Value>(text).is_ok()
}

/// Relies on serde_json::from_str, Value::pointer and Value::as_u64.
#[verifier::external_body]
pub(crate) fn u64_at(text: &str, ptr: &str) -> (r: Option<u64>)
    ensures
        r == json_u64_at(text@, ptr@),
{
    match serde_json::from_str::<serde_json::Value>(text) {
        Ok(v) => v.pointer(ptr).and_then(serde_json::Value::as_u64),
        Err(_) => None,
    }
}

/// Relies on serde_json::from_str, Value::pointer and Value::as_str.
#[verifier::external_body]
pub(crate) fn string_at(text: &str, ptr: &str) -> (r: Option<String>)
    ensures
        r is Some <==> json_str_at(text@, ptr@) is Some,
        r matches Some(s) ==> s@ == json_str_at(text@, ptr@)->Some_0,
{
    match serde_json::from_str::<serde_json::Value>(text) {
        Ok(v) => v.pointer(ptr).and_then(serde_json::Value::as_str).map(str::to_string),
        Err(_) => None,
    }
}

/// Relies on serde_json::from_str, Value::pointer and Value's compact Display.
#[verifier::external_body]
pub(crate) fn text_at(text: &str, ptr: &str) -> (r: Option<String>)
    ensures
        r is Some <==> json_text_at(text@, ptr@) is Some,
        r matches Some(s) ==> s@ == json_text_at(text@, ptr@)->Some_0,
{
    match serde_json::from_str::<serde_json::Value>(text) {
        Ok(v) => v.pointer(ptr).map(serde_json::Value::to_string),
        Err(_) => None,
    }
}

/// Relies on serde_json::to_string on a str, which cannot fail for a string:
/// the string quoted, escaped by serde_json's escape table.
#[verifier::external_body]
pub(crate) fn quote(s: &str) -> (r: String)
    ensures
        r@ == json_quoted(s@),
{
    serde_json::to_string(s).unwrap_or_default()
}

} // verus!
