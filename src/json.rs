use vstd::prelude::*;

use crate::secret_store::opt_view;
use crate::strings::{chars_of, digit, digit_char, push_char};

verus! {

/// A lower-case hexadecimal digit.
pub open spec fn hex_char(d: nat) -> char {
    if d < 10 {
        digit_char(d)
    } else if d == 10 {
        'a'
    } else if d == 11 {
        'b'
    } else if d == 12 {
        'c'
    } else if d == 13 {
        'd'
    } else if d == 14 {
        'e'
    } else {
        'f'
    }
}

/// How a character stands in a JSON string, as serde_json writes it: quote
/// and backslash escaped, the five short control escapes, other control
/// characters as `\u00xx`, everything else as it is.
pub open spec fn json_escaped_char(c: char) -> Seq<char> {
    let v = c as u32;
    if c == '"' {
        seq!['\\', '"']
    } else if c == '\\' {
        seq!['\\', '\\']
    } else if v == 8 {
        seq!['\\', 'b']
    } else if v == 9 {
        seq!['\\', 't']
    } else if v == 10 {
        seq!['\\', 'n']
    } else if v == 12 {
        seq!['\\', 'f']
    } else if v == 13 {
        seq!['\\', 'r']
    } else if v < 32 {
        seq!['\\', 'u', '0', '0', hex_char((v / 16) as nat), hex_char((v % 16) as nat)]
    } else {
        seq![c]
    }
}

/// The first `n` characters of `s`, escaped.
pub open spec fn json_escaped_prefix(s: Seq<char>, n: nat) -> Seq<char>
    decreases n,
{
    if n == 0 {
        Seq::empty()
    } else {
        json_escaped_prefix(s, (n - 1) as nat) + json_escaped_char(s[n - 1])
    }
}

/// What `serde_json::to_string` writes for a string: the JSON string literal.
pub open spec fn json_string_literal(s: Seq<char>) -> Seq<char> {
    seq!['"'] + json_escaped_prefix(s, s.len()) + seq!['"']
}

fn hex(d: u32) -> (c: char)
    requires
        d < 16,
    ensures
        c == hex_char(d as nat),
{
    if d < 10 {
        digit(d as u64)
    } else if d == 10 {
        'a'
    } else if d == 11 {
        'b'
    } else if d == 12 {
        'c'
    } else if d == 13 {
        'd'
    } else if d == 14 {
        'e'
    } else {
        'f'
    }
}

fn push_escaped(r: &mut String, c: char)
    ensures
        final(r)@ == old(r)@ + json_escaped_char(c),
{
    let v = c as u32;
    let ghost start = r@;
    if c == '"' {
        push_char(r, '\\');
        push_char(r, '"');
    } else if c == '\\' {
        push_char(r, '\\');
        push_char(r, '\\');
    } else if v == 8 {
        push_char(r, '\\');
        push_char(r, 'b');
    } else if v == 9 {
        push_char(r, '\\');
        push_char(r, 't');
    } else if v == 10 {
        push_char(r, '\\');
        push_char(r, 'n');
    } else if v == 12 {
        push_char(r, '\\');
        push_char(r, 'f');
    } else if v == 13 {
        push_char(r, '\\');
        push_char(r, 'r');
    } else if v < 32 {
        push_char(r, '\\');
        push_char(r, 'u');
        push_char(r, '0');
        push_char(r, '0');
        push_char(r, hex(v / 16));
        push_char(r, hex(v % 16));
    } else {
        push_char(r, c);
    }
    assert(r@ =~= start + json_escaped_char(c));
}

/// Whether `serde_json::from_str` reads the text as a JSON document.
pub uninterp spec fn json_valid(text: Seq<char>) -> bool;

/// The string that the JSON Pointer `pointer` selects in the document `text`
/// (`serde_json::Value::pointer`, then `as_str`).
pub uninterp spec fn json_text_at_of(text: Seq<char>, pointer: Seq<char>) -> Option<Seq<char>>;

/// The unsigned integer that the JSON Pointer `pointer` selects in `text`
/// (`serde_json::Value::pointer`, then `as_u64`).
pub uninterp spec fn json_u64_at_of(text: Seq<char>, pointer: Seq<char>) -> Option<u64>;

/// The length of the array that the JSON Pointer `pointer` selects in `text`
/// (`serde_json::Value::pointer`, then `as_array`).
pub uninterp spec fn json_len_at_of(text: Seq<char>, pointer: Seq<char>) -> Option<usize>;

/// The JSON string literal of a string, as `serde_json::to_string` writes it.
pub(crate) fn json_quote(s: &str) -> (r: String)
    ensures
        r@ == json_string_literal(s@),
{
    let cs = chars_of(s);
    let mut r = String::new();
    push_char(&mut r, '"');
    let mut i: usize = 0;
    while i < cs.len()
        invariant
            0 <= i <= cs@.len(),
            cs@ == s@,
            r@ == seq!['"'] + json_escaped_prefix(s@, i as nat),
        decreases cs@.len() - i,
    {
        push_escaped(&mut r, cs[i]);
        i = i + 1;
    }
    push_char(&mut r, '"');
    r
}

/// Relies on serde_json::from_str into a `Value`: whether the text parses,
/// which depends on the text alone.
#[verifier::external_body]
pub(crate) fn json_is_valid(text: &str) -> (r: bool)
    ensures
        r == json_valid(text@),
{
    serde_json::from_str::<serde_json::Value>(text).is_ok()
}

/// Relies on serde_json::from_str, Value::pointer and Value::as_str: the
/// string at a JSON Pointer, which depends on the text and the pointer
/// alone; none for text that does not parse.
#[verifier::external_body]
pub(crate) fn json_text_at(text: &str, pointer: &str) -> (r: Option<String>)
    ensures
        opt_view(r) == json_text_at_of(text@, pointer@),
        !json_valid(text@) ==> r is None,
{
    serde_json::from_str::<serde_json::Value>(text)
        .ok()
        .and_then(|v| v.pointer(pointer).and_then(|x| x.as_str()).map(String::from))
}

/// Relies on serde_json::from_str, Value::pointer and Value::as_u64: the
/// unsigned integer at a JSON Pointer; none for text that does not parse.
#[verifier::external_body]
pub(crate) fn json_u64_at(text: &str, pointer: &str) -> (r: Option<u64>)
    ensures
        r == json_u64_at_of(text@, pointer@),
        !json_valid(text@) ==> r is None,
{
    serde_json::from_str::<serde_json::Value>(text).ok().and_then(|v| v.pointer(pointer).and_then(|x| x.as_u64()))
}

/// Relies on serde_json::from_str, Value::pointer and Value::as_array: the
/// length of the array at a JSON Pointer; none for text that does not parse.
#[verifier::external_body]
pub(crate) fn json_len_at(text: &str, pointer: &str) -> (r: Option<usize>)
    ensures
        r == json_len_at_of(text@, pointer@),
        !json_valid(text@) ==> r is None,
{
    serde_json::from_str::<serde_json::Value>(text)
        .ok()
        .and_then(|v| v.pointer(pointer).and_then(|x| x.as_array()).map(|a| a.len()))
}

} // verus!
