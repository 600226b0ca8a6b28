//! Read-only access to JSON documents, through `serde_json`.
//!
//! Values are addressed by JSON Pointer (RFC 6901). What a lookup yields is
//! named over the document's text, so that decoders can state their results
//! exactly in terms of these names.

use vstd::prelude::*;
use crate::models::opt_view;
use crate::text::{chars_of, decimal, push_all, push_decimal, push_str, string_of};

verus! {

#[verifier::external_type_specification]
#[verifier::external_body]
pub struct ExJsonValue(serde_json::Value);

/// Whether `text` parses as one JSON value.
pub uninterp spec fn json_valid(text: Seq<char>) -> bool;

/// The string found at pointer `ptr` in the document `text`, if it is a string.
pub uninterp spec fn json_str_at(text: Seq<char>, ptr: Seq<char>) -> Option<Seq<char>>;

/// The unsigned integer found at pointer `ptr` in `text`, if it is one that fits in `u64`.
pub uninterp spec fn json_u64_at(text: Seq<char>, ptr: Seq<char>) -> Option<u64>;

/// The length of the array found at pointer `ptr` in `text`, if it is an array.
pub uninterp spec fn json_len_at(text: Seq<char>, ptr: Seq<char>) -> Option<nat>;

/// Whether pointer `ptr` addresses any value in `text`.
pub uninterp spec fn json_has(text: Seq<char>, ptr: Seq<char>) -> bool;

/// A parsed document together with the text it was parsed from.
pub struct JsonDoc {
    text: String,
    value: serde_json::Value,
}

/// Relies on `serde_json::from_str::<Value>`: whether the text is one JSON value.
#[verifier::external_body]
fn parse_value(text: &str) -> (r: Option<serde_json::Value>)
    ensures
        r is Some == json_valid(text@),
{
    serde_json::from_str::<serde_json::Value>(text).ok()
}

impl JsonDoc {
    pub closed spec fn source(&self) -> Seq<char> {
        self.text@
    }

    /// Parses `text`; the value is kept only together with its own text.
    pub fn parse(text: &str) -> (r: Option<JsonDoc>)
        ensures
            r is Some == json_valid(text@),
            r matches Some(d) ==> d.source() == text@,
    {
        match parse_value(text) {
            Some(value) => Some(JsonDoc { text: String::from_str(text), value }),
            None => None,
        }
    }

    /// Relies on `Value::pointer` followed by `Value::as_str`.
    #[verifier::external_body]
    pub(crate) fn str_at(&self, ptr: &str) -> (r: Option<String>)
        ensures
            opt_view(r) == json_str_at(self.source(), ptr@),
    {
        self.value.pointer(ptr).and_then(|v| v.as_str()).map(|s| s.to_string())
    }

    /// Relies on `Value::pointer` followed by `Value::as_u64`.
    #[verifier::external_body]
    pub(crate) fn u64_at(&self, ptr: &str) -> (r: Option<u64>)
        ensures
            r == json_u64_at(self.source(), ptr@),
    {
        self.value.pointer(ptr).and_then(|v| v.as_u64())
    }

    /// Relies on `Value::pointer` followed by `Value::as_array` and `Vec::len`.
    #[verifier::external_body]
    pub(crate) fn len_at(&self, ptr: &str) -> (r: Option<usize>)
        ensures
            match r {
                Some(n) => json_len_at(self.source(), ptr@) == Some(n as nat),
                None => json_len_at(self.source(), ptr@) is None,
            },
    {
        self.value.pointer(ptr).and_then(|v| v.as_array()).map(|a| a.len())
    }

    /// Relies on `Value::pointer`: whether the pointer addresses a value.
    #[verifier::external_body]
    pub(crate) fn has(&self, ptr: &str) -> (r: bool)
        ensures
            r == json_has(self.source(), ptr@),
    {
        self.value.pointer(ptr).is_some()
    }

    /// The string at `ptr`, or `default` when there is none.
    pub fn str_or(&self, ptr: &str, default: &str) -> (r: String)
        ensures
            r@ == str_or_spec(self.source(), ptr@, default@),
    {
        match self.str_at(ptr) {
            Some(s) => s,
            None => String::from_str(default),
        }
    }

    /// The length of the array at `ptr`, or zero when there is none.
    pub fn len_or_zero(&self, ptr: &str) -> (r: usize)
        ensures
            r as nat == len_or_zero_spec(self.source(), ptr@),
    {
        match self.len_at(ptr) {
            Some(n) => n,
            None => 0,
        }
    }
}

pub open spec fn str_or_spec(text: Seq<char>, ptr: Seq<char>, default: Seq<char>) -> Seq<char> {
    match json_str_at(text, ptr) {
        Some(s) => s,
        None => default,
    }
}

pub open spec fn len_or_zero_spec(text: Seq<char>, ptr: Seq<char>) -> nat {
    match json_len_at(text, ptr) {
        Some(n) => n,
        None => 0,
    }
}

/// The pointer `base`, then the index `i`, then `tail`.
pub open spec fn indexed(base: Seq<char>, i: nat, tail: Seq<char>) -> Seq<char> {
    base + decimal(i) + tail
}

pub fn indexed_ptr(base: &str, i: usize, tail: &str) -> (r: String)
    ensures
        r@ == indexed(base@, i as nat, tail@),
{
    let mut v = chars_of(base);
    push_decimal(&mut v, i as u64);
    push_str(&mut v, tail);
    string_of(&v)
}


pub open spec fn lower_hex_digit(n: nat) -> char {
    if n < 10 {
        ((48 + n) as u8) as char
    } else {
        ((87 + n) as u8) as char
    }
}

/// How one character is written inside a JSON string: `"` and `\` escaped,
/// control characters as `\b \t \n \f \r` or `\u00xx`, anything else as is.
pub open spec fn json_escape(c: char) -> Seq<char> {
    let u = c as u32;
    if c == '"' {
        seq!['\\', '"']
    } else if c == '\\' {
        seq!['\\', '\\']
    } else if u == 8 {
        seq!['\\', 'b']
    } else if u == 9 {
        seq!['\\', 't']
    } else if u == 10 {
        seq!['\\', 'n']
    } else if u == 12 {
        seq!['\\', 'f']
    } else if u == 13 {
        seq!['\\', 'r']
    } else if u < 32 {
        seq!['\\', 'u', '0', '0', lower_hex_digit(u as nat / 16), lower_hex_digit(u as nat % 16)]
    } else {
        seq![c]
    }
}

pub open spec fn json_escaped(s: Seq<char>) -> Seq<char>
    decreases s.len(),
{
    if s.len() == 0 {
        Seq::empty()
    } else {
        json_escaped(s.drop_last()) + json_escape(s.last())
    }
}

/// `s` as a JSON string literal: quoted, with the characters JSON requires escaped.
pub open spec fn json_quoted(s: Seq<char>) -> Seq<char> {
    seq!['"'] + json_escaped(s) + seq!['"']
}

/// Relies on `serde_json::to_string` on a string slice, which cannot fail for
/// one; its escaping is serde_json's `ESCAPE` table with lower-case hex digits.
#[verifier::external_body]
pub(crate) fn json_quote(s: &str) -> (r: String)
    ensures
        r@ == json_quoted(s@),
{
    serde_json::to_string(s).unwrap_or_default()
}

/// `"key":value` after an opening brace or a comma.
pub open spec fn member(key: Seq<char>, value: Seq<char>) -> Seq<char> {
    "\""@ + key + "\":"@ + value
}

/// A JSON object of `{"title":...}` entries, one per string of `v[..k]`.
pub open spec fn titles_json(v: Seq<String>, k: nat) -> Seq<char>
    decreases k,
{
    if k == 0 {
        Seq::empty()
    } else if k == 1 {
        "{\"title\":"@ + json_quoted(v[0]@) + "}"@
    } else {
        titles_json(v, (k - 1) as nat) + ","@ + "{\"title\":"@ + json_quoted(v[k - 1]@) + "}"@
    }
}

/// The array `[{"title":...},...]` of a list of strings.
pub fn titles_array(v: &Vec<String>) -> (r: String)
    ensures
        r@ == "["@ + titles_json(v@, v@.len()) + "]"@,
{
    let mut out: Vec<char> = Vec::new();
    let mut i: usize = 0;
    while i < v.len()
        invariant
            i <= v@.len(),
            out@ == titles_json(v@, i as nat),
        decreases v@.len() - i,
    {
        if i > 0 {
            push_str(&mut out, ",");
        }
        push_str(&mut out, "{\"title\":");
        let q = json_quote(v[i].as_str());
        push_str(&mut out, q.as_str());
        push_str(&mut out, "}");
        i = i + 1;
        assert(out@ =~= titles_json(v@, i as nat));
    }
    let mut r = chars_of("[");
    push_all(&mut r, &out);
    push_str(&mut r, "]");
    string_of(&r)
}

}
