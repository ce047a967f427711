//! The JSON texts the framework exchanges: flat objects whose members are all
//! strings (bus envelopes, HTTP reply bodies) and the reading of one member
//! back out of a document. Printing and parsing are serde_json's.
use vstd::prelude::*;
use crate::communication::multibus::opt_text;

verus! {

/// `(key, value)` pairs of strings, taken by their views.
pub open spec fn pair_views(fields: Seq<(String, String)>) -> Seq<(Seq<char>, Seq<char>)> {
    fields.map_values(|p: (String, String)| (p.0@, p.1@))
}

/// No key occurs twice among `fields`.
pub open spec fn distinct_keys(fields: Seq<(Seq<char>, Seq<char>)>) -> bool {
    forall|i: int, j: int| 0 <= i < j < fields.len() ==> fields[i].0 != fields[j].0
}

/// The text that serde_json prints for the JSON object whose members are
/// `fields`, each key bound to a JSON string holding its value.
pub uninterp spec fn json_object_text(fields: Seq<(Seq<char>, Seq<char>)>) -> Seq<char>;

/// The lower-case hexadecimal digit of `n` (for `0 <= n < 16`).
pub open spec fn hex_digit(n: int) -> char {
    if n < 10 {
        (n + '0' as int) as char
    } else {
        (n - 10 + 'a' as int) as char
    }
}

/// How serde_json writes character `c` inside a JSON string: `"` and `\`
/// behind a backslash, the control characters with a short escape where JSON
/// has one (`\b`, `\t`, `\n`, `\f`, `\r`) and as `\u00XX` otherwise, and
/// every other character as itself.
pub open spec fn json_escape(c: char) -> Seq<char> {
    if c == '"' {
        seq!['\\', '"']
    } else if c == '\\' {
        seq!['\\', '\\']
    } else if c == '\u{8}' {
        seq!['\\', 'b']
    } else if c == '\t' {
        seq!['\\', 't']
    } else if c == '\n' {
        seq!['\\', 'n']
    } else if c == '\u{c}' {
        seq!['\\', 'f']
    } else if c == '\r' {
        seq!['\\', 'r']
    } else if (c as int) < 0x20 {
        seq!['\\', 'u', '0', '0', hex_digit(c as int / 16), hex_digit(c as int % 16)]
    } else {
        seq![c]
    }
}

/// The characters of `s`, each written as `json_escape` writes it.
pub open spec fn json_escaped(s: Seq<char>) -> Seq<char>
    decreases s.len(),
{
    if s.len() == 0 {
        Seq::empty()
    } else {
        json_escaped(s.drop_last()) + json_escape(s.last())
    }
}

/// The text that serde_json prints for a JSON string holding `s`: `s` with
/// its characters escaped, between double quotes.
pub open spec fn json_string_literal(s: Seq<char>) -> Seq<char> {
    seq!['"'] + json_escaped(s) + seq!['"']
}

/// What serde_json makes of member `key` of the JSON document `text`:
/// `None` when the text is not JSON; otherwise the member printed as JSON
/// (`null` when the document is not an object or has no such member).
pub uninterp spec fn json_member_text(text: Seq<char>, key: Seq<char>) -> Option<Seq<char>>;

/// What serde_json makes of member `key` of the JSON document `text`, read as
/// a string: `None` when the text is not JSON; otherwise the content of the
/// member when it is a JSON string, or `None` inside.
pub uninterp spec fn json_member_str(text: Seq<char>, key: Seq<char>) -> Option<Option<Seq<char>>>;

/// The member `key` of an object made of string members `fields`: the value
/// bound to the first occurrence of the key, if any.
pub open spec fn member_of(fields: Seq<(Seq<char>, Seq<char>)>, key: Seq<char>) -> Option<Seq<char>>
    decreases fields.len(),
{
    if fields.len() == 0 {
        None
    } else if fields[0].0 == key {
        Some(fields[0].1)
    } else {
        member_of(fields.drop_first(), key)
    }
}

/// The member `key` of an object made of string members `fields`, printed as
/// JSON: the JSON string of its value, or `null` when there is none.
pub open spec fn member_text_of(fields: Seq<(Seq<char>, Seq<char>)>, key: Seq<char>) -> Seq<char> {
    match member_of(fields, key) {
        Some(v) => json_string_literal(v),
        None => "null"@,
    }
}

/// Prints the JSON object whose members are `fields`, each value a JSON string
/// (`serde_json::Value::Object` of `serde_json::Value::String`s, printed by its
/// `Display`). The contract names the printed text `json_object_text` of the
/// pairs; nothing is claimed of its characters.
#[verifier::external_body]
pub(crate) fn json_object_of_strings(fields: &Vec<(String, String)>) -> (text: String)
    ensures
        text@ == json_object_text(pair_views(fields@)),
{
    serde_json::Value::Object(
        fields.iter().map(|(k, v)| (k.clone(), serde_json::Value::String(v.clone()))).collect(),
    ).to_string()
}

/// Prints the JSON string holding `s` (`serde_json::Value::String`, printed by
/// its `Display`): `s` escaped as serde_json's escape table does, between
/// double quotes.
#[verifier::external_body]
pub(crate) fn json_string(s: &str) -> (text: String)
    ensures
        text@ == json_string_literal(s@),
{
    serde_json::Value::String(s.to_string()).to_string()
}

/// Parses `text` with `serde_json::from_str` into a `serde_json::Value` and
/// prints its member `key` (`document[key]`, by `Display`). The contract names
/// the outcome `json_member_text`, and states the fact of serde_json that the
/// framework relies on: what `json_object_of_strings` printed parses back, and
/// a key that occurs once gives back its value, printed as a JSON string.
#[verifier::external_body]
pub(crate) fn read_json_member_text(text: &str, key: &str) -> (member: Option<String>)
    ensures
        member is None <==> json_member_text(text@, key@) is None,
        member is Some ==> json_member_text(text@, key@) == Some(member.unwrap()@),
        forall|fields: Seq<(Seq<char>, Seq<char>)>|
            distinct_keys(fields) && text@ == #[trigger] json_object_text(fields) ==> member is Some
                && member.unwrap()@ == member_text_of(fields, key@),
{
    match serde_json::from_str::<serde_json::Value>(text) {
        Err(_) => None,
        Ok(document) => Some(document[key].to_string()),
    }
}

/// Parses `text` with `serde_json::from_str` into a `serde_json::Value` and
/// reads its member `key` as a string (`document[key].as_str()`). The contract
/// names the outcome `json_member_str`, and states that what
/// `json_object_of_strings` printed parses back, and a key that occurs once
/// gives back its value.
#[verifier::external_body]
pub(crate) fn read_json_member_str(text: &str, key: &str) -> (member: Option<Option<String>>)
    ensures
        member is None <==> json_member_str(text@, key@) is None,
        member is Some ==> json_member_str(text@, key@) == Some(
            opt_text(member.unwrap()),
        ),
        forall|fields: Seq<(Seq<char>, Seq<char>)>|
            distinct_keys(fields) && text@ == #[trigger] json_object_text(fields) ==> member is Some
                && opt_text(member.unwrap()) == member_of(fields, key@),
{
    match serde_json::from_str::<serde_json::Value>(text) {
        Err(_) => None,
        Ok(document) => match document[key].as_str() {
            Some(s) => Some(Some(s.to_string())),
            None => Some(None),
        },
    }
}

} // verus!
