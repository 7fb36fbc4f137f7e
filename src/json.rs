//! JSON documents, handled through serde_json. What serde_json computes is
//! named here; the library's contracts speak of those names.

use vstd::prelude::*;

verus! {

/// Whether `text` is a JSON document.
pub uninterp spec fn json_valid(text: Seq<char>) -> bool;

/// The document `text` printed back by serde_json with indentation.
pub uninterp spec fn json_pretty(text: Seq<char>) -> Option<Seq<char>>;

/// The compact JSON text of the member `key` of the object that `text` holds.
pub uninterp spec fn json_member(text: Seq<char>, key: Seq<char>) -> Option<Seq<char>>;

/// The string held by the member `key` of the object that `text` holds.
pub uninterp spec fn json_string_member(text: Seq<char>, key: Seq<char>) -> Option<Seq<char>>;

/// The object that `text` holds with its member `key` set to the document
/// `member`, printed with indentation.
pub uninterp spec fn json_with_member(
    text: Seq<char>,
    key: Seq<char>,
    member: Seq<char>,
) -> Option<Seq<char>>;

/// `s` written as a JSON string literal.
pub uninterp spec fn json_quoted(s: Seq<char>) -> Seq<char>;

/// Relies on serde_json::from_str into a `serde_json::Value`: whether it succeeds.
#[verifier::external_body]
pub fn is_json(text: &str) -> (r: bool)
    ensures
        r == json_valid(text@),
{
    serde_json::from_str::<serde_json::Value>(text).is_ok()
}

/// Relies on serde_json::from_str and serde_json::to_string_pretty on a
/// `serde_json::Value`: parse the document, print it with indentation.
#[verifier::external_body]
pub fn pretty(text: &str) -> (r: Option<String>)
    ensures
        match r {
            Some(t) => json_pretty(text@) == Some(t@),
            None => json_pretty(text@) is None,
        },
        r is Some ==> json_valid(text@),
{
    let v: serde_json::Value = serde_json::from_str(text).ok()?;
    serde_json::to_string_pretty(&v).ok()
}

/// Relies on serde_json::from_str, `serde_json::Value::get` and the compact
/// `Display` of `serde_json::Value`: one member of an object, as JSON text.
#[verifier::external_body]
pub fn member(text: &str, key: &str) -> (r: Option<String>)
    ensures
        match r {
            Some(t) => json_member(text@, key@) == Some(t@),
            None => json_member(text@, key@) is None,
        },
        r is Some ==> json_valid(text@),
{
    let v: serde_json::Value = serde_json::from_str(text).ok()?;
    v.get(key).map(|m| m.to_string())
}

/// Relies on serde_json::from_str, `serde_json::Value::get` and
/// `serde_json::Value::as_str`: the string held by one member of an object.
#[verifier::external_body]
pub fn string_member(text: &str, key: &str) -> (r: Option<String>)
    ensures
        match r {
            Some(t) => json_string_member(text@, key@) == Some(t@),
            None => json_string_member(text@, key@) is None,
        },
{
    let v: serde_json::Value = serde_json::from_str(text).ok()?;
    v.get(key)?.as_str().map(String::from)
}

/// Relies on serde_json::from_str, `serde_json::Value::as_object_mut`,
/// `serde_json::Map::insert` and serde_json::to_string_pretty: replace one
/// member of an object and print the object with indentation.
#[verifier::external_body]
pub fn with_member(text: &str, key: &str, member: &str) -> (r: Option<String>)
    ensures
        match r {
            Some(t) => json_with_member(text@, key@, member@) == Some(t@),
            None => json_with_member(text@, key@, member@) is None,
        },
{
    let mut v: serde_json::Value = serde_json::from_str(text).ok()?;
    let m: serde_json::Value = serde_json::from_str(member).ok()?;
    v.as_object_mut()?.insert(key.to_string(), m);
    serde_json::to_string_pretty(&v).ok()
}

/// Relies on serde_json::to_string on a `str`: the string as a JSON literal.
/// Serialising a `str` into memory does not fail.
#[verifier::external_body]
pub fn quoted(s: &str) -> (r: String)
    ensures
        r@ == json_quoted(s@),
{
    serde_json::to_string(s).unwrap_or_default()
}

} // verus!
