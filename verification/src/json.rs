//! The JSON reader behind the chooser wire format.
//!
//! Parsing is `serde_json`'s. Nothing here is proved about it: each item
//! below either declares one of its types or gives one of its functions a
//! contract that only names the result, so that callers can say exactly
//! which of its answers they act on.

use vstd::prelude::*;

verus! {

/// `serde_json::Value`, a parsed JSON document; opaque to the verifier.
#[verifier::external_type_specification]
#[verifier::external_body]
pub struct ExValue(serde_json::Value);

/// `serde_json::Error`, the reason a text was not accepted; opaque.
#[verifier::external_type_specification]
#[verifier::external_body]
pub struct ExError(serde_json::Error);

/// What the wire format reads of a JSON document: its members that are
/// strings and its members that are unsigned integers, each by key.
pub struct Document {
    pub texts: Map<Seq<char>, Seq<char>>,
    pub numbers: Map<Seq<char>, u64>,
}

/// The string members of a document: the keys under which `Value::get`
/// finds a value that `Value::as_str` reads as a string, each with that
/// string. Empty for a document that is not an object.
pub uninterp spec fn texts(value: serde_json::Value) -> Map<Seq<char>, Seq<char>>;

/// The unsigned members of a document: the keys under which `Value::get`
/// finds a value that `Value::as_u64` reads as a number, each with that
/// number. Empty for a document that is not an object.
pub uninterp spec fn numbers(value: serde_json::Value) -> Map<Seq<char>, u64>;

/// The members of the document that `serde_json::from_str` reads from a
/// text, if it accepts the text.
pub uninterp spec fn parsed(text: Seq<char>) -> Option<Document>;

/// The entry of a map under a key, if there is one.
pub open spec fn lookup<V>(m: Map<Seq<char>, V>, key: Seq<char>) -> Option<V> {
    if m.contains_key(key) {
        Some(m[key])
    } else {
        None
    }
}

/// Calls `serde_json::from_str` for a `Value`. The contract names the
/// outcome `parsed(text)` and claims no more: the same text is always
/// refused, or always read as a document with the same members.
#[verifier::external_body]
pub(crate) fn parse(text: &str) -> (res: Result<serde_json::Value, serde_json::Error>)
    ensures
        match res {
            Ok(v) => parsed(text@) == Some(Document { texts: texts(v), numbers: numbers(v) }),
            Err(_) => parsed(text@) is None,
        },
{
    serde_json::from_str::<serde_json::Value>(text)
}

/// Calls `Value::get` with a string key and hands out the member it
/// finds as a string, by `Value::as_str`. The contract names the outcome
/// as the entry of `texts(value)` under the key.
#[verifier::external_body]
pub(crate) fn text_member(value: &serde_json::Value, key: &str) -> (res: Option<String>)
    ensures
        match res {
            Some(s) => lookup(texts(*value), key@) == Some(s@),
            None => lookup(texts(*value), key@) is None,
        },
{
    let member = value.get(key)?;
    let text = member.as_str()?;
    Some(text.to_owned())
}

/// Calls `Value::get` with a string key and hands out the member it
/// finds as a number, by `Value::as_u64`. The contract names the outcome
/// as the entry of `numbers(value)` under the key.
#[verifier::external_body]
pub(crate) fn unsigned_member(value: &serde_json::Value, key: &str) -> (res: Option<u64>)
    ensures
        res == lookup(numbers(*value), key@),
{
    let member = value.get(key)?;
    member.as_u64()
}

} // verus!
