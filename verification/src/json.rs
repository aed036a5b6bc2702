//! JSON documents, built and written out by `serde_json`.
//!
//! A document is a value of `serde_json`; the library sees nothing inside
//! it. The functions here are believed, not proved: each says which value of
//! the outside crate its result is, by a name.
use vstd::prelude::*;

verus! {

/// A JSON value of `serde_json`, carried through and never looked into.
#[verifier::external_type_specification]
#[verifier::external_body]
pub struct ExJsonValue(serde_json::Value);

/// The map of `serde_json` that a JSON object is made of.
#[verifier::external_type_specification]
#[verifier::external_body]
#[verifier::reject_recursive_types(K)]
#[verifier::reject_recursive_types(V)]
pub struct ExJsonMap<K, V>(serde_json::Map<K, V>);

/// The JSON string that holds the characters `s`.
pub uninterp spec fn text_value(s: Seq<char>) -> serde_json::Value;

/// The JSON number `n`.
pub uninterp spec fn count_value(n: u64) -> serde_json::Value;

/// The JSON array that holds `items`, in this order.
pub uninterp spec fn list_value(items: Seq<serde_json::Value>) -> serde_json::Value;

/// The JSON object that holds `entries`.
pub uninterp spec fn object_value(
    entries: Map<Seq<char>, serde_json::Value>,
) -> serde_json::Value;

/// The keys of a map of `serde_json`, each with its value.
pub uninterp spec fn record_entries(m: serde_json::Map<String, serde_json::Value>) -> Map<
    Seq<char>,
    serde_json::Value,
>;

/// What `serde_json` makes of `v` when it is asked to write it in a layout
/// that people can read: the text, or the words of the error with which
/// its writer gives up.
pub uninterp spec fn pretty_result(v: serde_json::Value) -> Result<Seq<char>, Seq<char>>;

/// No key and no value.
pub open spec fn no_entries() -> Map<Seq<char>, serde_json::Value> {
    Map::empty()
}

/// `Value::from` on a `&str`: the string value with a copy of `s`.
#[verifier::external_body]
pub(crate) fn json_text(s: &str) -> (r: serde_json::Value)
    ensures
        r == text_value(s@),
{
    serde_json::Value::from(s)
}

/// `Value::from` on a `u64`: the number value `n`.
#[verifier::external_body]
pub(crate) fn json_count(n: u64) -> (r: serde_json::Value)
    ensures
        r == count_value(n),
{
    serde_json::Value::from(n)
}

/// `Value::from` on a `Vec<Value>`: the array value that holds the items as given.
#[verifier::external_body]
pub(crate) fn json_list(items: Vec<serde_json::Value>) -> (r: serde_json::Value)
    ensures
        r == list_value(items@),
{
    serde_json::Value::from(items)
}

/// `Map::new`: a map without keys.
#[verifier::external_body]
pub(crate) fn new_record() -> (r: serde_json::Map<String, serde_json::Value>)
    ensures
        record_entries(r) == no_entries(),
{
    serde_json::Map::new()
}

/// `Map::insert`: afterwards `key` has the value `v`, whether or not it had
/// one before, and every other key has what it had.
#[verifier::external_body]
pub(crate) fn record_put(
    m: &mut serde_json::Map<String, serde_json::Value>,
    key: &str,
    v: serde_json::Value,
)
    ensures
        record_entries(*final(m)) == record_entries(*old(m)).insert(key@, v),
{
    m.insert(key.to_string(), v);
}

/// `Value::from` on a `Map`: the object value that holds the map's entries.
/// The map keeps its keys sorted, so what it holds decides the value.
#[verifier::external_body]
pub(crate) fn json_object(m: serde_json::Map<String, serde_json::Value>) -> (r: serde_json::Value)
    ensures
        r == object_value(record_entries(m)),
{
    serde_json::Value::from(m)
}

/// `serde_json::to_string_pretty`: the text of `v` in the readable layout,
/// or the words of the error with which the writer gave up. Which of the two
/// comes out, and what it holds, depends on `v` alone.
#[verifier::external_body]
pub(crate) fn json_pretty(v: &serde_json::Value) -> (r: Result<String, String>)
    ensures
        match pretty_result(*v) {
            Ok(text) => r matches Ok(s) && s@ == text,
            Err(words) => r matches Err(w) && w@ == words,
        },
{
    serde_json::to_string_pretty(v).map_err(|e| e.to_string())
}

} // verus!
