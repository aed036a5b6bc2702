//! TOML tables, kept, written and read by `toml`.
//!
//! A table is a map of `toml` from keys to values; the library sees nothing
//! inside either. The functions here are believed, not proved. What a table
//! holds is named by [`table_entries`]; what a value holds, where it is a
//! string or a table, by [`value_text`] and [`value_table`].
use vstd::prelude::*;

verus! {

/// The map of `toml` that a table is: `toml::Table` is this map from
/// `String` to `toml::Value`.
#[verifier::external_type_specification]
#[verifier::external_body]
#[verifier::reject_recursive_types(K)]
#[verifier::reject_recursive_types(V)]
pub struct ExTomlMap<K, V>(toml::map::Map<K, V>);

/// A value of `toml`, carried through and never looked into.
#[verifier::external_type_specification]
#[verifier::external_body]
pub struct ExTomlValue(toml::Value);

/// The keys of a table, each with its value.
pub uninterp spec fn table_entries(t: toml::map::Map<String, toml::Value>) -> Map<
    Seq<char>,
    toml::Value,
>;

/// The number of keys of a table.
pub uninterp spec fn table_size(t: toml::map::Map<String, toml::Value>) -> nat;

/// The characters of `v` where it is a string, and `None` where it is anything else.
pub uninterp spec fn value_text(v: toml::Value) -> Option<Seq<char>>;

/// The table in `v` where it is a table, and `None` where it is anything else.
pub uninterp spec fn value_table(v: toml::Value) -> Option<toml::map::Map<String, toml::Value>>;

/// What `toml` makes of the table `t` when it is asked to write it in its
/// layout for readers: the text, or the words of the error with which its
/// writer gives up.
pub uninterp spec fn toml_result(t: toml::map::Map<String, toml::Value>) -> Result<
    Seq<char>,
    Seq<char>,
>;

/// The table that `toml` reads from the text `s`, and `None` where it reads none.
pub uninterp spec fn toml_table(s: Seq<char>) -> Option<toml::map::Map<String, toml::Value>>;

/// `Map::new`: a table without keys.
#[verifier::external_body]
pub(crate) fn new_table() -> (r: toml::map::Map<String, toml::Value>)
    ensures
        table_entries(r).dom() == Set::<Seq<char>>::empty(),
        table_size(r) == 0,
{
    toml::map::Map::new()
}

/// `Map::insert`: afterwards `key` has the value `v`, whether or not it had
/// one before, and every other key has what it had. The table has one key
/// more where `key` was new to it.
#[verifier::external_body]
pub(crate) fn table_put(t: &mut toml::map::Map<String, toml::Value>, key: &str, v: toml::Value)
    ensures
        table_entries(*final(t)) == table_entries(*old(t)).insert(key@, v),
        table_size(*final(t)) == table_size(*old(t)) + if table_entries(*old(t)).dom().contains(
            key@,
        ) {
            0nat
        } else {
            1nat
        },
{
    t.insert(key.to_string(), v);
}

/// `Map::get`: the value of `key`, if the table has that key.
#[verifier::external_body]
pub(crate) fn table_get<'a>(t: &'a toml::map::Map<String, toml::Value>, key: &str) -> (r: Option<
    &'a toml::Value,
>)
    ensures
        r is Some == table_entries(*t).dom().contains(key@),
        r matches Some(v) ==> *v == table_entries(*t)[key@],
{
    t.get(key)
}

/// `Map::len`: the number of keys.
#[verifier::external_body]
pub(crate) fn table_len(t: &toml::map::Map<String, toml::Value>) -> (r: usize)
    ensures
        r == table_size(*t),
{
    t.len()
}

/// `Value::from` on a `&str`: the string value with a copy of `s`.
#[verifier::external_body]
pub(crate) fn text_value(s: &str) -> (r: toml::Value)
    ensures
        value_text(r) == Some(s@),
        value_table(r) is None,
{
    toml::Value::from(s)
}

/// `Value::Table`: the table value that holds `t`.
#[verifier::external_body]
pub(crate) fn table_value(t: toml::map::Map<String, toml::Value>) -> (r: toml::Value)
    ensures
        value_table(r) == Some(t),
        value_text(r) is None,
{
    toml::Value::Table(t)
}

/// `Value::as_str`: the string in `v`, if `v` is a string.
#[verifier::external_body]
pub(crate) fn value_as_text(v: &toml::Value) -> (r: Option<&str>)
    ensures
        r is Some == value_text(*v) is Some,
        r matches Some(s) ==> value_text(*v) == Some(s@),
{
    v.as_str()
}

/// `Value::as_table`: the table in `v`, if `v` is a table.
#[verifier::external_body]
pub(crate) fn value_as_table(v: &toml::Value) -> (r: Option<&toml::map::Map<String, toml::Value>>)
    ensures
        r is Some == value_table(*v) is Some,
        r matches Some(t) ==> value_table(*v) == Some(*t),
{
    v.as_table()
}

/// `toml::to_string_pretty` on a table: its text in the layout for readers,
/// or the words of the error with which the writer gave up. Which of the two
/// comes out, and what it holds, depends on `t` alone.
#[verifier::external_body]
pub(crate) fn write_table(t: &toml::map::Map<String, toml::Value>) -> (r: Result<String, String>)
    ensures
        match toml_result(*t) {
            Ok(text) => r matches Ok(s) && s@ == text,
            Err(words) => r matches Err(w) && w@ == words,
        },
{
    toml::to_string_pretty(t).map_err(|e| e.to_string())
}

/// `toml::from_str` for a table: the table that the text `s` describes, or
/// the words of the error where `s` is no TOML document.
#[verifier::external_body]
pub(crate) fn read_table(s: &str) -> (r: Result<toml::map::Map<String, toml::Value>, String>)
    ensures
        r matches Ok(t) ==> toml_table(s@) == Some(t),
        r is Err ==> toml_table(s@) is None,
{
    toml::from_str::<toml::map::Map<String, toml::Value>>(s).map_err(|e| e.to_string())
}

} // verus!
