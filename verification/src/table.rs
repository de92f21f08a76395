//! Parsed configuration values, as far as this library reads them.
//!
//! Only `text_at` is proved here. The other items state what the library
//! takes for granted of the `toml` crate.

use vstd::prelude::*;

verus! {

#[verifier::external_type_specification]
#[verifier::external_body]
pub struct ExValue(::toml::Value);

/// The entries of a table, by key. A value that is no table has none.
pub uninterp spec fn entries(value: ::toml::Value) -> Map<Seq<char>, ::toml::Value>;

/// The string that a value holds, if it is a TOML string.
pub uninterp spec fn text_of(value: ::toml::Value) -> Option<Seq<char>>;

/// The string under `key` in a value, if there is one: the value is a table,
/// has the key, and holds a TOML string under it.
pub open spec fn text_under(value: ::toml::Value, key: Seq<char>) -> Option<Seq<char>> {
    if entries(value).contains_key(key) {
        text_of(entries(value)[key])
    } else {
        None
    }
}

/// `toml::Value::get` with a string index: the entry under `key` where
/// `value` is a table that has the key, else `None`.
#[verifier::external_body]
pub(crate) fn member<'a>(value: &'a ::toml::Value, key: &str) -> (r: Option<&'a ::toml::Value>)
    ensures
        r is Some <==> entries(*value).contains_key(key@),
        r matches Some(found) ==> *found == entries(*value)[key@],
{
    value.get(key)
}

/// `toml::Value::as_str`: the string of a value that is a TOML string, else
/// `None`.
pub assume_specification<'a>[ ::toml::Value::as_str ](value: &'a ::toml::Value) -> (r: Option<&'a str>)
    ensures
        r is Some <==> text_of(*value) is Some,
        r matches Some(text) ==> text_of(*value) == Some(text@),
;

/// The string under `key` in a value, if there is one. An entry that is no
/// string counts as no entry.
pub(crate) fn text_at<'a>(value: &'a ::toml::Value, key: &str) -> (r: Option<&'a str>)
    ensures
        r.deep_view() == text_under(*value, key@),
{
    match member(value, key) {
        Some(found) => found.as_str(),
        None => None,
    }
}

} // verus!
