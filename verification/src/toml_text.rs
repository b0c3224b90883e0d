//! The boundary to the toml crate: the type declarations, names for what
//! its pure functions return, and the thin wrappers through which
//! configuration text is parsed and its values are read. The verified
//! decoding logic in `config` speaks of these names and re-examines every
//! value the wrappers hand back.

use vstd::prelude::*;

verus! {

/// toml's TOML value: an enum over strings, integers, floats, booleans,
/// datetimes, arrays and tables. Opaque here; the wrappers below tell its
/// variants apart, and the names below stand for what they find.
#[verifier::external_type_specification]
#[verifier::external_body]
pub struct ExTomlValue(toml::Value);

/// toml's ordered map type; `toml::Table`, the payload of a TOML table,
/// is its instance with string keys and TOML values.
#[verifier::external_type_specification]
#[verifier::external_body]
#[verifier::reject_recursive_types(K)]
#[verifier::reject_recursive_types(V)]
pub struct ExTomlMap<K, V>(toml::map::Map<K, V>);

/// Whether `<toml::Table as core::str::FromStr>::from_str` accepts the
/// text. Parsing is a function of the text alone.
pub uninterp spec fn toml_parses(text: Seq<char>) -> bool;

/// The table the text parses to, when it parses.
pub uninterp spec fn toml_table_of(text: Seq<char>) -> toml::Table;

/// The message of the parse failure, when the text does not parse.
pub uninterp spec fn toml_parse_message(text: Seq<char>) -> Seq<char>;

/// Whether `toml::map::Map::get` finds the key in the table; a function of
/// table and key alone.
pub uninterp spec fn table_has_key(table: toml::Table, key: Seq<char>) -> bool;

/// The value `toml::map::Map::get` finds under the key, when it finds one.
pub uninterp spec fn table_value(table: toml::Table, key: Seq<char>) -> toml::Value;

/// Whether `toml::Value::as_bool` answers `Some`: the boolean variant.
pub uninterp spec fn value_is_bool(value: toml::Value) -> bool;

/// The boolean `toml::Value::as_bool` carries, on the boolean variant.
pub uninterp spec fn value_bool(value: toml::Value) -> bool;

/// Whether `toml::Value::as_str` answers `Some`: the string variant.
pub uninterp spec fn value_is_str(value: toml::Value) -> bool;

/// The string `toml::Value::as_str` carries, on the string variant.
pub uninterp spec fn value_str(value: toml::Value) -> Seq<char>;

/// Whether `toml::Value::as_table` answers `Some`: the table variant.
pub uninterp spec fn value_is_table(value: toml::Value) -> bool;

/// The table `toml::Value::as_table` carries, on the table variant.
pub uninterp spec fn value_table(value: toml::Value) -> toml::Table;

/// Relies on `<toml::Table as core::str::FromStr>::from_str`, which parses
/// TOML text into a table of the document's top-level keys — succeeding
/// exactly on valid TOML — and on `toml::de::Error::message` for the text
/// of a parse failure.
#[verifier::external_body]
pub(crate) fn parse_toml_table(text: &str) -> (r: Result<toml::Table, String>)
    ensures
        r is Ok <==> toml_parses(text@),
        r matches Result::Ok(t) ==> t == toml_table_of(text@),
        r matches Result::Err(m) ==> m@ == toml_parse_message(text@),
{
    match text.parse::<toml::Table>() {
        Ok(t) => Ok(t),
        Err(e) => Err(e.message().to_owned()),
    }
}

/// Relies on `toml::map::Map::get`: the value under `key`, exactly when
/// the table holds one.
#[verifier::external_body]
pub(crate) fn table_get<'a>(table: &'a toml::Table, key: &str) -> (r: Option<&'a toml::Value>)
    ensures
        r is Some <==> table_has_key(*table, key@),
        r matches Option::Some(v) ==> *v == table_value(*table, key@),
{
    table.get(key)
}

/// Relies on `toml::Value::as_table`: `Some` exactly on the table variant,
/// carrying its table.
#[verifier::external_body]
pub(crate) fn value_as_table<'a>(value: &'a toml::Value) -> (r: Option<&'a toml::Table>)
    ensures
        r is Some <==> value_is_table(*value),
        r matches Option::Some(t) ==> *t == value_table(*value),
{
    value.as_table()
}

/// Relies on `toml::Value::as_bool`: `Some` exactly on the boolean
/// variant, carrying its boolean.
#[verifier::external_body]
pub(crate) fn value_as_bool(value: &toml::Value) -> (r: Option<bool>)
    ensures
        r is Some <==> value_is_bool(*value),
        r matches Option::Some(b) ==> b == value_bool(*value),
{
    value.as_bool()
}

/// Relies on `toml::Value::as_str`: `Some` exactly on the string variant;
/// the string is copied out.
#[verifier::external_body]
pub(crate) fn value_as_str(value: &toml::Value) -> (r: Option<String>)
    ensures
        r is Some <==> value_is_str(*value),
        r matches Option::Some(s) ==> s@ == value_str(*value),
{
    match value.as_str() {
        Some(s) => Some(s.to_owned()),
        None => None,
    }
}

} // verus!
