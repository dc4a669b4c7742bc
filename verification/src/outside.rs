//! The calls into other crates, each with the contract that is taken on trust.

use base64::Engine;
use vstd::prelude::*;

verus! {

/// The reason phrase that `reqwest::StatusCode` shows after a status code.
pub uninterp spec fn reason_phrase(code: u16) -> Seq<char>;

/// `reqwest::StatusCode`'s `Display`: the code in decimal, a space and the
/// reason phrase. The phrase is a function of the code alone (a fixed table,
/// with one phrase for all codes that the table lacks); which phrase belongs
/// to which code is not stated.
#[verifier::external_body]
pub(crate) fn status_line(code: u16) -> (line: String)
    requires
        100 <= code <= 999,
    ensures
        line@ == crate::text::decimal(code as nat) + " "@ + reason_phrase(code),
{
    reqwest::StatusCode::from_u16(code).unwrap().to_string()
}

/// `encode` of `base64::engine::general_purpose::STANDARD`: the base64 encoding
/// in the standard alphabet, padded. It is built in one buffer, so an encoding
/// longer than the largest buffer is left out.
#[verifier::external_body]
pub(crate) fn base64_encode(data: &[u8]) -> (encoded: String)
    requires
        crate::encoding::base64_length(data@.len()) <= isize::MAX,
    ensures
        encoded@ == crate::encoding::base64_standard(data@),
{
    base64::engine::general_purpose::STANDARD.encode(data)
}

/// `toml::map::Map`, the table type of the `toml` crate.
#[verifier::external_type_specification]
#[verifier::external_body]
#[verifier::reject_recursive_types(K)]
#[verifier::reject_recursive_types(V)]
pub struct ExTomlMap<K, V>(toml::map::Map<K, V>);

/// `toml::Value`, the value type of the `toml` crate.
#[verifier::external_type_specification]
#[verifier::external_body]
pub struct ExTomlValue(toml::Value);

/// The entries of a TOML table whose values are strings.
pub uninterp spec fn string_entries(table: toml::map::Map<String, toml::Value>) -> Map<
    Seq<char>,
    Seq<char>,
>;

/// The string entries at the top level of a TOML document, if the text is one.
pub uninterp spec fn document_strings(document: Seq<char>) -> Option<Map<Seq<char>, Seq<char>>>;

/// `toml::from_str` to a `toml::Table`: whether the text is a TOML document,
/// and which strings stand at its top level, are functions of the text alone.
#[verifier::external_body]
pub(crate) fn parse_document(document: &str) -> (parsed: Option<
    toml::map::Map<String, toml::Value>,
>)
    ensures
        match parsed {
            Some(table) => document_strings(document@) == Some(string_entries(table)),
            None => document_strings(document@) is None,
        },
{
    toml::from_str(document).ok()
}

/// `toml::Table::get` followed by `toml::Value::as_str`: the string under
/// `key`, or nothing where the table has no such key or the value under it is
/// not a string.
#[verifier::external_body]
pub(crate) fn string_entry(table: &toml::map::Map<String, toml::Value>, key: &str) -> (entry:
    Option<String>)
    ensures
        match entry {
            Some(value) => string_entries(*table).contains_pair(key@, value@),
            None => !string_entries(*table).contains_key(key@),
        },
{
    table.get(key).and_then(toml::Value::as_str).map(str::to_string)
}

} // verus!
