//! What the library takes on trust from serde_json, toml and csv.
//!
//! Each function here stands for one operation of an outside crate. Its
//! contract names the operation's result, which depends on the arguments
//! alone, and says no more than the crate's source shows.

use vstd::prelude::*;

verus! {

#[verifier::external_type_specification]
#[verifier::external_body]
pub struct ExJsonValue(serde_json::Value);

#[verifier::external_type_specification]
#[verifier::external_body]
pub struct ExJsonError(serde_json::Error);

#[verifier::external_type_specification]
#[verifier::external_body]
pub struct ExTomlValue(toml::Value);

#[verifier::external_type_specification]
#[verifier::external_body]
pub struct ExTomlDeError(toml::de::Error);

#[verifier::external_type_specification]
#[verifier::external_body]
pub struct ExTomlSerError(toml::ser::Error);

#[verifier::external_type_specification]
#[verifier::external_body]
pub struct ExCsvError(csv::Error);

/// The value that serde_json reads from a JSON text, if the text is one
/// well-formed JSON value (surrounding whitespace allowed).
pub uninterp spec fn json_parse(b: Seq<u8>) -> Option<serde_json::Value>;

/// The compact JSON text that serde_json writes for a value.
pub uninterp spec fn json_text(v: serde_json::Value) -> Seq<u8>;

/// The pretty-printed JSON text that serde_json writes for a value.
pub uninterp spec fn json_pretty_text(v: serde_json::Value) -> Seq<u8>;

/// The pretty-printed JSON array that serde_json writes for a list of values.
pub uninterp spec fn json_pretty_list_text(vs: Seq<serde_json::Value>) -> Seq<u8>;

/// The elements of a JSON value that is an array.
pub uninterp spec fn json_array_items(v: serde_json::Value) -> Option<Seq<serde_json::Value>>;

/// The JSON value that serde_json builds from a TOML value, if it builds one.
pub uninterp spec fn json_of_toml(t: toml::Value) -> Option<serde_json::Value>;

/// Whether a JSON value is an object.
pub uninterp spec fn json_is_object(v: serde_json::Value) -> bool;

/// Whether a TOML value is a table.
pub uninterp spec fn toml_is_table(t: toml::Value) -> bool;

/// The TOML document that the toml crate reads from bytes, if they are a
/// well-formed UTF-8 TOML document.
pub uninterp spec fn toml_parse(b: Seq<u8>) -> Option<toml::Value>;

/// The TOML text that the toml crate writes for a JSON value, if it writes
/// one.
pub uninterp spec fn toml_text_of_json(v: serde_json::Value) -> Option<Seq<u8>>;

/// The TOML text that the toml crate writes for a TOML value, if it writes
/// one.
pub uninterp spec fn toml_text(t: toml::Value) -> Option<Seq<u8>>;

/// The CSV line, terminator included, that the csv crate's default writer
/// writes for one record.
pub uninterp spec fn csv_line(fields: Seq<Seq<u8>>) -> Seq<u8>;

/// Relies on serde_json::from_slice: reads one JSON value, or fails.
#[verifier::external_body]
pub(crate) fn parse_json(b: &[u8]) -> (r: Result<serde_json::Value, serde_json::Error>)
    ensures
        match json_parse(b@) {
            Some(v) => r == Ok::<serde_json::Value, serde_json::Error>(v),
            None => r is Err,
        },
{
    serde_json::from_slice::<serde_json::Value>(b)
}

/// Relies on serde_json::to_vec: the compact text of a value. It writes
/// into a `Vec`, and serializing a `Value` has no error path.
#[verifier::external_body]
pub(crate) fn write_json_compact(v: &serde_json::Value) -> (r: Result<Vec<u8>, serde_json::Error>)
    ensures
        r is Ok,
        r matches Ok(b) ==> b@ == json_text(*v),
{
    serde_json::to_vec(v)
}

/// Relies on serde_json::to_vec_pretty: the pretty text of one value. It
/// writes into a `Vec`, and serializing a `Value` has no error path.
#[verifier::external_body]
pub(crate) fn write_json_pretty(v: &serde_json::Value) -> (r: Result<Vec<u8>, serde_json::Error>)
    ensures
        r is Ok,
        r matches Ok(b) ==> b@ == json_pretty_text(*v),
{
    serde_json::to_vec_pretty(v)
}

/// Relies on serde_json::to_vec_pretty: a list of values as one pretty
/// JSON array. It writes into a `Vec`, and serializing a sequence of
/// `Value`s has no error path.
#[verifier::external_body]
pub(crate) fn write_json_pretty_list(vs: &Vec<serde_json::Value>) -> (r: Result<
    Vec<u8>,
    serde_json::Error,
>)
    ensures
        r is Ok,
        r matches Ok(b) ==> b@ == json_pretty_list_text(vs@),
{
    serde_json::to_vec_pretty(vs)
}

/// Relies on the `Array` variant of serde_json::Value: hands out the
/// elements of an array, and any other value unchanged.
#[verifier::external_body]
pub(crate) fn into_json_array(v: serde_json::Value) -> (r: Result<
    Vec<serde_json::Value>,
    serde_json::Value,
>)
    ensures
        match json_array_items(v) {
            Some(items) => r matches Ok(xs) && xs@ == items,
            None => r == Err::<Vec<serde_json::Value>, serde_json::Value>(v),
        },
{
    match v {
        serde_json::Value::Array(items) => Ok(items),
        other => Err(other),
    }
}

/// Relies on serde_json::to_value: the JSON value of a TOML value.
#[verifier::external_body]
pub(crate) fn toml_to_json(t: &toml::Value) -> (r: Result<serde_json::Value, serde_json::Error>)
    ensures
        match json_of_toml(*t) {
            Some(v) => r == Ok::<serde_json::Value, serde_json::Error>(v),
            None => r is Err,
        },
{
    serde_json::to_value(t)
}

/// Relies on toml::from_slice: reads one TOML document, or fails.
#[verifier::external_body]
pub(crate) fn parse_toml(b: &[u8]) -> (r: Result<toml::Value, toml::de::Error>)
    ensures
        match toml_parse(b@) {
            Some(t) => r == Ok::<toml::Value, toml::de::Error>(t),
            None => r is Err,
        },
{
    toml::from_slice::<toml::Value>(b)
}

/// Relies on toml::to_string: the TOML text of a JSON value, or an error.
#[verifier::external_body]
pub(crate) fn write_toml_from_json(v: &serde_json::Value) -> (r: Result<Vec<u8>, toml::ser::Error>)
    ensures
        match toml_text_of_json(*v) {
            Some(t) => r matches Ok(b) && b@ == t,
            None => r is Err,
        },
{
    toml::to_string(v).map(String::into_bytes)
}

/// Relies on toml::to_string: the TOML text of a TOML value, or an error.
#[verifier::external_body]
pub(crate) fn write_toml(t: &toml::Value) -> (r: Result<Vec<u8>, toml::ser::Error>)
    ensures
        match toml_text(*t) {
            Some(s) => r matches Ok(b) && b@ == s,
            None => r is Err,
        },
{
    toml::to_string(t).map(String::into_bytes)
}

/// Relies on csv::Writer, with its default settings, writing one record into
/// a buffer: `write_record`, then `into_inner` to flush and take the bytes.
/// A fresh writer checks the field count against earlier records only, and
/// writing into a `Vec` does not fail, so one record always succeeds.
#[verifier::external_body]
pub(crate) fn write_csv_line(fields: &Vec<Vec<u8>>) -> (r: Result<Vec<u8>, csv::Error>)
    ensures
        r is Ok,
        r matches Ok(b) ==> b@ == csv_line(fields@.map_values(|f: Vec<u8>| f@)),
{
    let mut writer = csv::Writer::from_writer(Vec::new());
    writer.write_record(fields)?;
    writer.into_inner().map_err(|e| csv::Error::from(e.into_error()))
}

/// Relies on serde_json::Value::is_object.
pub assume_specification[ serde_json::Value::is_object ](v: &serde_json::Value) -> (r: bool)
    ensures
        r == json_is_object(*v),
;

/// Relies on toml::Value::is_table.
pub assume_specification[ toml::Value::is_table ](t: &toml::Value) -> (r: bool)
    ensures
        r == toml_is_table(*t),
;

/// Relies on std::str::from_utf8, which fails exactly on bytes that are not
/// UTF-8.
#[verifier::external_body]
pub(crate) fn is_utf8(b: &[u8]) -> (r: bool)
    ensures
        r == vstd::utf8::valid_utf8(b@),
{
    std::str::from_utf8(b).is_ok()
}

} // verus!
