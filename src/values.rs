//! Decoding and encoding of whole documents: JSON values, NDJSON lines and
//! TOML documents.

use vstd::prelude::*;
use crate::outside::{
    json_is_object, toml_is_table, json_array_items, json_of_toml, json_parse, json_pretty_list_text, json_pretty_text,
    json_text, toml_parse, toml_text, toml_text_of_json, into_json_array, parse_json, parse_toml,
    toml_to_json, write_json_compact, write_json_pretty, write_json_pretty_list, write_toml,
    write_toml_from_json,
};
use crate::shape::{ConvertError, Shape};

verus! {

/// One document of a value stream, in the type system of the format it was
/// read from.
pub enum DataTypes {
    Json(serde_json::Value),
    Toml(toml::Value),
}

/// The records that a JSON document yields: the elements of a top-level
/// array, or else the document itself.
pub open spec fn json_records(root: serde_json::Value) -> Seq<serde_json::Value> {
    match json_array_items(root) {
        Some(items) => items,
        None => seq![root],
    }
}

/// The JSON value of a document, where it has one: a TOML value is lowered
/// into JSON.
pub open spec fn json_value_of(d: DataTypes) -> Option<serde_json::Value> {
    match d {
        DataTypes::Json(v) => Some(v),
        DataTypes::Toml(t) => json_of_toml(t),
    }
}

/// The bytes that count as blank in an NDJSON line.
pub open spec fn is_blank_byte(b: u8) -> bool {
    b == 0x20 || b == 0x09 || b == 0x0d || b == 0x0a
}

pub open spec fn is_blank(line: Seq<u8>) -> bool {
    forall|k: int| 0 <= k < line.len() ==> is_blank_byte(#[trigger] line[k])
}

fn decode_error(line: Option<usize>, e: serde_json::Error) -> (r: ConvertError)
    ensures
        r matches ConvertError::Decode { line: l, .. } && l == line,
{
    ConvertError::Decode { line, message: e.to_string() }
}

fn encode_error(e: serde_json::Error) -> (r: ConvertError)
    ensures
        r is Encode,
{
    ConvertError::Encode { message: e.to_string() }
}

/// Reads a JSON document into its records: the elements of a top-level
/// array, or else the one value.
pub fn json_decoder(content: &[u8]) -> (r: Result<Vec<serde_json::Value>, ConvertError>)
    ensures
        match json_parse(content@) {
            Some(root) => r matches Ok(items) && items@ == json_records(root),
            None => r matches Err(ConvertError::Decode { line: None, .. }),
        },
{
    match parse_json(content) {
        Ok(root) => match into_json_array(root) {
            Ok(items) => Ok(items),
            Err(single) => {
                let mut items: Vec<serde_json::Value> = Vec::new();
                items.push(single);
                assert(items@ =~= seq![single]);
                Ok(items)
            },
        },
        Err(e) => Err(decode_error(None, e)),
    }
}

/// Whether a line holds only spaces, tabs, carriage returns and newlines.
pub fn blank_line(line: &[u8]) -> (r: bool)
    ensures
        r == is_blank(line@),
{
    let mut i: usize = 0;
    while i < line.len()
        invariant
            i <= line@.len(),
            forall|k: int| 0 <= k < i ==> is_blank_byte(#[trigger] line@[k]),
        decreases line@.len() - i,
    {
        let b = line[i];
        if !(b == 0x20 || b == 0x09 || b == 0x0d || b == 0x0a) {
            return false;
        }
        i += 1;
    }
    true
}

/// Reads one NDJSON line: nothing for a blank line, else one JSON value.
/// `line_no` counts lines from one and goes into the error.
pub fn ndjson_decode_line(line: &[u8], line_no: usize) -> (r: Result<
    Option<serde_json::Value>,
    ConvertError,
>)
    ensures
        is_blank(line@) ==> r == Ok::<Option<serde_json::Value>, ConvertError>(None),
        !is_blank(line@) ==> match json_parse(line@) {
            Some(v) => r == Ok::<Option<serde_json::Value>, ConvertError>(Some(v)),
            None => r matches Err(ConvertError::Decode { line: Some(n), .. }) && n == line_no,
        },
{
    if blank_line(line) {
        return Ok(None);
    }
    match parse_json(line) {
        Ok(v) => Ok(Some(v)),
        Err(e) => Err(decode_error(Some(line_no), e)),
    }
}

/// Reads a whole TOML document into the single value that it yields.
pub fn toml_decoder(content: Vec<u8>) -> (r: Result<toml::Value, ConvertError>)
    ensures
        match toml_parse(content@) {
            Some(t) => r == Ok::<toml::Value, ConvertError>(t),
            None => r matches Err(ConvertError::Decode { line: None, .. }),
        },
{
    match parse_toml(content.as_slice()) {
        Ok(t) => Ok(t),
        Err(e) => Err(ConvertError::Decode { line: None, message: e.to_string() }),
    }
}

/// Checks that a JSON document is one well-formed value.
pub fn validate_json(content: &[u8]) -> (r: Result<(), ConvertError>)
    ensures
        r is Ok <==> json_parse(content@) is Some,
        r matches Err(e) ==> e is Decode,
{
    match parse_json(content) {
        Ok(_) => Ok(()),
        Err(e) => Err(decode_error(None, e)),
    }
}

/// Checks that a TOML document is well-formed.
pub fn validate_toml(content: &[u8]) -> (r: Result<(), ConvertError>)
    ensures
        r is Ok <==> toml_parse(content@) is Some,
        r matches Err(e) ==> e is Decode,
{
    match parse_toml(content) {
        Ok(_) => Ok(()),
        Err(e) => Err(ConvertError::Decode { line: None, message: e.to_string() }),
    }
}

/// The JSON value of a document; a TOML value is lowered into JSON.
pub fn to_json_value(item: DataTypes) -> (r: Result<serde_json::Value, ConvertError>)
    ensures
        match json_value_of(item) {
            Some(v) => r == Ok::<serde_json::Value, ConvertError>(v),
            None => r matches Err(e) && e is Encode,
        },
{
    match item {
        DataTypes::Json(v) => Ok(v),
        DataTypes::Toml(t) => match toml_to_json(&t) {
            Ok(v) => Ok(v),
            Err(e) => Err(encode_error(e)),
        },
    }
}

/// One NDJSON line for a document: its compact JSON text and a newline.
pub fn ndjson_value_line(item: DataTypes) -> (r: Result<Vec<u8>, ConvertError>)
    ensures
        match json_value_of(item) {
            Some(v) => r matches Ok(b) && b@ == json_text(v).push(0x0a),
            None => r matches Err(e) && e is Encode,
        },
{
    let v = match to_json_value(item) {
        Ok(v) => v,
        Err(e) => {
            return Err(e);
        },
    };
    let mut b = match write_json_compact(&v) {
        Ok(b) => b,
        Err(_) => Vec::new(),
    };
    b.push(0x0a);
    Ok(b)
}

/// The JSON document written for a value stream: the one value itself when
/// a `Values` stream holds exactly one, else an array of all of them;
/// pretty-printed and ended by a newline.
pub open spec fn json_document_text(values: Seq<serde_json::Value>, shape: Shape) -> Seq<u8> {
    if shape == Shape::Values && values.len() == 1 {
        json_pretty_text(values[0]).push(0x0a)
    } else {
        json_pretty_list_text(values).push(0x0a)
    }
}

/// Writes the values of a `Values` or `Ndjson` stream as one JSON document.
pub fn json_document(values: &Vec<serde_json::Value>, shape: Shape) -> (r: Vec<u8>)
    ensures
        r@ == json_document_text(values@, shape),
{
    let written = if shape == Shape::Values && values.len() == 1 {
        write_json_pretty(&values[0])
    } else {
        write_json_pretty_list(values)
    };
    let mut b = match written {
        Ok(b) => b,
        Err(_) => Vec::new(),
    };
    b.push(0x0a);
    b
}

/// A JSON document for the records of one JSON text is the pretty text of
/// the text's root, when that root is no array.
pub proof fn lemma_json_document_of_single_root(root: serde_json::Value)
    requires
        json_array_items(root) is None,
    ensures
        json_document_text(json_records(root), Shape::Values) == json_pretty_text(root).push(
            0x0a,
        ),
{
    assert(json_records(root) =~= seq![root]);
}

/// Whether a document's root is a table: a JSON object or a TOML table.
pub open spec fn is_root_table(d: DataTypes) -> bool {
    match d {
        DataTypes::Json(v) => json_is_object(v),
        DataTypes::Toml(t) => toml_is_table(t),
    }
}

/// The TOML text of a document, where the toml crate writes one.
pub open spec fn toml_document_text(d: DataTypes) -> Option<Seq<u8>> {
    match d {
        DataTypes::Json(v) => toml_text_of_json(v),
        DataTypes::Toml(t) => toml_text(t),
    }
}

/// What writing one document as TOML gives: an error for a root that is no
/// table, else the toml crate's text, or an error where it writes none.
pub open spec fn toml_outcome(d: DataTypes, r: Result<Vec<u8>, ConvertError>) -> bool {
    if !is_root_table(d) {
        r == Err::<Vec<u8>, ConvertError>(ConvertError::NotATable)
    } else {
        match toml_document_text(d) {
            Some(t) => r matches Ok(b) && b@ == t,
            None => r matches Err(e) && e is Encode,
        }
    }
}

/// Writes one document as TOML; its root must be a table.
pub fn toml_document(item: &DataTypes) -> (r: Result<Vec<u8>, ConvertError>)
    ensures
        toml_outcome(*item, r),
{
    let table = match item {
        DataTypes::Json(v) => v.is_object(),
        DataTypes::Toml(t) => t.is_table(),
    };
    if !table {
        return Err(ConvertError::NotATable);
    }
    let written = match item {
        DataTypes::Json(v) => write_toml_from_json(v),
        DataTypes::Toml(t) => write_toml(t),
    };
    match written {
        Ok(b) => Ok(b),
        Err(e) => Err(ConvertError::Encode { message: e.to_string() }),
    }
}

/// Writes a `Values` stream as TOML: it must hold exactly one document, whose
/// root is a table.
pub fn toml_values_document(items: &Vec<DataTypes>) -> (r: Result<Vec<u8>, ConvertError>)
    ensures
        items@.len() != 1 ==> r == Err::<Vec<u8>, ConvertError>(
            ConvertError::DocumentCount { found: items@.len() as usize },
        ),
        items@.len() == 1 ==> toml_outcome(items@[0], r),
{
    if items.len() != 1 {
        return Err(ConvertError::DocumentCount { found: items.len() });
    }
    toml_document(&items[0])
}

} // verus!
