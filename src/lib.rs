//! Streaming conversion core for JSON, TOML, CSV and NDJSON documents.
//!
//! A decoder turns an input into one of three stream shapes (documents, a
//! table of raw CSV rows, NDJSON lines); an encoder writes a stream in the
//! output format, one record at a time. The modules hold the parts of that
//! pipeline that decide what bytes are written:
//! - `escape`: JSON string escaping of raw bytes;
//! - `field`: how a raw CSV field becomes a JSON value;
//! - `table`: NDJSON lines and pretty JSON objects for table rows;
//! - `toml_table`: a table as a TOML array of inline tables;
//! - `csv_rows`: row arity and CSV output lines;
//! - `values`: JSON, NDJSON and TOML documents;
//! - `shape`: formats, stream shapes and which pairs can be converted;
//! - `outside`: what is taken on trust from serde_json, toml and csv.

pub mod escape;
pub mod field;
pub mod table;
pub mod toml_table;
pub mod csv_rows;
pub mod values;
pub mod shape;
pub mod outside;
