//! File formats, stream shapes, and which shapes each format can write.

use vstd::prelude::*;

verus! {

/// A file format, told by its extension.
#[derive(Clone, Copy, Debug, PartialEq, Eq, Structural)]
pub enum Format {
    Json,
    Toml,
    Csv,
    Ndjson,
}

/// The shape of the record stream that a decoder produces.
#[derive(Clone, Copy, Debug, PartialEq, Eq, Structural)]
pub enum Shape {
    /// A sequence of documents (a JSON array's elements, a TOML document).
    Values,
    /// Headers and rows of raw fields.
    Table,
    /// A sequence of JSON values, one per input line.
    Ndjson,
}

/// Which end of a conversion a path belongs to.
#[derive(Clone, Copy, Debug, PartialEq, Eq, Structural)]
pub enum Endpoint {
    Input,
    Output,
}

/// Why a conversion could not be planned or carried out.
#[derive(Debug)]
pub enum ConvertError {
    /// The path has no extension.
    MissingExtension { endpoint: Endpoint },
    /// The extension names no known format.
    UnsupportedExtension { endpoint: Endpoint, ext: Vec<u8> },
    /// The output format cannot be written from the decoder's shape.
    ShapeMismatch { shape: Shape, format: Format },
    /// A CSV record has a different number of fields than the header row;
    /// `line` is where the record starts in the input.
    FieldCount { line: usize, expected: usize, found: usize },
    /// TOML output takes exactly one document; the stream held `found`.
    DocumentCount { found: usize },
    /// TOML output needs a document whose root is a table.
    NotATable,
    /// Text to be written as TOML is not UTF-8.
    NotUtf8,
    /// The input is not well-formed; `line` is the input line, counted from
    /// one, where the format reads line by line.
    Decode { line: Option<usize>, message: String },
    /// The output could not be produced.
    Encode { message: String },
}

pub open spec fn json_ext() -> Seq<u8> {
    seq![0x6au8, 0x73, 0x6f, 0x6e]
}

pub open spec fn toml_ext() -> Seq<u8> {
    seq![0x74u8, 0x6f, 0x6d, 0x6c]
}

pub open spec fn csv_ext() -> Seq<u8> {
    seq![0x63u8, 0x73, 0x76]
}

pub open spec fn ndjson_ext() -> Seq<u8> {
    seq![0x6eu8, 0x64, 0x6a, 0x73, 0x6f, 0x6e]
}

/// The format that an extension names: `json`, `toml`, `csv` or `ndjson`,
/// in lower case.
pub open spec fn format_of(ext: Seq<u8>) -> Option<Format> {
    if ext == json_ext() {
        Some(Format::Json)
    } else if ext == toml_ext() {
        Some(Format::Toml)
    } else if ext == csv_ext() {
        Some(Format::Csv)
    } else if ext == ndjson_ext() {
        Some(Format::Ndjson)
    } else {
        None
    }
}

/// The shape that the decoder of a format produces.
pub open spec fn shape_of(f: Format) -> Shape {
    match f {
        Format::Json => Shape::Values,
        Format::Toml => Shape::Values,
        Format::Csv => Shape::Table,
        Format::Ndjson => Shape::Ndjson,
    }
}

/// Whether a stream of the given shape can be written in a format. CSV needs
/// a table; TOML takes documents or a table, but not NDJSON lines.
pub open spec fn accepts(f: Format, s: Shape) -> bool {
    match f {
        Format::Json => true,
        Format::Toml => s != Shape::Ndjson,
        Format::Csv => s == Shape::Table,
        Format::Ndjson => true,
    }
}

/// The one shape a format can be written from, where there is only one.
pub open spec fn only_shape(f: Format) -> Option<Shape> {
    match f {
        Format::Csv => Some(Shape::Table),
        _ => None,
    }
}

fn bytes_equal(a: &[u8], b: &[u8]) -> (r: bool)
    ensures
        r == (a@ == b@),
{
    if a.len() != b.len() {
        return false;
    }
    let mut i: usize = 0;
    while i < a.len()
        invariant
            a@.len() == b@.len(),
            i <= a@.len(),
            forall|k: int| 0 <= k < i ==> a@[k] == b@[k],
        decreases a@.len() - i,
    {
        if a[i] != b[i] {
            return false;
        }
        i += 1;
    }
    assert(a@ =~= b@);
    true
}

fn copy_bytes(b: &[u8]) -> (r: Vec<u8>)
    ensures
        r@ == b@,
{
    let mut r: Vec<u8> = Vec::new();
    r.extend_from_slice(b);
    assert(r@ =~= b@);
    r
}

/// The format named by a file extension.
pub fn format_from_extension(ext: &[u8]) -> (r: Option<Format>)
    ensures
        r == format_of(ext@),
{
    let json: [u8; 4] = [0x6a, 0x73, 0x6f, 0x6e];
    let toml: [u8; 4] = [0x74, 0x6f, 0x6d, 0x6c];
    let csv: [u8; 3] = [0x63, 0x73, 0x76];
    let ndjson: [u8; 6] = [0x6e, 0x64, 0x6a, 0x73, 0x6f, 0x6e];
    assert(json@ =~= json_ext());
    assert(toml@ =~= toml_ext());
    assert(csv@ =~= csv_ext());
    assert(ndjson@ =~= ndjson_ext());
    if bytes_equal(ext, json.as_slice()) {
        Some(Format::Json)
    } else if bytes_equal(ext, toml.as_slice()) {
        Some(Format::Toml)
    } else if bytes_equal(ext, csv.as_slice()) {
        Some(Format::Csv)
    } else if bytes_equal(ext, ndjson.as_slice()) {
        Some(Format::Ndjson)
    } else {
        None
    }
}

/// The shape that the decoder of `f` produces.
pub fn decoded_shape(f: Format) -> (r: Shape)
    ensures
        r == shape_of(f),
{
    match f {
        Format::Json => Shape::Values,
        Format::Toml => Shape::Values,
        Format::Csv => Shape::Table,
        Format::Ndjson => Shape::Ndjson,
    }
}

/// The one shape that `f` can be written from, if it takes only one.
pub fn required_shape(f: Format) -> (r: Option<Shape>)
    ensures
        r == only_shape(f),
{
    match f {
        Format::Csv => Some(Shape::Table),
        _ => None,
    }
}

/// Refuses to write format `f` from a stream of shape `s` when it cannot.
pub fn check_shape(s: Shape, f: Format) -> (r: Result<(), ConvertError>)
    ensures
        r is Ok <==> accepts(f, s),
        r matches Err(e) ==> e == (ConvertError::ShapeMismatch { shape: s, format: f }),
{
    let ok = match f {
        Format::Json => true,
        Format::Toml => s != Shape::Ndjson,
        Format::Csv => s == Shape::Table,
        Format::Ndjson => true,
    };
    if ok {
        Ok(())
    } else {
        Err(ConvertError::ShapeMismatch { shape: s, format: f })
    }
}

/// A checked conversion: the two formats and the shape between them.
#[derive(Clone, Copy, Debug, PartialEq, Eq, Structural)]
pub struct Plan {
    pub input: Format,
    pub output: Format,
    pub shape: Shape,
}

/// The plan for two known formats: the input's shape, when the output
/// format accepts it.
pub open spec fn plan_for(i: Format, o: Format) -> Result<Plan, ConvertError> {
    if accepts(o, shape_of(i)) {
        Ok(Plan { input: i, output: o, shape: shape_of(i) })
    } else {
        Err(ConvertError::ShapeMismatch { shape: shape_of(i), format: o })
    }
}

/// Checks a conversion before any data is read. The input's extension is
/// looked at first, then the output's, then whether the output format
/// accepts the shape that the input's decoder produces.
pub fn plan_conversion(input_ext: Option<&[u8]>, output_ext: Option<&[u8]>) -> (r: Result<
    Plan,
    ConvertError,
>)
    ensures
        input_ext is None ==> r == Err::<Plan, ConvertError>(
            ConvertError::MissingExtension { endpoint: Endpoint::Input },
        ),
        input_ext is Some && output_ext is None ==> r == Err::<Plan, ConvertError>(
            ConvertError::MissingExtension { endpoint: Endpoint::Output },
        ),
        input_ext matches Some(ie) ==> output_ext matches Some(oe) ==> match (
            format_of(ie@),
            format_of(oe@),
        ) {
            (None, _) => r matches Err(ConvertError::UnsupportedExtension { endpoint, ext })
                && endpoint == Endpoint::Input && ext@ == ie@,
            (Some(_), None) => r matches Err(ConvertError::UnsupportedExtension { endpoint, ext })
                && endpoint == Endpoint::Output && ext@ == oe@,
            (Some(i), Some(o)) => r == plan_for(i, o),
        },
{
    let ie = match input_ext {
        None => {
            return Err(ConvertError::MissingExtension { endpoint: Endpoint::Input });
        },
        Some(ie) => ie,
    };
    let oe = match output_ext {
        None => {
            return Err(ConvertError::MissingExtension { endpoint: Endpoint::Output });
        },
        Some(oe) => oe,
    };
    let i = match format_from_extension(ie) {
        None => {
            return Err(
                ConvertError::UnsupportedExtension { endpoint: Endpoint::Input, ext: copy_bytes(ie) },
            );
        },
        Some(i) => i,
    };
    let o = match format_from_extension(oe) {
        None => {
            return Err(
                ConvertError::UnsupportedExtension { endpoint: Endpoint::Output, ext: copy_bytes(oe) },
            );
        },
        Some(o) => o,
    };
    let shape = decoded_shape(i);
    match check_shape(shape, o) {
        Ok(()) => Ok(Plan { input: i, output: o, shape }),
        Err(e) => Err(e),
    }
}

/// A table is the only stream that CSV can be written from: planning a
/// conversion to CSV from any format whose decoder does not produce a table
/// fails with a shape mismatch that names the format, and the shape CSV
/// requires is the table.
pub proof fn lemma_csv_needs_table(i: Format)
    requires
        shape_of(i) != Shape::Table,
    ensures
        plan_for(i, Format::Csv) == Err::<Plan, ConvertError>(
            ConvertError::ShapeMismatch { shape: shape_of(i), format: Format::Csv },
        ),
        only_shape(Format::Csv) == Some(Shape::Table),
{
}

} // verus!
