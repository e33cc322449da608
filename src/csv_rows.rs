//! CSV rows: the header arity that a table keeps, and CSV output.

use vstd::prelude::*;
use crate::outside::{csv_line, write_csv_line};
use crate::shape::ConvertError;
use crate::table::{bytes_view, CsvRecord};

verus! {

/// Admits a decoded row into a table of `headers_len` columns; `line` is
/// where the row starts in the input and goes into the error.
pub fn table_record(line: usize, headers_len: usize, fields: Vec<Vec<u8>>) -> (r: Result<
    CsvRecord,
    ConvertError,
>)
    ensures
        fields@.len() == headers_len ==> (r matches Ok(rec) && rec.fields == fields),
        fields@.len() != headers_len ==> r == Err::<CsvRecord, ConvertError>(
            ConvertError::FieldCount { line, expected: headers_len, found: fields@.len() as usize },
        ),
{
    let found = fields.len();
    if found == headers_len {
        Ok(CsvRecord { fields })
    } else {
        Err(ConvertError::FieldCount { line, expected: headers_len, found })
    }
}

/// The fields written for a row of a table with `headers_len` columns: the
/// row itself, or as many empty fields where its length disagrees.
pub open spec fn csv_output_fields(headers_len: nat, fields: Seq<Seq<u8>>) -> Seq<Seq<u8>> {
    if fields.len() == headers_len {
        fields
    } else {
        Seq::new(headers_len, |i: int| Seq::<u8>::empty())
    }
}

fn copy_fields(fields: &Vec<Vec<u8>>) -> (r: Vec<Vec<u8>>)
    ensures
        bytes_view(r@) == bytes_view(fields@),
{
    let mut r: Vec<Vec<u8>> = Vec::new();
    let mut i: usize = 0;
    while i < fields.len()
        invariant
            i <= fields@.len(),
            r@.len() == i,
            forall|k: int| 0 <= k < i ==> #[trigger] r@[k]@ == fields@[k]@,
        decreases fields@.len() - i,
    {
        let mut f: Vec<u8> = Vec::new();
        f.extend_from_slice(fields[i].as_slice());
        assert(f@ =~= fields@[i as int]@);
        r.push(f);
        i += 1;
    }
    assert(bytes_view(r@) =~= bytes_view(fields@));
    r
}

/// The fields to write for `record` under `headers_len` columns, and whether
/// the record had to be replaced by empty fields.
pub fn output_fields(headers_len: usize, record: &CsvRecord) -> (r: (Vec<Vec<u8>>, bool))
    ensures
        bytes_view(r.0@) == csv_output_fields(headers_len as nat, record.view()),
        r.1 == (record.fields@.len() != headers_len),
{
    if record.fields.len() == headers_len {
        (copy_fields(&record.fields), false)
    } else {
        let mut r: Vec<Vec<u8>> = Vec::new();
        let mut i: usize = 0;
        while i < headers_len
            invariant
                i <= headers_len,
                r@.len() == i,
                forall|k: int| 0 <= k < i ==> (#[trigger] r@[k])@ == Seq::<u8>::empty(),
            decreases headers_len - i,
        {
            r.push(Vec::new());
            i += 1;
        }
        assert(bytes_view(r@) =~= csv_output_fields(headers_len as nat, record.view()));
        (r, true)
    }
}

/// The CSV header line of a table.
pub fn csv_header_line(headers: &Vec<Vec<u8>>) -> (r: Vec<u8>)
    ensures
        r@ == csv_line(bytes_view(headers@)),
{
    match write_csv_line(headers) {
        Ok(b) => b,
        Err(_) => Vec::new(),
    }
}

/// The CSV line of one record under `headers_len` columns, and whether the
/// record had the wrong length and was written as empty fields.
pub fn csv_record_line(headers_len: usize, record: &CsvRecord) -> (r: (Vec<u8>, bool))
    ensures
        r.0@ == csv_line(csv_output_fields(headers_len as nat, record.view())),
        r.1 == (record.fields@.len() != headers_len),
{
    let (fields, replaced) = output_fields(headers_len, record);
    let line = match write_csv_line(&fields) {
        Ok(b) => b,
        Err(_) => Vec::new(),
    };
    (line, replaced)
}

} // verus!
