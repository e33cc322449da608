//! TOML output of a CSV table: one array of inline tables, one per row.

use vstd::prelude::*;
use crate::outside::is_utf8;
use crate::shape::ConvertError;
use crate::table::{bytes_view, paired_len, CsvRecord};

verus! {

/// An upper-case hexadecimal digit for `n < 16`.
pub open spec fn hex_digit(n: u8) -> u8 {
    if n < 10 {
        (0x30 + n) as u8
    } else {
        (0x41 + n - 10) as u8
    }
}

/// What one byte becomes inside a TOML basic string: backslash, quote,
/// newline, carriage return and tab get their short escapes, the other
/// control bytes a `\u00XX` escape.
pub open spec fn toml_escaped_byte(b: u8) -> Seq<u8> {
    if b == 0x5c || b == 0x22 {
        seq![0x5cu8, b]
    } else if b == 0x0a {
        seq![0x5cu8, 0x6e]
    } else if b == 0x0d {
        seq![0x5cu8, 0x72]
    } else if b == 0x09 {
        seq![0x5cu8, 0x74]
    } else if b < 0x20 || b == 0x7f {
        seq![0x5cu8, 0x75, 0x30, 0x30, hex_digit(b / 16), hex_digit(b % 16)]
    } else {
        seq![b]
    }
}

pub open spec fn toml_escaped(v: Seq<u8>) -> Seq<u8>
    decreases v.len(),
{
    if v.len() == 0 {
        Seq::empty()
    } else {
        toml_escaped(v.drop_last()) + toml_escaped_byte(v.last())
    }
}

/// A byte sequence as a TOML basic string, quotes included.
pub open spec fn toml_string(v: Seq<u8>) -> Seq<u8> {
    seq![0x22u8] + toml_escaped(v) + seq![0x22u8]
}

fn hex(n: u8) -> (r: u8)
    requires
        n < 16,
    ensures
        r == hex_digit(n),
{
    if n < 10 {
        0x30 + n
    } else {
        0x41 + n - 10
    }
}

fn toml_escape(b: u8, output: &mut Vec<u8>)
    ensures
        final(output)@ == old(output)@ + toml_escaped_byte(b),
{
    if b == 0x5c || b == 0x22 {
        output.push(0x5c);
        output.push(b);
    } else if b == 0x0a {
        output.push(0x5c);
        output.push(0x6e);
    } else if b == 0x0d {
        output.push(0x5c);
        output.push(0x72);
    } else if b == 0x09 {
        output.push(0x5c);
        output.push(0x74);
    } else if b < 0x20 || b == 0x7f {
        output.push(0x5c);
        output.push(0x75);
        output.push(0x30);
        output.push(0x30);
        output.push(hex(b / 16));
        output.push(hex(b % 16));
    } else {
        output.push(b);
    }
    assert(final(output)@ =~= old(output)@ + toml_escaped_byte(b));
}

/// Appends `v` as a TOML basic string.
pub fn write_toml_string(v: &[u8], output: &mut Vec<u8>)
    ensures
        final(output)@ == old(output)@ + toml_string(v@),
{
    output.push(0x22);
    let ghost start = output@;
    let mut i: usize = 0;
    while i < v.len()
        invariant
            i <= v@.len(),
            start == old(output)@.push(0x22),
            output@ == start + toml_escaped(v@.subrange(0, i as int)),
        decreases v@.len() - i,
    {
        toml_escape(v[i], output);
        proof {
            let next = v@.subrange(0, i + 1);
            assert(next.drop_last() =~= v@.subrange(0, i as int));
            assert(next.last() == v@[i as int]);
            assert(output@ =~= start + toml_escaped(next));
        }
        i += 1;
    }
    output.push(0x22);
    assert(v@.subrange(0, v@.len() as int) =~= v@);
    assert(final(output)@ =~= old(output)@ + toml_string(v@));
}

/// The first `n` `key = value` pairs of a row, separated by `, `.
pub open spec fn toml_pairs(headers: Seq<Seq<u8>>, fields: Seq<Seq<u8>>, n: nat) -> Seq<u8>
    decreases n,
{
    if n == 0 {
        Seq::empty()
    } else {
        let i = n - 1;
        toml_pairs(headers, fields, i as nat) + (if n > 1 {
            seq![0x2cu8, 0x20]
        } else {
            Seq::empty()
        }) + toml_string(headers[i]) + seq![0x20u8, 0x3d, 0x20] + toml_string(fields[i])
    }
}

/// One row as an inline table on a line of its own, ended by a comma.
pub open spec fn toml_row(headers: Seq<Seq<u8>>, fields: Seq<Seq<u8>>) -> Seq<u8> {
    seq![0x20u8, 0x20, 0x7b, 0x20] + toml_pairs(headers, fields, paired_len(headers, fields))
        + seq![0x20u8, 0x7d, 0x2c, 0x0a]
}

/// The name of the array: the file stem, or `data` when there is none.
pub open spec fn toml_table_name(stem: Option<Seq<u8>>) -> Seq<u8> {
    match stem {
        Some(s) => s,
        None => seq![0x64u8, 0x61, 0x74, 0x61],
    }
}

/// The start of the array: its quoted name, ` = [` and a newline.
pub open spec fn toml_table_start(stem: Option<Seq<u8>>) -> Seq<u8> {
    toml_string(toml_table_name(stem)) + seq![0x20u8, 0x3d, 0x20, 0x5b, 0x0a]
}

/// Appends the start of the array named by `stem`, or `data`.
pub fn start_toml_table(stem: Option<&[u8]>, output: &mut Vec<u8>)
    ensures
        final(output)@ == old(output)@ + toml_table_start(
            match stem {
                Some(s) => Some(s@),
                None => None,
            },
        ),
{
    let data: [u8; 4] = [0x64, 0x61, 0x74, 0x61];
    assert(data@ =~= toml_table_name(None));
    let name: &[u8] = match stem {
        Some(s) => s,
        None => data.as_slice(),
    };
    write_toml_string(name, output);
    output.push(0x20);
    output.push(0x3d);
    output.push(0x20);
    output.push(0x5b);
    output.push(0x0a);
    assert(final(output)@ =~= old(output)@ + toml_table_start(
        match stem {
            Some(s) => Some(s@),
            None => None,
        },
    ));
}

/// Appends the end of the array.
pub fn finish_toml_table(output: &mut Vec<u8>)
    ensures
        final(output)@ == old(output)@ + seq![0x5du8, 0x0a],
{
    output.push(0x5d);
    output.push(0x0a);
    assert(final(output)@ =~= old(output)@ + seq![0x5du8, 0x0a]);
}

/// Every key and value of a row is UTF-8, as TOML text must be.
pub open spec fn row_is_utf8(headers: Seq<Seq<u8>>, fields: Seq<Seq<u8>>) -> bool {
    forall|i: int|
        0 <= i < paired_len(headers, fields) ==> vstd::utf8::valid_utf8(#[trigger] headers[i])
            && vstd::utf8::valid_utf8(fields[i])
}

/// Appends one record as an inline table keyed by `headers`. A key or value
/// that is not UTF-8 is refused, and nothing is written.
pub fn write_toml_record(headers: &Vec<Vec<u8>>, record: &CsvRecord, output: &mut Vec<u8>) -> (r:
    Result<(), ConvertError>)
    ensures
        row_is_utf8(bytes_view(headers@), record.view()) ==> r is Ok && final(output)@ == old(
            output,
        )@ + toml_row(bytes_view(headers@), record.view()),
        !row_is_utf8(bytes_view(headers@), record.view()) ==> r == Err::<(), ConvertError>(
            ConvertError::NotUtf8,
        ) && final(output)@ == old(output)@,
{
    let ghost hs = bytes_view(headers@);
    let ghost fs = record.view();
    let n: usize = if headers.len() <= record.fields.len() {
        headers.len()
    } else {
        record.fields.len()
    };
    let mut k: usize = 0;
    while k < n
        invariant
            n == paired_len(hs, fs),
            hs == bytes_view(headers@),
            fs == record.view(),
            n <= headers@.len(),
            n <= record.fields@.len(),
            k <= n,
            forall|j: int|
                0 <= j < k ==> vstd::utf8::valid_utf8(#[trigger] hs[j]) && vstd::utf8::valid_utf8(
                    fs[j],
                ),
        decreases n - k,
    {
        if !is_utf8(headers[k].as_slice()) || !is_utf8(record.fields[k].as_slice()) {
            proof {
                assert(hs[k as int] == headers@[k as int]@);
                assert(fs[k as int] == record.fields@[k as int]@);
            }
            return Err(ConvertError::NotUtf8);
        }
        proof {
            assert(hs[k as int] == headers@[k as int]@);
            assert(fs[k as int] == record.fields@[k as int]@);
        }
        k += 1;
    }
    assert(row_is_utf8(hs, fs));
    output.push(0x20);
    output.push(0x20);
    output.push(0x7b);
    output.push(0x20);
    let ghost start = output@;
    let mut i: usize = 0;
    while i < n
        invariant
            n == paired_len(hs, fs),
            hs == bytes_view(headers@),
            fs == record.view(),
            n <= headers@.len(),
            n <= record.fields@.len(),
            i <= n,
            output@ == start + toml_pairs(hs, fs, i as nat),
        decreases n - i,
    {
        let mut piece: Vec<u8> = Vec::new();
        if i > 0 {
            piece.push(0x2c);
            piece.push(0x20);
        }
        write_toml_string(headers[i].as_slice(), &mut piece);
        piece.push(0x20);
        piece.push(0x3d);
        piece.push(0x20);
        write_toml_string(record.fields[i].as_slice(), &mut piece);
        proof {
            let ii = i as int;
            assert(hs[ii] == headers@[ii]@);
            assert(fs[ii] == record.fields@[ii]@);
            let s: Seq<u8> = if i > 0 {
                seq![0x2cu8, 0x20]
            } else {
                Seq::empty()
            };
            assert(piece@ =~= s + toml_string(hs[ii]) + seq![0x20u8, 0x3d, 0x20] + toml_string(
                fs[ii],
            ));
        }
        output.extend_from_slice(piece.as_slice());
        assert(output@ =~= start + toml_pairs(hs, fs, (i + 1) as nat));
        i += 1;
    }
    output.push(0x20);
    output.push(0x7d);
    output.push(0x2c);
    output.push(0x0a);
    assert(output@ =~= old(output)@ + toml_row(hs, fs));
    Ok(())
}

} // verus!
