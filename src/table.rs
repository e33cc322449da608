//! Streaming JSON encoding of CSV tables, one record at a time.

use vstd::prelude::*;
use crate::escape::{escaped, escape_bytes, quoted};
use crate::field::{cell_text, write_cell};

verus! {

/// One CSV row: raw byte fields, not interpreted.
pub struct CsvRecord {
    pub fields: Vec<Vec<u8>>,
}

/// The byte contents of a list of byte buffers.
pub open spec fn bytes_view(v: Seq<Vec<u8>>) -> Seq<Seq<u8>> {
    v.map_values(|x: Vec<u8>| x@)
}

impl CsvRecord {
    pub open spec fn view(&self) -> Seq<Seq<u8>> {
        bytes_view(self.fields@)
    }
}

/// Entry `i` of a list of flags, false where the list is too short.
pub open spec fn flag_at(f: Seq<bool>, i: int) -> bool {
    0 <= i < f.len() && f[i]
}

/// The number of key/value pairs of a row: headers and fields are paired
/// in order, and the longer list's tail is left out.
pub open spec fn paired_len(headers: Seq<Seq<u8>>, fields: Seq<Seq<u8>>) -> nat {
    if headers.len() <= fields.len() {
        headers.len()
    } else {
        fields.len()
    }
}

/// `"key": value`, the key a JSON string, the value by the NDJSON rule
/// (`literals`) or the JSON document rule.
#[verifier::opaque]
pub open spec fn pair_text(
    header: Seq<u8>,
    field: Seq<u8>,
    literals: bool,
    parse_numbers: bool,
    finite_double: bool,
) -> Seq<u8> {
    quoted(header) + seq![0x3au8, 0x20] + cell_text(field, literals, parse_numbers, finite_double)
}

/// The first `n` pairs of a row, each preceded by `lead`, with `sep` between
/// two pairs.
pub open spec fn pairs_text(
    headers: Seq<Seq<u8>>,
    fields: Seq<Seq<u8>>,
    finite: Seq<bool>,
    literals: bool,
    parse_numbers: bool,
    lead: Seq<u8>,
    sep: Seq<u8>,
    n: nat,
) -> Seq<u8>
    decreases n,
{
    if n == 0 {
        Seq::empty()
    } else {
        let i = n - 1;
        pairs_text(headers, fields, finite, literals, parse_numbers, lead, sep, i as nat) + (if n
            > 1 {
            sep
        } else {
            Seq::empty()
        }) + lead + pair_text(headers[i], fields[i], literals, parse_numbers, flag_at(finite, i))
    }
}

pub proof fn lemma_pairs_step(
    headers: Seq<Seq<u8>>,
    fields: Seq<Seq<u8>>,
    finite: Seq<bool>,
    literals: bool,
    parse_numbers: bool,
    lead: Seq<u8>,
    sep: Seq<u8>,
    i: nat,
)
    ensures
        pairs_text(headers, fields, finite, literals, parse_numbers, lead, sep, i + 1)
            == pairs_text(
            headers,
            fields,
            finite,
            literals,
            parse_numbers,
            lead,
            sep,
            i,
        ) + (if i > 0 {
            sep
        } else {
            Seq::empty()
        }) + lead + pair_text(
            headers[i as int],
            fields[i as int],
            literals,
            parse_numbers,
            flag_at(finite, i as int),
        ),
{
}

pub open spec fn comma_space() -> Seq<u8> {
    seq![0x2cu8, 0x20]
}

pub open spec fn comma_newline() -> Seq<u8> {
    seq![0x2cu8, 0x0a]
}

pub open spec fn indent(n: nat) -> Seq<u8> {
    Seq::new(n, |i: int| 0x20u8)
}

/// One NDJSON line for a row: `{"h1": v1, "h2": v2}` and a newline.
pub open spec fn ndjson_row(
    headers: Seq<Seq<u8>>,
    fields: Seq<Seq<u8>>,
    finite: Seq<bool>,
    parse_numbers: bool,
) -> Seq<u8> {
    seq![0x7bu8] + pairs_text(
        headers,
        fields,
        finite,
        true,
        parse_numbers,
        Seq::empty(),
        comma_space(),
        paired_len(headers, fields),
    ) + seq![0x7du8, 0x0a]
}

/// One row as an element of a pretty-printed JSON array, values by the JSON
/// document rule (strings, and numbers when parsing them): a separator from
/// what came before (a newline, or a comma and a newline), then the object
/// indented by two spaces, one pair per line indented by four.
pub open spec fn json_row(
    first: bool,
    headers: Seq<Seq<u8>>,
    fields: Seq<Seq<u8>>,
    finite: Seq<bool>,
    parse_numbers: bool,
) -> Seq<u8> {
    let n = paired_len(headers, fields);
    (if first {
        seq![0x0au8]
    } else {
        comma_newline()
    }) + indent(2) + if n == 0 {
        seq![0x7bu8, 0x7d]
    } else {
        seq![0x7bu8, 0x0a] + pairs_text(
            headers,
            fields,
            finite,
            false,
            parse_numbers,
            indent(4),
            comma_newline(),
            n,
        ) + seq![0x0au8] + indent(2) + seq![0x7du8]
    }
}

/// The end of a pretty-printed JSON array of rows.
pub open spec fn json_table_end(any_rows: bool) -> Seq<u8> {
    if any_rows {
        seq![0x0au8, 0x5d, 0x0a]
    } else {
        seq![0x5du8, 0x0a]
    }
}

/// Appends `lead` and one pair whose key is already escaped.
fn write_pair(
    key: &[u8],
    header: Ghost<Seq<u8>>,
    field: &[u8],
    literals: bool,
    parse_numbers: bool,
    finite_double: bool,
    lead: &[u8],
    output: &mut Vec<u8>,
)
    requires
        key@ == escaped(header@),
    ensures
        final(output)@ == old(output)@ + lead@ + pair_text(
            header@,
            field@,
            literals,
            parse_numbers,
            finite_double,
        ),
{
    output.extend_from_slice(lead);
    output.push(0x22);
    output.extend_from_slice(key);
    output.push(0x22);
    output.push(0x3a);
    output.push(0x20);
    let ghost mid = output@;
    write_cell(field, literals, parse_numbers, finite_double, output);
    assert(mid =~= old(output)@ + lead@ + quoted(header@) + seq![0x22u8, 0x3a, 0x20].subrange(1, 3));
    reveal(pair_text);
    assert(final(output)@ =~= old(output)@ + lead@ + pair_text(
        header@,
        field@,
        literals,
        parse_numbers,
        finite_double,
    ));
}

/// Writes the records of one table as JSON objects keyed by its headers.
/// The headers are escaped once, when the encoder is made.
pub struct TableEncoder {
    headers: Vec<Vec<u8>>,
    keys: Vec<Vec<u8>>,
    parse_numbers: bool,
}

impl TableEncoder {
    pub closed spec fn headers(&self) -> Seq<Seq<u8>> {
        bytes_view(self.headers@)
    }

    pub closed spec fn parse_numbers(&self) -> bool {
        self.parse_numbers
    }

    pub closed spec fn wf(&self) -> bool {
        &&& self.keys@.len() == self.headers@.len()
        &&& forall|i: int|
            0 <= i < self.keys@.len() ==> #[trigger] self.keys@[i]@ == escaped(self.headers@[i]@)
    }

    pub fn new(headers: Vec<Vec<u8>>, parse_numbers: bool) -> (r: TableEncoder)
        ensures
            r.wf(),
            r.headers() == bytes_view(headers@),
            r.parse_numbers() == parse_numbers,
    {
        let mut keys: Vec<Vec<u8>> = Vec::new();
        let mut i: usize = 0;
        while i < headers.len()
            invariant
                i <= headers@.len(),
                keys@.len() == i,
                forall|k: int| 0 <= k < i ==> #[trigger] keys@[k]@ == escaped(headers@[k]@),
            decreases headers@.len() - i,
        {
            let mut key: Vec<u8> = Vec::new();
            escape_bytes(headers[i].as_slice(), &mut key);
            assert(key@ =~= escaped(headers@[i as int]@));
            keys.push(key);
            i += 1;
        }
        TableEncoder { headers, keys, parse_numbers }
    }

    /// The raw headers, in order.
    pub fn header_names(&self) -> (r: &Vec<Vec<u8>>)
        ensures
            bytes_view(r@) == self.headers(),
    {
        &self.headers
    }

    fn write_pairs(
        &self,
        fields: &Vec<Vec<u8>>,
        finite: &Vec<bool>,
        literals: bool,
        lead: &[u8],
        sep: &[u8],
        output: &mut Vec<u8>,
    )
        requires
            self.wf(),
        ensures
            final(output)@ == old(output)@ + pairs_text(
                self.headers(),
                bytes_view(fields@),
                finite@,
                literals,
                self.parse_numbers(),
                lead@,
                sep@,
                paired_len(self.headers(), bytes_view(fields@)),
            ),
    {
        let ghost hs = self.headers();
        let ghost fs = bytes_view(fields@);
        let n: usize = if self.keys.len() <= fields.len() {
            self.keys.len()
        } else {
            fields.len()
        };
        assert(n == paired_len(hs, fs));
        let mut i: usize = 0;
        while i < n
            invariant
                self.wf(),
                hs == self.headers(),
                fs == bytes_view(fields@),
                n <= self.keys@.len(),
                n <= fields@.len(),
                i <= n,
                output@ == old(output)@ + pairs_text(
                    hs,
                    fs,
                    finite@,
                    literals,
                    self.parse_numbers,
                    lead@,
                    sep@,
                    i as nat,
                ),
            decreases n - i,
        {
            let fin: bool = i < finite.len() && finite[i];
            let mut piece: Vec<u8> = Vec::new();
            if i > 0 {
                piece.extend_from_slice(sep);
            }
            let ghost ii = i as int;
            proof {
                assert(self.keys@[ii]@ == escaped(self.headers@[ii]@));
                assert(hs[ii] == self.headers@[ii]@);
                assert(fs[ii] == fields@[ii]@);
            }
            write_pair(
                self.keys[i].as_slice(),
                Ghost(hs[ii]),
                fields[i].as_slice(),
                literals,
                self.parse_numbers,
                fin,
                lead,
                &mut piece,
            );
            proof {
                lemma_pairs_step(
                    hs,
                    fs,
                    finite@,
                    literals,
                    self.parse_numbers,
                    lead@,
                    sep@,
                    i as nat,
                );
                let s: Seq<u8> = if i > 0 {
                    sep@
                } else {
                    Seq::empty()
                };
                assert(piece@ =~= s + lead@ + pair_text(hs[ii], fs[ii], literals, self.parse_numbers, fin));
            }
            let ghost before = output@;
            output.extend_from_slice(piece.as_slice());
            proof {
                assert(output@ =~= before + piece@);
            }
            i += 1;
        }
    }

    /// Appends one NDJSON line for `record`. `finite[i]` tells whether field
    /// `i` reads as a finite double; a missing entry counts as false.
    pub fn write_ndjson_record(&self, record: &CsvRecord, finite: &Vec<bool>, output: &mut Vec<u8>)
        requires
            self.wf(),
        ensures
            final(output)@ == old(output)@ + ndjson_row(
                self.headers(),
                record.view(),
                finite@,
                self.parse_numbers(),
            ),
    {
        output.push(0x7b);
        let lead: [u8; 0] = [];
        let sep: [u8; 2] = [0x2c, 0x20];
        assert(lead@ =~= Seq::<u8>::empty());
        assert(sep@ =~= comma_space());
        self.write_pairs(&record.fields, finite, true, lead.as_slice(), sep.as_slice(), output);
        output.push(0x7d);
        output.push(0x0a);
        assert(final(output)@ =~= old(output)@ + ndjson_row(
            self.headers(),
            record.view(),
            finite@,
            self.parse_numbers(),
        ));
    }
    /// Appends one record as an element of a pretty-printed JSON array;
    /// `first` tells whether it is the array's first element.
    pub fn write_json_record(
        &self,
        first: bool,
        record: &CsvRecord,
        finite: &Vec<bool>,
        output: &mut Vec<u8>,
    )
        requires
            self.wf(),
        ensures
            final(output)@ == old(output)@ + json_row(
                first,
                self.headers(),
                record.view(),
                finite@,
                self.parse_numbers(),
            ),
    {
        let ghost n = paired_len(self.headers(), record.view());
        let mut head: Vec<u8> = Vec::new();
        if !first {
            head.push(0x2c);
        }
        head.push(0x0a);
        head.push(0x20);
        head.push(0x20);
        head.push(0x7b);
        let empty = self.keys.len() == 0 || record.fields.len() == 0;
        let mut body: Vec<u8> = Vec::new();
        if empty {
            body.push(0x7d);
        } else {
            body.push(0x0a);
            let lead: [u8; 4] = [0x20, 0x20, 0x20, 0x20];
            let sep: [u8; 2] = [0x2c, 0x0a];
            assert(lead@ =~= indent(4));
            assert(sep@ =~= comma_newline());
            self.write_pairs(
                &record.fields,
                finite,
                false,
                lead.as_slice(),
                sep.as_slice(),
                &mut body,
            );
            body.push(0x0a);
            body.push(0x20);
            body.push(0x20);
            body.push(0x7d);
        }
        proof {
            let sepa: Seq<u8> = if first {
                seq![0x0au8]
            } else {
                comma_newline()
            };
            assert(head@ =~= sepa + indent(2) + seq![0x7bu8]);
            assert(empty <==> n == 0);
            if n != 0 {
                assert(indent(2) =~= seq![0x20u8, 0x20]);
            }
        }
        output.extend_from_slice(head.as_slice());
        output.extend_from_slice(body.as_slice());
        assert(final(output)@ =~= old(output)@ + json_row(
            first,
            self.headers(),
            record.view(),
            finite@,
            self.parse_numbers(),
        ));
    }
}

/// Appends the opening bracket of a JSON array of rows.
pub fn start_json_table(output: &mut Vec<u8>)
    ensures
        final(output)@ == old(output)@.push(0x5b),
{
    output.push(0x5b);
}

/// Appends the end of a JSON array of rows; `any_rows` tells whether a row
/// was written.
pub fn finish_json_table(any_rows: bool, output: &mut Vec<u8>)
    ensures
        final(output)@ == old(output)@ + json_table_end(any_rows),
{
    if any_rows {
        output.push(0x0a);
    }
    output.push(0x5d);
    output.push(0x0a);
    assert(final(output)@ =~= old(output)@ + json_table_end(any_rows));
}

} // verus!
