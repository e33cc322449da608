//! How one raw CSV field is written as a JSON value.

use vstd::prelude::*;
use crate::escape::{
    escape_letter, escaped, escaped_byte, lemma_escaped_len, needs_escape, quoted, write_quoted,
};

verus! {

pub open spec fn is_digit(b: u8) -> bool {
    0x30 <= b <= 0x39
}

/// The raw field is one of the JSON literals `true`, `false`, `null`.
pub open spec fn is_literal(v: Seq<u8>) -> bool {
    v == seq![0x74u8, 0x72, 0x75, 0x65] || v == seq![0x66u8, 0x61, 0x6c, 0x73, 0x65] || v
        == seq![0x6eu8, 0x75, 0x6c, 0x6c]
}

/// The field starts with `+`, `-` or a digit and ends with a digit.
pub open spec fn has_number_shape(v: Seq<u8>) -> bool {
    v.len() > 0 && (v[0] == 0x2b || v[0] == 0x2d || is_digit(v[0])) && is_digit(v.last())
}

/// Whether the field is written as it stands rather than as a JSON string.
/// `finite_double` is whether the field's text reads as a finite IEEE-754
/// double; it only matters when `parse_numbers` is on.
pub open spec fn emits_unquoted(v: Seq<u8>, parse_numbers: bool, finite_double: bool) -> bool {
    is_literal(v) || (parse_numbers && has_number_shape(v) && finite_double)
}

/// The JSON text written for a raw field.
pub open spec fn field_text(v: Seq<u8>, parse_numbers: bool, finite_double: bool) -> Seq<u8> {
    if emits_unquoted(v, parse_numbers, finite_double) {
        v
    } else {
        quoted(v)
    }
}

fn is_literal_bytes(v: &[u8]) -> (r: bool)
    ensures
        r == is_literal(v@),
{
    let n = v.len();
    let r = if n == 4 {
        (v[0] == 0x74 && v[1] == 0x72 && v[2] == 0x75 && v[3] == 0x65) || (v[0] == 0x6e && v[1]
            == 0x75 && v[2] == 0x6c && v[3] == 0x6c)
    } else if n == 5 {
        v[0] == 0x66 && v[1] == 0x61 && v[2] == 0x6c && v[3] == 0x73 && v[4] == 0x65
    } else {
        false
    };
    proof {
        if r {
            if n == 4 {
                if v@[0] == 0x74 {
                    assert(v@ =~= seq![0x74u8, 0x72, 0x75, 0x65]);
                } else {
                    assert(v@ =~= seq![0x6eu8, 0x75, 0x6c, 0x6c]);
                }
            } else {
                assert(v@ =~= seq![0x66u8, 0x61, 0x6c, 0x73, 0x65]);
            }
        } else {
            if v@ == seq![0x74u8, 0x72, 0x75, 0x65] {
                assert(v@[0] == 0x74);
            }
            if v@ == seq![0x6eu8, 0x75, 0x6c, 0x6c] {
                assert(v@[0] == 0x6e);
            }
            if v@ == seq![0x66u8, 0x61, 0x6c, 0x73, 0x65] {
                assert(v@[0] == 0x66);
            }
        }
    }
    r
}

/// Whether the field has the outline of a number: first byte `+`, `-` or a
/// digit, last byte a digit.
pub fn number_shaped(v: &[u8]) -> (r: bool)
    ensures
        r == has_number_shape(v@),
{
    let n = v.len();
    if n == 0 {
        return false;
    }
    let first = v[0];
    let last = v[n - 1];
    (first == 0x2b || first == 0x2d || (0x30 <= first && first <= 0x39)) && (0x30 <= last && last
        <= 0x39)
}

/// Whether the field is written unquoted, given whether its text reads as a
/// finite double.
pub fn unquoted(v: &[u8], parse_numbers: bool, finite_double: bool) -> (r: bool)
    ensures
        r == emits_unquoted(v@, parse_numbers, finite_double),
{
    is_literal_bytes(v) || (parse_numbers && number_shaped(v) && finite_double)
}

/// Appends the JSON text of one raw field: unquoted for `true`, `false`,
/// `null` and, with `parse_numbers`, for numbers; a JSON string otherwise.
pub fn write_field(v: &[u8], parse_numbers: bool, finite_double: bool, output: &mut Vec<u8>)
    ensures
        final(output)@ == old(output)@ + field_text(v@, parse_numbers, finite_double),
{
    if unquoted(v, parse_numbers, finite_double) {
        output.extend_from_slice(v);
    } else {
        write_quoted(v, output);
    }
}

/// In an NDJSON line, a field is written exactly as it stands if and only
/// if it is one of the literals `true`, `false`, `null`, or number parsing is on and the field
/// has a number's outline and reads as a finite double; every other field
/// is written as a quoted JSON string.
pub proof fn lemma_number_policy(v: Seq<u8>, parse_numbers: bool, finite_double: bool)
    ensures
        (field_text(v, parse_numbers, finite_double) == v) == emits_unquoted(
            v,
            parse_numbers,
            finite_double,
        ),
        !emits_unquoted(v, parse_numbers, finite_double) ==> field_text(
            v,
            parse_numbers,
            finite_double,
        ) == quoted(v),
{
    lemma_escaped_len(v);
}

/// The JSON text written for a raw field of a table written as a JSON
/// document: a number as it stands when number parsing is on and the field
/// reads as one; a JSON string in every other case, literals included.
pub open spec fn json_field_text(v: Seq<u8>, parse_numbers: bool, finite_double: bool) -> Seq<
    u8,
> {
    if parse_numbers && has_number_shape(v) && finite_double {
        v
    } else {
        quoted(v)
    }
}

/// The value text of a table field: with `literals`, the NDJSON rule, which
/// also writes `true`, `false` and `null` as they stand; without, the JSON
/// document rule.
pub open spec fn cell_text(v: Seq<u8>, literals: bool, parse_numbers: bool, finite_double: bool) -> Seq<
    u8,
> {
    if literals {
        field_text(v, parse_numbers, finite_double)
    } else {
        json_field_text(v, parse_numbers, finite_double)
    }
}

/// Appends the value text of a table field under the NDJSON rule
/// (`literals`) or the JSON document rule.
pub fn write_cell(
    v: &[u8],
    literals: bool,
    parse_numbers: bool,
    finite_double: bool,
    output: &mut Vec<u8>,
)
    ensures
        final(output)@ == old(output)@ + cell_text(v@, literals, parse_numbers, finite_double),
{
    if literals {
        write_field(v, parse_numbers, finite_double, output);
    } else if parse_numbers && number_shaped(v) && finite_double {
        output.extend_from_slice(v);
    } else {
        write_quoted(v, output);
    }
}

/// In a table written as a JSON document, a field is written as it stands
/// if and only if number parsing is on and the field has a number's outline
/// and reads as a finite double; every other field, `true`, `false` and
/// `null` included, is written as a quoted JSON string.
pub proof fn lemma_json_field_policy(v: Seq<u8>, parse_numbers: bool, finite_double: bool)
    ensures
        (json_field_text(v, parse_numbers, finite_double) == v) == (parse_numbers
            && has_number_shape(v) && finite_double),
        !(parse_numbers && has_number_shape(v) && finite_double) ==> json_field_text(
            v,
            parse_numbers,
            finite_double,
        ) == quoted(v),
{
    lemma_escaped_len(v);
}

/// Reads back the bytes of a JSON string body written by `escaped`.
pub open spec fn unescaped(s: Seq<u8>) -> Seq<u8>
    decreases s.len(),
{
    if s.len() == 0 {
        Seq::empty()
    } else if s[0] == 0x5c && s.len() >= 2 {
        let c = s[1];
        let b: u8 = if c == 0x6e {
            0x0a
        } else if c == 0x72 {
            0x0d
        } else if c == 0x74 {
            0x09
        } else {
            c
        };
        seq![b] + unescaped(s.subrange(2, s.len() as int))
    } else {
        seq![s[0]] + unescaped(s.subrange(1, s.len() as int))
    }
}

/// Reads back the raw bytes of a field from its JSON text: the body of a
/// string, unescaped, or the text itself when it is not a string.
pub open spec fn field_bytes(t: Seq<u8>) -> Seq<u8> {
    if t.len() >= 2 && t[0] == 0x22 && t.last() == 0x22 {
        unescaped(t.subrange(1, t.len() - 1))
    } else {
        t
    }
}

pub proof fn lemma_unescape_escaped(v: Seq<u8>)
    ensures
        unescaped(escaped(v)) == v,
    decreases v.len(),
{
    if v.len() > 0 {
        let t = v.subrange(1, v.len() as int);
        lemma_unescape_escaped(t);
        let e = escaped_byte(v[0]) + escaped(t);
        assert(escaped(v) == e);
        if needs_escape(v[0]) {
            assert(e[0] == 0x5c && e[1] == escape_letter(v[0]));
            assert(e.subrange(2, e.len() as int) =~= escaped(t));
        } else {
            assert(e[0] == v[0]);
            assert(e.subrange(1, e.len() as int) =~= escaped(t));
        }
        assert(seq![v[0]] + t =~= v);
    }
}

/// With number parsing off, the raw bytes of every field can be read back
/// from the JSON text written for it.
pub proof fn lemma_field_bytes_round_trip(v: Seq<u8>, finite_double: bool)
    ensures
        field_bytes(field_text(v, false, finite_double)) == v,
{
    if is_literal(v) {
        assert(v[0] != 0x22);
    } else {
        let q = quoted(v);
        lemma_unescape_escaped(v);
        assert(q.subrange(1, q.len() - 1) =~= escaped(v));
    }
}

} // verus!
