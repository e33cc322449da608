//! Byte-level JSON string escaping.

use vstd::prelude::*;

verus! {

/// The bytes that must be written as a two-byte escape inside a JSON string.
pub open spec fn needs_escape(b: u8) -> bool {
    b == 0x5c || b == 0x22 || b == 0x0a || b == 0x0d || b == 0x09
}

/// The letter that follows the backslash in the escape of `b`.
pub open spec fn escape_letter(b: u8) -> u8 {
    if b == 0x0a {
        0x6e  // n

    } else if b == 0x0d {
        0x72  // r

    } else if b == 0x09 {
        0x74  // t

    } else {
        b
    }
}

/// What a single byte becomes inside a JSON string.
pub open spec fn escaped_byte(b: u8) -> Seq<u8> {
    if needs_escape(b) {
        seq![0x5cu8, escape_letter(b)]
    } else {
        seq![b]
    }
}

/// What a byte sequence becomes inside a JSON string.
pub open spec fn escaped(v: Seq<u8>) -> Seq<u8>
    decreases v.len(),
{
    if v.len() == 0 {
        Seq::empty()
    } else {
        escaped_byte(v[0]) + escaped(v.subrange(1, v.len() as int))
    }
}

/// A byte sequence written as a complete JSON string literal.
pub open spec fn quoted(v: Seq<u8>) -> Seq<u8> {
    seq![0x22u8] + escaped(v) + seq![0x22u8]
}

pub proof fn lemma_escaped_append(a: Seq<u8>, b: Seq<u8>)
    ensures
        escaped(a + b) == escaped(a) + escaped(b),
    decreases a.len(),
{
    if a.len() == 0 {
        assert(a + b =~= b);
        assert(escaped(a) + escaped(b) =~= escaped(b));
    } else {
        let at = a.subrange(1, a.len() as int);
        lemma_escaped_append(at, b);
        assert((a + b).subrange(1, (a + b).len() as int) =~= at + b);
        assert((a + b)[0] == a[0]);
        assert(escaped_byte(a[0]) + (escaped(at) + escaped(b)) =~= escaped_byte(a[0]) + escaped(
            at,
        ) + escaped(b));
    }
}

pub proof fn lemma_escaped_plain(v: Seq<u8>)
    requires
        forall|k: int| 0 <= k < v.len() ==> !needs_escape(#[trigger] v[k]),
    ensures
        escaped(v) == v,
    decreases v.len(),
{
    if v.len() > 0 {
        let t = v.subrange(1, v.len() as int);
        assert forall|k: int| 0 <= k < t.len() implies !needs_escape(#[trigger] t[k]) by {
            assert(t[k] == v[k + 1]);
        }
        lemma_escaped_plain(t);
        assert(seq![v[0]] + t =~= v);
    }
}

pub proof fn lemma_escaped_single(b: u8)
    ensures
        escaped(seq![b]) == escaped_byte(b),
{
    let s = seq![b];
    assert(s.subrange(1, 1) =~= Seq::<u8>::empty());
    assert(escaped(s.subrange(1, 1)) == Seq::<u8>::empty());
    assert(escaped_byte(b) + Seq::<u8>::empty() =~= escaped_byte(b));
}

/// Escaping one byte: a backslash, a double quote, a newline, a carriage
/// return and a tab become a backslash followed by `\`, `"`, `n`, `r` and
/// `t`; every other byte is kept as it is.
pub proof fn lemma_escape_primitive(b: u8)
    ensures
        b == 0x5c ==> escaped_byte(b) == seq![0x5cu8, 0x5c],
        b == 0x22 ==> escaped_byte(b) == seq![0x5cu8, 0x22],
        b == 0x0a ==> escaped_byte(b) == seq![0x5cu8, 0x6e],
        b == 0x0d ==> escaped_byte(b) == seq![0x5cu8, 0x72],
        b == 0x09 ==> escaped_byte(b) == seq![0x5cu8, 0x74],
        !needs_escape(b) ==> escaped_byte(b) == seq![b],
{
}

pub proof fn lemma_escaped_len(v: Seq<u8>)
    ensures
        escaped(v).len() >= v.len(),
    decreases v.len(),
{
    if v.len() > 0 {
        lemma_escaped_len(v.subrange(1, v.len() as int));
    }
}

/// Tells whether `b` needs an escape inside a JSON string.
pub fn is_escaped_byte(b: u8) -> (r: bool)
    ensures
        r == needs_escape(b),
{
    b == 0x5c || b == 0x22 || b == 0x0a || b == 0x0d || b == 0x09
}

/// Appends the JSON-string form of one byte to `output`: a backslash and a
/// letter for `\`, `"`, newline, carriage return and tab, the byte itself
/// otherwise.
pub fn escape(byte: u8, output: &mut Vec<u8>)
    ensures
        final(output)@ == old(output)@ + escaped_byte(byte),
{
    if is_escaped_byte(byte) {
        output.reserve(2);
        output.push(0x5c);
        let letter: u8 = if byte == 0x0a {
            0x6e
        } else if byte == 0x0d {
            0x72
        } else if byte == 0x09 {
            0x74
        } else {
            byte
        };
        output.push(letter);
    } else {
        output.push(byte);
    }
    assert(final(output)@ =~= old(output)@ + escaped_byte(byte));
}

/// Appends the JSON-string form of `v` to `output`. Runs of bytes that need
/// no escape are copied whole; each byte that needs one ends the run before it.
pub fn escape_bytes(v: &[u8], output: &mut Vec<u8>)
    ensures
        final(output)@ == old(output)@ + escaped(v@),
{
    let mut start: usize = 0;
    let mut i: usize = 0;
    while i < v.len()
        invariant
            start <= i <= v@.len(),
            output@ == old(output)@ + escaped(v@.subrange(0, start as int)),
            forall|k: int| start <= k < i ==> !needs_escape(#[trigger] v@[k]),
        decreases v@.len() - i,
    {
        let b = v[i];
        if is_escaped_byte(b) {
            let run = &v[start..i];
            proof {
                assert(run@ =~= v@.subrange(start as int, i as int));
                lemma_escaped_plain(run@);
                lemma_escaped_append(v@.subrange(0, start as int), run@);
                assert(v@.subrange(0, start as int) + run@ =~= v@.subrange(0, i as int));
                lemma_escaped_append(v@.subrange(0, i as int), seq![b]);
                assert(v@.subrange(0, i as int) + seq![b] =~= v@.subrange(0, i + 1));
                lemma_escaped_single(b);
            }
            output.extend_from_slice(run);
            escape(b, output);
            start = i + 1;
        }
        i += 1;
    }
    let rest = &v[start..v.len()];
    proof {
        assert(rest@ =~= v@.subrange(start as int, v@.len() as int));
        lemma_escaped_plain(rest@);
        lemma_escaped_append(v@.subrange(0, start as int), rest@);
        assert(v@.subrange(0, start as int) + rest@ =~= v@);
    }
    output.extend_from_slice(rest);
}

/// Appends `v` as a complete JSON string literal, quotes included.
pub fn write_quoted(v: &[u8], output: &mut Vec<u8>)
    ensures
        final(output)@ == old(output)@ + quoted(v@),
{
    output.push(0x22);
    escape_bytes(v, output);
    output.push(0x22);
    assert(final(output)@ =~= old(output)@ + quoted(v@));
}

} // verus!
