//! The value encoder: one column value becomes a type-tagged byte sequence.
//!
//! Every value contributes one tag byte followed by its payload. There is
//! deliberately no length prefix anywhere: the stream format is fixed by the
//! digest's compatibility contract and must not be changed.

use vstd::prelude::*;

verus! {

/// One column value of a result row: the dynamic type system of the database
/// engine, a closed union of exactly five variants. A `Real` carries the raw
/// bit pattern of its IEEE-754 double; the digest reads nothing else of it,
/// so special values (NaN, infinities) pass through unnormalized.
pub enum Value {
    Null,
    Integer(i64),
    Real(u64),
    Text(Vec<u8>),
    Blob(Vec<u8>),
}

/// Tag byte of `Null`: ASCII '0'.
pub const TAG_NULL: u8 = 48;

/// Tag byte of `Integer`: ASCII '1'.
pub const TAG_INTEGER: u8 = 49;

/// Tag byte of `Real`: ASCII '2'.
pub const TAG_REAL: u8 = 50;

/// Tag byte of `Text`: ASCII '3'.
pub const TAG_TEXT: u8 = 51;

/// Tag byte of `Blob`: ASCII '4'.
pub const TAG_BLOB: u8 = 52;

/// Byte `i` (0 = most significant) of the big-endian encoding of `x`.
pub open spec fn be_byte_u64(x: u64, i: int) -> u8 {
    ((x >> (((7 - i) * 8) as u64)) & 0xff) as u8
}

/// The eight bytes of `x`, most significant first.
pub open spec fn be_bytes_u64(x: u64) -> Seq<u8> {
    Seq::new(8, |i: int| be_byte_u64(x, i))
}

/// The byte encoding of one value: its tag byte, then its payload.
/// An integer contributes its 64-bit two's-complement representation
/// big-endian; a real the bytes of its bit pattern, big-endian; text and
/// blobs their raw bytes exactly as stored, with no length prefix.
pub open spec fn encode_value(v: Value) -> Seq<u8> {
    match v {
        Value::Null => seq![TAG_NULL],
        Value::Integer(x) => seq![TAG_INTEGER] + be_bytes_u64(x as u64),
        Value::Real(bits) => seq![TAG_REAL] + be_bytes_u64(bits),
        Value::Text(b) => seq![TAG_TEXT] + b@,
        Value::Blob(b) => seq![TAG_BLOB] + b@,
    }
}

/// The encodings of a sequence of values, concatenated in order.
pub open spec fn encode_values(vs: Seq<Value>) -> Seq<u8>
    decreases vs.len(),
{
    if vs.len() == 0 {
        Seq::empty()
    } else {
        encode_values(vs.drop_last()) + encode_value(vs.last())
    }
}

/// Appending one value to a sequence appends its encoding to the stream.
pub proof fn lemma_encode_values_push(vs: Seq<Value>, v: Value)
    ensures
        encode_values(vs.push(v)) == encode_values(vs) + encode_value(v),
{
    assert(vs.push(v).drop_last() =~= vs);
    assert(vs.push(v).last() == v);
}

/// Encoding distributes over concatenation of value sequences.
pub proof fn lemma_encode_values_concat(a: Seq<Value>, b: Seq<Value>)
    ensures
        encode_values(a + b) == encode_values(a) + encode_values(b),
    decreases b.len(),
{
    if b.len() == 0 {
        assert(a + b =~= a);
        assert(encode_values(a) + encode_values(b) =~= encode_values(a));
    } else {
        lemma_encode_values_concat(a, b.drop_last());
        assert((a + b).drop_last() =~= a + b.drop_last());
        assert((a + b).last() == b.last());
        assert(encode_values(a) + (encode_values(b.drop_last()) + encode_value(b.last())) =~= (
        encode_values(a) + encode_values(b.drop_last())) + encode_value(b.last()));
    }
}

/// Appends every byte of `src` to `out`.
fn push_bytes(out: &mut Vec<u8>, src: &Vec<u8>)
    ensures
        final(out)@ == old(out)@ + src@,
{
    let ghost base = out@;
    let mut j: usize = 0;
    assert(out@ =~= base + src@.take(0));
    while j < src.len()
        invariant
            j <= src.len(),
            out@ == base + src@.take(j as int),
        decreases src.len() - j,
    {
        let byte = src[j];
        out.push(byte);
        proof {
            assert(out@ =~= base + src@.take(j + 1));
        }
        j += 1;
    }
    proof {
        assert(out@ =~= base + src@);
    }
}

/// The eight bytes of `x`, most significant first.
pub fn u64_be_bytes(x: u64) -> (r: Vec<u8>)
    ensures
        r@ == be_bytes_u64(x),
{
    let mut out: Vec<u8> = Vec::new();
    let mut i: usize = 0;
    while i < 8
        invariant
            i <= 8,
            out@.len() == i,
            forall|k: int| 0 <= k < i ==> out@[k] == be_byte_u64(x, k),
        decreases 8 - i,
    {
        let shift: u64 = (7 - i as u64) * 8;
        assert(((x >> shift) & 0xff) < 256) by (bit_vector);
        let byte: u8 = ((x >> shift) & 0xff) as u8;
        proof {
            assert(shift == ((7 - i as int) * 8) as u64);
        }
        out.push(byte);
        i += 1;
    }
    proof {
        assert(out@ =~= be_bytes_u64(x));
    }
    out
}

/// The byte encoding of one value, exactly as `encode_value` states it.
pub fn encode_value_bytes(v: &Value) -> (r: Vec<u8>)
    ensures
        r@ == encode_value(*v),
{
    let mut out: Vec<u8> = Vec::new();
    match v {
        Value::Null => {
            out.push(TAG_NULL);
            proof {
                assert(out@ =~= encode_value(*v));
            }
        },
        Value::Integer(x) => {
            out.push(TAG_INTEGER);
            let be = u64_be_bytes(*x as u64);
            push_bytes(&mut out, &be);
            proof {
                assert(out@ =~= encode_value(*v));
            }
        },
        Value::Real(bits) => {
            out.push(TAG_REAL);
            let be = u64_be_bytes(*bits);
            push_bytes(&mut out, &be);
            proof {
                assert(out@ =~= encode_value(*v));
            }
        },
        Value::Text(b) => {
            out.push(TAG_TEXT);
            push_bytes(&mut out, b);
            proof {
                assert(out@ =~= encode_value(*v));
            }
        },
        Value::Blob(b) => {
            out.push(TAG_BLOB);
            push_bytes(&mut out, b);
            proof {
                assert(out@ =~= encode_value(*v));
            }
        },
    }
    out
}

} // verus!
