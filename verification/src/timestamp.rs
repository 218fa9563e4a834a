//! Nanosecond timestamps as stored: eight bytes, most significant first.

use vstd::prelude::*;

verus! {

/// Number of bytes of a stored timestamp.
pub const TIMESTAMP_LEN: usize = 8;

/// The number that a byte sequence denotes when read most significant byte
/// first. The empty sequence denotes zero.
pub open spec fn be_value(bytes: Seq<u8>) -> nat
    decreases bytes.len(),
{
    if bytes.len() == 0 {
        0
    } else {
        be_value(bytes.drop_last()) * 256 + bytes.last() as nat
    }
}

/// The eight bytes of `ns`, most significant first.
pub open spec fn be_bytes(ns: u64) -> Seq<u8> {
    seq![
        (ns / 0x100_0000_0000_0000) as u8,
        (ns / 0x1_0000_0000_0000 % 256) as u8,
        (ns / 0x100_0000_0000 % 256) as u8,
        (ns / 0x1_0000_0000 % 256) as u8,
        (ns / 0x100_0000 % 256) as u8,
        (ns / 0x1_0000 % 256) as u8,
        (ns / 0x100 % 256) as u8,
        (ns % 256) as u8,
    ]
}

/// What decoding a stored blob yields: the number it denotes when it is
/// exactly eight bytes long, nothing otherwise.
pub open spec fn decoded(bytes: Seq<u8>) -> Option<u64> {
    if bytes.len() == 8 {
        Some(be_value(bytes) as u64)
    } else {
        None
    }
}

/// The value of an eight-byte sequence, written out byte by byte.
pub proof fn lemma_be_value_of_eight(b: Seq<u8>)
    requires
        b.len() == 8,
    ensures
        be_value(b) == b[0] as nat * 0x100_0000_0000_0000 + b[1] as nat * 0x1_0000_0000_0000
            + b[2] as nat * 0x100_0000_0000 + b[3] as nat * 0x1_0000_0000 + b[4] as nat
            * 0x100_0000 + b[5] as nat * 0x1_0000 + b[6] as nat * 0x100 + b[7] as nat,
        be_value(b) <= u64::MAX,
{
    let b7 = b.drop_last();
    let b6 = b7.drop_last();
    let b5 = b6.drop_last();
    let b4 = b5.drop_last();
    let b3 = b4.drop_last();
    let b2 = b3.drop_last();
    let b1 = b2.drop_last();
    let b0 = b1.drop_last();
    assert(b0.len() == 0);
    assert(be_value(b0) == 0);
    assert(be_value(b1) == b[0] as nat);
    assert(be_value(b2) == be_value(b1) * 256 + b[1] as nat);
    assert(be_value(b3) == be_value(b2) * 256 + b[2] as nat);
    assert(be_value(b4) == be_value(b3) * 256 + b[3] as nat);
    assert(be_value(b5) == be_value(b4) * 256 + b[4] as nat);
    assert(be_value(b6) == be_value(b5) * 256 + b[5] as nat);
    assert(be_value(b7) == be_value(b6) * 256 + b[6] as nat);
    assert(be_value(b) == be_value(b7) * 256 + b[7] as nat);
}

/// Decoding the encoding of a timestamp gives the timestamp back, for every
/// value from zero to the largest.
pub proof fn lemma_decode_encode(ns: u64)
    ensures
        be_bytes(ns).len() == 8,
        be_value(be_bytes(ns)) == ns,
        decoded(be_bytes(ns)) == Some(ns),
{
    let b = be_bytes(ns);
    lemma_be_value_of_eight(b);
    let d0: u64 = ns / 0x100_0000_0000_0000;
    let d1: u64 = ns / 0x1_0000_0000_0000 % 256;
    let d2: u64 = ns / 0x100_0000_0000 % 256;
    let d3: u64 = ns / 0x1_0000_0000 % 256;
    let d4: u64 = ns / 0x100_0000 % 256;
    let d5: u64 = ns / 0x1_0000 % 256;
    let d6: u64 = ns / 0x100 % 256;
    let d7: u64 = ns % 256;
    assert(d0 < 256 && d1 < 256 && d2 < 256 && d3 < 256 && d4 < 256 && d5 < 256 && d6 < 256 && d7
        < 256 && ns == d0 * 0x100_0000_0000_0000 + d1 * 0x1_0000_0000_0000 + d2 * 0x100_0000_0000
        + d3 * 0x1_0000_0000 + d4 * 0x100_0000 + d5 * 0x1_0000 + d6 * 0x100 + d7) by (bit_vector)
        requires
            d0 == ns / 0x100_0000_0000_0000,
            d1 == ns / 0x1_0000_0000_0000 % 256,
            d2 == ns / 0x100_0000_0000 % 256,
            d3 == ns / 0x1_0000_0000 % 256,
            d4 == ns / 0x100_0000 % 256,
            d5 == ns / 0x1_0000 % 256,
            d6 == ns / 0x100 % 256,
            d7 == ns % 256,
    ;
    assert(b[0] == d0 && b[1] == d1 && b[2] == d2 && b[3] == d3);
    assert(b[4] == d4 && b[5] == d5 && b[6] == d6 && b[7] == d7);
}

/// Encodes a nanosecond count as eight bytes, most significant first.
pub fn encode_nanos(ns: u64) -> (out: Vec<u8>)
    ensures
        out@ == be_bytes(ns),
        out@.len() == 8,
        decoded(out@) == Some(ns),
{
    let mut out: Vec<u8> = Vec::new();
    out.push((ns / 0x100_0000_0000_0000) as u8);
    out.push((ns / 0x1_0000_0000_0000 % 256) as u8);
    out.push((ns / 0x100_0000_0000 % 256) as u8);
    out.push((ns / 0x1_0000_0000 % 256) as u8);
    out.push((ns / 0x100_0000 % 256) as u8);
    out.push((ns / 0x1_0000 % 256) as u8);
    out.push((ns / 0x100 % 256) as u8);
    out.push((ns % 256) as u8);
    proof {
        assert(out@ =~= be_bytes(ns));
        lemma_decode_encode(ns);
    }
    out
}

/// Decodes a stored timestamp. A blob of any length but eight is refused.
pub fn decode_nanos(bytes: &[u8]) -> (ns: Option<u64>)
    ensures
        ns == decoded(bytes@),
        ns is Some <==> bytes@.len() == 8,
{
    if bytes.len() != TIMESTAMP_LEN {
        return None;
    }
    proof {
        lemma_be_value_of_eight(bytes@);
    }
    let value: u64 = bytes[0] as u64 * 0x100_0000_0000_0000 + bytes[1] as u64
        * 0x1_0000_0000_0000 + bytes[2] as u64 * 0x100_0000_0000 + bytes[3] as u64
        * 0x1_0000_0000 + bytes[4] as u64 * 0x100_0000 + bytes[5] as u64 * 0x1_0000
        + bytes[6] as u64 * 0x100 + bytes[7] as u64;
    Some(value)
}

} // verus!
