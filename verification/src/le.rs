//! Little-endian 32-bit words, as sequences of bytes.

use vstd::prelude::*;

verus! {

/// The four bytes of `v`, lowest first.
pub open spec fn u32_le(v: u32) -> Seq<u8> {
    seq![
        (v % 256) as u8,
        ((v / 256) % 256) as u8,
        ((v / 65536) % 256) as u8,
        ((v / 16777216) % 256) as u8,
    ]
}

/// The word whose four bytes, lowest first, open `bytes`.
pub open spec fn u32_from_le(bytes: Seq<u8>) -> u32
    recommends
        bytes.len() >= 4,
{
    (bytes[0] + bytes[1] * 256 + bytes[2] * 65536 + bytes[3] * 16777216) as u32
}

/// The bit pattern of `v` in two's complement.
pub open spec fn i32_bits(v: i32) -> u32 {
    if v >= 0 {
        v as u32
    } else {
        (v + 0x1_0000_0000) as u32
    }
}

/// The signed number whose two's complement bit pattern is `bits`.
pub open spec fn i32_from_bits(bits: u32) -> i32 {
    if bits < 0x8000_0000 {
        bits as i32
    } else {
        (bits - 0x1_0000_0000) as i32
    }
}

/// The four bytes of `v` in two's complement, lowest first.
pub open spec fn i32_le(v: i32) -> Seq<u8> {
    u32_le(i32_bits(v))
}

/// The signed word whose four bytes, lowest first, open `bytes`.
pub open spec fn i32_from_le(bytes: Seq<u8>) -> i32
    recommends
        bytes.len() >= 4,
{
    i32_from_bits(u32_from_le(bytes))
}

/// A word survives being written down and read back, whatever follows it.
pub proof fn lemma_u32_le_round_trip(v: u32, rest: Seq<u8>)
    ensures
        u32_le(v).len() == 4,
        u32_from_le(u32_le(v) + rest) == v,
        (u32_le(v) + rest).skip(4) == rest,
{
    let b = u32_le(v) + rest;
    assert(b[0] == u32_le(v)[0]);
    assert(b[1] == u32_le(v)[1]);
    assert(b[2] == u32_le(v)[2]);
    assert(b[3] == u32_le(v)[3]);
    assert(b.skip(4) =~= rest);
}

/// Four bytes survive being read as a word and written down again.
pub proof fn lemma_u32_from_le_round_trip(bytes: Seq<u8>)
    requires
        bytes.len() >= 4,
    ensures
        u32_le(u32_from_le(bytes)) == bytes.subrange(0, 4),
{
    let b0: u32 = bytes[0] as u32;
    let b1: u32 = bytes[1] as u32;
    let b2: u32 = bytes[2] as u32;
    let b3: u32 = bytes[3] as u32;
    let w: u32 = u32_from_le(bytes);
    assert(w == b0 + b1 * 256 + b2 * 65536 + b3 * 16777216);
    assert(w % 256 == b0 && (w / 256) % 256 == b1 && (w / 65536) % 256 == b2 && (w / 16777216)
        % 256 == b3) by (bit_vector)
        requires
            b0 < 256,
            b1 < 256,
            b2 < 256,
            b3 < 256,
            w == b0 + b1 * 256 + b2 * 65536 + b3 * 16777216,
    ;
    assert(u32_le(w) =~= bytes.subrange(0, 4));
}

/// A signed word and its bit pattern determine each other.
pub proof fn lemma_i32_bits_round_trip(v: i32, bits: u32)
    ensures
        i32_from_bits(i32_bits(v)) == v,
        i32_bits(i32_from_bits(bits)) == bits,
{
}

/// Appends the four bytes of `v`, lowest first.
pub fn push_u32_le(out: &mut Vec<u8>, v: u32)
    ensures
        final(out)@ == old(out)@ + u32_le(v),
{
    out.push((v % 256) as u8);
    out.push(((v / 256) % 256) as u8);
    out.push(((v / 65536) % 256) as u8);
    out.push(((v / 16777216) % 256) as u8);
    assert(out@ =~= old(out)@ + u32_le(v));
}

} // verus!
