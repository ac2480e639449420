//! Fixed-width integer encodings used by the frame codec and the wire format.

use vstd::prelude::*;

verus! {

/// The four bytes of `x`, least significant first.
pub open spec fn le_bytes_u32(x: u32) -> Seq<u8> {
    seq![
        (x as int % 256) as u8,
        (x as int / 0x100 % 256) as u8,
        (x as int / 0x1_0000 % 256) as u8,
        (x as int / 0x100_0000 % 256) as u8,
    ]
}

/// The eight bytes of `x`, least significant first.
pub open spec fn le_bytes_u64(x: u64) -> Seq<u8> {
    seq![
        (x as int % 256) as u8,
        (x as int / 0x100 % 256) as u8,
        (x as int / 0x1_0000 % 256) as u8,
        (x as int / 0x100_0000 % 256) as u8,
        (x as int / 0x1_0000_0000 % 256) as u8,
        (x as int / 0x100_0000_0000 % 256) as u8,
        (x as int / 0x1_0000_0000_0000 % 256) as u8,
        (x as int / 0x100_0000_0000_0000 % 256) as u8,
    ]
}

/// The four bytes of `x`, most significant first.
pub open spec fn be_bytes_u32(x: u32) -> Seq<u8> {
    seq![
        (x as int / 0x100_0000 % 256) as u8,
        (x as int / 0x1_0000 % 256) as u8,
        (x as int / 0x100 % 256) as u8,
        (x as int % 256) as u8,
    ]
}

/// The value whose little-endian bytes are the first four bytes of `s`.
pub open spec fn u32_from_le(s: Seq<u8>) -> u32 {
    (s[0] as int + 0x100 * (s[1] as int) + 0x1_0000 * (s[2] as int) + 0x100_0000 * (s[3] as int)) as u32
}

/// The value whose little-endian bytes are the first eight bytes of `s`.
pub open spec fn u64_from_le(s: Seq<u8>) -> u64 {
    (s[0] as int + 0x100 * (s[1] as int) + 0x1_0000 * (s[2] as int) + 0x100_0000 * (s[3] as int)
        + 0x1_0000_0000 * (s[4] as int) + 0x100_0000_0000 * (s[5] as int)
        + 0x1_0000_0000_0000 * (s[6] as int) + 0x100_0000_0000_0000 * (s[7] as int)) as u64
}

/// The value whose big-endian bytes are the first four bytes of `s`.
pub open spec fn u32_from_be(s: Seq<u8>) -> u32 {
    (0x100_0000 * (s[0] as int) + 0x1_0000 * (s[1] as int) + 0x100 * (s[2] as int) + s[3] as int) as u32
}

/// Reading back the little-endian bytes of a 32-bit value gives the value.
pub proof fn lemma_u32_le_round_trip(x: u32)
    ensures
        le_bytes_u32(x).len() == 4,
        u32_from_le(le_bytes_u32(x)) == x,
{
}

/// Reading back the little-endian bytes of a 64-bit value gives the value.
pub proof fn lemma_u64_le_round_trip(x: u64)
    ensures
        le_bytes_u64(x).len() == 8,
        u64_from_le(le_bytes_u64(x)) == x,
{
    let q0 = x as int;
    let q1 = q0 / 256;
    let q2 = q1 / 256;
    let q3 = q2 / 256;
    let q4 = q3 / 256;
    let q5 = q4 / 256;
    let q6 = q5 / 256;
    let q7 = q6 / 256;
    assert(q0 / 0x1_0000 == q2);
    assert(q0 / 0x100_0000 == q3);
    assert(q0 / 0x1_0000_0000 == q4);
    assert(q0 / 0x100_0000_0000 == q5);
    assert(q0 / 0x1_0000_0000_0000 == q6);
    assert(q0 / 0x100_0000_0000_0000 == q7);
    assert(q7 < 256);
    let s = le_bytes_u64(x);
    assert(s[0] == q0 % 256 && s[1] == q1 % 256 && s[2] == q2 % 256 && s[3] == q3 % 256);
    assert(s[4] == q4 % 256 && s[5] == q5 % 256 && s[6] == q6 % 256 && s[7] == q7 % 256);
    assert(q0 == q0 % 256 + 256 * q1);
    assert(q1 == q1 % 256 + 256 * q2);
    assert(q2 == q2 % 256 + 256 * q3);
    assert(q3 == q3 % 256 + 256 * q4);
    assert(q4 == q4 % 256 + 256 * q5);
    assert(q5 == q5 % 256 + 256 * q6);
    assert(q6 == q6 % 256 + 256 * q7);
}

/// Reading back the big-endian bytes of a 32-bit value gives the value.
pub proof fn lemma_u32_be_round_trip(x: u32)
    ensures
        be_bytes_u32(x).len() == 4,
        u32_from_be(be_bytes_u32(x)) == x,
{
}

/// Writes `x` as four bytes, most significant first.
pub fn write_be_u32(x: u32) -> (bytes: Vec<u8>)
    ensures
        bytes@ == be_bytes_u32(x),
{
    let mut bytes: Vec<u8> = Vec::new();
    bytes.push((x / 0x100_0000 % 256) as u8);
    bytes.push((x / 0x1_0000 % 256) as u8);
    bytes.push((x / 0x100 % 256) as u8);
    bytes.push((x % 256) as u8);
    assert(bytes@ =~= be_bytes_u32(x));
    bytes
}

/// Reads four bytes, most significant first; `None` unless there are exactly four.
pub fn read_be_u32(bytes: &[u8]) -> (value: Option<u32>)
    ensures
        value is Some <==> bytes@.len() == 4,
        value matches Some(x) ==> x == u32_from_be(bytes@),
{
    if bytes.len() != 4 {
        return None;
    }
    let b0: u32 = bytes[0] as u32;
    let b1: u32 = bytes[1] as u32;
    let b2: u32 = bytes[2] as u32;
    let b3: u32 = bytes[3] as u32;
    Some(0x100_0000 * b0 + 0x1_0000 * b1 + 0x100 * b2 + b3)
}

} // verus!
