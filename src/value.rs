//! The fixed-width value that a read or a write moves: an unsigned 32-bit
//! integer laid out as four little-endian bytes.

use vstd::prelude::*;

verus! {

/// Number of bytes that one value occupies in the target process.
pub const VALUE_SIZE: usize = 4;

/// The four little-endian bytes of `v`.
pub open spec fn le_bytes(v: u32) -> Seq<u8> {
    seq![
        (v % 256) as u8,
        ((v / 256) % 256) as u8,
        ((v / 65536) % 256) as u8,
        ((v / 16777216) % 256) as u8,
    ]
}

/// The integer that four little-endian bytes stand for.
pub open spec fn le_value(b: Seq<u8>) -> nat
    recommends
        b.len() == 4,
{
    b[0] as nat + 256 * (b[1] as nat) + 65536 * (b[2] as nat) + 16777216 * (b[3] as nat)
}

/// Encodes `v` as the bytes that a write hands to the target process.
pub fn encode_u32(v: u32) -> (r: Vec<u8>)
    ensures
        r@ == le_bytes(v),
{
    let b0: u8 = (v % 256) as u8;
    let b1: u8 = ((v / 256) % 256) as u8;
    let b2: u8 = ((v / 65536) % 256) as u8;
    let b3: u8 = ((v / 16777216) % 256) as u8;
    let r: Vec<u8> = vec![b0, b1, b2, b3];
    assert(r@ =~= le_bytes(v));
    r
}

/// Decodes the bytes that a read brought back; `None` unless there are
/// exactly four of them.
pub fn decode_u32(b: &[u8]) -> (r: Option<u32>)
    ensures
        b@.len() == 4 ==> r == Some(le_value(b@) as u32) && le_value(b@) < 0x1_0000_0000,
        b@.len() != 4 ==> r is None,
{
    if b.len() != 4 {
        return None;
    }
    let b0: u32 = b[0] as u32;
    let b1: u32 = b[1] as u32;
    let b2: u32 = b[2] as u32;
    let b3: u32 = b[3] as u32;
    assert(b0 + 256 * b1 + 65536 * b2 + 16777216 * b3 < 0x1_0000_0000) by (nonlinear_arith)
        requires
            b0 < 256,
            b1 < 256,
            b2 < 256,
            b3 < 256,
    ;
    Some(b0 + 256 * b1 + 65536 * b2 + 16777216 * b3)
}

/// Decoding the encoding of a value gives the value back.
pub proof fn lemma_decode_encode(v: u32)
    ensures
        le_bytes(v).len() == 4,
        le_value(le_bytes(v)) == v,
{
    let x = v as int;
    assert(x == x % 256 + 256 * ((x / 256) % 256) + 65536 * ((x / 65536) % 256) + 16777216 * ((x
        / 16777216) % 256)) by (nonlinear_arith)
        requires
            0 <= x < 0x1_0000_0000,
    ;
}

/// Encoding the value of four bytes gives the same bytes back.
pub proof fn lemma_encode_decode(b: Seq<u8>)
    requires
        b.len() == 4,
    ensures
        le_value(b) < 0x1_0000_0000,
        le_bytes(le_value(b) as u32) == b,
{
    let (b0, b1, b2, b3) = (b[0] as int, b[1] as int, b[2] as int, b[3] as int);
    let x = b0 + 256 * b1 + 65536 * b2 + 16777216 * b3;
    assert(0 <= x < 0x1_0000_0000 && x % 256 == b0 && (x / 256) % 256 == b1 && (x / 65536) % 256
        == b2 && (x / 16777216) % 256 == b3) by (nonlinear_arith)
        requires
            0 <= b0 < 256,
            0 <= b1 < 256,
            0 <= b2 < 256,
            0 <= b3 < 256,
            x == b0 + 256 * b1 + 65536 * b2 + 16777216 * b3,
    ;
    assert(le_bytes(x as u32) =~= b);
}

} // verus!
