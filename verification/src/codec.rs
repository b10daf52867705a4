//! Bit-field codec: a gene's four bytes against its packed 32-bit value.
//!
//! The packed form is big-endian: byte 0 (the source-neuron id) sits in the
//! most significant position, byte 3 (the sink id) in the least significant.

use vstd::prelude::*;

use crate::definitions::{SINK_ID_BITMASK, SOURCE_B_BITMASK, SOURCE_ID_BITMASK, SOURCE_W_BITMASK};

verus! {

/// The packed form of four gene bytes: `b0` is the most significant byte.
pub open spec fn spec_pack(b0: u8, b1: u8, b2: u8, b3: u8) -> u32 {
    ((b0 as u32) << 24) | ((b1 as u32) << 16) | ((b2 as u32) << 8) | (b3 as u32)
}

/// The most significant byte of a packed value.
pub open spec fn spec_byte0(v: u32) -> u8 {
    ((v >> 24) & 0xFF) as u8
}

/// The second byte of a packed value.
pub open spec fn spec_byte1(v: u32) -> u8 {
    ((v >> 16) & 0xFF) as u8
}

/// The third byte of a packed value.
pub open spec fn spec_byte2(v: u32) -> u8 {
    ((v >> 8) & 0xFF) as u8
}

/// The least significant byte of a packed value.
pub open spec fn spec_byte3(v: u32) -> u8 {
    (v & 0xFF) as u8
}

/// Unpacking undoes packing: each byte comes back unchanged.
pub proof fn lemma_unpack_of_pack(b0: u8, b1: u8, b2: u8, b3: u8)
    ensures
        spec_byte0(spec_pack(b0, b1, b2, b3)) == b0,
        spec_byte1(spec_pack(b0, b1, b2, b3)) == b1,
        spec_byte2(spec_pack(b0, b1, b2, b3)) == b2,
        spec_byte3(spec_pack(b0, b1, b2, b3)) == b3,
{
    assert(spec_byte0(spec_pack(b0, b1, b2, b3)) == b0) by (bit_vector);
    assert(spec_byte1(spec_pack(b0, b1, b2, b3)) == b1) by (bit_vector);
    assert(spec_byte2(spec_pack(b0, b1, b2, b3)) == b2) by (bit_vector);
    assert(spec_byte3(spec_pack(b0, b1, b2, b3)) == b3) by (bit_vector);
}

/// Packing undoes unpacking: the four bytes of a value reassemble to it.
pub proof fn lemma_pack_of_unpack(v: u32)
    ensures
        spec_pack(spec_byte0(v), spec_byte1(v), spec_byte2(v), spec_byte3(v)) == v,
{
    assert(spec_pack(spec_byte0(v), spec_byte1(v), spec_byte2(v), spec_byte3(v)) == v)
        by (bit_vector);
}

/// Packing is injective: two byte tuples pack to the same value exactly when
/// they agree byte for byte.
pub proof fn lemma_pack_injective(a0: u8, a1: u8, a2: u8, a3: u8, b0: u8, b1: u8, b2: u8, b3: u8)
    ensures
        spec_pack(a0, a1, a2, a3) == spec_pack(b0, b1, b2, b3) <==> (a0 == b0 && a1 == b1 && a2
            == b2 && a3 == b3),
{
    lemma_unpack_of_pack(a0, a1, a2, a3);
    lemma_unpack_of_pack(b0, b1, b2, b3);
}

/// Packs four bytes into one 32-bit value, byte 0 most significant.
pub fn pack(fields: [u8; 4]) -> (r: u32)
    ensures
        r == spec_pack(fields[0], fields[1], fields[2], fields[3]),
{
    ((fields[0] as u32) << 24) | ((fields[1] as u32) << 16) | ((fields[2] as u32) << 8) | (
    fields[3] as u32)
}

/// Splits a packed value back into its four bytes; exact inverse of `pack`.
pub fn unpack(value: u32) -> (r: [u8; 4])
    ensures
        r[0] == spec_byte0(value),
        r[1] == spec_byte1(value),
        r[2] == spec_byte2(value),
        r[3] == spec_byte3(value),
        spec_pack(r[0], r[1], r[2], r[3]) == value,
{
    proof {
        lemma_pack_of_unpack(value);
    }
    [
        ((value >> 24) & 0xFF) as u8,
        ((value >> 16) & 0xFF) as u8,
        ((value >> 8) & 0xFF) as u8,
        (value & 0xFF) as u8,
    ]
}

/// Splits a packed value into its four bytes with explicit masks; agrees with
/// `unpack` bit for bit when given the canonical masks.
pub fn split_into_fields(gene: u32, masks: [u32; 4]) -> (r: [u8; 4])
    requires
        masks[0] == SOURCE_ID_BITMASK,
        masks[1] == SOURCE_W_BITMASK,
        masks[2] == SOURCE_B_BITMASK,
        masks[3] == SINK_ID_BITMASK,
    ensures
        r[0] == spec_byte0(gene),
        r[1] == spec_byte1(gene),
        r[2] == spec_byte2(gene),
        r[3] == spec_byte3(gene),
{
    assert((gene & 0xFF00_0000) >> 24 == (gene >> 24) & 0xFF) by (bit_vector);
    assert((gene & 0x00FF_0000) >> 16 == (gene >> 16) & 0xFF) by (bit_vector);
    assert((gene & 0x0000_FF00) >> 8 == (gene >> 8) & 0xFF) by (bit_vector);
    assert(gene & 0x0000_00FF == gene & 0xFF) by (bit_vector);
    [
        ((gene & masks[0]) >> 24) as u8,
        ((gene & masks[1]) >> 16) as u8,
        ((gene & masks[2]) >> 8) as u8,
        (gene & masks[3]) as u8,
    ]
}

} // verus!
