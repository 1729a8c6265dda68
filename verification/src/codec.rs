//! Byte-level encodings of the device's register operations.
//!
//! Every frame the driver puts on the bus, and the decoding of the
//! frame it reads back, is defined here as a function on plain values.

use vstd::prelude::*;

verus! {

/// A DAC code the device can represent: it fits in twelve bits.
pub open spec fn fits_twelve_bits(code: u16) -> bool {
    code <= 0xFFF
}

/// The two-byte fast-mode frame for `code`: the top nibble of the code
/// in the low nibble of the first byte, the low eight bits in the
/// second byte. No command prefix, and no masking of the input.
pub open spec fn fast_mode_bytes(code: u16) -> Seq<u8> {
    seq![(code >> 8) as u8, (code & 0xFF) as u8]
}

/// The three-byte "write DAC register" frame for `code`: command
/// prefix `0x40`, then the top eight bits of the code, then the low
/// four bits shifted into the high nibble of the last byte.
pub open spec fn normal_write_bytes(code: u16) -> Seq<u8> {
    seq![0x40u8, (code >> 4) as u8, ((code << 4) & 0xFF) as u8]
}

/// The three-byte "write DAC register and EEPROM" frame for `code`:
/// the same bit layout as `normal_write_bytes`, under command prefix
/// `0x60`, which additionally persists the value.
pub open spec fn persist_write_bytes(code: u16) -> Seq<u8> {
    seq![0x60u8, (code >> 4) as u8, ((code << 4) & 0xFF) as u8]
}

/// The single-byte reset command frame.
pub open spec fn reset_bytes() -> Seq<u8> {
    seq![0x06u8]
}

/// The DAC code carried by the last two bytes of a frame read from the
/// device: the first byte holds the top eight bits, the high nibble of
/// the second byte the low four.
pub open spec fn decode_dac_code(b1: u8, b2: u8) -> u16 {
    ((b1 as u16) << 4) | ((b2 >> 4) as u16)
}

/// A normal write followed by a read of the same register returns the
/// code that was written: decoding the payload bytes of the
/// normal-write frame is the inverse of encoding, for every code the
/// device can represent.
pub proof fn lemma_normal_write_read_round_trip(code: u16)
    requires
        fits_twelve_bits(code),
    ensures
        decode_dac_code(normal_write_bytes(code)[1], normal_write_bytes(code)[2]) == code,
{
    assert(((((code >> 4) as u8) as u16) << 4) | (((((code << 4) & 0xFF) as u8) >> 4) as u16)
        == code) by (bit_vector)
        requires
            code <= 0xFFF,
    ;
}

/// A fast-mode frame for a code masked to twelve bits carries exactly
/// the low twelve bits of the input: the first byte is the masked
/// code's top four bits and stays below `0x10`, the second byte is the
/// input's low eight bits. Bits twelve to fifteen of the input never
/// reach the bus.
pub proof fn lemma_fast_mode_masked(val: u16)
    ensures
        fast_mode_bytes(val & 0xFFF).len() == 2,
        fast_mode_bytes(val & 0xFFF)[0] == ((val & 0xFFF) >> 8) as u8,
        fast_mode_bytes(val & 0xFFF)[0] < 0x10,
        fast_mode_bytes(val & 0xFFF)[1] == (val & 0xFF) as u8,
{
    assert((((val & 0xFFF) >> 8) as u8) < 0x10) by (bit_vector);
    assert(((val & 0xFFF) & 0xFF) as u8 == (val & 0xFF) as u8) by (bit_vector);
}

/// The persisted-write frame is byte-identical to the normal-write
/// frame but for the command prefix: `0x60` in place of `0x40`.
pub proof fn lemma_persist_matches_normal(code: u16)
    ensures
        persist_write_bytes(code).len() == 3,
        normal_write_bytes(code).len() == 3,
        persist_write_bytes(code)[0] == 0x60u8,
        normal_write_bytes(code)[0] == 0x40u8,
        persist_write_bytes(code)[1] == normal_write_bytes(code)[1],
        persist_write_bytes(code)[2] == normal_write_bytes(code)[2],
{
}

} // verus!
