//! The fields of a status word, as arithmetic on its value.
//!
//! A status word is a signed 32-bit integer. Its fields are stated here by
//! division and remainder (both rounding towards minus infinity, so a
//! negative word has the fields of its two's complement bit pattern), and
//! each is tied to the mask-and-shift expression that extracts it.

use vstd::prelude::*;

verus! {

/// The low seven bits: the primary discriminant of every layout.
pub open spec fn low_seven(status: i32) -> int {
    (status as int) % 128
}

/// The low eight bits.
pub open spec fn low_byte(status: i32) -> int {
    (status as int) % 256
}

/// Bit 7, which marks a core dump.
pub open spec fn core_flag(status: i32) -> bool {
    ((status as int) / 128) % 2 == 1
}

/// Bits 8 to 15.
pub open spec fn second_byte(status: i32) -> int {
    ((status as int) / 256) % 256
}

/// Everything above the low byte, bits 8 to 31, as a signed value.
pub open spec fn above_low_byte(status: i32) -> int {
    (status as int) / 256
}

/// Bits 16 to 31, as a signed value.
pub open spec fn upper_half(status: i32) -> int {
    (status as int) / 65536
}

/// The byte `byte`, read as a signed 8-bit value.
pub open spec fn signed_byte(byte: int) -> int {
    if byte < 128 {
        byte
    } else {
        byte - 256
    }
}

/// The byte that reads as `code` when taken as a signed 8-bit value.
pub open spec fn unsigned_byte(code: i8) -> int {
    if code >= 0 {
        code as int
    } else {
        code + 256
    }
}

/// The word that holds the exit code `code` in bits 8 to 15 and nothing else.
pub open spec fn exit_word(code: i8) -> int {
    256 * unsigned_byte(code)
}

/// Masking with `0x7f` takes the low seven bits.
pub proof fn lemma_low_seven(status: i32)
    by (bit_vector)
    ensures
        (status & 0x7f) == status % 128,
        0 <= (status & 0x7f) < 128,
{
}

/// Masking with `0xff` takes the low byte.
pub proof fn lemma_low_byte(status: i32)
    by (bit_vector)
    ensures
        (status & 0xff) == status % 256,
{
}

/// The low byte is the low seven bits with bit 7 on top.
pub proof fn lemma_low_byte_split(status: i32)
    ensures
        low_byte(status) == low_seven(status) + if core_flag(status) { 128int } else { 0 },
        0 <= low_seven(status) < 128,
{
    lemma_low_seven(status);
    lemma_low_byte(status);
    lemma_core_flag(status);
    assert((status & 0x80) == 0 ==> (status & 0xff) == (status & 0x7f)) by (bit_vector);
    assert((status & 0x80) != 0 ==> (status & 0xff) == (status & 0x7f) + 128) by (bit_vector);
}

/// Masking with `0x80` tests bit 7.
pub proof fn lemma_core_flag(status: i32)
    by (bit_vector)
    ensures
        ((status & 0x80) != 0) == ((status / 128) % 2 == 1),
{
}

/// Masking with `0xFF00` and shifting by eight takes bits 8 to 15.
pub proof fn lemma_second_byte(status: i32)
    by (bit_vector)
    ensures
        ((status & 0xFF00) >> 8) == (status / 256) % 256,
        0 <= ((status & 0xFF00) >> 8) < 256,
{
}

/// Shifting by eight drops the low byte and keeps the sign.
pub proof fn lemma_above_low_byte(status: i32)
    by (bit_vector)
    ensures
        (status >> 8) == status / 256,
{
}

/// Shifting by sixteen takes the upper half and keeps the sign.
pub proof fn lemma_upper_half(status: i32)
    by (bit_vector)
    ensures
        (status >> 16) == status / 65536,
{
}

/// Cutting the shifted word down to eight signed bits reads the second
/// byte as a signed value, whether or not the byte was masked out first.
pub proof fn lemma_signed_byte(status: i32)
    by (bit_vector)
    ensures
        (status / 256) % 256 < 128 ==> ((status >> 8) as i8) == (status / 256) % 256,
        (status / 256) % 256 >= 128 ==> ((status >> 8) as i8) == (status / 256) % 256 - 256,
        (((status >> 8) & 0xFF) as i8) == ((status >> 8) as i8),
        (((status & 0xFF00) >> 8) as i8) == ((status >> 8) as i8),
{
}

} // verus!
