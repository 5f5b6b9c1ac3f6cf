//! Little-endian integers in byte sequences.

use vstd::prelude::*;

verus! {

/// The `u16` stored little-endian at `at`.
pub open spec fn le_u16(bytes: Seq<u8>, at: int) -> u16 {
    (bytes[at] + 0x100 * bytes[at + 1]) as u16
}

/// The `u32` stored little-endian at `at`.
pub open spec fn le_u32(bytes: Seq<u8>, at: int) -> u32 {
    (bytes[at] + 0x100 * bytes[at + 1] + 0x1_0000 * bytes[at + 2] + 0x100_0000 * bytes[at
        + 3]) as u32
}

/// The two bytes of `value`, least significant first.
pub open spec fn u16_bytes(value: u16) -> Seq<u8> {
    seq![(value % 0x100) as u8, (value / 0x100) as u8]
}

/// The four bytes of `value`, least significant first.
pub open spec fn u32_bytes(value: u32) -> Seq<u8> {
    seq![
        (value % 0x100) as u8,
        (value / 0x100 % 0x100) as u8,
        (value / 0x1_0000 % 0x100) as u8,
        (value / 0x100_0000) as u8,
    ]
}

/// Reading back what was stored gives the stored value.
pub proof fn lemma_u16_round_trip(bytes: Seq<u8>, at: int, value: u16)
    requires
        0 <= at,
        at + 2 <= bytes.len(),
        bytes.subrange(at, at + 2) == u16_bytes(value),
    ensures
        le_u16(bytes, at) == value,
{
    let s = bytes.subrange(at, at + 2);
    assert(s[0] == bytes[at] && s[1] == bytes[at + 1]);
}

/// Reading back what was stored gives the stored value.
pub proof fn lemma_u32_round_trip(bytes: Seq<u8>, at: int, value: u32)
    requires
        0 <= at,
        at + 4 <= bytes.len(),
        bytes.subrange(at, at + 4) == u32_bytes(value),
    ensures
        le_u32(bytes, at) == value,
{
    let s = bytes.subrange(at, at + 4);
    assert(s[0] == bytes[at] && s[1] == bytes[at + 1] && s[2] == bytes[at + 2] && s[3] == bytes[at
        + 3]);
}

/// Reads the `u16` stored little-endian at `at`.
pub fn read_u16(bytes: &[u8], at: usize) -> (value: u16)
    requires
        at + 2 <= bytes@.len(),
    ensures
        value == le_u16(bytes@, at as int),
{
    bytes[at] as u16 + 0x100 * (bytes[at + 1] as u16)
}

/// Reads the `u32` stored little-endian at `at`.
pub fn read_u32(bytes: &[u8], at: usize) -> (value: u32)
    requires
        at + 4 <= bytes@.len(),
    ensures
        value == le_u32(bytes@, at as int),
{
    bytes[at] as u32 + 0x100 * (bytes[at + 1] as u32) + 0x1_0000 * (bytes[at + 2] as u32)
        + 0x100_0000 * (bytes[at + 3] as u32)
}

/// The bytes of `value`, least significant first.
pub fn split_u16(value: u16) -> (bytes: [u8; 2])
    ensures
        bytes@ == u16_bytes(value),
{
    [(value % 0x100) as u8, (value / 0x100) as u8]
}

/// The bytes of `value`, least significant first.
pub fn split_u32(value: u32) -> (bytes: [u8; 4])
    ensures
        bytes@ == u32_bytes(value),
{
    [
        (value % 0x100) as u8,
        (value / 0x100 % 0x100) as u8,
        (value / 0x1_0000 % 0x100) as u8,
        (value / 0x100_0000) as u8,
    ]
}

/// Whether every byte is 0xFF, as flash reads after an erase.
pub open spec fn all_erased(bytes: Seq<u8>) -> bool {
    forall|i: int| 0 <= i < bytes.len() ==> bytes[i] == 0xFF
}

/// Tells whether every byte reads as erased flash.
pub fn is_erased(bytes: &[u8]) -> (erased: bool)
    ensures
        erased == all_erased(bytes@),
{
    let mut i: usize = 0;
    while i < bytes.len()
        invariant
            i <= bytes@.len(),
            forall|j: int| 0 <= j < i ==> bytes@[j] == 0xFF,
        decreases bytes@.len() - i,
    {
        if bytes[i] != 0xFF {
            return false;
        }
        i += 1;
    }
    true
}

/// Integers are stored with their least significant byte first: the bytes are the digits of the
/// value to the base 256, and every value is read from its digits.
pub proof fn law_least_significant_byte_first(short: u16, long: u32, bytes: Seq<u8>, at: int)
    ensures
        u16_bytes(short).len() == 2,
        u16_bytes(short)[0] + 256 * u16_bytes(short)[1] == short,
        u32_bytes(long).len() == 4,
        u32_bytes(long)[0] + 256 * u32_bytes(long)[1] + 65536 * u32_bytes(long)[2] + 16777216
            * u32_bytes(long)[3] == long,
        le_u16(bytes, at) == bytes[at] + 256 * bytes[at + 1],
        le_u32(bytes, at) == bytes[at] + 256 * bytes[at + 1] + 65536 * bytes[at + 2] + 16777216
            * bytes[at + 3],
{
}

} // verus!
