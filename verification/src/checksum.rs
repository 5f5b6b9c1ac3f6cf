//! Checksums of the `crc` crate.

use vstd::prelude::*;

verus! {

/// The CRC-32/ISO-HDLC checksum of a byte sequence.
pub uninterp spec fn crc32_iso_hdlc(bytes: Seq<u8>) -> u32;

/// The CRC-8/SAE-J1850 checksum of a byte sequence.
pub uninterp spec fn crc8_sae_j1850(bytes: Seq<u8>) -> u8;

/// `crc::Crc::<u32>::checksum` with the catalogued algorithm `CRC_32_ISO_HDLC`. Trusted: the
/// checksum depends on the bytes alone.
#[verifier::external_body]
pub(crate) fn crc32(bytes: &[u8]) -> (crc: u32)
    ensures
        crc == crc32_iso_hdlc(bytes@),
{
    crc::Crc::<u32>::new(&crc::CRC_32_ISO_HDLC).checksum(bytes)
}

/// `crc::Crc::<u8>::checksum` with the catalogued algorithm `CRC_8_SAE_J1850`. Trusted: the
/// checksum depends on the bytes alone.
#[verifier::external_body]
pub(crate) fn crc8(bytes: &[u8]) -> (crc: u8)
    ensures
        crc == crc8_sae_j1850(bytes@),
{
    crc::Crc::<u8>::new(&crc::CRC_8_SAE_J1850).checksum(bytes)
}

} // verus!
