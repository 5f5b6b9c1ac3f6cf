//! Records kept in flash.
//!
//! Record layout: `[version: u16 le][payload len: u16 le][payload][crc32 le]`, the CRC is over
//! header + payload.

use vstd::prelude::*;

use crate::bytes;
use crate::bytes::{is_erased, read_u16, read_u32, split_u16, split_u32};
use crate::checksum;
use crate::checksum::crc32;
use crate::faults::MemoryFault;

verus! {

/// Scratch-buffer size, in **bytes**, for one record (4-byte header + payload + 4-byte CRC).
/// The flash side must ensure this is a multiple of the write granularity and fits within a sector.
pub const MAX_RECORD_BYTES: usize = 64;

/// Header and payload of a record.
pub open spec fn covered(payload: Seq<u8>, version: u16) -> Seq<u8> {
    bytes::u16_bytes(version) + bytes::u16_bytes(payload.len() as u16) + payload
}

/// The stored form of a record, with `crc` as its checksum.
pub open spec fn stored(payload: Seq<u8>, version: u16, crc: u32) -> Seq<u8> {
    covered(payload, version) + bytes::u32_bytes(crc)
}

/// Payload length that the header of a buffer claims.
pub open spec fn claimed_len(buf: Seq<u8>) -> int {
    bytes::le_u16(buf, 2) as int
}

/// What a buffer holds for a reader of layout `version`, when `crc` is the checksum of the header
/// and the payload that it claims. `None`: never written, or written in another layout version.
pub open spec fn decoded(buf: Seq<u8>, version: u16, crc: u32) -> Result<
    Option<Seq<u8>>,
    MemoryFault,
> {
    let len = claimed_len(buf);
    if bytes::all_erased(buf) {
        Ok(None)
    } else if 8 + len > buf.len() || crc != bytes::le_u32(buf, 4 + len) {
        Err(MemoryFault::CorruptedData)
    } else if bytes::le_u16(buf, 0) != version {
        Ok(None)
    } else {
        Ok(Some(buf.subrange(4, 4 + len)))
    }
}

/// The checksum of the header and the payload that a buffer claims.
pub open spec fn claimed_crc(buf: Seq<u8>) -> u32 {
    checksum::crc32_iso_hdlc(buf.subrange(0, 4 + claimed_len(buf)))
}

/// A result of decoding, with its payload as a sequence.
pub open spec fn payload_view(result: Result<Option<Vec<u8>>, MemoryFault>) -> Result<
    Option<Seq<u8>>,
    MemoryFault,
> {
    match result {
        Ok(Some(payload)) => Ok(Some(payload@)),
        Ok(None) => Ok(None),
        Err(fault) => Err(fault),
    }
}

/// Puts `payload` into `buf` as one record and returns the record length.
pub fn encode_record(payload: &[u8], version: u16, buf: &mut [u8; MAX_RECORD_BYTES]) -> (result:
    Result<usize, MemoryFault>)
    ensures
        if payload@.len() > 56 {
            result == Err::<usize, _>(MemoryFault::TooLarge) && *final(buf) == *old(buf)
        } else {
            let record = stored(
                payload@,
                version,
                checksum::crc32_iso_hdlc(covered(payload@, version)),
            );
            &&& result == Ok::<_, MemoryFault>((payload@.len() + 8) as usize)
            &&& final(buf)@ == record + old(buf)@.subrange(record.len() as int, 64)
        },
{
    if payload.len() > 56 {
        return Err(MemoryFault::TooLarge);
    }
    let mut unsealed = *buf;
    let _ = encode_record_with_crc(payload, version, 0, &mut unsealed);
    assert(unsealed@.subrange(0, payload@.len() as int + 4) == covered(payload@, version));
    let crc = crc32(vstd::slice::slice_subrange(unsealed.as_slice(), 0, payload.len() + 4));
    encode_record_with_crc(payload, version, crc, buf)
}

/// Like `encode_record`, given the checksum of header and payload.
pub fn encode_record_with_crc(
    payload: &[u8],
    version: u16,
    crc: u32,
    buf: &mut [u8; MAX_RECORD_BYTES],
) -> (result: Result<usize, MemoryFault>)
    ensures
        if payload@.len() > 56 {
            result == Err::<usize, _>(MemoryFault::TooLarge) && *final(buf) == *old(buf)
        } else {
            let record = stored(payload@, version, crc);
            &&& result == Ok::<_, MemoryFault>((payload@.len() + 8) as usize)
            &&& final(buf)@ == record + old(buf)@.subrange(record.len() as int, 64)
        },
{
    let used: usize = payload.len();
    if used > 56 {
        return Err(MemoryFault::TooLarge);
    }
    let ghost before = buf@;
    let ghost record = stored(payload@, version, crc);
    let version_bytes = split_u16(version);
    let len_bytes = split_u16(used as u16);
    let crc_bytes = split_u32(crc);
    buf[0] = version_bytes[0];
    buf[1] = version_bytes[1];
    buf[2] = len_bytes[0];
    buf[3] = len_bytes[1];
    let mut i: usize = 0;
    while i < used
        invariant
            used == payload@.len(),
            used <= 56,
            i <= used,
            before.len() == 64,
            record == stored(payload@, version, crc),
            buf@.subrange(0, 4 + i) == record.subrange(0, 4 + i),
            buf@.subrange(4 + i, 64) == before.subrange(4 + i, 64),
        decreases used - i,
    {
        let ghost old_buf = buf@;
        buf[4 + i] = payload[i];
        proof {
            assert(buf@ == old_buf.update(4 + i, payload@[i as int]));
            assert(record[4 + i] == payload@[i as int]);
            assert forall|j: int| 0 <= j < 5 + i implies #[trigger] buf@[j] == record[j] by {
                if j < 4 + i {
                    assert(old_buf.subrange(0, 4 + i)[j] == record.subrange(0, 4 + i)[j]);
                }
            }
            assert forall|j: int| 5 + i <= j < 64 implies #[trigger] buf@[j] == before[j] by {
                assert(old_buf.subrange(4 + i, 64)[j - 4 - i] == before.subrange(4 + i, 64)[j - 4
                    - i]);
            }
        }
        i += 1;
    }
    let ghost body = buf@;
    buf[4 + used] = crc_bytes[0];
    buf[5 + used] = crc_bytes[1];
    buf[6 + used] = crc_bytes[2];
    buf[7 + used] = crc_bytes[3];
    proof {
        assert forall|j: int| 0 <= j < 64 implies #[trigger] buf@[j] == (record + before.subrange(
            record.len() as int,
            64,
        ))[j] by {
            if j < 4 + used {
                assert(body.subrange(0, 4 + used)[j] == record.subrange(0, 4 + used)[j]);
            } else if j >= 8 + used {
                assert(body.subrange(4 + used, 64)[j - 4 - used] == before.subrange(
                    4 + used,
                    64,
                )[j - 4 - used]);
            }
        }
        assert(buf@ =~= record + before.subrange(record.len() as int, 64));
    }
    Ok(4 + used + 4)
}

/// Decodes one record from `buf` and returns its payload.
///
/// `Ok(None)` means the sector was never written, or holds a valid record with a different `version` (older firmware).
/// `Err(CorruptedData)` means a record is present but its CRC didn't match.
pub fn decode_record(buf: &[u8; MAX_RECORD_BYTES], version: u16) -> (result: Result<
    Option<Vec<u8>>,
    MemoryFault,
>)
    ensures
        payload_view(result) == decoded(buf@, version, claimed_crc(buf@)),
{
    let len: usize = read_u16(buf.as_slice(), 2) as usize;
    let crc: u32 = if 8 + len <= 64 {
        crc32(vstd::slice::slice_subrange(buf.as_slice(), 0, 4 + len))
    } else {
        0
    };
    decode_record_with_crc(buf, version, crc)
}

/// Like `decode_record`, given the checksum of the header and the payload that `buf` claims.
pub fn decode_record_with_crc(buf: &[u8; MAX_RECORD_BYTES], version: u16, crc: u32) -> (result:
    Result<Option<Vec<u8>>, MemoryFault>)
    ensures
        payload_view(result) == decoded(buf@, version, crc),
{
    let stored: &[u8] = buf.as_slice();
    if is_erased(stored) {
        return Ok(None);  // erased sector
    }
    let stored_version = read_u16(stored, 0);
    let len: usize = read_u16(stored, 2) as usize;
    if 8 + len > 64 {
        return Err(MemoryFault::CorruptedData);
    }
    if crc != read_u32(stored, 4 + len) {
        return Err(MemoryFault::CorruptedData);
    }
    if stored_version != version {
        return Ok(None);  // valid record from another layout version
    }
    let payload = vstd::slice::slice_to_vec(vstd::slice::slice_subrange(stored, 4, 4 + len));
    assert(payload@ == buf@.subrange(4, 4 + len));
    Ok(Some(payload))
}

/// A buffer that a record was put into gives the payload back to a reader of the same layout
/// version, and nothing to a reader of another.
pub proof fn law_record_round_trip(payload: Seq<u8>, version: u16, reader: u16, rest: Seq<u8>)
    requires
        payload.len() <= 56,
        rest.len() == 56 - payload.len(),
    ensures
        ({
            let buf = stored(
                payload,
                version,
                checksum::crc32_iso_hdlc(covered(payload, version)),
            ) + rest;
            decoded(buf, reader, claimed_crc(buf)) == Ok::<_, MemoryFault>(
                if reader == version {
                    Some(payload)
                } else {
                    None
                },
            )
        }),
{
    let crc = checksum::crc32_iso_hdlc(covered(payload, version));
    let buf = stored(payload, version, crc) + rest;
    let len = payload.len() as int;
    assert(buf.subrange(0, 2) =~= bytes::u16_bytes(version));
    bytes::lemma_u16_round_trip(buf, 0, version);
    assert(buf.subrange(2, 4) =~= bytes::u16_bytes(len as u16));
    bytes::lemma_u16_round_trip(buf, 2, len as u16);
    assert(claimed_len(buf) == len);
    assert(buf.subrange(0, 4 + len) =~= covered(payload, version));
    assert(buf.subrange(4 + len, 8 + len) =~= bytes::u32_bytes(crc));
    bytes::lemma_u32_round_trip(buf, 4 + len, crc);
    assert(buf.subrange(4, 4 + len) =~= payload);
    assert(buf[3] == 0);
}

/// The layout of a record: version and length of the payload, the payload, and the checksum of all
/// that. Each integer has its least significant byte first.
pub proof fn law_record_layout(payload: Seq<u8>, version: u16, crc: u32)
    requires
        payload.len() <= 56,
    ensures
        ({
            let record = stored(payload, version, crc);
            let len = payload.len() as int;
            &&& record.len() == 8 + len
            &&& record[0] + 256 * record[1] == version
            &&& record[2] + 256 * record[3] == len
            &&& forall|i: int| 0 <= i < len ==> #[trigger] record[4 + i] == payload[i]
            &&& record[4 + len] + 256 * record[5 + len] + 65536 * record[6 + len] + 16777216
                * record[7 + len] == crc
            &&& covered(payload, version) == record.take(4 + len)
        }),
{
    let record = stored(payload, version, crc);
    assert(covered(payload, version) =~= record.take(4 + payload.len() as int));
}

/// A buffer is never trusted against its checksum: a written one whose checksum differs, or that
/// claims more than it holds, is corrupted, whatever its version is. An erased one was never
/// written.
pub proof fn law_corruption_is_told(buf: Seq<u8>, version: u16, crc: u32)
    requires
        buf.len() == 64,
    ensures
        ({
            let len = buf[2] + 256 * buf[3];
            let claimed = buf[4 + len] + 256 * buf[5 + len] + 65536 * buf[6 + len] + 16777216 * buf[7
                + len];
            let erased = forall|i: int| 0 <= i < 64 ==> #[trigger] buf[i] == 0xFF;
            let sound = len <= 56 && claimed == crc;
            let result = decoded(buf, version, crc);
            &&& result is Err <==> !erased && !sound
            &&& result is Err ==> result == Err::<Option<Seq<u8>>, _>(MemoryFault::CorruptedData)
            &&& erased ==> result == Ok::<_, MemoryFault>(None::<Seq<u8>>)
            &&& !erased && sound && buf[0] + 256 * buf[1] != version ==> result == Ok::<
                _,
                MemoryFault,
            >(None::<Seq<u8>>)
            &&& !erased && sound && buf[0] + 256 * buf[1] == version ==> result == Ok::<
                _,
                MemoryFault,
            >(Some(buf.subrange(4, 4 + len)))
        }),
{
    assert(bytes::all_erased(buf) == (forall|i: int| 0 <= i < 64 ==> #[trigger] buf[i] == 0xFF));
}

} // verus!
