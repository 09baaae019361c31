//! CRC32 (ISO-HDLC variant) over the payload, computed by the `crc`
//! crate behind a trusted wrapper.

use vstd::prelude::*;

verus! {

/// The CRC-32/ISO-HDLC value of a byte sequence. The algorithm itself
/// (polynomial 0x04C11DB7 reflected, initial value 0xFFFFFFFF, final XOR
/// 0xFFFFFFFF) is computed by the `crc` crate; its result depends on the
/// bytes alone, so it is named here rather than restated.
pub uninterp spec fn crc32_of(payload: Seq<u8>) -> u32;

/// Relies on `crc::Crc::<u32>::checksum` with `crc::CRC_32_ISO_HDLC`: a
/// const fn of the byte slice and that fixed algorithm table, so its
/// result is a function of the payload bytes alone.
#[verifier::external_body]
fn crc32_iso_hdlc(payload: &Vec<u8>) -> (r: u32)
    ensures
        r == crc32_of(payload@),
{
    crc::Crc::<u32>::new(&crc::CRC_32_ISO_HDLC).checksum(payload.as_slice())
}

/// The CRC-32/ISO-HDLC checksum of `payload`.
pub fn checksum(payload: &Vec<u8>) -> (r: u32)
    ensures
        r == crc32_of(payload@),
{
    crc32_iso_hdlc(payload)
}

/// Determinism: the checksum is a function of the payload bytes alone, so
/// two payloads holding the same bytes have the same checksum.
pub proof fn lemma_checksum_deterministic(a: Seq<u8>, b: Seq<u8>)
    requires
        a == b,
    ensures
        crc32_of(a) == crc32_of(b),
{
}

} // verus!
