//! The two file-level operations on plain bytes: building the output of
//! the create mode, and patching the header of an existing image.

use vstd::prelude::*;
use crate::checksum::{checksum, crc32_of};
use crate::codec::{
    deserialize, lemma_round_trip, lemma_serialize_len, push_bytes, serialize, spec_deserialize,
    spec_serialize,
};
use crate::header::{HeaderError, HeaderModel, UBootSPLHeader, HEADER_SIZE, spec_create};

verus! {

/// Largest payload a built image may carry: the fixed image budget of
/// 181072 bytes, less the header, plus one.
pub const MAX_PAYLOAD_SIZE: usize = 181072 - 1024 + 1;

/// Sentinel stored in the `crc32` field by the patch operation: not the
/// CRC of any realistic payload, so the boot ROM's check fails and it
/// falls back to the backup SPL image.
pub const CRC_FAILED: u32 = 0x5A5A5A5A;

/// The header that the create mode writes for a given payload: a fresh
/// header with the payload's length and checksum filled in.
pub open spec fn spec_built_header(payload: Seq<u8>, version: u32, backup_offset: u32) -> HeaderModel {
    HeaderModel {
        file_size: payload.len() as u32,
        crc32: crc32_of(payload),
        ..spec_create(version, backup_offset)
    }
}

/// What the patch operation does to a header: the backup offset is
/// overwritten only when the caller supplies a nonzero one, and the
/// checksum is unconditionally replaced by the invalid sentinel.
pub open spec fn spec_patch(m: HeaderModel, backup_offset: u32) -> HeaderModel {
    HeaderModel {
        backup_offset: if backup_offset == 0 {
            m.backup_offset
        } else {
            backup_offset
        },
        crc32: CRC_FAILED,
        ..m
    }
}

/// Build the full output of the create mode: a header carrying the
/// payload's length and CRC32, followed by the payload unchanged.
/// Fails, and builds nothing, when the payload exceeds
/// `MAX_PAYLOAD_SIZE`.
pub fn build_spl_output(payload: &Vec<u8>, version: u32, backup_offset: u32) -> (r: Result<
    (UBootSPLHeader, Vec<u8>),
    HeaderError,
>)
    requires
        payload@.len() <= u32::MAX,
    ensures
        payload@.len() <= MAX_PAYLOAD_SIZE <==> r is Ok,
        r matches Ok((h, out)) ==> {
            &&& h@ == spec_built_header(payload@, version, backup_offset)
            &&& h@.wf()
            &&& out@ == spec_serialize(h@) + payload@
            &&& out@.len() == HEADER_SIZE + payload@.len()
        },
        r matches Err(e) ==> e == (HeaderError::PayloadTooLarge {
            actual: payload@.len() as u32,
            max: MAX_PAYLOAD_SIZE as u32,
        }),
{
    let len = payload.len();
    if len > MAX_PAYLOAD_SIZE {
        return Err(HeaderError::PayloadTooLarge { actual: len as u32, max: MAX_PAYLOAD_SIZE as u32 });
    }
    let mut h = UBootSPLHeader::create(version, backup_offset);
    h.file_size = len as u32;
    h.crc32 = checksum(payload);
    proof {
        assert(h@ =~= spec_built_header(payload@, version, backup_offset));
    }
    let mut out = serialize(&h);
    push_bytes(&mut out, payload);
    Ok((h, out))
}

/// Patch the header held in the first `HEADER_SIZE` bytes of `head`: keep
/// or overwrite the backup offset as `spec_patch` says, invalidate the
/// checksum, and return the re-serialized header, exactly `HEADER_SIZE`
/// bytes to be written back over the start of the file. Fails with
/// `TruncatedFile` when fewer than `HEADER_SIZE` bytes are supplied.
pub fn patch_image_header(head: &Vec<u8>, backup_offset: u32) -> (r: Result<Vec<u8>, HeaderError>)
    ensures
        head@.len() >= HEADER_SIZE <==> r is Ok,
        r matches Ok(out) ==> {
            &&& out@ == spec_serialize(
                spec_patch(spec_deserialize(head@.take(HEADER_SIZE as int)), backup_offset),
            )
            &&& out@.len() == HEADER_SIZE
        },
        r matches Err(e) ==> e == HeaderError::TruncatedFile,
{
    let mut h = match deserialize(head) {
        Ok(h) => h,
        Err(_) => {
            return Err(HeaderError::TruncatedFile);
        },
    };
    if backup_offset != 0 {
        h.backup_offset = backup_offset;
    }
    h.crc32 = CRC_FAILED;
    proof {
        assert(h@ =~= spec_patch(spec_deserialize(head@.take(HEADER_SIZE as int)), backup_offset));
    }
    let out = serialize(&h);
    Ok(out)
}

/// Patching with a backup offset of zero is a pure checksum
/// invalidation: the stored backup offset, and every field but the
/// checksum, is preserved exactly.
pub proof fn lemma_patch_zero_preserves_fields(m: HeaderModel)
    ensures
        spec_patch(m, 0).backup_offset == m.backup_offset,
        spec_patch(m, 0) == (HeaderModel { crc32: CRC_FAILED, ..m }),
{
    assert(spec_patch(m, 0) =~= HeaderModel { crc32: CRC_FAILED, ..m });
}

/// Idempotence of the patch: applying the patch twice with the same
/// backup offset yields the same header bytes as applying it once.
pub proof fn lemma_patch_idempotent(s: Seq<u8>, backup_offset: u32)
    requires
        s.len() >= HEADER_SIZE,
    ensures
        ({
            let once = spec_serialize(
                spec_patch(spec_deserialize(s.take(HEADER_SIZE as int)), backup_offset),
            );
            spec_serialize(
                spec_patch(spec_deserialize(once.take(HEADER_SIZE as int)), backup_offset),
            ) == once
        }),
{
    let m = spec_deserialize(s.take(HEADER_SIZE as int));
    let p = spec_patch(m, backup_offset);
    assert(p.wf());
    lemma_serialize_len(p);
    let once = spec_serialize(p);
    assert(once.take(HEADER_SIZE as int) =~= once);
    lemma_round_trip(p);
    assert(spec_patch(p, backup_offset) =~= p);
}

} // verus!
