//! Byte-exact serialization of the header: exactly `HEADER_SIZE` bytes,
//! every integer field little-endian, the reserved regions verbatim.

use vstd::prelude::*;
use vstd::bytes::{
    lemma_auto_spec_u32_to_from_le_bytes, spec_u32_from_le_bytes, spec_u32_to_le_bytes,
    u32_from_le_bytes, u32_to_le_bytes,
};
use vstd::slice::slice_subrange;
use crate::header::{HeaderError, HeaderModel, UBootSPLHeader, HEADER_SIZE};

verus! {

/// The serialized form of a header model: each field in layout order,
/// integers as four little-endian bytes.
pub open spec fn spec_serialize(m: HeaderModel) -> Seq<u8> {
    spec_u32_to_le_bytes(m.spl_offset) + spec_u32_to_le_bytes(m.backup_offset) + m.reserved_a
        + spec_u32_to_le_bytes(m.version) + spec_u32_to_le_bytes(m.file_size)
        + spec_u32_to_le_bytes(m.reserved_b) + spec_u32_to_le_bytes(m.crc32) + m.reserved_c
}

/// The header model read back from one serialized header. Field offsets
/// follow from the layout: 4 + 4 + 636 puts the version word at byte 644,
/// and the trailing reserved region at byte 660 runs to byte 1024.
pub open spec fn spec_deserialize(s: Seq<u8>) -> HeaderModel
    recommends
        s.len() == HEADER_SIZE,
{
    HeaderModel {
        spl_offset: spec_u32_from_le_bytes(s.subrange(0, 4)),
        backup_offset: spec_u32_from_le_bytes(s.subrange(4, 8)),
        reserved_a: s.subrange(8, 644),
        version: spec_u32_from_le_bytes(s.subrange(644, 648)),
        file_size: spec_u32_from_le_bytes(s.subrange(648, 652)),
        reserved_b: spec_u32_from_le_bytes(s.subrange(652, 656)),
        crc32: spec_u32_from_le_bytes(s.subrange(656, 660)),
        reserved_c: s.subrange(660, 1024),
    }
}

/// A serialized well-formed header is exactly `HEADER_SIZE` bytes long.
pub proof fn lemma_serialize_len(m: HeaderModel)
    requires
        m.wf(),
    ensures
        spec_serialize(m).len() == HEADER_SIZE,
{
    lemma_auto_spec_u32_to_from_le_bytes();
}

/// Round trip: reading back a serialized well-formed header yields the
/// same model, field for field.
pub proof fn lemma_round_trip(m: HeaderModel)
    requires
        m.wf(),
    ensures
        spec_deserialize(spec_serialize(m)) == m,
{
    lemma_auto_spec_u32_to_from_le_bytes();
    let s = spec_serialize(m);
    assert(s.subrange(0, 4) =~= spec_u32_to_le_bytes(m.spl_offset));
    assert(s.subrange(4, 8) =~= spec_u32_to_le_bytes(m.backup_offset));
    assert(s.subrange(8, 644) =~= m.reserved_a);
    assert(s.subrange(644, 648) =~= spec_u32_to_le_bytes(m.version));
    assert(s.subrange(648, 652) =~= spec_u32_to_le_bytes(m.file_size));
    assert(s.subrange(652, 656) =~= spec_u32_to_le_bytes(m.reserved_b));
    assert(s.subrange(656, 660) =~= spec_u32_to_le_bytes(m.crc32));
    assert(s.subrange(660, 1024) =~= m.reserved_c);
    assert(spec_deserialize(s) =~= m);
}

/// Append the four little-endian bytes of `x`.
fn push_u32_le(out: &mut Vec<u8>, x: u32)
    ensures
        final(out)@ == old(out)@ + spec_u32_to_le_bytes(x),
{
    let mut b = u32_to_le_bytes(x);
    out.append(&mut b);
}

/// Append a copy of `src`.
pub(crate) fn push_bytes(out: &mut Vec<u8>, src: &Vec<u8>)
    ensures
        final(out)@ == old(out)@ + src@,
{
    let mut i: usize = 0;
    while i < src.len()
        invariant
            i <= src@.len(),
            out@ == old(out)@ + src@.take(i as int),
        decreases src@.len() - i,
    {
        out.push(src[i]);
        proof {
            assert(old(out)@ + src@.take(i as int) + seq![src@[i as int]] =~= old(out)@
                + src@.take(i + 1));
        }
        i = i + 1;
    }
    proof {
        assert(old(out)@ + src@.take(src@.len() as int) =~= old(out)@ + src@);
    }
}

/// Serialize a header to its exact on-disk form: `HEADER_SIZE` bytes,
/// little-endian fields in layout order.
pub fn serialize(h: &UBootSPLHeader) -> (r: Vec<u8>)
    requires
        h@.wf(),
    ensures
        r@ == spec_serialize(h@),
        r@.len() == HEADER_SIZE,
{
    let mut out: Vec<u8> = Vec::new();
    push_u32_le(&mut out, h.spl_offset);
    push_u32_le(&mut out, h.backup_offset);
    push_bytes(&mut out, &h.reserved_a);
    push_u32_le(&mut out, h.version);
    push_u32_le(&mut out, h.file_size);
    push_u32_le(&mut out, h.reserved_b);
    push_u32_le(&mut out, h.crc32);
    push_bytes(&mut out, &h.reserved_c);
    proof {
        assert(out@ =~= spec_serialize(h@));
        lemma_serialize_len(h@);
    }
    out
}

/// Read the little-endian word at byte offset `i`.
fn read_u32_le(bytes: &Vec<u8>, i: usize) -> (r: u32)
    requires
        i + 4 <= bytes@.len(),
    ensures
        r == spec_u32_from_le_bytes(bytes@.subrange(i as int, i + 4)),
{
    let n = bytes.len();
    proof {
        assert(i + 4 <= n);
    }
    let s = slice_subrange(bytes.as_slice(), i, i + 4);
    u32_from_le_bytes(s)
}

/// Copy the bytes at offsets `i..j`.
fn copy_range(bytes: &Vec<u8>, i: usize, j: usize) -> (r: Vec<u8>)
    requires
        i <= j <= bytes@.len(),
    ensures
        r@ == bytes@.subrange(i as int, j as int),
{
    let mut out: Vec<u8> = Vec::new();
    let mut k: usize = i;
    while k < j
        invariant
            i <= k <= j <= bytes@.len(),
            out@ == bytes@.subrange(i as int, k as int),
        decreases j - k,
    {
        out.push(bytes[k]);
        proof {
            assert(bytes@.subrange(i as int, k as int) + seq![bytes@[k as int]] =~= bytes@
                .subrange(i as int, k + 1));
        }
        k = k + 1;
    }
    out
}

/// Deserialize a header from the first `HEADER_SIZE` bytes. Succeeds on
/// any buffer of at least `HEADER_SIZE` bytes — no field value is
/// validated — and fails with `MalformedHeader` on anything shorter.
pub fn deserialize(bytes: &Vec<u8>) -> (r: Result<UBootSPLHeader, HeaderError>)
    ensures
        bytes@.len() >= HEADER_SIZE <==> r is Ok,
        r matches Ok(h) ==> h@ == spec_deserialize(bytes@.take(HEADER_SIZE as int)) && h@.wf(),
        r matches Err(e) ==> e == HeaderError::MalformedHeader,
{
    if bytes.len() < HEADER_SIZE {
        return Err(HeaderError::MalformedHeader);
    }
    let h = UBootSPLHeader {
        spl_offset: read_u32_le(bytes, 0),
        backup_offset: read_u32_le(bytes, 4),
        reserved_a: copy_range(bytes, 8, 644),
        version: read_u32_le(bytes, 644),
        file_size: read_u32_le(bytes, 648),
        reserved_b: read_u32_le(bytes, 652),
        crc32: read_u32_le(bytes, 656),
        reserved_c: copy_range(bytes, 660, 1024),
    };
    proof {
        let t = bytes@.take(HEADER_SIZE as int);
        assert(t.subrange(0, 4) =~= bytes@.subrange(0, 4));
        assert(t.subrange(4, 8) =~= bytes@.subrange(4, 8));
        assert(t.subrange(8, 644) =~= bytes@.subrange(8, 644));
        assert(t.subrange(644, 648) =~= bytes@.subrange(644, 648));
        assert(t.subrange(648, 652) =~= bytes@.subrange(648, 652));
        assert(t.subrange(652, 656) =~= bytes@.subrange(652, 656));
        assert(t.subrange(656, 660) =~= bytes@.subrange(656, 660));
        assert(t.subrange(660, 1024) =~= bytes@.subrange(660, 1024));
        assert(h@ =~= spec_deserialize(t));
    }
    Ok(h)
}

} // verus!
