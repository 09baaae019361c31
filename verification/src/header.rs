//! The SPL header type, its mathematical model, and the error taxonomy.

use vstd::prelude::*;

verus! {

/// Size in bytes of the serialized header.
pub const HEADER_SIZE: usize = 1024;

/// Length in bytes of the first reserved region (between the two offset
/// words and the version word).
pub const RESERVED_A_LEN: usize = 636;

/// Length in bytes of the trailing reserved region (padding up to
/// `HEADER_SIZE`).
pub const RESERVED_C_LEN: usize = 364;

/// Value stored in `spl_offset` on creation: offset of the SPL header
/// itself (64 + 256 + 256 bytes).
pub const SPL_OFFSET_VALUE: u32 = 0x240;

/// Value stored in `reserved_b` on creation: offset from the header to the
/// SPL image body.
pub const RESERVED_B_VALUE: u32 = 0x400;

/// Errors raised by the header codec and the two file-level operations.
#[derive(Debug, Clone, Copy, PartialEq, Eq, Structural)]
pub enum HeaderError {
    /// Fewer bytes than a whole header were handed to `deserialize`.
    MalformedHeader,
    /// The target of a patch holds fewer bytes than a whole header.
    TruncatedFile,
    /// The payload handed to `build_spl_output` exceeds the maximum size.
    PayloadTooLarge { actual: u32, max: u32 },
}

/// The boot header, one field per region of the fixed 1024-byte layout.
/// All integer fields are stored little-endian on disk; the two reserved
/// byte regions are stored verbatim.
#[derive(Debug)]
pub struct UBootSPLHeader {
    /// Offset of the SPL header; `0x240` on creation.
    pub spl_offset: u32,
    /// Offset of the backup SPL image read by the boot ROM on CRC failure.
    pub backup_offset: u32,
    /// First reserved region, `RESERVED_A_LEN` bytes; zero on creation.
    pub reserved_a: Vec<u8>,
    /// Format version tag.
    pub version: u32,
    /// Size in bytes of the payload that follows the header.
    pub file_size: u32,
    /// Offset from the header to the image body; `0x400` on creation.
    pub reserved_b: u32,
    /// CRC32 of the payload, or the deliberately invalid sentinel.
    pub crc32: u32,
    /// Trailing reserved region, `RESERVED_C_LEN` bytes; zero on creation.
    pub reserved_c: Vec<u8>,
}

/// Mathematical model of a header: the same fields with the reserved
/// regions as byte sequences.
#[verifier::ext_equal]
pub ghost struct HeaderModel {
    pub spl_offset: u32,
    pub backup_offset: u32,
    pub reserved_a: Seq<u8>,
    pub version: u32,
    pub file_size: u32,
    pub reserved_b: u32,
    pub crc32: u32,
    pub reserved_c: Seq<u8>,
}

impl HeaderModel {
    /// A model is well formed when its reserved regions have the layout's
    /// fixed lengths; every integer field may hold any value.
    pub open spec fn wf(self) -> bool {
        &&& self.reserved_a.len() == RESERVED_A_LEN
        &&& self.reserved_c.len() == RESERVED_C_LEN
    }
}

impl View for UBootSPLHeader {
    type V = HeaderModel;

    open spec fn view(&self) -> HeaderModel {
        HeaderModel {
            spl_offset: self.spl_offset,
            backup_offset: self.backup_offset,
            reserved_a: self.reserved_a@,
            version: self.version,
            file_size: self.file_size,
            reserved_b: self.reserved_b,
            crc32: self.crc32,
            reserved_c: self.reserved_c@,
        }
    }
}

/// A sequence of `n` zero bytes.
pub open spec fn zero_seq(n: nat) -> Seq<u8> {
    Seq::new(n, |i: int| 0u8)
}

/// The model of a freshly created header: both offset constants set, every
/// other field zero.
pub open spec fn spec_new_header() -> HeaderModel {
    HeaderModel {
        spl_offset: SPL_OFFSET_VALUE,
        backup_offset: 0,
        reserved_a: zero_seq(RESERVED_A_LEN as nat),
        version: 0,
        file_size: 0,
        reserved_b: RESERVED_B_VALUE,
        crc32: 0,
        reserved_c: zero_seq(RESERVED_C_LEN as nat),
    }
}

/// The model of a header created for a given version and backup offset,
/// with payload size and checksum still pending.
pub open spec fn spec_create(version: u32, backup_offset: u32) -> HeaderModel {
    HeaderModel { version, backup_offset, ..spec_new_header() }
}

/// A vector of `n` zero bytes.
fn zero_vec(n: usize) -> (v: Vec<u8>)
    ensures
        v@ == zero_seq(n as nat),
{
    let mut v: Vec<u8> = Vec::new();
    let mut i: usize = 0;
    while i < n
        invariant
            i <= n,
            v@ == zero_seq(i as nat),
        decreases n - i,
    {
        v.push(0u8);
        proof {
            assert(v@ =~= zero_seq((i + 1) as nat));
        }
        i = i + 1;
    }
    v
}

impl UBootSPLHeader {
    /// A zero-initialized header with the two fixed offset constants set.
    pub fn new() -> (h: Self)
        ensures
            h@ == spec_new_header(),
            h@.wf(),
    {
        let h = UBootSPLHeader {
            spl_offset: SPL_OFFSET_VALUE,
            backup_offset: 0,
            reserved_a: zero_vec(RESERVED_A_LEN),
            version: 0,
            file_size: 0,
            reserved_b: RESERVED_B_VALUE,
            crc32: 0,
            reserved_c: zero_vec(RESERVED_C_LEN),
        };
        proof {
            assert(h@ =~= spec_new_header());
        }
        h
    }

    /// A fresh header with the caller's version and backup offset filled
    /// in; payload size and checksum are left zero pending the payload.
    pub fn create(version: u32, backup_offset: u32) -> (h: Self)
        ensures
            h@ == spec_create(version, backup_offset),
            h@.wf(),
    {
        let mut h = UBootSPLHeader::new();
        h.version = version;
        h.backup_offset = backup_offset;
        proof {
            assert(h@ =~= spec_create(version, backup_offset));
        }
        h
    }
}

} // verus!
