//! Builder and patcher for the fixed-layout SPL (secondary program loader)
//! boot header: a 1024-byte little-endian structure carrying the payload
//! size, a CRC32 of the payload, and the offset of a backup SPL image.

pub mod checksum;
pub mod codec;
pub mod header;
pub mod ops;
