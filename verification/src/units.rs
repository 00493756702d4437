//! Size conversions.
//!
//! Callers express sizes in bytes or megabytes; the control layer
//! takes 512-byte sectors. Block sizes are always given in sectors.

use vstd::prelude::*;

verus! {

/// Bytes in one megabyte.
pub const BYTES_PER_MB: u64 = 1024 * 1024;

/// Bytes in one storage sector.
pub const SECTOR_BYTES: u64 = 512;

/// Sectors in one megabyte.
pub const SECTORS_PER_MB: u64 = 2048;

/// Converts a size in megabytes to bytes.
pub fn mb_to_bytes(size_mb: u64) -> (size_bytes: u64)
    requires
        size_mb * BYTES_PER_MB <= u64::MAX,
    ensures
        size_bytes == size_mb * BYTES_PER_MB,
{
    size_mb * BYTES_PER_MB
}

/// Converts a size in megabytes to 512-byte sectors.
pub fn mb_to_sectors(size_mb: u64) -> (sectors: u64)
    requires
        size_mb * BYTES_PER_MB <= u64::MAX,
    ensures
        sectors == size_mb * SECTORS_PER_MB,
{
    let bytes = size_mb * BYTES_PER_MB;
    proof {
        assert((size_mb * BYTES_PER_MB) as int / (SECTOR_BYTES as int) == size_mb * SECTORS_PER_MB) by (nonlinear_arith)
            requires size_mb * BYTES_PER_MB <= u64::MAX;
    }
    bytes / SECTOR_BYTES
}

/// Converts a size in bytes to whole 512-byte sectors.
pub fn bytes_to_sectors(size_bytes: u64) -> (sectors: u64)
    ensures
        sectors == size_bytes / SECTOR_BYTES,
{
    size_bytes / SECTOR_BYTES
}

} // verus!
