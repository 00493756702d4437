//! Pool metadata initialization.
//!
//! Before a pool's control structure is created, its metadata device
//! must hold an empty, well-formed pool-metadata structure. The
//! description of that structure — the data block size and the number
//! of data blocks — is computed here; writing it is one call to the
//! external metadata-format driver.
//!
//! This step must run exactly once, after the metadata device exists
//! and before the pool control structure is created; the ordering is
//! the lifecycle coordination's duty, not re-checked here.

use vstd::prelude::*;

use crate::errors::LifecycleError;
use crate::units::SECTOR_BYTES;

verus! {

/// The description of an empty pool-metadata structure, as the
/// metadata-format driver consumes it.
#[derive(Clone, Copy, Debug, PartialEq, Eq, Structural)]
pub struct PoolMetadataPlan {
    /// Size of one data block, in 512-byte sectors.
    pub data_block_size_sectors: u64,
    /// How many data blocks the data device holds.
    pub nr_data_blocks: u64,
}

/// The outcome of asking the metadata-format driver to write a plan.
#[derive(Clone, Copy, Debug, PartialEq, Eq)]
pub enum MetadataOutcome {
    /// The structure was written.
    Written,
    /// The driver rejected the description.
    DescriptionRejected,
    /// Writing onto the metadata device failed.
    WriteFailed,
}

/// Computes the description of an empty pool over a data device of
/// `data_size_bytes`, carved into blocks of `data_block_size_sectors`.
///
/// The block count is the data device's sector count divided by the
/// block size; a remainder is dropped, mirroring that the device's
/// usable capacity is block-aligned.
pub fn plan_empty_pool(data_size_bytes: u64, data_block_size_sectors: u64) -> (p: PoolMetadataPlan)
    requires
        data_block_size_sectors > 0,
    ensures
        p.data_block_size_sectors == data_block_size_sectors,
        p.nr_data_blocks == (data_size_bytes / SECTOR_BYTES) as u64 / data_block_size_sectors,
{
    let data_size_sectors = data_size_bytes / SECTOR_BYTES;
    PoolMetadataPlan {
        data_block_size_sectors,
        nr_data_blocks: data_size_sectors / data_block_size_sectors,
    }
}

/// Maps the driver's outcome onto the initialization's result: a
/// rejected description is `MetadataFormat`, a failed write is
/// `MetadataWrite`.
pub fn initialize_result(outcome: &MetadataOutcome) -> (r: Result<(), LifecycleError>)
    ensures
        r is Ok <==> outcome is Written,
        outcome is DescriptionRejected ==> r == Err::<(), LifecycleError>(
            LifecycleError::MetadataFormat,
        ),
        outcome is WriteFailed ==> r == Err::<(), LifecycleError>(LifecycleError::MetadataWrite),
{
    match outcome {
        MetadataOutcome::Written => Ok(()),
        MetadataOutcome::DescriptionRejected => Err(LifecycleError::MetadataFormat),
        MetadataOutcome::WriteFailed => Err(LifecycleError::MetadataWrite),
    }
}

} // verus!
