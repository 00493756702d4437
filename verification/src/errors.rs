//! The failure taxonomy of the lifecycle manager.

use vstd::prelude::*;

verus! {

/// Every failure the lifecycle manager can surface.
///
/// The device layer reports `Allocation`, `NoFreeSlot`, `Bind`,
/// `SizeMismatch` and `Unbind`; the metadata layer `MetadataFormat`
/// and `MetadataWrite`; the pool layer `PoolConstruction`, `PoolInUse`
/// and `PoolTeardown`; the volume layer `VolumeInUse` and the three
/// control-message failures `CreateMessage`, `VolumeConstruction` and
/// `DeleteMessage`.
#[derive(Clone, Copy, Debug, PartialEq, Eq, Structural)]
pub enum LifecycleError {
    /// Creating or growing a backing file failed.
    Allocation,
    /// No free block-device slot was available.
    NoFreeSlot,
    /// Binding a backing file to a block-device slot failed.
    Bind,
    /// The bound device reported a size other than the requested one.
    SizeMismatch { requested: u64, reported: u64 },
    /// Unbinding a block-device slot failed.
    Unbind,
    /// The metadata-format driver rejected the pool description.
    MetadataFormat,
    /// Writing the pool metadata onto the metadata device failed.
    MetadataWrite,
    /// The pool-construction control call was rejected.
    PoolConstruction,
    /// A volume or snapshot device node is still attached to the pool.
    PoolInUse,
    /// The pool-teardown control call was rejected for another reason.
    PoolTeardown,
    /// The control layer refused to remove an attached device node.
    VolumeInUse,
    /// A create-volume or create-snapshot message was rejected.
    CreateMessage,
    /// The volume-construction control call was rejected.
    VolumeConstruction,
    /// A delete-device message was rejected.
    DeleteMessage,
}

} // verus!
