//! Thin pools.
//!
//! A pool owns one metadata device and one data device, both
//! exclusively, and carves volumes and snapshots out of them. Bringing
//! a pool up takes three control calls after the two backing devices
//! exist: write an empty metadata structure, query the data device's
//! sector count, and issue the pool-construction mapping-table call.
//! If anything fails after the devices were bound, both are released
//! before the error is surfaced — a partial pool is never left bound.
//!
//! Creating a volume or snapshot takes a per-pool control message
//! (`create_thin` or `create_snap`) followed by a volume-construction
//! mapping-table call. If the construction call fails after the message
//! already succeeded, a compensating `delete` message is issued and the
//! device identifier is released before the error is surfaced, so no
//! live identifier is left without an addressable device.

use vstd::prelude::*;
use vstd::string::StringExecFns;

use crate::allocator::DeviceIdAllocator;
use crate::device::DeviceCommand;
use crate::device::LoopDevice;
use crate::errors::LifecycleError;
use crate::metadata::plan_empty_pool;
use crate::metadata::PoolMetadataPlan;
use crate::parse::parse_u64;
use crate::parse::parsed_value;
use crate::units::mb_to_sectors;
use crate::units::BYTES_PER_MB;
use crate::units::SECTOR_BYTES;
use crate::units::SECTORS_PER_MB;
use crate::volume::ThinVolume;

verus! {

/// The path of the addressable device node a name maps to.
pub open spec fn dev_mapper_path(name: Seq<char>) -> Seq<char> {
    "/dev/mapper/"@ + name
}

/// Builds the addressable device path for `name`.
pub fn mapper_path(name: &String) -> (p: String)
    ensures
        p@ == dev_mapper_path(name@),
{
    String::from_str("/dev/mapper/").concat(name.as_str())
}

/// One message on the channel scoped to an active pool.
#[derive(Clone, Copy, Debug, PartialEq, Eq, Structural)]
pub enum PoolMessage {
    /// Create a base volume under `device_id`.
    CreateThin { device_id: u32 },
    /// Create a snapshot of `origin_id` under `device_id`.
    CreateSnap { device_id: u32, origin_id: u32 },
    /// Delete the device `device_id`.
    Delete { device_id: u32 },
}

/// The mapping-table line that constructs a pool device:
/// `<start> <length> pool-target <metadata> <data> <block-size> ...`.
#[derive(Clone, Debug, PartialEq, Eq)]
pub struct PoolTable {
    /// First mapped sector; always zero here.
    pub start_sector: u64,
    /// Length of the mapping, in sectors: the data device's length.
    pub length_sectors: u64,
    /// Path of the metadata device.
    pub metadata_device: String,
    /// Path of the data device.
    pub data_device: String,
    /// Size of one data block, in sectors.
    pub data_block_size_sectors: u64,
}

/// The mapping-table line that constructs a volume device:
/// `<start> <length> volume-target <pool-device> <device-id>`.
#[derive(Clone, Debug, PartialEq, Eq)]
pub struct VolumeTable {
    /// First mapped sector; always zero here.
    pub start_sector: u64,
    /// Length of the mapping, in sectors: the volume's virtual size.
    pub length_sectors: u64,
    /// Path of the owning pool's device node.
    pub pool_device: String,
    /// The volume's identifier inside the pool.
    pub device_id: u32,
}

/// One control call above the device layer, to be performed by the caller.
#[derive(Clone, Debug, PartialEq, Eq)]
pub enum ControlCommand {
    /// Write an empty pool-metadata structure onto the device at `device`.
    WriteMetadata { device: String, plan: PoolMetadataPlan },
    /// Ask the device at `device` for its size in 512-byte sectors.
    QuerySizeSectors { device: String },
    /// Construct the pool device `name` from `table`.
    CreatePoolDevice { name: String, table: PoolTable },
    /// Tear down the pool device `name`; fails while it is attached or open.
    RemovePoolDevice { name: String },
    /// Send `message` to the active pool at `pool_device`.
    SendMessage { pool_device: String, message: PoolMessage },
    /// Construct the volume device `name` from `table`.
    CreateVolumeDevice { name: String, table: VolumeTable },
    /// Tear down the volume device `name`; fails while it is attached or open.
    RemoveVolumeDevice { name: String },
    /// Ask the control layer for the pool's status line.
    QueryStatus { name: String },
    /// A device-layer call issued as part of pool-level compensation.
    Device(DeviceCommand),
}

/// The outcome of one control call during pool setup.
#[derive(Clone, Debug, PartialEq, Eq)]
pub enum PoolEvent {
    /// The call succeeded.
    Succeeded,
    /// The call failed.
    Failed,
    /// The metadata-format driver rejected the description.
    DescriptionRejected,
    /// The size query answered with this raw text.
    SizeReported { output: Vec<u8> },
}

/// The outcome of a pool-teardown control call.
#[derive(Clone, Copy, Debug, PartialEq, Eq)]
pub enum RemoveOutcome {
    /// The pool device was torn down.
    Removed,
    /// The control layer refused: a device under the pool is attached or open.
    StillInUse,
    /// The control layer rejected the call for another reason.
    Rejected,
}

/// Where a pool setup stands.
#[derive(Clone, Copy, Debug, PartialEq, Eq, Structural)]
pub enum PoolSetupPhase {
    /// Waiting for the empty metadata structure to be written.
    InitializingMetadata,
    /// Waiting for the data device's sector count.
    QueryingDataSize,
    /// Waiting for the pool-construction call.
    Constructing,
    /// Setup failed; waiting for the data device's unbind before
    /// `error` is surfaced.
    ReleasingData { error: LifecycleError },
    /// Setup failed; waiting for the metadata device's unbind before
    /// `error` is surfaced.
    ReleasingMetadata { error: LifecycleError },
    /// The pool device exists.
    Complete,
    /// Setup failed; both backing devices were released.
    Failed { error: LifecycleError },
}

/// The step-by-step setup of a [`ThinPool`] over two existing backing
/// devices.
pub struct PoolSetup {
    name: String,
    metadata_dev: LoopDevice,
    data_dev: LoopDevice,
    data_block_size: u64,
    data_length_sectors: u64,
    phase: PoolSetupPhase,
}

impl PoolSetup {
    /// The pool's name.
    pub closed spec fn spec_name(&self) -> Seq<char> {
        self.name@
    }

    /// The metadata device.
    pub closed spec fn spec_metadata_dev(&self) -> LoopDevice {
        self.metadata_dev
    }

    /// The data device.
    pub closed spec fn spec_data_dev(&self) -> LoopDevice {
        self.data_dev
    }

    /// The pool's data-block size, in sectors.
    pub closed spec fn spec_block_size(&self) -> u64 {
        self.data_block_size
    }

    /// The data device's sector count, once queried.
    pub closed spec fn spec_data_length_sectors(&self) -> u64 {
        self.data_length_sectors
    }

    /// Where the setup stands.
    pub closed spec fn spec_phase(&self) -> PoolSetupPhase {
        self.phase
    }

    /// The devices stay bound until compensation releases them, and are
    /// both released once the setup has failed.
    pub closed spec fn wf(&self) -> bool {
        &&& self.data_block_size > 0
        &&& match self.phase {
            PoolSetupPhase::InitializingMetadata => self.metadata_dev.is_attached()
                && self.data_dev.is_attached(),
            PoolSetupPhase::QueryingDataSize => self.metadata_dev.is_attached()
                && self.data_dev.is_attached(),
            PoolSetupPhase::Constructing => self.metadata_dev.is_attached()
                && self.data_dev.is_attached(),
            PoolSetupPhase::ReleasingData { .. } => self.metadata_dev.is_attached()
                && self.data_dev.is_attached(),
            PoolSetupPhase::ReleasingMetadata { .. } => self.metadata_dev.is_attached()
                && !self.data_dev.is_attached(),
            PoolSetupPhase::Complete => self.metadata_dev.is_attached()
                && self.data_dev.is_attached(),
            PoolSetupPhase::Failed { .. } => !self.metadata_dev.is_attached()
                && !self.data_dev.is_attached(),
        }
    }

    /// Whether the setup has come to an end, well or badly.
    pub open spec fn is_terminal(&self) -> bool {
        self.spec_phase() is Complete || self.spec_phase() matches PoolSetupPhase::Failed { .. }
    }

    /// Which events answer the pending command.
    pub open spec fn expects(&self, ev: PoolEvent) -> bool {
        match self.spec_phase() {
            PoolSetupPhase::InitializingMetadata => ev is Succeeded || ev is Failed
                || ev is DescriptionRejected,
            PoolSetupPhase::QueryingDataSize => ev matches PoolEvent::SizeReported { .. }
                || ev is Failed,
            PoolSetupPhase::Constructing => ev is Succeeded || ev is Failed,
            PoolSetupPhase::ReleasingData { .. } => ev is Succeeded || ev is Failed,
            PoolSetupPhase::ReleasingMetadata { .. } => ev is Succeeded || ev is Failed,
            PoolSetupPhase::Complete => false,
            PoolSetupPhase::Failed { .. } => false,
        }
    }

    /// Begins setting up the pool `name` over the two bound backing
    /// devices, with data blocks of `data_block_size_sectors`.
    ///
    /// Both devices must exist and be bound, and the metadata device
    /// must not yet carry a live pool: running the initialization
    /// against an active pool would destroy it, and ruling that out is
    /// the caller's ordering duty.
    pub fn start(
        name: String,
        metadata_dev: LoopDevice,
        data_dev: LoopDevice,
        data_block_size_sectors: u64,
    ) -> (s: Self)
        requires
            metadata_dev.is_attached(),
            data_dev.is_attached(),
            data_block_size_sectors > 0,
        ensures
            s.wf(),
            s.spec_phase() is InitializingMetadata,
            s.spec_name() == name@,
            s.spec_metadata_dev() == metadata_dev,
            s.spec_data_dev() == data_dev,
            s.spec_block_size() == data_block_size_sectors,
    {
        PoolSetup {
            name,
            metadata_dev,
            data_dev,
            data_block_size: data_block_size_sectors,
            data_length_sectors: 0,
            phase: PoolSetupPhase::InitializingMetadata,
        }
    }

    /// Where the setup stands, for the caller driving it.
    pub fn phase(&self) -> (p: PoolSetupPhase)
        ensures
            p == self.spec_phase(),
    {
        self.phase
    }

    /// The control call the caller must perform next, if any.
    pub fn pending_command(&self) -> (c: Option<ControlCommand>)
        requires
            self.wf(),
        ensures
            match self.spec_phase() {
                PoolSetupPhase::InitializingMetadata => c matches Some(
                    ControlCommand::WriteMetadata { device, plan },
                ) && device@ == self.spec_metadata_dev().spec_device_path()
                    && plan.data_block_size_sectors == self.spec_block_size()
                    && plan.nr_data_blocks == (self.spec_data_dev().spec_size_bytes()
                    / SECTOR_BYTES) as u64 / self.spec_block_size(),
                PoolSetupPhase::QueryingDataSize => c matches Some(
                    ControlCommand::QuerySizeSectors { device },
                ) && device@ == self.spec_data_dev().spec_device_path(),
                PoolSetupPhase::Constructing => c matches Some(
                    ControlCommand::CreatePoolDevice { name, table },
                ) && name@ == self.spec_name() && table.start_sector == 0 && table.length_sectors
                    == self.spec_data_length_sectors() && table.metadata_device@
                    == self.spec_metadata_dev().spec_device_path() && table.data_device@
                    == self.spec_data_dev().spec_device_path() && table.data_block_size_sectors
                    == self.spec_block_size(),
                PoolSetupPhase::ReleasingData { .. } => c matches Some(
                    ControlCommand::Device(DeviceCommand::Unbind { device }),
                ) && device@ == self.spec_data_dev().spec_device_path(),
                PoolSetupPhase::ReleasingMetadata { .. } => c matches Some(
                    ControlCommand::Device(DeviceCommand::Unbind { device }),
                ) && device@ == self.spec_metadata_dev().spec_device_path(),
                PoolSetupPhase::Complete => c is None,
                PoolSetupPhase::Failed { .. } => c is None,
            },
    {
        match self.phase {
            PoolSetupPhase::InitializingMetadata => {
                let plan = plan_empty_pool(self.data_dev.size_bytes(), self.data_block_size);
                Some(
                    ControlCommand::WriteMetadata {
                        device: self.metadata_dev.device_path().clone(),
                        plan,
                    },
                )
            },
            PoolSetupPhase::QueryingDataSize => Some(
                ControlCommand::QuerySizeSectors { device: self.data_dev.device_path().clone() },
            ),
            PoolSetupPhase::Constructing => Some(
                ControlCommand::CreatePoolDevice {
                    name: self.name.clone(),
                    table: PoolTable {
                        start_sector: 0,
                        length_sectors: self.data_length_sectors,
                        metadata_device: self.metadata_dev.device_path().clone(),
                        data_device: self.data_dev.device_path().clone(),
                        data_block_size_sectors: self.data_block_size,
                    },
                },
            ),
            PoolSetupPhase::ReleasingData { .. } => match self.data_dev.begin_release() {
                Some(cmd) => Some(ControlCommand::Device(cmd)),
                None => None,
            },
            PoolSetupPhase::ReleasingMetadata { .. } => match self.metadata_dev.begin_release() {
                Some(cmd) => Some(ControlCommand::Device(cmd)),
                None => None,
            },
            PoolSetupPhase::Complete => None,
            PoolSetupPhase::Failed { .. } => None,
        }
    }

    /// Takes the outcome of the pending control call and decides what
    /// happens next.
    ///
    /// A rejected metadata description surfaces as `MetadataFormat`, a
    /// failed metadata write as `MetadataWrite`; a data device that
    /// cannot report its sector count, and a rejected pool-construction
    /// call, surface as `PoolConstruction`. Whatever failed, both
    /// backing devices are released — data first, then metadata — before
    /// the setup reports the error; each unbind is attempted once and
    /// its own outcome cannot change the error.
    pub fn step(&mut self, ev: PoolEvent)
        requires
            old(self).wf(),
            old(self).expects(ev),
        ensures
            final(self).wf(),
            final(self).spec_name() == old(self).spec_name(),
            final(self).spec_block_size() == old(self).spec_block_size(),
            final(self).spec_metadata_dev().spec_device_path() == old(
                self,
            ).spec_metadata_dev().spec_device_path(),
            final(self).spec_data_dev().spec_device_path() == old(
                self,
            ).spec_data_dev().spec_device_path(),
            final(self).spec_data_dev().spec_size_bytes() == old(
                self,
            ).spec_data_dev().spec_size_bytes(),
            old(self).spec_phase() !is QueryingDataSize ==> final(self).spec_data_length_sectors()
                == old(self).spec_data_length_sectors(),
            old(self).spec_phase() is InitializingMetadata ==> {
                &&& ev is Succeeded ==> final(self).spec_phase() is QueryingDataSize
                &&& ev is DescriptionRejected ==> final(self).spec_phase()
                    == (PoolSetupPhase::ReleasingData { error: LifecycleError::MetadataFormat })
                &&& ev is Failed ==> final(self).spec_phase() == (PoolSetupPhase::ReleasingData {
                    error: LifecycleError::MetadataWrite,
                })
            },
            old(self).spec_phase() is QueryingDataSize ==> {
                &&& ev matches PoolEvent::SizeReported { output } ==> match parsed_value(output@) {
                    Some(n) => final(self).spec_phase() is Constructing
                        && final(self).spec_data_length_sectors() == n,
                    None => final(self).spec_phase() == (PoolSetupPhase::ReleasingData {
                        error: LifecycleError::PoolConstruction,
                    }),
                }
                &&& ev is Failed ==> final(self).spec_phase() == (PoolSetupPhase::ReleasingData {
                    error: LifecycleError::PoolConstruction,
                })
            },
            old(self).spec_phase() is Constructing ==> {
                &&& ev is Succeeded ==> final(self).spec_phase() is Complete
                &&& ev is Failed ==> final(self).spec_phase() == (PoolSetupPhase::ReleasingData {
                    error: LifecycleError::PoolConstruction,
                })
            },
            old(self).spec_phase() matches PoolSetupPhase::ReleasingData { error }
                ==> final(self).spec_phase() == (PoolSetupPhase::ReleasingMetadata { error }),
            old(self).spec_phase() matches PoolSetupPhase::ReleasingMetadata { error }
                ==> final(self).spec_phase() == (PoolSetupPhase::Failed { error }),
            final(self).spec_phase() matches PoolSetupPhase::Failed { .. }
                ==> !final(self).spec_metadata_dev().is_attached()
                && !final(self).spec_data_dev().is_attached(),
    {
        match self.phase {
            PoolSetupPhase::InitializingMetadata => match ev {
                PoolEvent::Succeeded => {
                    self.phase = PoolSetupPhase::QueryingDataSize;
                },
                PoolEvent::DescriptionRejected => {
                    self.phase = PoolSetupPhase::ReleasingData {
                        error: LifecycleError::MetadataFormat,
                    };
                },
                _ => {
                    self.phase = PoolSetupPhase::ReleasingData {
                        error: LifecycleError::MetadataWrite,
                    };
                },
            },
            PoolSetupPhase::QueryingDataSize => match ev {
                PoolEvent::SizeReported { output } => match parse_u64(&output) {
                    Some(n) => {
                        self.data_length_sectors = n;
                        self.phase = PoolSetupPhase::Constructing;
                    },
                    None => {
                        self.phase = PoolSetupPhase::ReleasingData {
                            error: LifecycleError::PoolConstruction,
                        };
                    },
                },
                _ => {
                    self.phase = PoolSetupPhase::ReleasingData {
                        error: LifecycleError::PoolConstruction,
                    };
                },
            },
            PoolSetupPhase::Constructing => match ev {
                PoolEvent::Succeeded => {
                    self.phase = PoolSetupPhase::Complete;
                },
                _ => {
                    self.phase = PoolSetupPhase::ReleasingData {
                        error: LifecycleError::PoolConstruction,
                    };
                },
            },
            PoolSetupPhase::ReleasingData { error } => {
                let unbound = matches!(ev, PoolEvent::Succeeded);
                let _ = self.data_dev.finish_release(unbound);
                self.phase = PoolSetupPhase::ReleasingMetadata { error };
            },
            PoolSetupPhase::ReleasingMetadata { error } => {
                let unbound = matches!(ev, PoolEvent::Succeeded);
                let _ = self.metadata_dev.finish_release(unbound);
                self.phase = PoolSetupPhase::Failed { error };
            },
            PoolSetupPhase::Complete => {
                proof {
                    assert(false);
                }
            },
            PoolSetupPhase::Failed { .. } => {
                proof {
                    assert(false);
                }
            },
        }
    }

    /// Ends the setup. A completed setup yields the active pool, with
    /// no identifier live and no device node attached; a failed one
    /// yields the error that was decided when it failed, with both
    /// backing devices already released.
    pub fn finish(self) -> (r: Result<ThinPool, LifecycleError>)
        requires
            self.wf(),
            self.is_terminal(),
        ensures
            r is Ok <==> self.spec_phase() is Complete,
            r matches Ok(pool) ==> {
                &&& pool.wf()
                &&& pool.spec_name() == self.spec_name()
                &&& pool.spec_block_size() == self.spec_block_size()
                &&& pool.spec_metadata_dev() == self.spec_metadata_dev()
                &&& pool.spec_data_dev() == self.spec_data_dev()
                &&& !pool.is_removed()
                &&& pool.spec_next_id() == 0
                &&& forall|id: u32| !pool.id_live(id)
                &&& pool.spec_attached_count() == 0
            },
            r matches Err(e) ==> (self.spec_phase() matches PoolSetupPhase::Failed { error } && e
                == error),
            r is Err ==> !self.spec_metadata_dev().is_attached()
                && !self.spec_data_dev().is_attached(),
    {
        match self.phase {
            PoolSetupPhase::Complete => Ok(
                ThinPool {
                    name: self.name,
                    metadata_dev: self.metadata_dev,
                    data_dev: self.data_dev,
                    data_block_size: self.data_block_size,
                    allocator: DeviceIdAllocator::new(),
                    attached: Vec::new(),
                    removed: false,
                },
            ),
            PoolSetupPhase::Failed { error } => Err(error),
            _ => Err(LifecycleError::PoolConstruction),
        }
    }
}

/// An active thin pool.
#[derive(Debug)]
pub struct ThinPool {
    name: String,
    metadata_dev: LoopDevice,
    data_dev: LoopDevice,
    data_block_size: u64,
    allocator: DeviceIdAllocator,
    attached: Vec<u32>,
    removed: bool,
}

impl ThinPool {
    /// The pool's name: its addressable identity.
    pub closed spec fn spec_name(&self) -> Seq<char> {
        self.name@
    }

    /// The pool's data-block size, in sectors.
    pub closed spec fn spec_block_size(&self) -> u64 {
        self.data_block_size
    }

    /// The owned metadata device.
    pub closed spec fn spec_metadata_dev(&self) -> LoopDevice {
        self.metadata_dev
    }

    /// The owned data device.
    pub closed spec fn spec_data_dev(&self) -> LoopDevice {
        self.data_dev
    }

    /// Whether the pool device has been torn down.
    pub closed spec fn is_removed(&self) -> bool {
        self.removed
    }

    /// The identifier the next allocation returns.
    pub closed spec fn spec_next_id(&self) -> u32 {
        self.allocator.spec_next()
    }

    /// Whether `id` is live in the pool's namespace.
    pub closed spec fn id_live(&self, id: u32) -> bool {
        self.allocator.is_live(id)
    }

    /// Whether the volume or snapshot `id` has an attached device node.
    pub closed spec fn node_attached(&self, id: u32) -> bool {
        self.attached@.contains(id)
    }

    /// How many volume/snapshot device nodes are attached.
    pub closed spec fn spec_attached_count(&self) -> nat {
        self.attached@.len()
    }

    /// The allocator is sound, every attached node's identifier is
    /// live and listed once, and the backing devices stay bound for as
    /// long as the pool owns them.
    pub closed spec fn wf(&self) -> bool {
        &&& self.allocator.wf()
        &&& self.data_block_size > 0
        &&& self.metadata_dev.is_attached()
        &&& self.data_dev.is_attached()
        &&& forall|i: int|
            0 <= i < self.attached@.len() ==> self.allocator.is_live(#[trigger] self.attached@[i])
        &&& forall|i: int, j: int|
            0 <= i < j < self.attached@.len() ==> self.attached@[i] != self.attached@[j]
    }

    /// The pool's name.
    pub fn name(&self) -> (n: &String)
        ensures
            n@ == self.spec_name(),
    {
        &self.name
    }

    /// The path of the pool's device node.
    pub fn device_path(&self) -> (p: String)
        ensures
            p@ == dev_mapper_path(self.spec_name()),
    {
        mapper_path(&self.name)
    }

    /// How many volume/snapshot device nodes are attached, for the
    /// caller driving teardown.
    pub fn attached_count(&self) -> (n: usize)
        ensures
            n == self.spec_attached_count(),
    {
        self.attached.len()
    }

    /// Whether the pool device has been torn down.
    pub fn removed(&self) -> (r: bool)
        ensures
            r == self.is_removed(),
    {
        self.removed
    }

    /// Whether `id` is live in the pool's namespace.
    pub fn is_id_live(&self, id: u32) -> (r: bool)
        ensures
            r == self.id_live(id),
    {
        self.allocator.contains(id)
    }

    /// Whether the volume or snapshot `id` has an attached device node.
    pub fn is_node_attached(&self, id: u32) -> (r: bool)
        ensures
            r == self.node_attached(id),
    {
        let n = self.attached.len();
        let mut i: usize = 0;
        while i < n
            invariant
                n == self.attached@.len(),
                0 <= i <= n,
                forall|k: int| 0 <= k < i ==> self.attached@[k] != id,
            decreases n - i,
        {
            if self.attached[i] == id {
                return true;
            }
            i = i + 1;
        }
        false
    }

    /// The status query for this pool. The answer is the control
    /// layer's to give and the caller's to read; the pool does not
    /// interpret it.
    pub fn status_command(&self) -> (c: ControlCommand)
        requires
            !self.is_removed(),
        ensures
            (c matches ControlCommand::QueryStatus { name } && name@ == self.spec_name()),
    {
        ControlCommand::QueryStatus { name: self.name.clone() }
    }

    /// The teardown call a removal must perform, if any.
    ///
    /// Removing a pool while any volume or snapshot device node is
    /// still attached fails with `PoolInUse` — and, this method taking
    /// the pool immutably, cannot have changed any pool state. Removing
    /// a pool that is already removed is a no-op, not an error.
    pub fn begin_remove(&self) -> (r: Result<Option<ControlCommand>, LifecycleError>)
        requires
            self.wf(),
        ensures
            self.is_removed() ==> r matches Ok(None),
            !self.is_removed() && self.spec_attached_count() > 0 ==> r == Err::<
                Option<ControlCommand>,
                LifecycleError,
            >(LifecycleError::PoolInUse),
            !self.is_removed() && self.spec_attached_count() == 0 ==> (r matches Ok(Some(c)) && (
            c matches ControlCommand::RemovePoolDevice { name } && name@ == self.spec_name())),
    {
        if self.removed {
            Ok(None)
        } else if self.attached.len() > 0 {
            Err(LifecycleError::PoolInUse)
        } else {
            Ok(Some(ControlCommand::RemovePoolDevice { name: self.name.clone() }))
        }
    }

    /// Takes the outcome of the teardown call.
    ///
    /// Success marks the pool removed; the backing devices stay bound
    /// and are the teardown coordination's to release afterwards. A
    /// `StillInUse` answer surfaces as the retryable `PoolInUse`, any
    /// other rejection as `PoolTeardown`; either way the pool is left
    /// exactly as it was.
    pub fn finish_remove(&mut self, outcome: RemoveOutcome) -> (r: Result<(), LifecycleError>)
        requires
            old(self).wf(),
            !old(self).is_removed(),
            old(self).spec_attached_count() == 0,
        ensures
            final(self).wf(),
            r is Ok <==> outcome is Removed,
            outcome is Removed ==> final(self).is_removed(),
            outcome is StillInUse ==> r == Err::<(), LifecycleError>(LifecycleError::PoolInUse)
                && *final(self) == *old(self),
            outcome is Rejected ==> r == Err::<(), LifecycleError>(LifecycleError::PoolTeardown)
                && *final(self) == *old(self),
            final(self).spec_name() == old(self).spec_name(),
            final(self).spec_metadata_dev() == old(self).spec_metadata_dev(),
            final(self).spec_data_dev() == old(self).spec_data_dev(),
            final(self).spec_attached_count() == 0,
            final(self).spec_block_size() == old(self).spec_block_size(),
            final(self).spec_next_id() == old(self).spec_next_id(),
            forall|j: u32| final(self).id_live(j) <==> old(self).id_live(j),
            forall|j: u32| final(self).node_attached(j) <==> old(self).node_attached(j),
    {
        match outcome {
            RemoveOutcome::Removed => {
                self.removed = true;
                Ok(())
            },
            RemoveOutcome::StillInUse => Err(LifecycleError::PoolInUse),
            RemoveOutcome::Rejected => Err(LifecycleError::PoolTeardown),
        }
    }

    /// Hands the two backing devices out for release, once the pool is
    /// removed. Device release must happen only after pool removal
    /// succeeds, and this method's precondition enforces that order.
    pub fn take_devices(self) -> (devs: (LoopDevice, LoopDevice))
        requires
            self.wf(),
            self.is_removed(),
        ensures
            devs.0 == self.spec_metadata_dev(),
            devs.1 == self.spec_data_dev(),
            devs.0.is_attached(),
            devs.1.is_attached(),
    {
        (self.metadata_dev, self.data_dev)
    }

    /// Begins creating the base volume `volume_name` of
    /// `virtual_size_mb`: allocates a fresh device identifier and hands
    /// back the machine that drives the two control calls.
    pub fn begin_create_volume(&mut self, volume_name: String, virtual_size_mb: u64) -> (vc:
        VolumeCreation)
        requires
            old(self).wf(),
            !old(self).is_removed(),
            old(self).spec_next_id() < u32::MAX,
            virtual_size_mb * BYTES_PER_MB <= u64::MAX,
        ensures
            final(self).wf(),
            !final(self).is_removed(),
            final(self).spec_name() == old(self).spec_name(),
            final(self).spec_metadata_dev() == old(self).spec_metadata_dev(),
            final(self).spec_data_dev() == old(self).spec_data_dev(),
            final(self).spec_block_size() == old(self).spec_block_size(),
            vc.wf(),
            vc.spec_phase() is SendingMessage,
            vc.spec_volume_name() == volume_name@,
            vc.spec_pool_name() == old(self).spec_name(),
            vc.spec_virtual_size_mb() == virtual_size_mb,
            vc.spec_origin_id() is None,
            vc.spec_device_id() == old(self).spec_next_id(),
            !old(self).id_live(vc.spec_device_id()),
            final(self).id_live(vc.spec_device_id()),
            final(self).spec_next_id() == old(self).spec_next_id() + 1,
            forall|j: u32|
                final(self).id_live(j) <==> (old(self).id_live(j) || j == vc.spec_device_id()),
            forall|j: u32| final(self).node_attached(j) <==> old(self).node_attached(j),
            final(self).spec_attached_count() == old(self).spec_attached_count(),
            !final(self).node_attached(vc.spec_device_id()),
    {
        let device_id = self.allocator.allocate();
        proof {
            assert(!self.attached@.contains(device_id)) by {
                assert(forall|i: int|
                    0 <= i < old(self).attached@.len() ==> old(self).allocator.is_live(
                        #[trigger] old(self).attached@[i],
                    ));
            }
        }
        VolumeCreation {
            volume_name,
            pool_name: self.name.clone(),
            device_id,
            virtual_size_mb,
            origin_id: None,
            phase: VolumeCreationPhase::SendingMessage,
        }
    }

    /// Begins creating the snapshot `snapshot_name` of `origin`.
    ///
    /// The snapshot's virtual size is copied from the origin at this
    /// moment — snapshots cannot be sized independently — and the
    /// control message will record the origin's identifier. The origin
    /// must belong to this pool and still be attached; keeping it valid
    /// for the duration of the creation is the caller's duty.
    pub fn begin_create_snapshot(&mut self, origin: &ThinVolume, snapshot_name: String) -> (vc:
        VolumeCreation)
        requires
            old(self).wf(),
            !old(self).is_removed(),
            old(self).spec_next_id() < u32::MAX,
            origin.wf(),
            origin.spec_pool_name() == old(self).spec_name(),
            origin.spec_state() is Attached,
            old(self).id_live(origin.spec_device_id()),
        ensures
            final(self).wf(),
            !final(self).is_removed(),
            final(self).spec_name() == old(self).spec_name(),
            final(self).spec_metadata_dev() == old(self).spec_metadata_dev(),
            final(self).spec_data_dev() == old(self).spec_data_dev(),
            final(self).spec_block_size() == old(self).spec_block_size(),
            vc.wf(),
            vc.spec_phase() is SendingMessage,
            vc.spec_volume_name() == snapshot_name@,
            vc.spec_pool_name() == old(self).spec_name(),
            vc.spec_virtual_size_mb() == origin.spec_virtual_size_mb(),
            vc.spec_origin_id() == Some(origin.spec_device_id()),
            vc.spec_device_id() == old(self).spec_next_id(),
            !old(self).id_live(vc.spec_device_id()),
            final(self).id_live(vc.spec_device_id()),
            final(self).spec_next_id() == old(self).spec_next_id() + 1,
            forall|j: u32|
                final(self).id_live(j) <==> (old(self).id_live(j) || j == vc.spec_device_id()),
            forall|j: u32| final(self).node_attached(j) <==> old(self).node_attached(j),
            final(self).spec_attached_count() == old(self).spec_attached_count(),
            !final(self).node_attached(vc.spec_device_id()),
    {
        let device_id = self.allocator.allocate();
        proof {
            assert(!self.attached@.contains(device_id)) by {
                assert(forall|i: int|
                    0 <= i < old(self).attached@.len() ==> old(self).allocator.is_live(
                        #[trigger] old(self).attached@[i],
                    ));
            }
        }
        VolumeCreation {
            volume_name: snapshot_name,
            pool_name: self.name.clone(),
            device_id,
            virtual_size_mb: origin.virtual_size_mb(),
            origin_id: Some(origin.device_id()),
            phase: VolumeCreationPhase::SendingMessage,
        }
    }

    /// Releases `id` in the allocator. Internal: used by the volume
    /// machines once `id` has no device node.
    pub(crate) fn release_id(&mut self, id: u32)
        requires
            old(self).wf(),
            !old(self).node_attached(id),
        ensures
            final(self).wf(),
            !final(self).id_live(id),
            forall|j: u32| j != id ==> (final(self).id_live(j) <==> old(self).id_live(j)),
            forall|j: u32| final(self).node_attached(j) <==> old(self).node_attached(j),
            final(self).spec_attached_count() == old(self).spec_attached_count(),
            final(self).spec_next_id() == old(self).spec_next_id(),
            final(self).spec_name() == old(self).spec_name(),
            final(self).spec_metadata_dev() == old(self).spec_metadata_dev(),
            final(self).spec_data_dev() == old(self).spec_data_dev(),
            final(self).spec_block_size() == old(self).spec_block_size(),
            final(self).is_removed() == old(self).is_removed(),
    {
        self.allocator.release(id);
        proof {
            assert forall|i: int| 0 <= i < self.attached@.len() implies self.allocator.is_live(
                #[trigger] self.attached@[i],
            ) by {
                assert(old(self).allocator.is_live(self.attached@[i]));
                assert(self.attached@.contains(self.attached@[i]));
                assert(self.attached@[i] != id);
            }
        }
    }

    /// Records that `id` now has an attached device node. Internal:
    /// used by the volume machines when construction succeeds.
    pub(crate) fn record_node(&mut self, id: u32)
        requires
            old(self).wf(),
            old(self).id_live(id),
            !old(self).node_attached(id),
        ensures
            final(self).wf(),
            final(self).node_attached(id),
            forall|j: u32| j != id ==> (final(self).node_attached(j) <==> old(self).node_attached(j)),
            forall|j: u32| final(self).id_live(j) <==> old(self).id_live(j),
            final(self).spec_attached_count() == old(self).spec_attached_count() + 1,
            final(self).spec_next_id() == old(self).spec_next_id(),
            final(self).spec_name() == old(self).spec_name(),
            final(self).spec_metadata_dev() == old(self).spec_metadata_dev(),
            final(self).spec_data_dev() == old(self).spec_data_dev(),
            final(self).spec_block_size() == old(self).spec_block_size(),
            final(self).is_removed() == old(self).is_removed(),
    {
        let ghost l1 = self.attached@;
        self.attached.push(id);
        proof {
            let l2 = self.attached@;
            assert(l2 == l1.push(id));
            assert forall|j: u32| j != id implies (l2.contains(j) <==> l1.contains(j)) by {
                if l1.contains(j) {
                    let k = choose|k: int| 0 <= k < l1.len() && l1[k] == j;
                    assert(l2[k] == j);
                }
                if l2.contains(j) {
                    let k = choose|k: int| 0 <= k < l2.len() && l2[k] == j;
                    assert(k < l1.len());
                    assert(l1[k] == j);
                }
            }
            assert(l2[l1.len() as int] == id);
        }
    }

    /// Records that `id` no longer has an attached device node.
    /// Internal: used by the volume removal machine.
    pub(crate) fn detach_node(&mut self, id: u32)
        requires
            old(self).wf(),
            old(self).node_attached(id),
        ensures
            final(self).wf(),
            !final(self).node_attached(id),
            forall|j: u32| j != id ==> (final(self).node_attached(j) <==> old(self).node_attached(j)),
            forall|j: u32| final(self).id_live(j) <==> old(self).id_live(j),
            final(self).spec_attached_count() == old(self).spec_attached_count() - 1,
            final(self).spec_next_id() == old(self).spec_next_id(),
            final(self).spec_name() == old(self).spec_name(),
            final(self).spec_metadata_dev() == old(self).spec_metadata_dev(),
            final(self).spec_data_dev() == old(self).spec_data_dev(),
            final(self).spec_block_size() == old(self).spec_block_size(),
            final(self).is_removed() == old(self).is_removed(),
    {
        let n = self.attached.len();
        let mut i: usize = 0;
        while i < n
            invariant
                n == self.attached@.len(),
                0 <= i <= n,
                *self == *old(self),
                old(self).wf(),
                old(self).node_attached(id),
                forall|k: int| 0 <= k < i ==> self.attached@[k] != id,
            decreases n - i,
        {
            if self.attached[i] == id {
                let ghost l1 = self.attached@;
                self.attached.remove(i);
                proof {
                    let l2 = self.attached@;
                    assert(l2 == l1.remove(i as int));
                    assert forall|k: int| 0 <= k < l2.len() implies l2[k] != id by {
                        if k < i {
                            assert(l2[k] == l1[k]);
                        } else {
                            assert(l2[k] == l1[k + 1]);
                        }
                    }
                    assert(!l2.contains(id));
                    assert forall|j: u32| j != id implies (l2.contains(j) <==> l1.contains(
                        j,
                    )) by {
                        if l1.contains(j) {
                            let k = choose|k: int| 0 <= k < l1.len() && l1[k] == j;
                            if k < i {
                                assert(l2[k] == j);
                            } else {
                                assert(l1[i as int] == id);
                                assert(k != i);
                                assert(l2[k - 1] == j);
                            }
                        }
                        if l2.contains(j) {
                            let k = choose|k: int| 0 <= k < l2.len() && l2[k] == j;
                            if k < i {
                                assert(l1[k] == j);
                            } else {
                                assert(l1[k + 1] == j);
                            }
                        }
                    }
                    assert forall|k: int| 0 <= k < l2.len() implies self.allocator.is_live(
                        #[trigger] l2[k],
                    ) by {
                        if k < i {
                            assert(l2[k] == l1[k]);
                        } else {
                            assert(l2[k] == l1[k + 1]);
                        }
                    }
                    assert forall|p: int, q: int| 0 <= p < q < l2.len() implies l2[p] != l2[q] by {
                        let p1: int = if p < i { p } else { p + 1 };
                        let q1: int = if q < i { q } else { q + 1 };
                        assert(l2[p] == l1[p1]);
                        assert(l2[q] == l1[q1]);
                    }
                }
                return ;
            }
            i = i + 1;
        }
        proof {
            assert(!self.attached@.contains(id));
            assert(false);
        }
    }
}

/// While any volume or snapshot device node is attached, the pool's
/// attached count is positive — so, by the contract of
/// [`ThinPool::begin_remove`], tearing the pool down is refused with
/// `PoolInUse` and no pool state changes.
pub proof fn lemma_attached_node_blocks_teardown(p: ThinPool, id: u32)
    requires
        p.node_attached(id),
    ensures
        p.spec_attached_count() > 0,
{
}

/// Once every volume and snapshot node has been removed — the count is
/// zero — no identifier has an attached node left, and, by the
/// contract of [`ThinPool::begin_remove`], a pool torn down in that
/// order is never refused with `PoolInUse`.
pub proof fn lemma_ordered_teardown_accepted(p: ThinPool)
    requires
        p.spec_attached_count() == 0,
    ensures
        forall|id: u32| !p.node_attached(id),
{
}

/// Where a volume or snapshot creation stands.
#[derive(Clone, Copy, Debug, PartialEq, Eq, Structural)]
pub enum VolumeCreationPhase {
    /// Waiting for the create message to be delivered to the pool.
    SendingMessage,
    /// Waiting for the volume-construction call.
    Constructing,
    /// The volume device exists.
    Done,
    /// Creation failed; the identifier was released.
    Failed { error: LifecycleError },
}

/// The step-by-step creation of a [`ThinVolume`], begun by
/// [`ThinPool::begin_create_volume`] or [`ThinPool::begin_create_snapshot`].
pub struct VolumeCreation {
    volume_name: String,
    pool_name: String,
    device_id: u32,
    virtual_size_mb: u64,
    origin_id: Option<u32>,
    phase: VolumeCreationPhase,
}

impl VolumeCreation {
    /// The volume's name: its addressable identity.
    pub closed spec fn spec_volume_name(&self) -> Seq<char> {
        self.volume_name@
    }

    /// The owning pool's name.
    pub closed spec fn spec_pool_name(&self) -> Seq<char> {
        self.pool_name@
    }

    /// The identifier allocated for the volume.
    pub closed spec fn spec_device_id(&self) -> u32 {
        self.device_id
    }

    /// The volume's virtual size, in megabytes.
    pub closed spec fn spec_virtual_size_mb(&self) -> u64 {
        self.virtual_size_mb
    }

    /// The origin's identifier, for a snapshot.
    pub closed spec fn spec_origin_id(&self) -> Option<u32> {
        self.origin_id
    }

    /// Where the creation stands.
    pub closed spec fn spec_phase(&self) -> VolumeCreationPhase {
        self.phase
    }

    /// The virtual size converts to sectors without overflow.
    pub open spec fn wf(&self) -> bool {
        self.spec_virtual_size_mb() * BYTES_PER_MB <= u64::MAX
    }

    /// Whether the creation has come to an end, well or badly.
    pub open spec fn is_terminal(&self) -> bool {
        self.spec_phase() is Done || self.spec_phase() matches VolumeCreationPhase::Failed { .. }
    }

    /// Where the creation stands, for the caller driving it.
    pub fn phase(&self) -> (p: VolumeCreationPhase)
        ensures
            p == self.spec_phase(),
    {
        self.phase
    }

    /// The control call the caller must perform next, if any: first the
    /// create message — `create_thin` for a base volume, `create_snap`
    /// recording the origin's identifier for a snapshot — then the
    /// volume-construction call whose table carries the virtual size in
    /// sectors, the pool's device path and the identifier.
    pub fn pending_command(&self) -> (c: Option<ControlCommand>)
        requires
            self.wf(),
        ensures
            match self.spec_phase() {
                VolumeCreationPhase::SendingMessage => c matches Some(
                    ControlCommand::SendMessage { pool_device, message },
                ) && pool_device@ == dev_mapper_path(self.spec_pool_name()) && message == (match self.spec_origin_id() {
                    None => (PoolMessage::CreateThin { device_id: self.spec_device_id() }),
                    Some(origin) => (PoolMessage::CreateSnap {
                        device_id: self.spec_device_id(),
                        origin_id: origin,
                    }),
                }),
                VolumeCreationPhase::Constructing => c matches Some(
                    ControlCommand::CreateVolumeDevice { name, table },
                ) && name@ == self.spec_volume_name() && table.start_sector == 0
                    && table.length_sectors == self.spec_virtual_size_mb() * SECTORS_PER_MB
                    && table.pool_device@ == dev_mapper_path(self.spec_pool_name())
                    && table.device_id == self.spec_device_id(),
                VolumeCreationPhase::Done => c is None,
                VolumeCreationPhase::Failed { .. } => c is None,
            },
    {
        match self.phase {
            VolumeCreationPhase::SendingMessage => {
                let message = match self.origin_id {
                    None => PoolMessage::CreateThin { device_id: self.device_id },
                    Some(origin) => PoolMessage::CreateSnap {
                        device_id: self.device_id,
                        origin_id: origin,
                    },
                };
                Some(
                    ControlCommand::SendMessage {
                        pool_device: mapper_path(&self.pool_name),
                        message,
                    },
                )
            },
            VolumeCreationPhase::Constructing => Some(
                ControlCommand::CreateVolumeDevice {
                    name: self.volume_name.clone(),
                    table: VolumeTable {
                        start_sector: 0,
                        length_sectors: mb_to_sectors(self.virtual_size_mb),
                        pool_device: mapper_path(&self.pool_name),
                        device_id: self.device_id,
                    },
                },
            ),
            VolumeCreationPhase::Done => None,
            VolumeCreationPhase::Failed { .. } => None,
        }
    }

    /// Takes the outcome of the create message.
    ///
    /// A rejected message fails the creation with `CreateMessage` and
    /// releases the identifier: the message took no effect, so no
    /// compensation is owed.
    pub fn on_message_result(&mut self, pool: &mut ThinPool, delivered: bool)
        requires
            old(self).wf(),
            old(self).spec_phase() is SendingMessage,
            old(pool).wf(),
            old(self).spec_pool_name() == old(pool).spec_name(),
            old(pool).id_live(old(self).spec_device_id()),
            !old(pool).node_attached(old(self).spec_device_id()),
        ensures
            final(self).wf(),
            final(pool).wf(),
            final(self).spec_volume_name() == old(self).spec_volume_name(),
            final(self).spec_pool_name() == old(self).spec_pool_name(),
            final(self).spec_device_id() == old(self).spec_device_id(),
            final(self).spec_virtual_size_mb() == old(self).spec_virtual_size_mb(),
            final(self).spec_origin_id() == old(self).spec_origin_id(),
            delivered ==> final(self).spec_phase() is Constructing && *final(pool) == *old(pool),
            !delivered ==> {
                &&& final(self).spec_phase() == (VolumeCreationPhase::Failed {
                    error: LifecycleError::CreateMessage,
                })
                &&& !final(pool).id_live(old(self).spec_device_id())
                &&& forall|j: u32|
                    j != old(self).spec_device_id() ==> (final(pool).id_live(j) <==> old(
                        pool,
                    ).id_live(j))
                &&& forall|j: u32| final(pool).node_attached(j) <==> old(pool).node_attached(j)
                &&& final(pool).spec_attached_count() == old(pool).spec_attached_count()
                &&& final(pool).spec_next_id() == old(pool).spec_next_id()
            },
            final(pool).spec_name() == old(pool).spec_name(),
            final(pool).is_removed() == old(pool).is_removed(),
            final(pool).spec_metadata_dev() == old(pool).spec_metadata_dev(),
            final(pool).spec_data_dev() == old(pool).spec_data_dev(),
            final(pool).spec_block_size() == old(pool).spec_block_size(),
    {
        if delivered {
            self.phase = VolumeCreationPhase::Constructing;
        } else {
            pool.release_id(self.device_id);
            self.phase = VolumeCreationPhase::Failed { error: LifecycleError::CreateMessage };
        }
    }

    /// Takes the outcome of the volume-construction call.
    ///
    /// On success the pool records the attached device node. On failure
    /// — the create message already succeeded — the creation must
    /// compensate: the returned command is the `delete` message for the
    /// identifier, the identifier is released back to the allocator,
    /// and only then is `VolumeConstruction` surfaced. The delete is
    /// best-effort: its own outcome cannot change the error.
    pub fn on_construct_result(&mut self, pool: &mut ThinPool, constructed: bool) -> (compensation:
        Option<ControlCommand>)
        requires
            old(self).wf(),
            old(self).spec_phase() is Constructing,
            old(pool).wf(),
            old(self).spec_pool_name() == old(pool).spec_name(),
            old(pool).id_live(old(self).spec_device_id()),
            !old(pool).node_attached(old(self).spec_device_id()),
        ensures
            final(self).wf(),
            final(pool).wf(),
            final(self).spec_volume_name() == old(self).spec_volume_name(),
            final(self).spec_pool_name() == old(self).spec_pool_name(),
            final(self).spec_device_id() == old(self).spec_device_id(),
            final(self).spec_virtual_size_mb() == old(self).spec_virtual_size_mb(),
            final(self).spec_origin_id() == old(self).spec_origin_id(),
            constructed ==> {
                &&& final(self).spec_phase() is Done
                &&& compensation is None
                &&& final(pool).node_attached(old(self).spec_device_id())
                &&& forall|j: u32|
                    j != old(self).spec_device_id() ==> (final(pool).node_attached(j) <==> old(
                        pool,
                    ).node_attached(j))
                &&& forall|j: u32| final(pool).id_live(j) <==> old(pool).id_live(j)
                &&& final(pool).spec_attached_count() == old(pool).spec_attached_count() + 1
            },
            !constructed ==> {
                &&& final(self).spec_phase() == (VolumeCreationPhase::Failed {
                    error: LifecycleError::VolumeConstruction,
                })
                &&& (compensation matches Some(ControlCommand::SendMessage { pool_device, message })
                    && pool_device@ == dev_mapper_path(old(pool).spec_name()) && message == (
                PoolMessage::Delete { device_id: old(self).spec_device_id() }))
                &&& !final(pool).id_live(old(self).spec_device_id())
                &&& forall|j: u32|
                    j != old(self).spec_device_id() ==> (final(pool).id_live(j) <==> old(
                        pool,
                    ).id_live(j))
                &&& forall|j: u32| final(pool).node_attached(j) <==> old(pool).node_attached(j)
                &&& final(pool).spec_attached_count() == old(pool).spec_attached_count()
            },
            final(pool).spec_next_id() == old(pool).spec_next_id(),
            final(pool).spec_name() == old(pool).spec_name(),
            final(pool).is_removed() == old(pool).is_removed(),
            final(pool).spec_metadata_dev() == old(pool).spec_metadata_dev(),
            final(pool).spec_data_dev() == old(pool).spec_data_dev(),
            final(pool).spec_block_size() == old(pool).spec_block_size(),
    {
        if constructed {
            pool.record_node(self.device_id);
            self.phase = VolumeCreationPhase::Done;
            None
        } else {
            pool.release_id(self.device_id);
            self.phase = VolumeCreationPhase::Failed { error: LifecycleError::VolumeConstruction };
            Some(
                ControlCommand::SendMessage {
                    pool_device: mapper_path(&self.pool_name),
                    message: PoolMessage::Delete { device_id: self.device_id },
                },
            )
        }
    }

    /// Ends the creation. A completed creation yields the attached
    /// volume handle; a failed one yields the error that was decided
    /// when it failed.
    pub fn finish(self) -> (r: Result<ThinVolume, LifecycleError>)
        requires
            self.wf(),
            self.is_terminal(),
        ensures
            r is Ok <==> self.spec_phase() is Done,
            r matches Ok(v) ==> {
                &&& v.wf()
                &&& v.spec_name() == self.spec_volume_name()
                &&& v.spec_pool_name() == self.spec_pool_name()
                &&& v.spec_device_id() == self.spec_device_id()
                &&& v.spec_virtual_size_mb() == self.spec_virtual_size_mb()
                &&& v.spec_origin_id() == self.spec_origin_id()
                &&& v.spec_state() is Attached
            },
            r matches Err(e) ==> (self.spec_phase() matches VolumeCreationPhase::Failed { error }
                && e == error),
    {
        match self.phase {
            VolumeCreationPhase::Done => Ok(
                ThinVolume::assemble(
                    self.volume_name,
                    self.pool_name,
                    self.device_id,
                    self.virtual_size_mb,
                    self.origin_id,
                ),
            ),
            VolumeCreationPhase::Failed { error } => Err(error),
            _ => Err(LifecycleError::VolumeConstruction),
        }
    }
}

} // verus!
