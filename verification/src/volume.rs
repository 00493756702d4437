//! Thin volumes and snapshots.
//!
//! A thin volume is a handle to one addressable unit inside a pool: a
//! base volume, or a snapshot of one. It knows its own name, size and
//! identity and delegates all mutation to its owning pool. A snapshot
//! is structurally a volume with a recorded origin identifier.
//!
//! Removing a volume takes two control calls: tear down the device
//! node, then send the `delete` message to the pool. A refused node
//! teardown fails with `VolumeInUse` and changes nothing — retry is
//! expected. A refused delete message after the node is already gone
//! is a non-fatal, warning-level condition: the externally visible
//! device takes priority over pool bookkeeping, whose entry stays
//! orphaned until reconciled out of band.

use vstd::prelude::*;

use crate::errors::LifecycleError;
use crate::pool::dev_mapper_path;
use crate::pool::mapper_path;
use crate::pool::ControlCommand;
use crate::pool::PoolMessage;
use crate::pool::ThinPool;
use crate::units::BYTES_PER_MB;

verus! {

/// Where a volume stands in its life.
#[derive(Clone, Copy, Debug, PartialEq, Eq, Structural)]
pub enum VolumeState {
    /// The device node is attached and the identifier is live.
    Attached,
    /// The node is gone; the `delete` message is still owed to the pool.
    DeletePending,
    /// The volume is removed.
    Removed,
}

/// A handle to one addressable unit inside a pool.
#[derive(Debug)]
pub struct ThinVolume {
    name: String,
    pool_name: String,
    device_id: u32,
    virtual_size_mb: u64,
    origin_id: Option<u32>,
    state: VolumeState,
}

impl ThinVolume {
    /// The volume's name: its addressable identity.
    pub closed spec fn spec_name(&self) -> Seq<char> {
        self.name@
    }

    /// The owning pool's name.
    pub closed spec fn spec_pool_name(&self) -> Seq<char> {
        self.pool_name@
    }

    /// The volume's identifier inside the owning pool.
    pub closed spec fn spec_device_id(&self) -> u32 {
        self.device_id
    }

    /// The virtual size, in megabytes, fixed at creation.
    pub closed spec fn spec_virtual_size_mb(&self) -> u64 {
        self.virtual_size_mb
    }

    /// The origin's identifier: set for a snapshot, absent for a base
    /// volume.
    pub closed spec fn spec_origin_id(&self) -> Option<u32> {
        self.origin_id
    }

    /// Where the volume stands in its life.
    pub closed spec fn spec_state(&self) -> VolumeState {
        self.state
    }

    /// The virtual size converts to sectors without overflow.
    pub open spec fn wf(&self) -> bool {
        self.spec_virtual_size_mb() * BYTES_PER_MB <= u64::MAX
    }

    /// Builds the handle for a volume whose device node was just
    /// constructed. Internal: volumes are created through their pool.
    pub(crate) fn assemble(
        name: String,
        pool_name: String,
        device_id: u32,
        virtual_size_mb: u64,
        origin_id: Option<u32>,
    ) -> (v: Self)
        requires
            virtual_size_mb * BYTES_PER_MB <= u64::MAX,
        ensures
            v.wf(),
            v.spec_name() == name@,
            v.spec_pool_name() == pool_name@,
            v.spec_device_id() == device_id,
            v.spec_virtual_size_mb() == virtual_size_mb,
            v.spec_origin_id() == origin_id,
            v.spec_state() is Attached,
    {
        ThinVolume {
            name,
            pool_name,
            device_id,
            virtual_size_mb,
            origin_id,
            state: VolumeState::Attached,
        }
    }

    /// The path of the volume's device node.
    pub fn device_path(&self) -> (p: String)
        ensures
            p@ == dev_mapper_path(self.spec_name()),
    {
        mapper_path(&self.name)
    }

    /// The volume's name.
    pub fn name(&self) -> (n: &String)
        ensures
            n@ == self.spec_name(),
    {
        &self.name
    }

    /// The volume's identifier inside the owning pool.
    pub fn device_id(&self) -> (id: u32)
        ensures
            id == self.spec_device_id(),
    {
        self.device_id
    }

    /// The virtual size, in megabytes.
    pub fn virtual_size_mb(&self) -> (s: u64)
        ensures
            s == self.spec_virtual_size_mb(),
    {
        self.virtual_size_mb
    }

    /// The origin's identifier, for a snapshot.
    pub fn origin_id(&self) -> (o: Option<u32>)
        ensures
            o == self.spec_origin_id(),
    {
        self.origin_id
    }

    /// Where the volume stands, for the caller driving removal.
    pub fn state(&self) -> (s: VolumeState)
        ensures
            s == self.spec_state(),
    {
        self.state
    }

    /// The control call a removal must perform next, if any: first the
    /// node teardown, then the `delete` message. A removed volume needs
    /// none: removal is idempotent.
    pub fn begin_remove(&self) -> (c: Option<ControlCommand>)
        ensures
            self.spec_state() is Attached ==> (c matches Some(
                ControlCommand::RemoveVolumeDevice { name },
            ) && name@ == self.spec_name()),
            self.spec_state() is DeletePending ==> (c matches Some(
                ControlCommand::SendMessage { pool_device, message },
            ) && pool_device@ == dev_mapper_path(self.spec_pool_name()) && message == (
            PoolMessage::Delete { device_id: self.spec_device_id() })),
            self.spec_state() is Removed ==> c is None,
    {
        match self.state {
            VolumeState::Attached => Some(
                ControlCommand::RemoveVolumeDevice { name: self.name.clone() },
            ),
            VolumeState::DeletePending => Some(
                ControlCommand::SendMessage {
                    pool_device: mapper_path(&self.pool_name),
                    message: PoolMessage::Delete { device_id: self.device_id },
                },
            ),
            VolumeState::Removed => None,
        }
    }

    /// Takes the outcome of the node-teardown call.
    ///
    /// A refusal — the underlying subsystem will not remove an attached
    /// device — fails with `VolumeInUse`; the identifier stays live,
    /// the node stays recorded, and the caller may retry. On success
    /// the node is gone and the `delete` message becomes due.
    pub fn on_node_removed(&mut self, pool: &mut ThinPool, removed: bool) -> (r: Result<
        (),
        LifecycleError,
    >)
        requires
            old(self).wf(),
            old(self).spec_state() is Attached,
            old(pool).wf(),
            old(self).spec_pool_name() == old(pool).spec_name(),
            old(pool).node_attached(old(self).spec_device_id()),
        ensures
            final(self).wf(),
            final(pool).wf(),
            final(self).spec_name() == old(self).spec_name(),
            final(self).spec_pool_name() == old(self).spec_pool_name(),
            final(self).spec_device_id() == old(self).spec_device_id(),
            final(self).spec_virtual_size_mb() == old(self).spec_virtual_size_mb(),
            final(self).spec_origin_id() == old(self).spec_origin_id(),
            r is Ok <==> removed,
            !removed ==> r == Err::<(), LifecycleError>(LifecycleError::VolumeInUse)
                && *final(self) == *old(self) && *final(pool) == *old(pool),
            removed ==> {
                &&& final(self).spec_state() is DeletePending
                &&& !final(pool).node_attached(old(self).spec_device_id())
                &&& forall|j: u32|
                    j != old(self).spec_device_id() ==> (final(pool).node_attached(j) <==> old(
                        pool,
                    ).node_attached(j))
                &&& forall|j: u32| final(pool).id_live(j) <==> old(pool).id_live(j)
                &&& final(pool).spec_attached_count() == old(pool).spec_attached_count() - 1
            },
            final(pool).spec_name() == old(pool).spec_name(),
            final(pool).is_removed() == old(pool).is_removed(),
            final(pool).spec_next_id() == old(pool).spec_next_id(),
            final(pool).spec_metadata_dev() == old(pool).spec_metadata_dev(),
            final(pool).spec_data_dev() == old(pool).spec_data_dev(),
            final(pool).spec_block_size() == old(pool).spec_block_size(),
    {
        if removed {
            pool.detach_node(self.device_id);
            self.state = VolumeState::DeletePending;
            Ok(())
        } else {
            Err(LifecycleError::VolumeInUse)
        }
    }

    /// Takes the outcome of the `delete` message.
    ///
    /// Either way the volume counts as removed: the device node is
    /// already gone, and losing it outranks perfect pool bookkeeping.
    /// On success the identifier is released; on refusal it stays live
    /// in the pool — an orphaned entry to reconcile out of band — and
    /// the refusal is reported as a warning, not a failure.
    pub fn on_delete_result(&mut self, pool: &mut ThinPool, deleted: bool) -> (warning: Option<
        LifecycleError,
    >)
        requires
            old(self).wf(),
            old(self).spec_state() is DeletePending,
            old(pool).wf(),
            old(self).spec_pool_name() == old(pool).spec_name(),
            !old(pool).node_attached(old(self).spec_device_id()),
        ensures
            final(self).wf(),
            final(pool).wf(),
            final(self).spec_name() == old(self).spec_name(),
            final(self).spec_pool_name() == old(self).spec_pool_name(),
            final(self).spec_device_id() == old(self).spec_device_id(),
            final(self).spec_virtual_size_mb() == old(self).spec_virtual_size_mb(),
            final(self).spec_origin_id() == old(self).spec_origin_id(),
            final(self).spec_state() is Removed,
            deleted ==> {
                &&& warning is None
                &&& !final(pool).id_live(old(self).spec_device_id())
                &&& forall|j: u32|
                    j != old(self).spec_device_id() ==> (final(pool).id_live(j) <==> old(
                        pool,
                    ).id_live(j))
            },
            !deleted ==> warning == Some(LifecycleError::DeleteMessage) && *final(pool) == *old(
                pool,
            ),
            forall|j: u32| final(pool).node_attached(j) <==> old(pool).node_attached(j),
            final(pool).spec_attached_count() == old(pool).spec_attached_count(),
            final(pool).spec_name() == old(pool).spec_name(),
            final(pool).is_removed() == old(pool).is_removed(),
            final(pool).spec_next_id() == old(pool).spec_next_id(),
            final(pool).spec_metadata_dev() == old(pool).spec_metadata_dev(),
            final(pool).spec_data_dev() == old(pool).spec_data_dev(),
            final(pool).spec_block_size() == old(pool).spec_block_size(),
    {
        self.state = VolumeState::Removed;
        if deleted {
            pool.release_id(self.device_id);
            None
        } else {
            Some(LifecycleError::DeleteMessage)
        }
    }
}

} // verus!
