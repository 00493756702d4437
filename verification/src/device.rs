//! Backing store devices.
//!
//! A backing store device presents a sparse file as a raw block
//! device. Creating one takes six control calls: create the file, grow
//! it to the requested size without writing data, locate an unused
//! block-device slot, bind the file to that slot, and query the bound
//! device's size to verify it matches the request exactly. A mismatch
//! — or a device that cannot report a size at all — unbinds the slot
//! before the error is surfaced, so no wrongly sized device is ever
//! left bound.
//!
//! The caller performs each control call and reports its outcome; the
//! [`DeviceCreation`] machine decides what happens next.

use vstd::prelude::*;

use crate::errors::LifecycleError;
use crate::parse::parse_u64;
use crate::parse::parsed_value;

verus! {

/// One control call of the device layer, to be performed by the caller.
#[derive(Clone, Debug, PartialEq, Eq)]
pub enum DeviceCommand {
    /// Create an empty file at `path`, replacing any previous one.
    CreateFile { path: String },
    /// Grow the file at `path` to `size_bytes` by sparse allocation.
    GrowFile { path: String, size_bytes: u64 },
    /// Locate an unused block-device slot.
    FindFreeSlot,
    /// Bind the file at `file` to the block-device slot at `device`.
    Bind { device: String, file: String },
    /// Ask the device at `device` for its size in bytes.
    QuerySizeBytes { device: String },
    /// Unbind the block-device slot at `device`.
    Unbind { device: String },
}

/// The outcome of one device-layer control call.
#[derive(Clone, Debug, PartialEq, Eq)]
pub enum DeviceEvent {
    /// The call succeeded.
    Succeeded,
    /// The call failed.
    Failed,
    /// A free slot was found at this device path.
    SlotFound { device: String },
    /// The size query answered with this raw text.
    SizeReported { output: Vec<u8> },
}

/// Where a device creation stands.
#[derive(Clone, Copy, Debug, PartialEq, Eq, Structural)]
pub enum DevicePhase {
    /// Waiting for the backing file to be created.
    CreatingFile,
    /// Waiting for the backing file to be grown to the requested size.
    GrowingFile,
    /// Waiting for a free block-device slot.
    FindingSlot,
    /// Waiting for the file to be bound to the slot.
    Binding,
    /// Waiting for the bound device to report its size.
    CheckingSize,
    /// The device was bound but cannot be kept; waiting for the unbind
    /// that must run before `error` is surfaced.
    Unbinding { error: LifecycleError },
    /// The device is bound and reported exactly the requested size.
    Complete,
    /// Creation failed; no device is left bound.
    Failed { error: LifecycleError },
}

/// A block device backed by a sparse file.
#[derive(Debug)]
pub struct LoopDevice {
    backing_file: String,
    device_path: String,
    size_bytes: u64,
    attached: bool,
}

/// The step-by-step creation of a [`LoopDevice`].
pub struct DeviceCreation {
    backing_file: String,
    size_bytes: u64,
    slot: Option<String>,
    phase: DevicePhase,
}

impl DeviceCreation {
    /// The path of the backing file.
    pub closed spec fn spec_backing_file(&self) -> Seq<char> {
        self.backing_file@
    }

    /// The size, in bytes, the bound device must report.
    pub closed spec fn spec_size_bytes(&self) -> u64 {
        self.size_bytes
    }

    /// The block-device slot chosen so far, if any.
    pub closed spec fn spec_slot(&self) -> Option<Seq<char>> {
        match self.slot {
            Some(s) => Some(s@),
            None => None,
        }
    }

    /// Where the creation stands.
    pub closed spec fn spec_phase(&self) -> DevicePhase {
        self.phase
    }

    /// From the moment a slot is chosen, the machine remembers it.
    pub closed spec fn wf(&self) -> bool {
        (self.phase is Binding || self.phase is CheckingSize || self.phase matches
        DevicePhase::Unbinding { .. } || self.phase is Complete) ==> self.slot is Some
    }

    /// Whether the creation has come to an end, well or badly.
    pub open spec fn is_terminal(&self) -> bool {
        self.spec_phase() is Complete || self.spec_phase() matches DevicePhase::Failed { .. }
    }

    /// Which events answer the pending command.
    pub open spec fn expects(&self, ev: DeviceEvent) -> bool {
        match self.spec_phase() {
            DevicePhase::CreatingFile => ev is Succeeded || ev is Failed,
            DevicePhase::GrowingFile => ev is Succeeded || ev is Failed,
            DevicePhase::FindingSlot => ev matches DeviceEvent::SlotFound { .. } || ev is Failed,
            DevicePhase::Binding => ev is Succeeded || ev is Failed,
            DevicePhase::CheckingSize => ev matches DeviceEvent::SizeReported { .. }
                || ev is Failed,
            DevicePhase::Unbinding { .. } => ev is Succeeded || ev is Failed,
            DevicePhase::Complete => false,
            DevicePhase::Failed { .. } => false,
        }
    }

    /// The transition relation of the creation, as a function: what
    /// [`DeviceCreation::step`] does to the state for each phase and
    /// event. An event that the phase does not expect, and any event in
    /// a terminal phase, leaves the state unchanged.
    pub closed spec fn step_spec(self, ev: DeviceEvent) -> DeviceCreation {
        match self.phase {
            DevicePhase::CreatingFile => match ev {
                DeviceEvent::Succeeded => DeviceCreation { phase: DevicePhase::GrowingFile, ..self },
                DeviceEvent::Failed => DeviceCreation {
                    phase: DevicePhase::Failed { error: LifecycleError::Allocation },
                    ..self
                },
                _ => self,
            },
            DevicePhase::GrowingFile => match ev {
                DeviceEvent::Succeeded => DeviceCreation { phase: DevicePhase::FindingSlot, ..self },
                DeviceEvent::Failed => DeviceCreation {
                    phase: DevicePhase::Failed { error: LifecycleError::Allocation },
                    ..self
                },
                _ => self,
            },
            DevicePhase::FindingSlot => match ev {
                DeviceEvent::SlotFound { device } => DeviceCreation {
                    slot: Some(device),
                    phase: DevicePhase::Binding,
                    ..self
                },
                DeviceEvent::Failed => DeviceCreation {
                    phase: DevicePhase::Failed { error: LifecycleError::NoFreeSlot },
                    ..self
                },
                _ => self,
            },
            DevicePhase::Binding => match ev {
                DeviceEvent::Succeeded => DeviceCreation { phase: DevicePhase::CheckingSize, ..self },
                DeviceEvent::Failed => DeviceCreation {
                    phase: DevicePhase::Failed { error: LifecycleError::Bind },
                    ..self
                },
                _ => self,
            },
            DevicePhase::CheckingSize => match ev {
                DeviceEvent::SizeReported { output } => match parsed_value(output@) {
                    Some(n) => if n == self.size_bytes {
                        DeviceCreation { phase: DevicePhase::Complete, ..self }
                    } else {
                        DeviceCreation {
                            phase: DevicePhase::Unbinding {
                                error: LifecycleError::SizeMismatch {
                                    requested: self.size_bytes,
                                    reported: n,
                                },
                            },
                            ..self
                        }
                    },
                    None => DeviceCreation {
                        phase: DevicePhase::Unbinding { error: LifecycleError::Bind },
                        ..self
                    },
                },
                DeviceEvent::Failed => DeviceCreation {
                    phase: DevicePhase::Unbinding { error: LifecycleError::Bind },
                    ..self
                },
                _ => self,
            },
            DevicePhase::Unbinding { error } => match ev {
                DeviceEvent::Succeeded => DeviceCreation {
                    phase: DevicePhase::Failed { error },
                    ..self
                },
                DeviceEvent::Failed => DeviceCreation {
                    phase: DevicePhase::Failed { error },
                    ..self
                },
                _ => self,
            },
            DevicePhase::Complete => self,
            DevicePhase::Failed { .. } => self,
        }
    }

    /// The state after a whole run of events.
    pub closed spec fn run_spec(self, evs: Seq<DeviceEvent>) -> DeviceCreation
        decreases evs.len(),
    {
        if evs.len() == 0 {
            self
        } else {
            self.step_spec(evs.first()).run_spec(evs.drop_first())
        }
    }

    /// Begins creating a device over the file at `backing_file` that
    /// must report exactly `size_bytes`.
    pub fn start(backing_file: String, size_bytes: u64) -> (c: Self)
        ensures
            c.wf(),
            c.spec_phase() is CreatingFile,
            c.spec_backing_file() == backing_file@,
            c.spec_size_bytes() == size_bytes,
            c.spec_slot() is None,
    {
        DeviceCreation { backing_file, size_bytes, slot: None, phase: DevicePhase::CreatingFile }
    }

    /// Where the creation stands, for the caller driving it.
    pub fn phase(&self) -> (p: DevicePhase)
        ensures
            p == self.spec_phase(),
    {
        self.phase
    }

    /// The control call the caller must perform next, if any.
    pub fn pending_command(&self) -> (c: Option<DeviceCommand>)
        requires
            self.wf(),
        ensures
            match self.spec_phase() {
                DevicePhase::CreatingFile => c matches Some(DeviceCommand::CreateFile { path })
                    && path@ == self.spec_backing_file(),
                DevicePhase::GrowingFile => c matches Some(
                    DeviceCommand::GrowFile { path, size_bytes },
                ) && path@ == self.spec_backing_file() && size_bytes == self.spec_size_bytes(),
                DevicePhase::FindingSlot => c matches Some(DeviceCommand::FindFreeSlot),
                DevicePhase::Binding => c matches Some(DeviceCommand::Bind { device, file })
                    && Some(device@) == self.spec_slot() && file@ == self.spec_backing_file(),
                DevicePhase::CheckingSize => c matches Some(
                    DeviceCommand::QuerySizeBytes { device },
                ) && Some(device@) == self.spec_slot(),
                DevicePhase::Unbinding { .. } => c matches Some(DeviceCommand::Unbind { device })
                    && Some(device@) == self.spec_slot(),
                DevicePhase::Complete => c is None,
                DevicePhase::Failed { .. } => c is None,
            },
    {
        match self.phase {
            DevicePhase::CreatingFile => Some(
                DeviceCommand::CreateFile { path: self.backing_file.clone() },
            ),
            DevicePhase::GrowingFile => Some(
                DeviceCommand::GrowFile {
                    path: self.backing_file.clone(),
                    size_bytes: self.size_bytes,
                },
            ),
            DevicePhase::FindingSlot => Some(DeviceCommand::FindFreeSlot),
            DevicePhase::Binding => match &self.slot {
                Some(s) => Some(
                    DeviceCommand::Bind { device: s.clone(), file: self.backing_file.clone() },
                ),
                None => None,
            },
            DevicePhase::CheckingSize => match &self.slot {
                Some(s) => Some(DeviceCommand::QuerySizeBytes { device: s.clone() }),
                None => None,
            },
            DevicePhase::Unbinding { .. } => match &self.slot {
                Some(s) => Some(DeviceCommand::Unbind { device: s.clone() }),
                None => None,
            },
            DevicePhase::Complete => None,
            DevicePhase::Failed { .. } => None,
        }
    }

    /// Takes the outcome of the pending control call and decides what
    /// happens next.
    ///
    /// A failure while the file is being prepared surfaces as
    /// `Allocation`; no free slot as `NoFreeSlot`; a failed bind as
    /// `Bind`. Once the file is bound, any outcome other than a report
    /// of exactly the requested size first unbinds the slot and only
    /// then fails: with `SizeMismatch` carrying the reported size, or
    /// with `Bind` when the device could not report a size at all. The
    /// unbind itself is attempted once; its own outcome cannot change
    /// the error that is surfaced.
    pub fn step(&mut self, ev: DeviceEvent)
        requires
            old(self).wf(),
            old(self).expects(ev),
        ensures
            final(self).wf(),
            *final(self) == old(self).step_spec(ev),
            final(self).spec_backing_file() == old(self).spec_backing_file(),
            final(self).spec_size_bytes() == old(self).spec_size_bytes(),
            old(self).spec_phase() is CreatingFile ==> {
                &&& ev is Succeeded ==> final(self).spec_phase() is GrowingFile
                &&& ev is Failed ==> final(self).spec_phase() == (DevicePhase::Failed {
                    error: LifecycleError::Allocation,
                })
            },
            old(self).spec_phase() is GrowingFile ==> {
                &&& ev is Succeeded ==> final(self).spec_phase() is FindingSlot
                &&& ev is Failed ==> final(self).spec_phase() == (DevicePhase::Failed {
                    error: LifecycleError::Allocation,
                })
            },
            old(self).spec_phase() is FindingSlot ==> {
                &&& ev matches DeviceEvent::SlotFound { device } ==> final(self).spec_phase()
                    is Binding && final(self).spec_slot() == Some(device@)
                &&& ev is Failed ==> final(self).spec_phase() == (DevicePhase::Failed {
                    error: LifecycleError::NoFreeSlot,
                })
            },
            old(self).spec_phase() !is FindingSlot ==> final(self).spec_slot() == old(
                self,
            ).spec_slot(),
            old(self).spec_phase() is Binding ==> {
                &&& ev is Succeeded ==> final(self).spec_phase() is CheckingSize
                &&& ev is Failed ==> final(self).spec_phase() == (DevicePhase::Failed {
                    error: LifecycleError::Bind,
                })
            },
            old(self).spec_phase() is CheckingSize ==> {
                &&& ev matches DeviceEvent::SizeReported { output } ==> match parsed_value(
                    output@,
                ) {
                    Some(n) => if n == old(self).spec_size_bytes() {
                        final(self).spec_phase() is Complete
                    } else {
                        final(self).spec_phase() == (DevicePhase::Unbinding {
                            error: LifecycleError::SizeMismatch {
                                requested: old(self).spec_size_bytes(),
                                reported: n,
                            },
                        })
                    },
                    None => final(self).spec_phase() == (DevicePhase::Unbinding {
                        error: LifecycleError::Bind,
                    }),
                }
                &&& ev is Failed ==> final(self).spec_phase() == (DevicePhase::Unbinding {
                    error: LifecycleError::Bind,
                })
            },
            old(self).spec_phase() matches DevicePhase::Unbinding { error }
                ==> final(self).spec_phase() == (DevicePhase::Failed { error }),
    {
        match self.phase {
            DevicePhase::CreatingFile => match ev {
                DeviceEvent::Succeeded => {
                    self.phase = DevicePhase::GrowingFile;
                },
                _ => {
                    self.phase = DevicePhase::Failed { error: LifecycleError::Allocation };
                },
            },
            DevicePhase::GrowingFile => match ev {
                DeviceEvent::Succeeded => {
                    self.phase = DevicePhase::FindingSlot;
                },
                _ => {
                    self.phase = DevicePhase::Failed { error: LifecycleError::Allocation };
                },
            },
            DevicePhase::FindingSlot => match ev {
                DeviceEvent::SlotFound { device } => {
                    self.slot = Some(device);
                    self.phase = DevicePhase::Binding;
                },
                _ => {
                    self.phase = DevicePhase::Failed { error: LifecycleError::NoFreeSlot };
                },
            },
            DevicePhase::Binding => match ev {
                DeviceEvent::Succeeded => {
                    self.phase = DevicePhase::CheckingSize;
                },
                _ => {
                    self.phase = DevicePhase::Failed { error: LifecycleError::Bind };
                },
            },
            DevicePhase::CheckingSize => match ev {
                DeviceEvent::SizeReported { output } => match parse_u64(&output) {
                    Some(n) => {
                        if n == self.size_bytes {
                            self.phase = DevicePhase::Complete;
                        } else {
                            self.phase = DevicePhase::Unbinding {
                                error: LifecycleError::SizeMismatch {
                                    requested: self.size_bytes,
                                    reported: n,
                                },
                            };
                        }
                    },
                    None => {
                        self.phase = DevicePhase::Unbinding { error: LifecycleError::Bind };
                    },
                },
                _ => {
                    self.phase = DevicePhase::Unbinding { error: LifecycleError::Bind };
                },
            },
            DevicePhase::Unbinding { error } => {
                self.phase = DevicePhase::Failed { error };
            },
            DevicePhase::Complete => {
                proof {
                    assert(false);
                }
            },
            DevicePhase::Failed { .. } => {
                proof {
                    assert(false);
                }
            },
        }
    }

    /// Ends the creation. A completed creation yields the device,
    /// attached, with exactly the requested size; a failed one yields
    /// the error that was decided when it failed.
    pub fn finish(self) -> (r: Result<LoopDevice, LifecycleError>)
        requires
            self.wf(),
            self.is_terminal(),
        ensures
            r is Ok <==> self.spec_phase() is Complete,
            r matches Ok(dev) ==> {
                &&& dev.is_attached()
                &&& dev.spec_size_bytes() == self.spec_size_bytes()
                &&& Some(dev.spec_device_path()) == self.spec_slot()
                &&& dev.spec_backing_file() == self.spec_backing_file()
            },
            r matches Err(e) ==> (self.spec_phase() matches DevicePhase::Failed { error } && e
                == error),
    {
        match self.phase {
            DevicePhase::Complete => match self.slot {
                Some(device_path) => Ok(
                    LoopDevice {
                        backing_file: self.backing_file,
                        device_path,
                        size_bytes: self.size_bytes,
                        attached: true,
                    },
                ),
                None => Err(LifecycleError::Bind),
            },
            DevicePhase::Failed { error } => Err(error),
            _ => Err(LifecycleError::Bind),
        }
    }
}

impl LoopDevice {
    /// The path of the device's block-device node.
    pub closed spec fn spec_device_path(&self) -> Seq<char> {
        self.device_path@
    }

    /// The path of the device's backing file.
    pub closed spec fn spec_backing_file(&self) -> Seq<char> {
        self.backing_file@
    }

    /// The size the device reported when it was bound.
    pub closed spec fn spec_size_bytes(&self) -> u64 {
        self.size_bytes
    }

    /// Whether the device is still bound to its slot.
    pub closed spec fn is_attached(&self) -> bool {
        self.attached
    }

    /// The path of the block device.
    pub fn device_path(&self) -> (p: &String)
        ensures
            p@ == self.spec_device_path(),
    {
        &self.device_path
    }

    /// The path of the backing file.
    pub fn backing_file(&self) -> (p: &String)
        ensures
            p@ == self.spec_backing_file(),
    {
        &self.backing_file
    }

    /// The device's size in bytes.
    pub fn size_bytes(&self) -> (s: u64)
        ensures
            s == self.spec_size_bytes(),
    {
        self.size_bytes
    }

    /// Whether the device is still bound, for the caller driving teardown.
    pub fn attached(&self) -> (a: bool)
        ensures
            a == self.is_attached(),
    {
        self.attached
    }

    /// The unbind call a release must perform, if any. A device that
    /// was already released needs none: release is idempotent.
    pub fn begin_release(&self) -> (c: Option<DeviceCommand>)
        ensures
            self.is_attached() ==> (c matches Some(DeviceCommand::Unbind { device }) && device@
                == self.spec_device_path()),
            !self.is_attached() ==> c is None,
    {
        if self.attached {
            Some(DeviceCommand::Unbind { device: self.device_path.clone() })
        } else {
            None
        }
    }

    /// Takes the outcome of the unbind call. Whatever it was, the
    /// device counts as released afterwards — a failed unbind surfaces
    /// its error once but must not trap cleanup in a retry loop.
    pub fn finish_release(&mut self, unbound: bool) -> (r: Result<(), LifecycleError>)
        requires
            old(self).is_attached(),
        ensures
            !final(self).is_attached(),
            final(self).spec_device_path() == old(self).spec_device_path(),
            final(self).spec_backing_file() == old(self).spec_backing_file(),
            final(self).spec_size_bytes() == old(self).spec_size_bytes(),
            r is Ok <==> unbound,
            r matches Err(e) ==> e == LifecycleError::Unbind,
    {
        self.attached = false;
        if unbound {
            Ok(())
        } else {
            Err(LifecycleError::Unbind)
        }
    }
}

/// Whether `ev` is a size report of exactly `size_bytes`.
pub open spec fn reports_requested_size(ev: DeviceEvent, size_bytes: u64) -> bool {
    ev matches DeviceEvent::SizeReported { output } && parsed_value(output@) == Some(size_bytes)
}

/// Stepping never changes what was requested.
proof fn lemma_step_preserves_request(s: DeviceCreation, ev: DeviceEvent)
    ensures
        s.step_spec(ev).spec_size_bytes() == s.spec_size_bytes(),
{
}

/// The only transition into `Complete` is the size check passing: the
/// bound device reported exactly the requested size.
proof fn lemma_step_completes_only_on_size_match(s: DeviceCreation, ev: DeviceEvent)
    requires
        s.spec_phase() !is Complete,
        s.step_spec(ev).spec_phase() is Complete,
    ensures
        s.spec_phase() is CheckingSize,
        reports_requested_size(ev, s.spec_size_bytes()),
{
}

/// For every run of control-call outcomes that completes a device
/// creation, some outcome was a size report of exactly the requested
/// size: no device is ever handed out whose reported size differs from
/// the request.
pub proof fn lemma_complete_run_verified_size(s: DeviceCreation, evs: Seq<DeviceEvent>)
    requires
        s.spec_phase() !is Complete,
        s.run_spec(evs).spec_phase() is Complete,
    ensures
        exists|i: int|
            0 <= i < evs.len() && #[trigger] reports_requested_size(
                evs[i],
                s.spec_size_bytes(),
            ),
    decreases evs.len(),
{
    if evs.len() == 0 {
        assert(s.run_spec(evs) == s);
        assert(false);
    } else {
        let s1 = s.step_spec(evs.first());
        assert(s.run_spec(evs) == s1.run_spec(evs.drop_first()));
        if s1.spec_phase() is Complete {
            lemma_step_completes_only_on_size_match(s, evs.first());
            assert(reports_requested_size(evs[0], s.spec_size_bytes()));
        } else {
            lemma_step_preserves_request(s, evs.first());
            lemma_complete_run_verified_size(s1, evs.drop_first());
            let j = choose|j: int|
                0 <= j < evs.drop_first().len() && #[trigger] reports_requested_size(
                    evs.drop_first()[j],
                    s1.spec_size_bytes(),
                );
            assert(evs.drop_first()[j] == evs[j + 1]);
            assert(reports_requested_size(evs[j + 1], s.spec_size_bytes()));
        }
    }
}

} // verus!
