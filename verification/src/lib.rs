//! A thin-provisioning lifecycle manager.
//!
//! The crate coordinates the creation and teardown of thin-provisioned
//! block storage: backing devices presenting sparse files as block
//! devices, a pool carved out of a metadata device and a data device,
//! and volumes and copy-on-write snapshots addressed inside that pool.
//!
//! Every side effect goes through an external block-storage control
//! layer (sparse file allocation, loop-device binding, the metadata
//! format driver, the mapping-table interface, per-pool messages).
//! The crate itself performs none of these calls. Each multi-step
//! operation is a small state machine: the caller asks for the pending
//! control command, performs it, and hands the outcome back as an
//! event. All decisions — which error a failed step maps to, what
//! compensation must run before an error is surfaced, which identifiers
//! stay live — are made here and verified.

pub mod allocator;
pub mod coordinator;
pub mod device;
pub mod errors;
pub mod metadata;
pub mod overlay;
pub mod parse;
pub mod pool;
pub mod units;
pub mod volume;
