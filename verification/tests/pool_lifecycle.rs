use thinpool::coordinator::CleanupStep;
use thinpool::coordinator::LifecycleCoordinator;
use thinpool::device::DeviceCommand;
use thinpool::device::DeviceCreation;
use thinpool::device::DeviceEvent;
use thinpool::device::LoopDevice;
use thinpool::errors::LifecycleError;
use thinpool::metadata::PoolMetadataPlan;
use thinpool::overlay::ImageLayer;
use thinpool::overlay::OverlayConfig;
use thinpool::overlay::OverlayError;
use thinpool::overlay::Snapshot;
use thinpool::pool::ControlCommand;
use thinpool::pool::PoolEvent;
use thinpool::pool::PoolMessage;
use thinpool::pool::PoolSetup;
use thinpool::pool::PoolSetupPhase;
use thinpool::pool::PoolTable;
use thinpool::pool::RemoveOutcome;
use thinpool::pool::ThinPool;
use thinpool::pool::VolumeTable;
use thinpool::volume::ThinVolume;
use thinpool::volume::VolumeState;

fn built_device(file: &str, slot: &str, size_bytes: u64) -> LoopDevice {
    let mut c = DeviceCreation::start(file.to_string(), size_bytes);
    c.step(DeviceEvent::Succeeded);
    c.step(DeviceEvent::Succeeded);
    c.step(DeviceEvent::SlotFound {
        device: slot.to_string(),
    });
    c.step(DeviceEvent::Succeeded);
    c.step(DeviceEvent::SizeReported {
        output: format!("{}\n", size_bytes).into_bytes(),
    });
    c.finish().unwrap()
}

fn built_pool(name: &str, metadata_mb: u64, data_mb: u64, block_size_sectors: u64) -> ThinPool {
    let meta = built_device(
        &format!("/tmp/{}-metadata.img", name),
        "/dev/loop10",
        metadata_mb * 1024 * 1024,
    );
    let data = built_device(
        &format!("/tmp/{}-data.img", name),
        "/dev/loop11",
        data_mb * 1024 * 1024,
    );
    let mut s = PoolSetup::start(name.to_string(), meta, data, block_size_sectors);
    s.step(PoolEvent::Succeeded);
    s.step(PoolEvent::SizeReported {
        output: format!("{}\n", data_mb * 2048).into_bytes(),
    });
    s.step(PoolEvent::Succeeded);
    s.finish().unwrap()
}

fn built_volume(pool: &mut ThinPool, name: &str, size_mb: u64) -> ThinVolume {
    let mut vc = pool.begin_create_volume(name.to_string(), size_mb);
    vc.on_message_result(pool, true);
    let comp = vc.on_construct_result(pool, true);
    assert!(comp.is_none());
    vc.finish().unwrap()
}

#[test]
fn pool_setup_issues_metadata_query_and_construction() {
    let meta = built_device("/tmp/p-metadata.img", "/dev/loop10", 104857600);
    let data = built_device("/tmp/p-data.img", "/dev/loop11", 1073741824);
    let mut s = PoolSetup::start("p".to_string(), meta, data, 2048);
    assert_eq!(
        s.pending_command(),
        Some(ControlCommand::WriteMetadata {
            device: "/dev/loop10".to_string(),
            plan: PoolMetadataPlan {
                data_block_size_sectors: 2048,
                nr_data_blocks: 1024
            }
        })
    );
    s.step(PoolEvent::Succeeded);
    assert_eq!(
        s.pending_command(),
        Some(ControlCommand::QuerySizeSectors {
            device: "/dev/loop11".to_string()
        })
    );
    s.step(PoolEvent::SizeReported {
        output: b"2097152\n".to_vec(),
    });
    assert_eq!(
        s.pending_command(),
        Some(ControlCommand::CreatePoolDevice {
            name: "p".to_string(),
            table: PoolTable {
                start_sector: 0,
                length_sectors: 2097152,
                metadata_device: "/dev/loop10".to_string(),
                data_device: "/dev/loop11".to_string(),
                data_block_size_sectors: 2048,
            }
        })
    );
    s.step(PoolEvent::Succeeded);
    assert_eq!(s.phase(), PoolSetupPhase::Complete);
    let pool = s.finish().unwrap();
    assert_eq!(pool.name().as_str(), "p");
    assert_eq!(pool.device_path().as_str(), "/dev/mapper/p");
    assert_eq!(pool.attached_count(), 0);
}

#[test]
fn pool_setup_failure_releases_both_devices_in_order() {
    let meta = built_device("/tmp/q-metadata.img", "/dev/loop10", 104857600);
    let data = built_device("/tmp/q-data.img", "/dev/loop11", 1073741824);
    let mut s = PoolSetup::start("q".to_string(), meta, data, 2048);
    s.step(PoolEvent::Succeeded);
    s.step(PoolEvent::SizeReported {
        output: b"2097152\n".to_vec(),
    });
    // The construction call is rejected, e.g. the name is in use.
    s.step(PoolEvent::Failed);
    assert_eq!(
        s.pending_command(),
        Some(ControlCommand::Device(DeviceCommand::Unbind {
            device: "/dev/loop11".to_string()
        }))
    );
    s.step(PoolEvent::Succeeded);
    assert_eq!(
        s.pending_command(),
        Some(ControlCommand::Device(DeviceCommand::Unbind {
            device: "/dev/loop10".to_string()
        }))
    );
    s.step(PoolEvent::Succeeded);
    assert_eq!(s.finish().unwrap_err(), LifecycleError::PoolConstruction);
}

#[test]
fn pool_setup_rejected_description_is_metadata_format_error() {
    let meta = built_device("/tmp/r-metadata.img", "/dev/loop10", 104857600);
    let data = built_device("/tmp/r-data.img", "/dev/loop11", 1073741824);
    let mut s = PoolSetup::start("r".to_string(), meta, data, 2048);
    s.step(PoolEvent::DescriptionRejected);
    s.step(PoolEvent::Succeeded);
    s.step(PoolEvent::Succeeded);
    assert_eq!(s.finish().unwrap_err(), LifecycleError::MetadataFormat);
}

#[test]
fn volume_creation_sends_message_then_constructs() {
    let mut pool = built_pool("p", 100, 1024, 2048);
    let mut vc = pool.begin_create_volume("base".to_string(), 500);
    assert_eq!(
        vc.pending_command(),
        Some(ControlCommand::SendMessage {
            pool_device: "/dev/mapper/p".to_string(),
            message: PoolMessage::CreateThin { device_id: 0 }
        })
    );
    vc.on_message_result(&mut pool, true);
    assert_eq!(
        vc.pending_command(),
        Some(ControlCommand::CreateVolumeDevice {
            name: "base".to_string(),
            table: VolumeTable {
                start_sector: 0,
                length_sectors: 1024000,
                pool_device: "/dev/mapper/p".to_string(),
                device_id: 0,
            }
        })
    );
    let comp = vc.on_construct_result(&mut pool, true);
    assert!(comp.is_none());
    let base = vc.finish().unwrap();
    assert_eq!(base.name().as_str(), "base");
    assert_eq!(base.device_path().as_str(), "/dev/mapper/base");
    assert_eq!(base.device_id(), 0);
    assert_eq!(base.virtual_size_mb(), 500);
    assert_eq!(base.origin_id(), None);
    assert!(pool.is_node_attached(0));
    assert!(pool.is_id_live(0));
}

#[test]
fn snapshot_records_origin_and_copies_its_size() {
    let mut pool = built_pool("p", 100, 1024, 2048);
    let base = built_volume(&mut pool, "base", 500);
    let mut vc = pool.begin_create_snapshot(&base, "snap".to_string());
    assert_eq!(
        vc.pending_command(),
        Some(ControlCommand::SendMessage {
            pool_device: "/dev/mapper/p".to_string(),
            message: PoolMessage::CreateSnap {
                device_id: 1,
                origin_id: 0
            }
        })
    );
    vc.on_message_result(&mut pool, true);
    vc.on_construct_result(&mut pool, true);
    let snap = vc.finish().unwrap();
    assert_eq!(snap.device_id(), 1);
    assert_eq!(snap.origin_id(), Some(0));
    // The snapshot's virtual size equals its origin's at creation.
    assert_eq!(snap.virtual_size_mb(), base.virtual_size_mb());
}

#[test]
fn rejected_create_message_releases_the_id() {
    let mut pool = built_pool("p", 100, 1024, 2048);
    let mut vc = pool.begin_create_volume("base".to_string(), 500);
    vc.on_message_result(&mut pool, false);
    assert_eq!(vc.pending_command(), None);
    assert_eq!(vc.finish().unwrap_err(), LifecycleError::CreateMessage);
    assert!(!pool.is_id_live(0));
    // The counter still advanced: the identifier is never reissued.
    let base = built_volume(&mut pool, "base", 500);
    assert_eq!(base.device_id(), 1);
}

#[test]
fn failed_construction_compensates_with_delete_and_release() {
    let mut pool = built_pool("p", 100, 1024, 2048);
    // Use up identifiers 0 through 4.
    for _ in 0..5 {
        let mut vc = pool.begin_create_volume("scratch".to_string(), 10);
        vc.on_message_result(&mut pool, false);
    }
    let mut vc = pool.begin_create_volume("base".to_string(), 500);
    assert_eq!(
        vc.pending_command(),
        Some(ControlCommand::SendMessage {
            pool_device: "/dev/mapper/p".to_string(),
            message: PoolMessage::CreateThin { device_id: 5 }
        })
    );
    vc.on_message_result(&mut pool, true);
    // The construction call fails after create_thin already succeeded:
    // a compensating delete for id 5 is issued and id 5 is released
    // before the error is surfaced.
    let comp = vc.on_construct_result(&mut pool, false);
    assert_eq!(
        comp,
        Some(ControlCommand::SendMessage {
            pool_device: "/dev/mapper/p".to_string(),
            message: PoolMessage::Delete { device_id: 5 }
        })
    );
    assert!(!pool.is_id_live(5));
    assert!(!pool.is_node_attached(5));
    assert_eq!(vc.finish().unwrap_err(), LifecycleError::VolumeConstruction);
}

#[test]
fn volume_removal_tears_node_then_sends_delete() {
    let mut pool = built_pool("p", 100, 1024, 2048);
    let mut base = built_volume(&mut pool, "base", 500);
    assert_eq!(
        base.begin_remove(),
        Some(ControlCommand::RemoveVolumeDevice {
            name: "base".to_string()
        })
    );
    base.on_node_removed(&mut pool, true).unwrap();
    assert!(!pool.is_node_attached(0));
    assert_eq!(
        base.begin_remove(),
        Some(ControlCommand::SendMessage {
            pool_device: "/dev/mapper/p".to_string(),
            message: PoolMessage::Delete { device_id: 0 }
        })
    );
    assert_eq!(base.on_delete_result(&mut pool, true), None);
    assert_eq!(base.state(), VolumeState::Removed);
    assert!(!pool.is_id_live(0));
    // Removal is idempotent: nothing is left to do.
    assert_eq!(base.begin_remove(), None);
}

#[test]
fn refused_node_removal_is_volume_in_use_and_changes_nothing() {
    let mut pool = built_pool("p", 100, 1024, 2048);
    let mut base = built_volume(&mut pool, "base", 500);
    let r = base.on_node_removed(&mut pool, false);
    assert_eq!(r.unwrap_err(), LifecycleError::VolumeInUse);
    assert_eq!(base.state(), VolumeState::Attached);
    assert!(pool.is_node_attached(0));
    assert!(pool.is_id_live(0));
    // Retry is expected, and may then succeed.
    base.on_node_removed(&mut pool, true).unwrap();
    assert_eq!(base.state(), VolumeState::DeletePending);
}

#[test]
fn refused_delete_message_is_a_warning_and_orphans_the_id() {
    let mut pool = built_pool("p", 100, 1024, 2048);
    let mut base = built_volume(&mut pool, "base", 500);
    base.on_node_removed(&mut pool, true).unwrap();
    let warning = base.on_delete_result(&mut pool, false);
    assert_eq!(warning, Some(LifecycleError::DeleteMessage));
    // The node is gone and the volume counts as removed; the pool-side
    // entry stays orphaned until reconciled out of band.
    assert_eq!(base.state(), VolumeState::Removed);
    assert!(pool.is_id_live(0));
    assert!(!pool.is_node_attached(0));
}

#[test]
fn pool_removal_refused_while_a_node_is_attached() {
    let mut pool = built_pool("p", 100, 1024, 2048);
    let _base = built_volume(&mut pool, "base", 500);
    let r = pool.begin_remove();
    assert_eq!(r.unwrap_err(), LifecycleError::PoolInUse);
    // Nothing changed: the node is still attached and the pool active.
    assert!(pool.is_node_attached(0));
    assert!(!pool.removed());
}

#[test]
fn pool_removal_succeeds_after_volumes_and_is_idempotent() {
    let mut pool = built_pool("p", 100, 1024, 2048);
    let mut base = built_volume(&mut pool, "base", 500);
    base.on_node_removed(&mut pool, true).unwrap();
    base.on_delete_result(&mut pool, true);
    let cmd = pool.begin_remove().unwrap().unwrap();
    assert_eq!(
        cmd,
        ControlCommand::RemovePoolDevice {
            name: "p".to_string()
        }
    );
    pool.finish_remove(RemoveOutcome::Removed).unwrap();
    assert!(pool.removed());
    // The second removal is a no-op, not an error.
    assert_eq!(pool.begin_remove().unwrap(), None);
    // Only now may the backing devices be released.
    let (meta, data) = pool.take_devices();
    assert!(meta.attached());
    assert!(data.attached());
}

#[test]
fn pool_removal_busy_or_rejected_changes_nothing() {
    let mut pool = built_pool("p", 100, 1024, 2048);
    let r = pool.finish_remove(RemoveOutcome::StillInUse);
    assert_eq!(r.unwrap_err(), LifecycleError::PoolInUse);
    assert!(!pool.removed());
    let r = pool.finish_remove(RemoveOutcome::Rejected);
    assert_eq!(r.unwrap_err(), LifecycleError::PoolTeardown);
    assert!(!pool.removed());
    let r = pool.finish_remove(RemoveOutcome::Removed);
    assert!(r.is_ok());
    assert!(pool.removed());
}

#[test]
fn full_lifecycle_in_order_and_reordering_fails() {
    // Create pool "p": 100 MB metadata, 1024 MB data, 2048-sector blocks.
    let mut pool = built_pool("p", 100, 1024, 2048);
    // createVolume("base", 500 MB) gets id 0.
    let mut base = built_volume(&mut pool, "base", 500);
    assert_eq!(base.device_id(), 0);
    // createSnapshot(base, "snap") gets id 1.
    let mut vc = pool.begin_create_snapshot(&base, "snap".to_string());
    vc.on_message_result(&mut pool, true);
    vc.on_construct_result(&mut pool, true);
    let mut snap = vc.finish().unwrap();
    assert_eq!(snap.device_id(), 1);

    // Removing "p" before "base" and "snap" fails with PoolInUse.
    assert_eq!(pool.begin_remove().unwrap_err(), LifecycleError::PoolInUse);

    // Remove "snap", then "base", then "p": every step succeeds.
    snap.on_node_removed(&mut pool, true).unwrap();
    assert_eq!(snap.on_delete_result(&mut pool, true), None);
    assert_eq!(pool.begin_remove().unwrap_err(), LifecycleError::PoolInUse);
    base.on_node_removed(&mut pool, true).unwrap();
    assert_eq!(base.on_delete_result(&mut pool, true), None);
    assert!(pool.begin_remove().unwrap().is_some());
    pool.finish_remove(RemoveOutcome::Removed).unwrap();
    assert!(pool.removed());
}

#[test]
fn coordinator_cleans_up_in_reverse_registration_order() {
    let mut c = LifecycleCoordinator::new();
    c.register(CleanupStep::ReleaseDevice {
        device: "/dev/loop10".to_string(),
    });
    c.register(CleanupStep::ReleaseDevice {
        device: "/dev/loop11".to_string(),
    });
    c.register(CleanupStep::RemovePool {
        name: "p".to_string(),
    });
    c.register(CleanupStep::RemoveVolume {
        name: "base".to_string(),
        pool_name: "p".to_string(),
        device_id: 0,
    });
    c.register(CleanupStep::RemoveVolume {
        name: "snap".to_string(),
        pool_name: "p".to_string(),
        device_id: 1,
    });
    let steps = c.drain();
    assert_eq!(c.pending(), 0);
    assert_eq!(
        steps,
        vec![
            CleanupStep::RemoveVolume {
                name: "snap".to_string(),
                pool_name: "p".to_string(),
                device_id: 1,
            },
            CleanupStep::RemoveVolume {
                name: "base".to_string(),
                pool_name: "p".to_string(),
                device_id: 0,
            },
            CleanupStep::RemovePool {
                name: "p".to_string(),
            },
            CleanupStep::ReleaseDevice {
                device: "/dev/loop11".to_string(),
            },
            CleanupStep::ReleaseDevice {
                device: "/dev/loop10".to_string(),
            },
        ]
    );
}

#[test]
fn coordinator_pops_newest_first_one_at_a_time() {
    let mut c = LifecycleCoordinator::new();
    assert_eq!(c.next_cleanup(), None);
    c.register(CleanupStep::RemovePool {
        name: "p".to_string(),
    });
    c.register(CleanupStep::RemoveVolume {
        name: "base".to_string(),
        pool_name: "p".to_string(),
        device_id: 0,
    });
    assert_eq!(
        c.next_cleanup(),
        Some(CleanupStep::RemoveVolume {
            name: "base".to_string(),
            pool_name: "p".to_string(),
            device_id: 0,
        })
    );
    assert_eq!(
        c.next_cleanup(),
        Some(CleanupStep::RemovePool {
            name: "p".to_string(),
        })
    );
    assert_eq!(c.next_cleanup(), None);
}

#[test]
fn overlay_config_requires_a_lower_layer() {
    let r = OverlayConfig::new(
        Vec::new(),
        "/tmp/upper".to_string(),
        "/tmp/work".to_string(),
        "/tmp/merged".to_string(),
    );
    assert_eq!(r.unwrap_err(), OverlayError::NoLowerLayers);
}

#[test]
fn overlay_lower_dirs_reverse_for_the_kernel() {
    let config = OverlayConfig::new(
        vec![
            "/base".to_string(),
            "/app".to_string(),
            "/config".to_string(),
        ],
        "/tmp/upper".to_string(),
        "/tmp/work".to_string(),
        "/tmp/merged".to_string(),
    )
    .unwrap();
    let ordered = config.kernel_lower_order();
    assert_eq!(
        ordered,
        vec![
            "/config".to_string(),
            "/app".to_string(),
            "/base".to_string(),
        ]
    );
}

#[test]
fn overlay_layer_and_snapshot_keep_their_fields() {
    let layer = ImageLayer::new("/tmp/layer1.tar.gz".to_string(), "sha256-layer1".to_string());
    assert_eq!(layer.tar_path.as_str(), "/tmp/layer1.tar.gz");
    assert_eq!(layer.layer_id.as_str(), "sha256-layer1");
    let snap = Snapshot::new(
        "sha256-layer2".to_string(),
        "/tmp/snapshots/sha256-layer2/fs".to_string(),
        vec!["sha256-layer1".to_string()],
    );
    assert_eq!(snap.id.as_str(), "sha256-layer2");
    assert_eq!(snap.fs_dir.as_str(), "/tmp/snapshots/sha256-layer2/fs");
    assert_eq!(snap.parents, vec!["sha256-layer1".to_string()]);
}
