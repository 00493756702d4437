use thinpool::allocator::DeviceIdAllocator;
use thinpool::device::DeviceCommand;
use thinpool::device::DeviceCreation;
use thinpool::device::DeviceEvent;
use thinpool::device::DevicePhase;
use thinpool::device::LoopDevice;
use thinpool::errors::LifecycleError;
use thinpool::metadata::initialize_result;
use thinpool::metadata::plan_empty_pool;
use thinpool::metadata::MetadataOutcome;
use thinpool::metadata::PoolMetadataPlan;
use thinpool::parse::parse_u64;
use thinpool::units::bytes_to_sectors;
use thinpool::units::mb_to_bytes;
use thinpool::units::mb_to_sectors;

fn made_device(file: &str, slot: &str, size_bytes: u64) -> LoopDevice {
    let mut c = DeviceCreation::start(file.to_string(), size_bytes);
    c.step(DeviceEvent::Succeeded);
    c.step(DeviceEvent::Succeeded);
    c.step(DeviceEvent::SlotFound {
        device: slot.to_string(),
    });
    c.step(DeviceEvent::Succeeded);
    c.step(DeviceEvent::SizeReported {
        output: format!("{}\n", size_bytes).into_bytes(),
    });
    c.finish().unwrap()
}

#[test]
fn device_creation_walks_all_six_calls() {
    let mut c = DeviceCreation::start("/tmp/demo.img".to_string(), 104857600);
    assert_eq!(
        c.pending_command(),
        Some(DeviceCommand::CreateFile {
            path: "/tmp/demo.img".to_string()
        })
    );
    c.step(DeviceEvent::Succeeded);
    assert_eq!(
        c.pending_command(),
        Some(DeviceCommand::GrowFile {
            path: "/tmp/demo.img".to_string(),
            size_bytes: 104857600
        })
    );
    c.step(DeviceEvent::Succeeded);
    assert_eq!(c.pending_command(), Some(DeviceCommand::FindFreeSlot));
    c.step(DeviceEvent::SlotFound {
        device: "/dev/loop3".to_string(),
    });
    assert_eq!(
        c.pending_command(),
        Some(DeviceCommand::Bind {
            device: "/dev/loop3".to_string(),
            file: "/tmp/demo.img".to_string()
        })
    );
    c.step(DeviceEvent::Succeeded);
    assert_eq!(
        c.pending_command(),
        Some(DeviceCommand::QuerySizeBytes {
            device: "/dev/loop3".to_string()
        })
    );
    c.step(DeviceEvent::SizeReported {
        output: b"104857600\n".to_vec(),
    });
    assert_eq!(c.phase(), DevicePhase::Complete);
    let dev = c.finish().unwrap();
    assert_eq!(dev.device_path().as_str(), "/dev/loop3");
    assert_eq!(dev.backing_file().as_str(), "/tmp/demo.img");
    assert_eq!(dev.size_bytes(), 104857600);
    assert!(dev.attached());
}

#[test]
fn device_size_mismatch_unbinds_before_failing() {
    let mut c = DeviceCreation::start("/tmp/demo.img".to_string(), 104857600);
    c.step(DeviceEvent::Succeeded);
    c.step(DeviceEvent::Succeeded);
    c.step(DeviceEvent::SlotFound {
        device: "/dev/loop3".to_string(),
    });
    c.step(DeviceEvent::Succeeded);
    c.step(DeviceEvent::SizeReported {
        output: b"104857088\n".to_vec(),
    });
    // The wrongly sized device must be unbound before the error surfaces.
    assert_eq!(
        c.pending_command(),
        Some(DeviceCommand::Unbind {
            device: "/dev/loop3".to_string()
        })
    );
    c.step(DeviceEvent::Succeeded);
    let err = c.finish().unwrap_err();
    assert_eq!(
        err,
        LifecycleError::SizeMismatch {
            requested: 104857600,
            reported: 104857088
        }
    );
}

#[test]
fn device_unreadable_size_counts_as_bad_bind() {
    let mut c = DeviceCreation::start("/tmp/demo.img".to_string(), 1048576);
    c.step(DeviceEvent::Succeeded);
    c.step(DeviceEvent::Succeeded);
    c.step(DeviceEvent::SlotFound {
        device: "/dev/loop9".to_string(),
    });
    c.step(DeviceEvent::Succeeded);
    c.step(DeviceEvent::SizeReported {
        output: b"garbage\n".to_vec(),
    });
    assert_eq!(
        c.pending_command(),
        Some(DeviceCommand::Unbind {
            device: "/dev/loop9".to_string()
        })
    );
    c.step(DeviceEvent::Failed);
    assert_eq!(c.finish().unwrap_err(), LifecycleError::Bind);
}

#[test]
fn device_failures_map_to_their_layer_errors() {
    let mut c = DeviceCreation::start("/tmp/a.img".to_string(), 1048576);
    c.step(DeviceEvent::Failed);
    assert_eq!(c.finish().unwrap_err(), LifecycleError::Allocation);

    let mut c = DeviceCreation::start("/tmp/b.img".to_string(), 1048576);
    c.step(DeviceEvent::Succeeded);
    c.step(DeviceEvent::Succeeded);
    c.step(DeviceEvent::Failed);
    assert_eq!(c.finish().unwrap_err(), LifecycleError::NoFreeSlot);

    let mut c = DeviceCreation::start("/tmp/c.img".to_string(), 1048576);
    c.step(DeviceEvent::Succeeded);
    c.step(DeviceEvent::Succeeded);
    c.step(DeviceEvent::SlotFound {
        device: "/dev/loop0".to_string(),
    });
    c.step(DeviceEvent::Failed);
    assert_eq!(c.finish().unwrap_err(), LifecycleError::Bind);
}

#[test]
fn device_release_is_idempotent() {
    let mut dev = made_device("/tmp/demo.img", "/dev/loop4", 1048576);
    assert_eq!(
        dev.begin_release(),
        Some(DeviceCommand::Unbind {
            device: "/dev/loop4".to_string()
        })
    );
    assert!(dev.finish_release(true).is_ok());
    assert!(!dev.attached());
    // A second release has nothing to do.
    assert_eq!(dev.begin_release(), None);
}

#[test]
fn device_failed_release_still_marks_released() {
    let mut dev = made_device("/tmp/demo.img", "/dev/loop4", 1048576);
    let r = dev.finish_release(false);
    assert_eq!(r.unwrap_err(), LifecycleError::Unbind);
    // The error surfaced once, but the device must not trap cleanup in
    // a retry loop.
    assert!(!dev.attached());
    assert_eq!(dev.begin_release(), None);
}

#[test]
fn allocator_issues_distinct_ids_and_never_reuses() {
    let mut a = DeviceIdAllocator::new();
    let first = a.allocate();
    let second = a.allocate();
    assert_ne!(first, second);
    assert!(a.contains(first));
    assert!(a.contains(second));
    a.release(first);
    assert!(!a.contains(first));
    // Monotonic counter: a released identifier is not handed out again.
    let third = a.allocate();
    assert_ne!(third, first);
    assert_ne!(third, second);
    assert_eq!((first, second, third), (0, 1, 2));
}

#[test]
fn allocator_release_of_unknown_id_is_a_no_op() {
    let mut a = DeviceIdAllocator::new();
    let id = a.allocate();
    a.release(77);
    a.release(77);
    assert!(a.contains(id));
}

#[test]
fn parse_reads_trimmed_decimal_text() {
    assert_eq!(parse_u64(&b"2097152\n".to_vec()), Some(2097152));
    assert_eq!(parse_u64(&b"  42\t\r\n".to_vec()), Some(42));
    assert_eq!(parse_u64(&b"0007".to_vec()), Some(7));
    assert_eq!(parse_u64(&b"0".to_vec()), Some(0));
    assert_eq!(parse_u64(&b"18446744073709551615".to_vec()), Some(u64::MAX));
}

#[test]
fn parse_rejects_empty_junk_and_overflow() {
    assert_eq!(parse_u64(&b"".to_vec()), None);
    assert_eq!(parse_u64(&b"   \n".to_vec()), None);
    assert_eq!(parse_u64(&b"12a3".to_vec()), None);
    assert_eq!(parse_u64(&b"-5".to_vec()), None);
    assert_eq!(parse_u64(&b"4 2".to_vec()), None);
    assert_eq!(parse_u64(&b"18446744073709551616".to_vec()), None);
}

#[test]
fn unit_conversions_use_512_byte_sectors() {
    assert_eq!(mb_to_bytes(100), 104857600);
    assert_eq!(mb_to_bytes(1024), 1073741824);
    assert_eq!(mb_to_sectors(1024), 2097152);
    assert_eq!(mb_to_sectors(500), 1024000);
    assert_eq!(bytes_to_sectors(1073741824), 2097152);
    assert_eq!(bytes_to_sectors(1023), 1);
    assert_eq!(bytes_to_sectors(511), 0);
}

#[test]
fn metadata_plan_divides_sectors_into_blocks() {
    // 1024 MB of data, 1 MiB blocks (2048 sectors): 1024 blocks.
    assert_eq!(
        plan_empty_pool(1073741824, 2048),
        PoolMetadataPlan {
            data_block_size_sectors: 2048,
            nr_data_blocks: 1024
        }
    );
    // A remainder is dropped: usable capacity is block-aligned.
    assert_eq!(plan_empty_pool(3 * 1024 * 512, 2048).nr_data_blocks, 1);
    assert_eq!(plan_empty_pool(1536 * 512, 2048).nr_data_blocks, 0);
}

#[test]
fn metadata_outcomes_map_to_format_and_write_errors() {
    assert!(initialize_result(&MetadataOutcome::Written).is_ok());
    assert_eq!(
        initialize_result(&MetadataOutcome::DescriptionRejected).unwrap_err(),
        LifecycleError::MetadataFormat
    );
    assert_eq!(
        initialize_result(&MetadataOutcome::WriteFailed).unwrap_err(),
        LifecycleError::MetadataWrite
    );
}
