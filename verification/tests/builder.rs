//! Behaviour of the registry: appending, failure handling, order and
//! determinism.

use block_config::{
    BackingKind, BlockBuilder, BlockConfigError, BlockDeviceConfig, CacheType, CustomIoOptions,
    DeviceKind, EngineError, EngineErrorKind, ImageType,
};

fn file_config(id: &str, path: &str) -> BlockDeviceConfig {
    BlockDeviceConfig {
        block_id: id.to_string(),
        cache_type: CacheType::Writeback,
        device: DeviceKind::File {
            disk_image_path: path.to_string(),
            disk_image_format: ImageType::Raw,
        },
        is_disk_read_only: true,
    }
}

fn custom_io_config(id: &str, raw: Vec<u8>) -> BlockDeviceConfig {
    BlockDeviceConfig {
        block_id: id.to_string(),
        cache_type: CacheType::Unbuffered,
        device: DeviceKind::CustomIO(CustomIoOptions { raw }),
        is_disk_read_only: false,
    }
}

fn backing_acquired() -> Result<(), EngineError> {
    Ok(())
}

fn backing_missing() -> Result<(), EngineError> {
    Err(EngineError {
        kind: EngineErrorKind::NotFound,
        message: "No such file or directory".to_string(),
    })
}

fn id_at(builder: &BlockBuilder, i: usize) -> String {
    builder.list[i].lock().unwrap().id.clone()
}

#[test]
fn new_registry_is_empty() {
    let builder = BlockBuilder::new();
    assert_eq!(builder.list.len(), 0);
}

#[test]
fn default_registry_is_empty() {
    let builder = BlockBuilder::default();
    assert_eq!(builder.list.len(), 0);
}

#[test]
fn successful_insert_appends_one() {
    let mut builder = BlockBuilder::new();
    let r = builder.insert(file_config("disk0", "/img/a.raw"), backing_acquired());
    assert!(r.is_ok());
    assert_eq!(builder.list.len(), 1);
    assert_eq!(id_at(&builder, 0), "disk0");

    let r = builder.insert(file_config("disk1", "/img/b.raw"), backing_acquired());
    assert!(r.is_ok());
    assert_eq!(builder.list.len(), 2);
    // Prior entry unchanged, new handle at the tail.
    assert_eq!(id_at(&builder, 0), "disk0");
    assert_eq!(id_at(&builder, 1), "disk1");
}

#[test]
fn failing_insert_leaves_registry_unchanged() {
    let mut builder = BlockBuilder::new();
    builder
        .insert(file_config("disk0", "/img/a.raw"), backing_acquired())
        .unwrap();

    let r = builder.insert(file_config("disk1", "/img/b.raw"), backing_missing());
    match r {
        Err(BlockConfigError::CreateBlockDevice(cause)) => {
            assert_eq!(cause.kind, EngineErrorKind::NotFound);
            assert_eq!(cause.message, "No such file or directory");
        }
        Ok(()) => panic!("a failed construction must not be reported as success"),
    }
    assert_eq!(builder.list.len(), 1);
    assert_eq!(id_at(&builder, 0), "disk0");
}

#[test]
fn insertion_order_is_call_order() {
    let mut builder = BlockBuilder::new();
    builder
        .insert(file_config("a", "/img/a.raw"), backing_acquired())
        .unwrap();
    builder
        .insert(custom_io_config("b", vec![7, 7, 7]), backing_acquired())
        .unwrap();
    builder
        .insert(file_config("c", "/img/c.raw"), backing_acquired())
        .unwrap();
    assert_eq!(builder.list.len(), 3);
    assert_eq!(id_at(&builder, 0), "a");
    assert_eq!(id_at(&builder, 1), "b");
    assert_eq!(id_at(&builder, 2), "c");
}

#[test]
fn identical_config_sequences_build_identical_registries() {
    let configs = vec![
        file_config("root", "/img/root.ext4"),
        custom_io_config("scratch", vec![1, 2]),
        file_config("data", "/img/data.raw"),
    ];
    let mut first = BlockBuilder::new();
    let mut second = BlockBuilder::new();
    for config in &configs {
        first.insert(config.clone(), backing_acquired()).unwrap();
        second.insert(config.clone(), backing_acquired()).unwrap();
    }
    assert_eq!(first.list.len(), second.list.len());
    for i in 0..first.list.len() {
        assert_eq!(id_at(&first, i), id_at(&second, i));
    }
}

#[test]
fn example_rootfs_succeeds() {
    let config = BlockDeviceConfig {
        block_id: "rootfs".to_string(),
        cache_type: CacheType::Writeback,
        device: DeviceKind::File {
            disk_image_path: "/img/root.ext4".to_string(),
            disk_image_format: ImageType::Raw,
        },
        is_disk_read_only: true,
    };
    let mut builder = BlockBuilder::new();
    // The backing file exists and is readable: the engine reports success.
    let r = builder.insert(config, backing_acquired());
    assert!(r.is_ok());
    assert_eq!(builder.list.len(), 1);
    assert_eq!(id_at(&builder, 0), "rootfs");
}

#[test]
fn example_nonexistent_path_fails() {
    let config = BlockDeviceConfig {
        block_id: "rootfs".to_string(),
        cache_type: CacheType::Writeback,
        device: DeviceKind::File {
            disk_image_path: "/nonexistent".to_string(),
            disk_image_format: ImageType::Raw,
        },
        is_disk_read_only: true,
    };
    let mut builder = BlockBuilder::new();
    // The backing file does not exist: the engine reports a not-found cause.
    let r = builder.insert(config, backing_missing());
    match r {
        Err(BlockConfigError::CreateBlockDevice(cause)) => {
            assert_eq!(cause.kind, EngineErrorKind::NotFound);
        }
        Ok(()) => panic!("construction on a missing backing file must fail"),
    }
    assert_eq!(builder.list.len(), 0);
}

#[test]
fn duplicate_block_ids_are_accepted() {
    let mut builder = BlockBuilder::new();
    let r = builder.insert(file_config("twin", "/img/a.raw"), backing_acquired());
    assert!(r.is_ok());
    let r = builder.insert(file_config("twin", "/img/b.raw"), backing_acquired());
    assert!(r.is_ok());
    assert_eq!(builder.list.len(), 2);
    assert_eq!(id_at(&builder, 0), "twin");
    assert_eq!(id_at(&builder, 1), "twin");
}

#[test]
fn handle_guards_the_inserted_device() {
    let mut builder = BlockBuilder::new();
    builder
        .insert(file_config("disk0", "/img/a.raw"), backing_acquired())
        .unwrap();
    let device = builder.list[0].lock().unwrap();
    assert_eq!(device.id, "disk0");
    assert!(device.preopened.is_none());
    assert_eq!(device.cache_type, CacheType::Writeback);
    assert!(device.read_only);
    match &device.backing {
        BackingKind::FileBacked { path, format } => {
            assert_eq!(path, "/img/a.raw");
            assert_eq!(*format, ImageType::Raw);
        }
        BackingKind::CustomIo { .. } => panic!("a file config must yield a file-backed device"),
    }
}

#[test]
fn handles_are_shareable_across_threads() {
    let mut builder = BlockBuilder::new();
    builder
        .insert(file_config("disk0", "/img/a.raw"), backing_acquired())
        .unwrap();
    // A second holder of the same handle sees the same device.
    let other = builder.list[0].clone();
    assert_eq!(other.lock().unwrap().id, "disk0");
    assert_eq!(id_at(&builder, 0), "disk0");
}

#[test]
fn create_block_maps_the_cause_unchanged() {
    let cause = EngineError {
        kind: EngineErrorKind::PermissionDenied,
        message: "read-write open refused".to_string(),
    };
    let r = BlockBuilder::create_block(file_config("disk0", "/img/a.raw"), Err(cause));
    match r {
        Err(BlockConfigError::CreateBlockDevice(e)) => {
            assert_eq!(e.kind, EngineErrorKind::PermissionDenied);
            assert_eq!(e.message, "read-write open refused");
        }
        Ok(_) => panic!("a failed backing acquisition must fail construction"),
    }
}
