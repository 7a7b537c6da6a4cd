//! The constructed block device, as this crate sees it, and the modelled
//! construction entry points of the device engine.
//!
//! The engine owns the device's I/O; what this crate can state about a
//! constructed device is exactly the construction parameters the engine was
//! given.  Acquiring the backing resource (opening the image file, binding
//! the custom I/O channel) is outside work: each entry point takes the
//! engine's report on it as a plain `Result` and is verified for every value
//! of that report.

use vstd::prelude::*;

use crate::config::{
    BlockDeviceConfig, CacheType, CustomIoOptions, DeviceKind, EngineError, ImageType,
    PreopenedBacking,
};
use std::sync::Arc;
use std::sync::Mutex;

verus! {

/// The backing store a device was constructed on.
#[derive(Clone, Debug)]
pub enum BackingKind {
    /// Backed by a disk-image file.
    FileBacked {
        /// Path of the disk image on the host.
        path: String,
        /// Format of the disk image.
        format: ImageType,
    },
    /// Backed by the engine's custom I/O channel.
    CustomIo {
        /// The options bundle the channel was set up with.
        options: CustomIoOptions,
    },
}

/// One constructed block device.  The engine records the parameters the
/// construction was invoked with; everything else about the device lives in
/// the engine.
#[derive(Debug)]
pub struct Block {
    /// Identifier under which the guest will see the device.
    pub id: String,
    /// The pre-opened backing resource the construction was handed, if any.
    /// Constructions requested through this crate always record `None`.
    pub preopened: Option<PreopenedBacking>,
    /// Caching policy the device was constructed with.
    pub cache_type: CacheType,
    /// Whether the device is read-only for the guest.
    pub read_only: bool,
    /// Which backing store the device was constructed on.
    pub backing: BackingKind,
}

impl Block {
    /// The device that the file-backed construction path yields for the
    /// given parameters, once the backing resource is acquired.
    pub open spec fn file_device(
        id: String,
        preopened: Option<PreopenedBacking>,
        cache_type: CacheType,
        path: String,
        format: ImageType,
        read_only: bool,
    ) -> Block {
        Block {
            id,
            preopened,
            cache_type,
            read_only,
            backing: BackingKind::FileBacked { path, format },
        }
    }

    /// The device that the custom-I/O construction path yields for the
    /// given parameters, once the I/O channel is bound.
    pub open spec fn custom_io_device(
        id: String,
        preopened: Option<PreopenedBacking>,
        cache_type: CacheType,
        options: CustomIoOptions,
        read_only: bool,
    ) -> Block {
        Block {
            id,
            preopened,
            cache_type,
            read_only,
            backing: BackingKind::CustomIo { options },
        }
    }

    /// The device that a successful construction yields for a configuration:
    /// the file-backed path for a `File` configuration, the custom-I/O path
    /// for a `CustomIO` one, in both cases with no pre-opened backing
    /// resource and the configuration's identifier, cache policy and
    /// read-only flag.
    pub open spec fn device_for(config: BlockDeviceConfig) -> Block {
        match config.device {
            DeviceKind::File { disk_image_path, disk_image_format } => Block::file_device(
                config.block_id,
                None,
                config.cache_type,
                disk_image_path,
                disk_image_format,
                config.is_disk_read_only,
            ),
            DeviceKind::CustomIO(options) => Block::custom_io_device(
                config.block_id,
                None,
                config.cache_type,
                options,
                config.is_disk_read_only,
            ),
        }
    }

    /// File-backed construction entry point of the device engine, as
    /// modelled here.  `backing` is the engine's report on opening the disk
    /// image at `path`: with it acquired the constructed device records
    /// exactly the given parameters, and any failure is returned to the
    /// caller unchanged.
    pub fn from_file(
        id: String,
        preopened: Option<PreopenedBacking>,
        cache_type: CacheType,
        path: String,
        format: ImageType,
        read_only: bool,
        backing: Result<(), EngineError>,
    ) -> (r: Result<Block, EngineError>)
        ensures
            backing is Ok ==> r == Ok::<Block, EngineError>(
                Block::file_device(id, preopened, cache_type, path, format, read_only),
            ),
            backing matches Err(cause) ==> r == Err::<Block, EngineError>(cause),
    {
        match backing {
            Ok(()) => Ok(Block {
                id,
                preopened,
                cache_type,
                read_only,
                backing: BackingKind::FileBacked { path, format },
            }),
            Err(cause) => Err(cause),
        }
    }

    /// Custom-I/O construction entry point of the device engine, as
    /// modelled here.  `backing` is the engine's report on binding the I/O
    /// channel described by `options`: with it bound the constructed device
    /// records exactly the given parameters, and any failure is returned to
    /// the caller unchanged.
    pub fn from_custom_io(
        id: String,
        preopened: Option<PreopenedBacking>,
        cache_type: CacheType,
        options: CustomIoOptions,
        read_only: bool,
        backing: Result<(), EngineError>,
    ) -> (r: Result<Block, EngineError>)
        ensures
            backing is Ok ==> r == Ok::<Block, EngineError>(
                Block::custom_io_device(id, preopened, cache_type, options, read_only),
            ),
            backing matches Err(cause) ==> r == Err::<Block, EngineError>(cause),
    {
        match backing {
            Ok(()) => Ok(Block {
                id,
                preopened,
                cache_type,
                read_only,
                backing: BackingKind::CustomIo { options },
            }),
            Err(cause) => Err(cause),
        }
    }
}

/// The device a lock guards.
pub uninterp spec fn guarded(m: Mutex<Block>) -> Block;

#[verifier::external_type_specification]
#[verifier::external_body]
#[verifier::reject_recursive_types(T)]
pub struct ExMutex<T: ?Sized>(Mutex<T>);

/// Relies on `std::sync::Mutex::new`: the new mutex is unlocked and guards
/// exactly the value it was given.
#[verifier::external_body]
pub(crate) fn new_device_lock(device: Block) -> (m: Mutex<Block>)
    ensures
        guarded(m) == device,
{
    Mutex::new(device)
}

/// Wraps a freshly constructed device in a shared, lock-guarded handle, so
/// that the registry's consumer and the engine's I/O thread can later share
/// it.
pub fn share_device(device: Block) -> (h: Arc<Mutex<Block>>)
    ensures
        guarded(*h) == device,
{
    Arc::new(new_device_lock(device))
}

} // verus!
