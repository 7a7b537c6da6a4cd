//! Configuration values describing one desired block device, and the error
//! returned when constructing that device fails.

use vstd::prelude::*;

verus! {

/// Caching policy for a block device.  The policy's semantics belong to the
/// device engine; this crate only carries the chosen value through.
#[derive(Clone, Copy, Debug, PartialEq, Eq, Structural)]
pub enum CacheType {
    /// Writes reach the backing store unbuffered.
    Unbuffered,
    /// Writes may sit in a host-side cache until flushed.
    Writeback,
}

/// On-disk format of a disk image.  Parsing the format belongs to the device
/// engine; this crate only carries the chosen value through.
#[derive(Clone, Copy, Debug, PartialEq, Eq, Structural)]
pub enum ImageType {
    /// A flat byte-for-byte image.
    Raw,
    /// A qcow2 image.
    Qcow2,
}

/// Options bundle for the engine's custom-I/O backend.  Its contents are
/// interpreted by the engine alone; this crate passes the bundle through
/// unchanged.
#[derive(Clone, Debug)]
pub struct CustomIoOptions {
    /// Engine-interpreted option bytes.
    pub raw: Vec<u8>,
}

/// A backing resource that a caller opened ahead of construction.  This
/// crate never supplies one: every construction it requests opens its own
/// backing resource afresh.
#[derive(Clone, Copy, Debug, PartialEq, Eq, Structural)]
pub struct PreopenedBacking {
    /// The engine's descriptor for the already-open resource.
    pub descriptor: u64,
}

/// Which backend a desired block device should use.
#[derive(Clone, Debug)]
pub enum DeviceKind {
    /// A device backed by a disk-image file.
    File {
        /// Path of the disk image on the host.
        disk_image_path: String,
        /// Format of the disk image.
        disk_image_format: ImageType,
    },
    /// A device backed by the engine's custom I/O channel.  The capability
    /// exists only on platforms whose engine offers it.
    CustomIO(CustomIoOptions),
}

/// Declarative description of one desired block device.
#[derive(Clone, Debug)]
pub struct BlockDeviceConfig {
    /// Identifier under which the guest will see the device.  Uniqueness
    /// within one registry is not enforced here.
    pub block_id: String,
    /// Caching policy handed to the engine.
    pub cache_type: CacheType,
    /// Which backend to construct the device on.
    pub device: DeviceKind,
    /// Whether the guest sees the disk read-only.
    pub is_disk_read_only: bool,
}

/// What kind of failure the device engine reported.
#[derive(Clone, Copy, Debug, PartialEq, Eq, Structural)]
pub enum EngineErrorKind {
    /// The backing resource does not exist.
    NotFound,
    /// The backing resource exists but may not be opened as asked.
    PermissionDenied,
    /// The platform or engine lacks the requested capability.
    Unsupported,
    /// Any other engine-side failure.
    Other,
}

/// Failure cause reported by the device engine, carried through to the
/// caller unchanged for diagnostics.
#[derive(Clone, Debug)]
pub struct EngineError {
    /// What kind of failure occurred.
    pub kind: EngineErrorKind,
    /// The engine's description of the failure.
    pub message: String,
}

/// Error returned when configuring one block device fails.  All
/// construction failures are equally fatal to that one device: there is a
/// single kind and no retry.
#[derive(Clone, Debug)]
pub enum BlockConfigError {
    /// The device engine failed to construct the device; the underlying
    /// cause is carried unchanged.
    CreateBlockDevice(EngineError),
}

} // verus!
