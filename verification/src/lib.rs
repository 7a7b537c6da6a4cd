//! Block-device configuration and construction for a virtual machine
//! monitor's device model.
//!
//! The crate turns one declarative [`config::BlockDeviceConfig`] into one
//! constructed device and keeps the ordered registry of every device
//! configured for a boot pass.  Construction itself — opening the backing
//! store, running the device's I/O — belongs to the device engine, an
//! external collaborator; this crate models the engine's construction entry
//! points and receives the engine's report on acquiring the backing resource
//! as a plain value.

pub mod builder;
pub mod config;
pub mod device;

pub use builder::BlockBuilder;
pub use config::{
    BlockConfigError, BlockDeviceConfig, CacheType, CustomIoOptions, DeviceKind, EngineError,
    EngineErrorKind, ImageType, PreopenedBacking,
};
pub use device::{BackingKind, Block};
