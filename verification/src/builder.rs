//! The ordered registry of configured block devices.

use vstd::prelude::*;

use crate::config::{BlockConfigError, BlockDeviceConfig, DeviceKind, EngineError};
use crate::device::{guarded, share_device, Block};
use std::collections::VecDeque;
use std::sync::Arc;
use std::sync::Mutex;

verus! {

/// Ordered registry of the block devices configured for one boot pass.
///
/// The registry is append-only: entries stand in insertion-call order and
/// nothing removes one.  Each entry is a shared, lock-guarded handle to one
/// constructed device.
pub struct BlockBuilder {
    /// The configured devices, oldest first.
    pub list: VecDeque<Arc<Mutex<Block>>>,
}

impl View for BlockBuilder {
    type V = Seq<Block>;

    /// The registry as the sequence of devices its handles guard, in
    /// insertion order.
    open spec fn view(&self) -> Seq<Block> {
        self.list@.map_values(|h: Arc<Mutex<Block>>| guarded(*h))
    }
}

impl BlockBuilder {
    /// Returns an empty registry.
    pub fn new() -> (r: BlockBuilder)
        ensures
            r@ == Seq::<Block>::empty(),
    {
        let r = BlockBuilder { list: VecDeque::<Arc<Mutex<Block>>>::new() };
        proof {
            assert(r@ =~= Seq::<Block>::empty());
        }
        r
    }

    /// Constructs one device from `config`: the sole dispatch point.
    ///
    /// Exactly one construction path runs per call — the file-backed one
    /// for a `File` configuration, the custom-I/O one for a `CustomIO`
    /// configuration — with the configuration's identifier, cache policy,
    /// backend parameters and read-only flag, and no pre-opened backing
    /// resource.  `backing` is the engine's report on acquiring the backing
    /// resource: with it acquired the call returns the constructed device;
    /// any failure is wrapped as [`BlockConfigError::CreateBlockDevice`]
    /// with the cause unchanged.  There is no fallback between backends and
    /// no retry.
    pub fn create_block(config: BlockDeviceConfig, backing: Result<(), EngineError>) -> (r:
        Result<Block, BlockConfigError>)
        ensures
            backing is Ok ==> r == Ok::<Block, BlockConfigError>(Block::device_for(config)),
            backing matches Err(cause) ==> r == Err::<Block, BlockConfigError>(
                BlockConfigError::CreateBlockDevice(cause),
            ),
    {
        let constructed = match config.device {
            DeviceKind::File { disk_image_path, disk_image_format } => Block::from_file(
                config.block_id,
                None,
                config.cache_type,
                disk_image_path,
                disk_image_format,
                config.is_disk_read_only,
                backing,
            ),
            DeviceKind::CustomIO(options) => Block::from_custom_io(
                config.block_id,
                None,
                config.cache_type,
                options,
                config.is_disk_read_only,
                backing,
            ),
        };
        match constructed {
            Ok(device) => Ok(device),
            Err(cause) => Err(BlockConfigError::CreateBlockDevice(cause)),
        }
    }

    /// Constructs a device from `config` and appends it to the registry.
    ///
    /// On success the new device's handle stands at the tail and every
    /// prior entry is unchanged, in its old position; the call returns
    /// `Ok`.  On failure the registry is left exactly as it was and the
    /// construction error is returned unchanged.  `backing` is the
    /// engine's report on acquiring the backing resource, as in
    /// [`BlockBuilder::create_block`].
    pub fn insert(&mut self, config: BlockDeviceConfig, backing: Result<(), EngineError>) -> (r:
        Result<(), BlockConfigError>)
        ensures
            backing is Ok ==> r == Ok::<(), BlockConfigError>(()) && final(self)@ == old(
                self,
            )@.push(Block::device_for(config)),
            backing matches Err(cause) ==> final(self)@ == old(self)@ && r == Err::<
                (),
                BlockConfigError,
            >(BlockConfigError::CreateBlockDevice(cause)),
    {
        let device = match Self::create_block(config, backing) {
            Ok(device) => device,
            Err(e) => {
                return Err(e);
            },
        };
        let ghost dev = device;
        let handle = share_device(device);
        self.list.push_back(handle);
        proof {
            assert(self@ =~= old(self)@.push(dev));
        }
        Ok(())
    }
}

impl Default for BlockBuilder {
    /// Returns an empty registry, as [`BlockBuilder::new`] does.
    fn default() -> (r: BlockBuilder)
        ensures
            r@ == Seq::<Block>::empty(),
    {
        BlockBuilder::new()
    }
}

/// Successful insertions append in call order and in that order only:
/// whatever the three configurations' field values, a registry that held
/// `pre` and then received successful insertions for `a`, `b` and `c`, in
/// that order, holds exactly `pre` followed by the three devices those
/// configurations construct, in that order.
pub proof fn lemma_insertion_order(
    pre: Seq<Block>,
    a: BlockDeviceConfig,
    b: BlockDeviceConfig,
    c: BlockDeviceConfig,
)
    ensures
        pre.push(Block::device_for(a)).push(Block::device_for(b)).push(Block::device_for(c)) =~= pre
            + seq![Block::device_for(a), Block::device_for(b), Block::device_for(c)],
{
}

/// Determinism: two registries that received, in order, successful
/// insertions for the same sequence of configurations hold equally many
/// devices, and at every position the devices carry equal identifiers.
///
/// The hypotheses are exactly what [`BlockBuilder::insert`] ensures of a
/// registry grown from empty by successful insertions for `configs`.
pub proof fn lemma_deterministic(configs: Seq<BlockDeviceConfig>, devs1: Seq<Block>, devs2: Seq<
    Block,
>)
    requires
        devs1.len() == configs.len(),
        devs2.len() == configs.len(),
        forall|i: int| 0 <= i < configs.len() ==> devs1[i] == Block::device_for(configs[i]),
        forall|i: int| 0 <= i < configs.len() ==> devs2[i] == Block::device_for(configs[i]),
    ensures
        devs1.len() == devs2.len(),
        forall|i: int| 0 <= i < devs1.len() ==> devs1[i].id == devs2[i].id,
{
}

} // verus!
