//! Remote storage: the keys that name a block there, descriptors of blocks to
//! move, and the shape of a transfer.
//!
//! - [`RemoteKey`]: key for remote storage (object or disk)
//! - [`RemoteBlockDescriptor`]: a block in remote storage
//! - [`RemoteTransferPipeline`]: the way that blocks take
//! - [`RemoteTransferHandle`]: a running transfer
use std::collections::hash_map::DefaultHasher;
use std::hash::Hasher;

use vstd::prelude::*;
use vstd::std_specs::hash::DefaultHasherAdditionalSpecFns;
use vstd::string::StringExecFns;

use crate::text;
use crate::transfer::TransferError;

verus! {

/// Kind of remote storage.
#[derive(Debug, Clone, Copy, PartialEq, Eq, Hash, Structural)]
pub enum RemoteStorageKind {
    Object,
    Disk,
}

/// A key that identifies a block in remote storage.
#[derive(Debug, PartialEq, Eq, Hash)]
pub enum RemoteKey {
    /// Object storage (S3, GCS, Azure Blob, MinIO, etc.)
    Object(ObjectKey),
    /// Remote disk (NFS, distributed filesystem, remote NVMe)
    Disk(DiskKey),
}

/// Key for object storage: bucket and object identifier.
#[derive(Debug, PartialEq, Eq, Hash)]
pub struct ObjectKey {
    /// Bucket/container name
    pub bucket: String,
    /// Object key/path within bucket
    pub key: String,
}

/// Key for remote disk storage: path and identifier.
#[derive(Debug, PartialEq, Eq, Hash)]
pub struct DiskKey {
    /// Base path (mount point, share path, etc.)
    pub path: String,
    /// Block identifier within the path (could be filename, offset, etc.)
    pub key: String,
}

/// The text of a sequence hash in a key: sixteen lower-case hexadecimal digits.
pub open spec fn hash_text(hash: u64) -> Seq<char> {
    text::hex_numeral(hash as nat, 16)
}

impl Clone for ObjectKey {
    fn clone(&self) -> (copy: Self)
        ensures
            copy == *self,
    {
        ObjectKey { bucket: self.bucket.clone(), key: self.key.clone() }
    }
}

impl ObjectKey {
    /// Create a new object key.
    pub fn new(bucket: &str, key: &str) -> (object: Self)
        ensures
            object.bucket@ == bucket@,
            object.key@ == key@,
    {
        ObjectKey { bucket: bucket.to_owned(), key: key.to_owned() }
    }

    /// Create from sequence hash (the hash as a hex string).
    pub fn from_hash(bucket: &str, hash: u64) -> (object: Self)
        ensures
            object.bucket@ == bucket@,
            object.key@ == hash_text(hash),
    {
        ObjectKey { bucket: bucket.to_owned(), key: text::hex_text(hash) }
    }

    /// Get the hash if this key was created from a hash.
    pub fn as_hash(&self) -> (hash: Option<u64>)
        ensures
            hash == text::hex_u64(self.key@),
    {
        text::parse_hex(self.key.as_str())
    }
}

impl Clone for DiskKey {
    fn clone(&self) -> (copy: Self)
        ensures
            copy == *self,
    {
        DiskKey { path: self.path.clone(), key: self.key.clone() }
    }
}

impl DiskKey {
    /// Create a new disk key.
    pub fn new(path: &str, key: &str) -> (disk: Self)
        ensures
            disk.path@ == path@,
            disk.key@ == key@,
    {
        DiskKey { path: path.to_owned(), key: key.to_owned() }
    }

    /// Create from sequence hash.
    pub fn from_hash(path: &str, hash: u64) -> (disk: Self)
        ensures
            disk.path@ == path@,
            disk.key@ == hash_text(hash),
    {
        DiskKey { path: path.to_owned(), key: text::hex_text(hash) }
    }

    /// Get full path (path + key).
    pub fn full_path(&self) -> (full: String)
        ensures
            full@ == self.path@ + seq!['/'] + self.key@,
    {
        proof {
            reveal_strlit("/");
        }
        assert("/"@ =~= seq!['/']);
        let mut full = self.path.clone();
        full.append("/");
        full.append(self.key.as_str());
        full
    }
}

impl Clone for RemoteKey {
    fn clone(&self) -> (copy: Self)
        ensures
            copy == *self,
    {
        match self {
            RemoteKey::Object(object) => RemoteKey::Object(object.clone()),
            RemoteKey::Disk(disk) => RemoteKey::Disk(disk.clone()),
        }
    }
}

impl RemoteKey {
    /// The storage kind of the key.
    pub open spec fn storage_kind(self) -> RemoteStorageKind {
        match self {
            RemoteKey::Object(_) => RemoteStorageKind::Object,
            RemoteKey::Disk(_) => RemoteStorageKind::Disk,
        }
    }

    /// What is fed to the hasher, write by write: the number of the variant as the
    /// bytes of a pointer-sized integer, the lowest first, then the two strings, each
    /// followed by a byte that no string holds. On a machine that stores integers in
    /// this order, the derived `Hash` feeds the same.
    pub open spec fn hashed_bytes(self) -> Seq<Seq<u8>> {
        let (tag, first, second) = match self {
            RemoteKey::Object(object) => (0u8, object.bucket@, object.key@),
            RemoteKey::Disk(disk) => (1u8, disk.path@, disk.key@),
        };
        seq![
            if usize::BITS == 32 {
                seq![tag, 0, 0, 0]
            } else {
                seq![tag, 0, 0, 0, 0, 0, 0, 0]
            },
            vstd::utf8::encode_utf8(first),
            seq![0xffu8],
            vstd::utf8::encode_utf8(second),
            seq![0xffu8],
        ]
    }

    /// The hash of the key.
    pub open spec fn device_id(self) -> u64 {
        DefaultHasher::spec_finish(self.hashed_bytes())
    }

    /// Get the storage kind.
    pub fn kind(&self) -> (kind: RemoteStorageKind)
        ensures
            kind == self.storage_kind(),
    {
        match self {
            RemoteKey::Object(_) => RemoteStorageKind::Object,
            RemoteKey::Disk(_) => RemoteStorageKind::Disk,
        }
    }

    /// Hash of the key, for use as the device id in NIXL descriptors.
    pub fn nixl_device_id(&self) -> (id: u64)
        ensures
            id == self.device_id(),
    {
        let (tag, first, second): (u8, &str, &str) = match self {
            RemoteKey::Object(object) => (0u8, object.bucket.as_str(), object.key.as_str()),
            RemoteKey::Disk(disk) => (1u8, disk.path.as_str(), disk.key.as_str()),
        };
        let end: [u8; 1] = [0xff];
        let mut hasher = DefaultHasher::new();
        if usize::BITS == 32 {
            let variant: [u8; 4] = [tag, 0, 0, 0];
            hasher.write(&variant);
        } else {
            let variant: [u8; 8] = [tag, 0, 0, 0, 0, 0, 0, 0];
            hasher.write(&variant);
        }
        hasher.write(first.as_bytes());
        hasher.write(&end);
        hasher.write(second.as_bytes());
        hasher.write(&end);
        assert(hasher@ =~~= self.hashed_bytes());
        hasher.finish()
    }

    /// Create object key.
    pub fn object(bucket: &str, key: &str) -> (remote: Self)
        ensures
            remote matches RemoteKey::Object(object) && object.bucket@ == bucket@ && object.key@
                == key@,
    {
        RemoteKey::Object(ObjectKey::new(bucket, key))
    }

    /// Create disk key.
    pub fn disk(path: &str, key: &str) -> (remote: Self)
        ensures
            remote matches RemoteKey::Disk(disk) && disk.path@ == path@ && disk.key@ == key@,
    {
        RemoteKey::Disk(DiskKey::new(path, key))
    }

    /// The sequence hash that the identifier of an object key spells.
    pub open spec fn spelled_hash(self) -> Option<u64> {
        match self {
            RemoteKey::Object(object) => text::hex_u64(object.key@),
            RemoteKey::Disk(_) => None,
        }
    }

    /// Get the sequence hash if this is an object key created from a hash.
    pub fn sequence_hash(&self) -> (hash: Option<u64>)
        ensures
            hash == self.spelled_hash(),
    {
        match self {
            RemoteKey::Object(object) => object.as_hash(),
            RemoteKey::Disk(_) => None,
        }
    }
}

/// An object key made from a hash gives the hash back.
pub proof fn a_key_made_from_a_hash_gives_it_back(key: RemoteKey, hash: u64)
    requires
        key matches RemoteKey::Object(object) && object.key@ == hash_text(hash),
    ensures
        key.spelled_hash() == Some(hash),
{
    text::hex_text_round_trips(hash);
}

/// Different hashes give different key texts.
pub proof fn different_hashes_have_different_texts(a: u64, b: u64)
    ensures
        hash_text(a) == hash_text(b) ==> a == b,
        hash_text(a).len() == 16,
{
    text::hex_text_round_trips(a);
    text::hex_text_round_trips(b);
    text::hex_numeral_denotes_its_number(a as nat, 16);
}

/// Core metadata of a remote block, as kept in the registry.
#[derive(Debug, Clone, Copy)]
pub struct RemoteBlockMetadata {
    /// Sequence hash, the primary lookup key
    pub sequence_hash: u64,
    /// Timestamp when block was stored (Unix millis)
    pub stored_at: u64,
}

/// Calls `std::time::SystemTime::elapsed` on the Unix epoch: the milliseconds
/// since then, or nothing when the clock stands before it. What the clock says is
/// left open.
#[verifier::external_body]
fn millis_since_unix_epoch() -> (millis: Option<u128>) {
    match std::time::SystemTime::UNIX_EPOCH.elapsed() {
        Ok(since) => Some(since.as_millis()),
        Err(_) => None,
    }
}

/// Whether the clock can say, when it is asked, that so many milliseconds have
/// passed since the Unix epoch, or that it stands before the epoch.
pub closed spec fn clock_says(clock: Option<u128>) -> bool {
    call_ensures(millis_since_unix_epoch, (), clock)
}

impl RemoteBlockMetadata {
    /// Create new metadata with current timestamp.
    pub fn new(sequence_hash: u64) -> (metadata: Self)
        ensures
            metadata.sequence_hash == sequence_hash,
            exists|clock: Option<u128>|
                clock_says(clock) && metadata.stored_at == #[trigger] Self::timestamp(clock),
    {
        let clock = millis_since_unix_epoch();
        Self::stored_when(sequence_hash, clock)
    }

    /// The timestamp for a reading of the clock: the milliseconds since the Unix
    /// epoch, and zero before it.
    pub open spec fn timestamp(clock: Option<u128>) -> u64 {
        match clock {
            Some(millis) => millis as u64,
            None => 0,
        }
    }

    /// Create metadata for a reading of the clock.
    pub fn stored_when(sequence_hash: u64, clock: Option<u128>) -> (metadata: Self)
        ensures
            metadata.sequence_hash == sequence_hash,
            metadata.stored_at == Self::timestamp(clock),
    {
        let stored_at: u64 = match clock {
            Some(millis) => #[verifier::truncate] (millis as u64),
            None => 0,
        };
        RemoteBlockMetadata { sequence_hash, stored_at }
    }

    /// Create metadata with explicit timestamp.
    pub fn with_timestamp(sequence_hash: u64, stored_at: u64) -> (metadata: Self)
        ensures
            metadata.sequence_hash == sequence_hash,
            metadata.stored_at == stored_at,
    {
        RemoteBlockMetadata { sequence_hash, stored_at }
    }
}

/// Descriptor for a block in remote storage.
///
/// Unlike local blocks which have memory addresses, remote blocks
/// are identified by keys. The descriptor holds both the key
/// and the size needed for transfers.
#[derive(Debug)]
pub struct RemoteBlockDescriptor {
    key: RemoteKey,
    size: usize,
    metadata: Option<RemoteBlockMetadata>,
}

/// The content of a [`RemoteBlockDescriptor`].
pub struct DescriptorView {
    /// Key identifying the block in remote storage
    pub key: RemoteKey,
    /// Size of the block in bytes
    pub size: usize,
    /// Metadata, if known
    pub metadata: Option<RemoteBlockMetadata>,
}

impl DescriptorView {
    /// The sequence hash in the metadata.
    pub open spec fn sequence_hash(self) -> Option<u64> {
        match self.metadata {
            Some(metadata) => Some(metadata.sequence_hash),
            None => None,
        }
    }
}

impl View for RemoteBlockDescriptor {
    type V = DescriptorView;

    closed spec fn view(&self) -> DescriptorView {
        DescriptorView { key: self.key, size: self.size, metadata: self.metadata }
    }
}

impl Clone for RemoteBlockDescriptor {
    fn clone(&self) -> (copy: Self)
        ensures
            copy == *self,
    {
        RemoteBlockDescriptor {
            key: self.key.clone(),
            size: self.size,
            metadata: self.metadata,
        }
    }
}

impl RemoteBlockDescriptor {
    /// Create a new descriptor with just key and size.
    pub fn new(key: RemoteKey, size: usize) -> (descriptor: Self)
        ensures
            descriptor@ == (DescriptorView { key, size, metadata: None }),
    {
        RemoteBlockDescriptor { key, size, metadata: None }
    }

    /// Create with metadata.
    pub fn with_metadata(
        key: RemoteKey,
        size: usize,
        metadata: RemoteBlockMetadata,
    ) -> (descriptor: Self)
        ensures
            descriptor@ == (DescriptorView { key, size, metadata: Some(metadata) }),
    {
        RemoteBlockDescriptor { key, size, metadata: Some(metadata) }
    }

    /// Convenience: create object storage descriptor.
    pub fn object(bucket: &str, key: &str, size: usize) -> (descriptor: Self)
        ensures
            descriptor@.key matches RemoteKey::Object(object) && object.bucket@ == bucket@
                && object.key@ == key@,
            descriptor@.size == size,
            descriptor@.metadata is None,
    {
        Self::new(RemoteKey::object(bucket, key), size)
    }

    /// Convenience: create from sequence hash.
    pub fn object_from_hash(bucket: &str, hash: u64, size: usize) -> (descriptor: Self)
        ensures
            descriptor@.key matches RemoteKey::Object(object) && object.bucket@ == bucket@
                && object.key@ == hash_text(hash),
            descriptor@.size == size,
            descriptor@.sequence_hash() == Some(hash),
            exists|clock: Option<u128>|
                clock_says(clock) && descriptor@.metadata->0.stored_at
                    == #[trigger] RemoteBlockMetadata::timestamp(clock),
    {
        let key = RemoteKey::Object(ObjectKey::from_hash(bucket, hash));
        Self::with_metadata(key, size, RemoteBlockMetadata::new(hash))
    }

    /// Convenience: create disk storage descriptor.
    pub fn disk(path: &str, key: &str, size: usize) -> (descriptor: Self)
        ensures
            descriptor@.key matches RemoteKey::Disk(disk) && disk.path@ == path@ && disk.key@
                == key@,
            descriptor@.size == size,
            descriptor@.metadata is None,
    {
        Self::new(RemoteKey::disk(path, key), size)
    }

    /// Convenience: create disk descriptor from hash.
    pub fn disk_from_hash(path: &str, hash: u64, size: usize) -> (descriptor: Self)
        ensures
            descriptor@.key matches RemoteKey::Disk(disk) && disk.path@ == path@ && disk.key@
                == hash_text(hash),
            descriptor@.size == size,
            descriptor@.sequence_hash() == Some(hash),
            exists|clock: Option<u128>|
                clock_says(clock) && descriptor@.metadata->0.stored_at
                    == #[trigger] RemoteBlockMetadata::timestamp(clock),
    {
        let key = RemoteKey::Disk(DiskKey::from_hash(path, hash));
        Self::with_metadata(key, size, RemoteBlockMetadata::new(hash))
    }

    /// Get the remote key.
    pub fn key(&self) -> (key: &RemoteKey)
        ensures
            *key == self@.key,
    {
        &self.key
    }

    /// Get the block size.
    pub fn size(&self) -> (size: usize)
        ensures
            size == self@.size,
    {
        self.size
    }

    /// Get the storage kind.
    pub fn kind(&self) -> (kind: RemoteStorageKind)
        ensures
            kind == self@.key.storage_kind(),
    {
        self.key.kind()
    }

    /// Get the metadata if present.
    pub fn metadata(&self) -> (metadata: Option<&RemoteBlockMetadata>)
        ensures
            metadata == (match self@.metadata {
                Some(m) => Some(&m),
                None => None,
            }),
    {
        self.metadata.as_ref()
    }

    /// Set the metadata.
    pub fn set_metadata(&mut self, metadata: RemoteBlockMetadata)
        ensures
            final(self)@ == (DescriptorView { metadata: Some(metadata), ..old(self)@ }),
    {
        self.metadata = Some(metadata);
    }

    /// Get sequence hash from metadata (if available).
    pub fn sequence_hash(&self) -> (hash: Option<u64>)
        ensures
            hash == self@.sequence_hash(),
    {
        match &self.metadata {
            Some(metadata) => Some(metadata.sequence_hash),
            None => None,
        }
    }
}

/// Direction of remote transfer.
#[derive(Debug, Clone, Copy, PartialEq, Eq, Structural)]
pub enum RemoteTransferDirection {
    /// Remote to local (onboard/restore)
    Onboard,
    /// Local to remote (offload/persist)
    Offload,
}

impl RemoteTransferDirection {
    /// Check if this is an onboard (read from remote) direction.
    pub fn is_onboard(&self) -> (onboard: bool)
        ensures
            onboard == (*self == RemoteTransferDirection::Onboard),
    {
        matches!(self, Self::Onboard)
    }

    /// Check if this is an offload (write to remote) direction.
    pub fn is_offload(&self) -> (offload: bool)
        ensures
            offload == (*self == RemoteTransferDirection::Offload),
    {
        matches!(self, Self::Offload)
    }
}

/// Defines a complete transfer pipeline for remote storage.
///
/// Supports:
/// - Remote -> Local (onboard to host)
/// - Local -> Remote (offload from host)
/// - Remote -> Bounce -> Device (full onboard pipeline)
/// - Device -> Bounce -> Remote (full offload pipeline)
#[derive(Debug)]
pub enum RemoteTransferPipeline {
    /// Between remote storage and host memory, with no GPU involved
    Direct { direction: RemoteTransferDirection, remote_descriptors: Vec<RemoteBlockDescriptor> },
    /// Between remote storage and GPU memory, by way of host memory
    WithBounce {
        direction: RemoteTransferDirection,
        remote_descriptors: Vec<RemoteBlockDescriptor>,
        /// Host block IDs used as bounce buffers
        bounce_block_ids: Vec<usize>,
        /// Device block IDs (final destination for onboard, source for offload)
        device_block_ids: Vec<usize>,
    },
}

impl Clone for RemoteTransferPipeline {
    fn clone(&self) -> (copy: Self)
        ensures
            copy is WithBounce <==> *self is WithBounce,
            copy.way() == self.way(),
            copy.blocks() == self.blocks(),
            *self is WithBounce ==> copy->bounce_block_ids@ == self->bounce_block_ids@
                && copy->device_block_ids@ == self->device_block_ids@,
    {
        match self {
            Self::Direct { direction, remote_descriptors } => {
                let descriptors = remote_descriptors.clone();
                assert(descriptors@ =~= remote_descriptors@);
                Self::Direct { direction: *direction, remote_descriptors: descriptors }
            },
            Self::WithBounce {
                direction,
                remote_descriptors,
                bounce_block_ids,
                device_block_ids,
            } => {
                let descriptors = remote_descriptors.clone();
                assert(descriptors@ =~= remote_descriptors@);
                Self::WithBounce {
                    direction: *direction,
                    remote_descriptors: descriptors,
                    bounce_block_ids: bounce_block_ids.clone(),
                    device_block_ids: device_block_ids.clone(),
                }
            },
        }
    }
}

impl RemoteTransferPipeline {
    /// The transfer direction.
    pub open spec fn way(self) -> RemoteTransferDirection {
        match self {
            RemoteTransferPipeline::Direct { direction, .. } => direction,
            RemoteTransferPipeline::WithBounce { direction, .. } => direction,
        }
    }

    /// The remote descriptors.
    pub open spec fn blocks(self) -> Seq<RemoteBlockDescriptor> {
        match self {
            RemoteTransferPipeline::Direct { remote_descriptors, .. } => remote_descriptors@,
            RemoteTransferPipeline::WithBounce { remote_descriptors, .. } => remote_descriptors@,
        }
    }

    /// Create a direct Host to Remote offload.
    pub fn offload_direct(descriptors: Vec<RemoteBlockDescriptor>) -> (pipeline: Self)
        ensures
            pipeline == (RemoteTransferPipeline::Direct {
                direction: RemoteTransferDirection::Offload,
                remote_descriptors: descriptors,
            }),
    {
        Self::Direct {
            direction: RemoteTransferDirection::Offload,
            remote_descriptors: descriptors,
        }
    }

    /// Create a direct Remote to Host onboard.
    pub fn onboard_direct(descriptors: Vec<RemoteBlockDescriptor>) -> (pipeline: Self)
        ensures
            pipeline == (RemoteTransferPipeline::Direct {
                direction: RemoteTransferDirection::Onboard,
                remote_descriptors: descriptors,
            }),
    {
        Self::Direct {
            direction: RemoteTransferDirection::Onboard,
            remote_descriptors: descriptors,
        }
    }

    /// Create a full Device to Bounce to Remote offload.
    pub fn offload_with_bounce(
        descriptors: Vec<RemoteBlockDescriptor>,
        bounce_ids: Vec<usize>,
        device_ids: Vec<usize>,
    ) -> (pipeline: Self)
        ensures
            pipeline == (RemoteTransferPipeline::WithBounce {
                direction: RemoteTransferDirection::Offload,
                remote_descriptors: descriptors,
                bounce_block_ids: bounce_ids,
                device_block_ids: device_ids,
            }),
    {
        Self::WithBounce {
            direction: RemoteTransferDirection::Offload,
            remote_descriptors: descriptors,
            bounce_block_ids: bounce_ids,
            device_block_ids: device_ids,
        }
    }

    /// Create a full Remote to Bounce to Device onboard.
    pub fn onboard_with_bounce(
        descriptors: Vec<RemoteBlockDescriptor>,
        bounce_ids: Vec<usize>,
        device_ids: Vec<usize>,
    ) -> (pipeline: Self)
        ensures
            pipeline == (RemoteTransferPipeline::WithBounce {
                direction: RemoteTransferDirection::Onboard,
                remote_descriptors: descriptors,
                bounce_block_ids: bounce_ids,
                device_block_ids: device_ids,
            }),
    {
        Self::WithBounce {
            direction: RemoteTransferDirection::Onboard,
            remote_descriptors: descriptors,
            bounce_block_ids: bounce_ids,
            device_block_ids: device_ids,
        }
    }

    /// Get the transfer direction.
    pub fn direction(&self) -> (direction: RemoteTransferDirection)
        ensures
            direction == self.way(),
    {
        match self {
            Self::Direct { direction, .. } => *direction,
            Self::WithBounce { direction, .. } => *direction,
        }
    }

    /// Get the remote descriptors.
    pub fn descriptors(&self) -> (descriptors: &[RemoteBlockDescriptor])
        ensures
            descriptors@ == self.blocks(),
    {
        match self {
            Self::Direct { remote_descriptors, .. } => remote_descriptors.as_slice(),
            Self::WithBounce { remote_descriptors, .. } => remote_descriptors.as_slice(),
        }
    }

    /// Check if this pipeline uses bounce buffers.
    pub fn has_bounce(&self) -> (bounce: bool)
        ensures
            bounce == (*self is WithBounce),
    {
        matches!(self, Self::WithBounce { .. })
    }

    /// Get the number of blocks in this pipeline.
    pub fn num_blocks(&self) -> (count: usize)
        ensures
            count == self.blocks().len(),
    {
        self.descriptors().len()
    }
}

/// Strategy for remote transfers.
#[derive(Debug, Clone, Copy, PartialEq, Eq, Structural)]
pub enum RemoteTransferStrategy {
    NixlObjectRead,
    NixlObjectWrite,
    NixlDiskRead,
    NixlDiskWrite,
    Invalid,
}

impl RemoteTransferStrategy {
    /// The strategy for a direction and a storage kind.
    pub open spec fn strategy_for(
        direction: RemoteTransferDirection,
        kind: RemoteStorageKind,
    ) -> RemoteTransferStrategy {
        match (direction, kind) {
            (RemoteTransferDirection::Onboard, RemoteStorageKind::Object) =>
                RemoteTransferStrategy::NixlObjectRead,
            (RemoteTransferDirection::Offload, RemoteStorageKind::Object) =>
                RemoteTransferStrategy::NixlObjectWrite,
            (RemoteTransferDirection::Onboard, RemoteStorageKind::Disk) =>
                RemoteTransferStrategy::NixlDiskRead,
            (RemoteTransferDirection::Offload, RemoteStorageKind::Disk) =>
                RemoteTransferStrategy::NixlDiskWrite,
        }
    }

    /// Whether data is read from remote storage.
    pub open spec fn reads(self) -> bool {
        self == RemoteTransferStrategy::NixlObjectRead || self
            == RemoteTransferStrategy::NixlDiskRead
    }

    /// Whether data is written to remote storage.
    pub open spec fn writes(self) -> bool {
        self == RemoteTransferStrategy::NixlObjectWrite || self
            == RemoteTransferStrategy::NixlDiskWrite
    }

    /// Whether the remote storage is object storage.
    pub open spec fn uses_object(self) -> bool {
        self == RemoteTransferStrategy::NixlObjectRead || self
            == RemoteTransferStrategy::NixlObjectWrite
    }

    /// Whether the remote storage is a disk.
    pub open spec fn uses_disk(self) -> bool {
        self == RemoteTransferStrategy::NixlDiskRead || self
            == RemoteTransferStrategy::NixlDiskWrite
    }

    /// Check if this is a read operation.
    pub fn is_read(&self) -> (read: bool)
        ensures
            read == self.reads(),
    {
        matches!(self, Self::NixlObjectRead | Self::NixlDiskRead)
    }

    /// Check if this is a write operation.
    pub fn is_write(&self) -> (write: bool)
        ensures
            write == self.writes(),
    {
        matches!(self, Self::NixlObjectWrite | Self::NixlDiskWrite)
    }

    /// Check if this is an object storage operation.
    pub fn is_object(&self) -> (object: bool)
        ensures
            object == self.uses_object(),
    {
        matches!(self, Self::NixlObjectRead | Self::NixlObjectWrite)
    }

    /// Check if this is a disk operation.
    pub fn is_disk(&self) -> (disk: bool)
        ensures
            disk == self.uses_disk(),
    {
        matches!(self, Self::NixlDiskRead | Self::NixlDiskWrite)
    }

    /// Determine strategy from direction and storage kind.
    pub fn from_direction_and_kind(
        direction: RemoteTransferDirection,
        kind: RemoteStorageKind,
    ) -> (strategy: Self)
        ensures
            strategy == Self::strategy_for(direction, kind),
    {
        match (direction, kind) {
            (RemoteTransferDirection::Onboard, RemoteStorageKind::Object) => Self::NixlObjectRead,
            (RemoteTransferDirection::Offload, RemoteStorageKind::Object) => Self::NixlObjectWrite,
            (RemoteTransferDirection::Onboard, RemoteStorageKind::Disk) => Self::NixlDiskRead,
            (RemoteTransferDirection::Offload, RemoteStorageKind::Disk) => Self::NixlDiskWrite,
        }
    }
}

/// A chosen strategy is never invalid: it reads exactly when blocks are
/// onboarded, otherwise writes, and uses the storage of the given kind.
pub proof fn a_chosen_strategy_fits_direction_and_kind(
    direction: RemoteTransferDirection,
    kind: RemoteStorageKind,
)
    ensures
        ({
            let strategy = RemoteTransferStrategy::strategy_for(direction, kind);
            &&& strategy != RemoteTransferStrategy::Invalid
            &&& strategy.reads() <==> direction == RemoteTransferDirection::Onboard
            &&& strategy.writes() <==> direction == RemoteTransferDirection::Offload
            &&& strategy.uses_object() <==> kind == RemoteStorageKind::Object
            &&& strategy.uses_disk() <==> kind == RemoteStorageKind::Disk
        }),
{
}

/// `tokio_util::sync::CancellationToken`, with which cancellation is requested and
/// noticed; its state is shared with its clones.
#[verifier::external_type_specification]
#[verifier::external_body]
pub struct ExCancellationToken(tokio_util::sync::CancellationToken);

/// `tokio::sync::oneshot::error::RecvError`, which a receiver gets when the sender
/// went away without sending.
#[verifier::external_type_specification]
#[verifier::external_body]
pub struct ExRecvError(tokio::sync::oneshot::error::RecvError);

/// `tokio::sync::oneshot::Receiver`, through which one value comes.
#[verifier::external_type_specification]
#[verifier::external_body]
#[verifier::reject_recursive_types(T)]
pub struct ExReceiver<T>(tokio::sync::oneshot::Receiver<T>);

/// `tokio_util::sync::CancellationToken::cancel`. What it changes is shared with
/// every clone of the token and is not seen here.
pub assume_specification[ tokio_util::sync::CancellationToken::cancel ](
    token: &tokio_util::sync::CancellationToken,
);

/// `tokio_util::sync::CancellationToken::is_cancelled`. The answer depends on
/// whether some holder of a clone has cancelled by now, so nothing is said of it.
pub assume_specification[ tokio_util::sync::CancellationToken::is_cancelled ](
    token: &tokio_util::sync::CancellationToken,
) -> (cancelled: bool);

/// Calls `tokio_util::sync::CancellationToken::clone`, which gives a token that
/// is cancelled exactly when the given one is.
#[verifier::external_body]
fn clone_token(token: &tokio_util::sync::CancellationToken) -> (copy:
    tokio_util::sync::CancellationToken)
    ensures
        copy == *token,
{
    token.clone()
}

/// Handle for a remote transfer operation.
///
/// Provides both completion notification and cancellation capability.
/// The transfer runs in the background; the caller can wait for the completion,
/// request cooperative cancellation, or drop the handle (the transfer goes on).
#[derive(Debug)]
pub struct RemoteTransferHandle {
    completion: tokio::sync::oneshot::Receiver<Result<(), TransferError>>,
    cancel_token: tokio_util::sync::CancellationToken,
}

impl RemoteTransferHandle {
    /// The receiver that the outcome comes through.
    pub closed spec fn receiver(self) -> tokio::sync::oneshot::Receiver<Result<(), TransferError>> {
        self.completion
    }

    /// The token that cancellation is requested with.
    pub closed spec fn token(self) -> tokio_util::sync::CancellationToken {
        self.cancel_token
    }

    /// Create a new transfer handle.
    pub fn new(
        completion: tokio::sync::oneshot::Receiver<Result<(), TransferError>>,
        cancel_token: tokio_util::sync::CancellationToken,
    ) -> (handle: Self)
        ensures
            handle.receiver() == completion,
            handle.token() == cancel_token,
    {
        RemoteTransferHandle { completion, cancel_token }
    }

    /// Request cancellation of the transfer.
    ///
    /// The transfer stops at its next cancellation check point. To request
    /// cancellation again does no harm.
    pub fn cancel(&self)
        ensures
            call_ensures(tokio_util::sync::CancellationToken::cancel, (&self.token(),), ()),
    {
        self.cancel_token.cancel()
    }

    /// Check if cancellation has been requested. The answer is one that the token of
    /// this handle gives, whatever its other holders do.
    pub fn is_cancelled(&self) -> (cancelled: bool)
        ensures
            call_ensures(
                tokio_util::sync::CancellationToken::is_cancelled,
                (&self.token(),),
                cancelled,
            ),
    {
        self.cancel_token.is_cancelled()
    }

    /// Get a clone of the cancellation token.
    pub fn cancellation_token(&self) -> (token: tokio_util::sync::CancellationToken)
        ensures
            token == self.token(),
    {
        clone_token(&self.cancel_token)
    }

    /// The receiver to wait on for the outcome.
    pub fn into_completion(self) -> (completion: tokio::sync::oneshot::Receiver<
        Result<(), TransferError>,
    >)
        ensures
            completion == self.receiver(),
    {
        self.completion
    }

    /// The outcome of the transfer, given what came through the receiver: an
    /// error of the channel when the transfer went away without reporting.
    pub fn wait_result(
        received: Result<Result<(), TransferError>, tokio::sync::oneshot::error::RecvError>,
    ) -> (outcome: Result<(), TransferError>)
        ensures
            match received {
                Ok(result) => outcome == result,
                Err(_) => outcome matches Err(TransferError::ExecutionError(reason)) && reason@
                    == "Transfer task dropped"@,
            },
    {
        match received {
            Ok(result) => result,
            Err(_) => Err(TransferError::ExecutionError("Transfer task dropped".to_owned())),
        }
    }
}

/// Different keys feed different bytes to the hasher: the kind, the bucket or path, and
/// the identifier all count.
pub proof fn all_of_a_key_is_hashed(a: RemoteKey, b: RemoteKey)
    ensures
        a.hashed_bytes() == b.hashed_bytes() <==> match (a, b) {
            (RemoteKey::Object(a), RemoteKey::Object(b)) => a.bucket@ == b.bucket@ && a.key@
                == b.key@,
            (RemoteKey::Disk(a), RemoteKey::Disk(b)) => a.path@ == b.path@ && a.key@ == b.key@,
            _ => false,
        },
{
    let (a1, a2) = match a {
        RemoteKey::Object(key) => (key.bucket@, key.key@),
        RemoteKey::Disk(key) => (key.path@, key.key@),
    };
    let (b1, b2) = match b {
        RemoteKey::Object(key) => (key.bucket@, key.key@),
        RemoteKey::Disk(key) => (key.path@, key.key@),
    };
    vstd::utf8::encode_utf8_decode_utf8(a1);
    vstd::utf8::encode_utf8_decode_utf8(a2);
    vstd::utf8::encode_utf8_decode_utf8(b1);
    vstd::utf8::encode_utf8_decode_utf8(b2);
    if a.hashed_bytes() == b.hashed_bytes() {
        assert(a.hashed_bytes()[0][0] == b.hashed_bytes()[0][0]);
        assert(a.hashed_bytes()[1] == b.hashed_bytes()[1]);
        assert(a.hashed_bytes()[3] == b.hashed_bytes()[3]);
    }
}

/// Keys of the same kind with the same texts have the same id.
pub proof fn equal_keys_have_equal_ids(a: RemoteKey, b: RemoteKey)
    requires
        match (a, b) {
            (RemoteKey::Object(a), RemoteKey::Object(b)) => a.bucket@ == b.bucket@ && a.key@
                == b.key@,
            (RemoteKey::Disk(a), RemoteKey::Disk(b)) => a.path@ == b.path@ && a.key@ == b.key@,
            _ => false,
        },
    ensures
        a.device_id() == b.device_id(),
        a.storage_kind() == b.storage_kind(),
        a.spelled_hash() == b.spelled_hash(),
{
}

/// A timestamp is the milliseconds that the clock says, and zero before the epoch.
pub proof fn a_timestamp_is_what_the_clock_says(millis: u128)
    ensures
        millis <= u64::MAX ==> RemoteBlockMetadata::timestamp(Some(millis)) == millis,
        RemoteBlockMetadata::timestamp(None) == 0,
{
}

/// The kind of a key is that of its storage, and only object keys spell a hash.
pub proof fn only_object_keys_spell_a_hash(key: RemoteKey)
    ensures
        key is Object <==> key.storage_kind() == RemoteStorageKind::Object,
        key is Disk <==> key.storage_kind() == RemoteStorageKind::Disk,
        key is Disk ==> key.spelled_hash() is None,
        key matches RemoteKey::Object(object) ==> key.spelled_hash() == text::hex_u64(object.key@),
{
}

/// A descriptor has a sequence hash exactly when it has metadata, and then that of the
/// metadata.
pub proof fn the_hash_of_a_descriptor_is_in_its_metadata(descriptor: DescriptorView)
    ensures
        descriptor.sequence_hash() is Some <==> descriptor.metadata is Some,
        descriptor.metadata matches Some(metadata) ==> descriptor.sequence_hash() == Some(
            metadata.sequence_hash,
        ),
{
}

/// A pipeline has the direction and the descriptors that it was made with, with bounce
/// buffers or without.
pub proof fn a_pipeline_has_its_direction_and_descriptors(
    direction: RemoteTransferDirection,
    remote_descriptors: Vec<RemoteBlockDescriptor>,
    bounce_block_ids: Vec<usize>,
    device_block_ids: Vec<usize>,
)
    ensures
        ({
            let direct = RemoteTransferPipeline::Direct { direction, remote_descriptors };
            direct.way() == direction && direct.blocks() == remote_descriptors@
        }),
        ({
            let bounced = RemoteTransferPipeline::WithBounce {
                direction,
                remote_descriptors,
                bounce_block_ids,
                device_block_ids,
            };
            bounced.way() == direction && bounced.blocks() == remote_descriptors@
        }),
{
}

/// A strategy reads or writes, but not both, and uses one kind of storage; an invalid
/// one does nothing.
pub proof fn a_strategy_does_one_thing(strategy: RemoteTransferStrategy)
    ensures
        strategy == RemoteTransferStrategy::Invalid <==> !strategy.reads() && !strategy.writes(),
        strategy == RemoteTransferStrategy::Invalid <==> !strategy.uses_object()
            && !strategy.uses_disk(),
        !(strategy.reads() && strategy.writes()),
        !(strategy.uses_object() && strategy.uses_disk()),
        strategy.reads() && strategy.uses_object() <==> strategy
            == RemoteTransferStrategy::NixlObjectRead,
        strategy.writes() && strategy.uses_object() <==> strategy
            == RemoteTransferStrategy::NixlObjectWrite,
        strategy.reads() && strategy.uses_disk() <==> strategy
            == RemoteTransferStrategy::NixlDiskRead,
        strategy.writes() && strategy.uses_disk() <==> strategy
            == RemoteTransferStrategy::NixlDiskWrite,
{
}

/// The hasher is fed five times: the number of the variant in as many bytes as a
/// pointer has, the lowest first, then the bytes of the bucket or path and those of the
/// identifier, each with an end mark behind it.
pub proof fn a_key_is_hashed_part_by_part(key: RemoteKey)
    ensures
        key.hashed_bytes().len() == 5,
        usize::BITS == 32 ==> key.hashed_bytes()[0].len() == 4,
        usize::BITS == 64 ==> key.hashed_bytes()[0].len() == 8,
        key is Object ==> key.hashed_bytes()[0][0] == 0,
        key is Disk ==> key.hashed_bytes()[0][0] == 1,
        forall|i: int|
            1 <= i < key.hashed_bytes()[0].len() ==> #[trigger] key.hashed_bytes()[0][i] == 0,
        key matches RemoteKey::Object(object) ==> key.hashed_bytes()[1]
            == vstd::utf8::encode_utf8(object.bucket@) && key.hashed_bytes()[3]
            == vstd::utf8::encode_utf8(object.key@),
        key matches RemoteKey::Disk(disk) ==> key.hashed_bytes()[1] == vstd::utf8::encode_utf8(
            disk.path@,
        ) && key.hashed_bytes()[3] == vstd::utf8::encode_utf8(disk.key@),
        key.hashed_bytes()[2] == seq![0xffu8],
        key.hashed_bytes()[4] == seq![0xffu8],
        key.device_id() == DefaultHasher::spec_finish(key.hashed_bytes()),
{
}

} // verus!
