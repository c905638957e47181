use std::collections::hash_map::DefaultHasher;
use std::hash::{Hash, Hasher};

use dynamo_llm::remote::{
    DiskKey, ObjectKey, RemoteBlockDescriptor, RemoteBlockMetadata, RemoteKey, RemoteStorageKind,
    RemoteTransferDirection, RemoteTransferHandle, RemoteTransferPipeline, RemoteTransferStrategy,
};
use dynamo_llm::text;
use dynamo_llm::transfer::TransferError;
use tokio::sync::oneshot;
use tokio_util::sync::CancellationToken;

#[test]
fn test_object_key_from_hash() {
    let key = ObjectKey::from_hash("my-bucket", 0x1234567890abcdef);
    assert_eq!(key.bucket, "my-bucket");
    assert_eq!(key.key, "1234567890abcdef");
    assert_eq!(key.as_hash(), Some(0x1234567890abcdef));
}

#[test]
fn test_disk_key_full_path() {
    let key = DiskKey::new("/mnt/nfs", "block_001");
    assert_eq!(key.full_path(), "/mnt/nfs/block_001");
}

#[test]
fn test_remote_key_kind() {
    let obj_key = RemoteKey::object("bucket", "key");
    assert_eq!(obj_key.kind(), RemoteStorageKind::Object);

    let disk_key = RemoteKey::disk("/path", "key");
    assert_eq!(disk_key.kind(), RemoteStorageKind::Disk);
}

#[test]
fn test_remote_block_descriptor() {
    let desc = RemoteBlockDescriptor::object_from_hash("bucket", 0x1234, 4096);
    assert_eq!(desc.size(), 4096);
    assert_eq!(desc.kind(), RemoteStorageKind::Object);
    assert_eq!(desc.sequence_hash(), Some(0x1234));
}

#[test]
fn test_remote_transfer_pipeline() {
    let descs = vec![
        RemoteBlockDescriptor::object_from_hash("bucket", 0x1234, 4096),
        RemoteBlockDescriptor::object_from_hash("bucket", 0x5678, 4096),
    ];

    // Direct offload
    let pipeline = RemoteTransferPipeline::offload_direct(descs.clone());
    assert_eq!(pipeline.direction(), RemoteTransferDirection::Offload);
    assert!(!pipeline.has_bounce());
    assert_eq!(pipeline.num_blocks(), 2);

    // With bounce
    let pipeline = RemoteTransferPipeline::onboard_with_bounce(descs, vec![0, 1], vec![10, 11]);
    assert_eq!(pipeline.direction(), RemoteTransferDirection::Onboard);
    assert!(pipeline.has_bounce());
}

#[test]
fn test_remote_transfer_strategy() {
    assert!(RemoteTransferStrategy::NixlObjectRead.is_read());
    assert!(RemoteTransferStrategy::NixlObjectRead.is_object());
    assert!(!RemoteTransferStrategy::NixlObjectRead.is_write());
    assert!(!RemoteTransferStrategy::NixlObjectRead.is_disk());

    assert!(RemoteTransferStrategy::NixlDiskWrite.is_write());
    assert!(RemoteTransferStrategy::NixlDiskWrite.is_disk());

    // Test from_direction_and_kind
    assert_eq!(
        RemoteTransferStrategy::from_direction_and_kind(
            RemoteTransferDirection::Onboard,
            RemoteStorageKind::Object,
        ),
        RemoteTransferStrategy::NixlObjectRead
    );
    assert_eq!(
        RemoteTransferStrategy::from_direction_and_kind(
            RemoteTransferDirection::Offload,
            RemoteStorageKind::Disk,
        ),
        RemoteTransferStrategy::NixlDiskWrite
    );
}

#[test]
fn test_remote_block_metadata() {
    let meta = RemoteBlockMetadata::new(0x1234);
    assert_eq!(meta.sequence_hash, 0x1234);
    assert!(meta.stored_at > 0);
}

#[test]
fn test_remote_transfer_direction() {
    assert!(RemoteTransferDirection::Onboard.is_onboard());
    assert!(!RemoteTransferDirection::Onboard.is_offload());
    assert!(RemoteTransferDirection::Offload.is_offload());
    assert!(!RemoteTransferDirection::Offload.is_onboard());
}

#[test]
fn hex_texts_are_those_of_std() {
    for hash in [0u64, 1, 9, 10, 15, 16, 255, 0xdead_beef, 0x0123_4567_89ab_cdef, u64::MAX] {
        assert_eq!(text::hex_text(hash), format!("{:016x}", hash));
        assert_eq!(ObjectKey::from_hash("b", hash).key, format!("{:016x}", hash));
        assert_eq!(DiskKey::from_hash("/p", hash).key, format!("{:016x}", hash));
        assert_eq!(ObjectKey::from_hash("b", hash).as_hash(), Some(hash));
    }
}

#[test]
fn hex_texts_are_read_as_by_std() {
    for given in [
        "", "+", "-", "0", "-0", "-1", "+ff", "+-1", "++1", "FF", "fF09", "g", "0x10", " 1", "1 ",
        "ffffffffffffffff", "10000000000000000", "00000000000000000001", "\u{e9}", "1_0",
        "fffffffffffffffff", "+ffffffffffffffff", "0000000000000000ffffffffffffffff",
    ] {
        assert_eq!(text::parse_hex(given), u64::from_str_radix(given, 16).ok(), "{}", given);
    }
}

#[test]
fn decimal_texts_are_those_of_std() {
    for n in [0u64, 1, 9, 10, 11, 99, 100, 12345, 10_000_000_000, u64::MAX] {
        assert_eq!(text::decimal_text(n), format!("{}", n));
    }
}

#[test]
fn a_key_gives_back_the_hash_it_was_made_from() {
    let object = RemoteKey::Object(ObjectKey::from_hash("bucket", 0xfeed));
    assert_eq!(object.sequence_hash(), Some(0xfeed));
    assert_eq!(RemoteKey::object("bucket", "not a hash").sequence_hash(), None);

    // Only object keys are read as hashes.
    let disk = RemoteKey::Disk(DiskKey::from_hash("/mnt", 0xff));
    assert_eq!(disk.sequence_hash(), None);
    assert_eq!(RemoteKey::disk("/mnt", "block_001").sequence_hash(), None);
}

#[test]
fn different_hashes_make_different_keys() {
    assert_ne!(ObjectKey::from_hash("bucket", 1), ObjectKey::from_hash("bucket", 2));
    assert_ne!(DiskKey::from_hash("/mnt", 0x10), DiskKey::from_hash("/mnt", 0x100));
}

#[test]
fn the_device_id_is_the_hash_of_the_key() {
    for key in [
        RemoteKey::object("bucket", "key"),
        RemoteKey::disk("bucket", "key"),
        RemoteKey::object("", ""),
        RemoteKey::disk("/mnt/nfs", "1234567890abcdef"),
        RemoteKey::object("b\u{e4}rn", "\u{1f980} and more than eight bytes of text"),
    ] {
        let mut hasher = DefaultHasher::new();
        key.hash(&mut hasher);
        assert_eq!(key.nixl_device_id(), hasher.finish());
    }
    assert_ne!(
        RemoteKey::object("a", "b").nixl_device_id(),
        RemoteKey::disk("a", "b").nixl_device_id()
    );
}

#[test]
fn descriptors_hold_what_they_were_made_from() {
    let mut object = RemoteBlockDescriptor::object("bucket", "key", 512);
    assert_eq!(object.key(), &RemoteKey::object("bucket", "key"));
    assert_eq!(object.size(), 512);
    assert!(object.metadata().is_none());
    assert_eq!(object.sequence_hash(), None);

    object.set_metadata(RemoteBlockMetadata::with_timestamp(7, 99));
    assert_eq!(object.sequence_hash(), Some(7));
    assert_eq!(object.metadata().map(|m| m.stored_at), Some(99));
    assert_eq!(object.size(), 512);
    assert_eq!(object.key(), &RemoteKey::object("bucket", "key"));

    let disk = RemoteBlockDescriptor::disk("/mnt", "block", 64);
    assert_eq!(disk.key(), &RemoteKey::disk("/mnt", "block"));
    assert_eq!(disk.kind(), RemoteStorageKind::Disk);

    let hashed = RemoteBlockDescriptor::disk_from_hash("/mnt", 0xab, 64);
    assert_eq!(hashed.key(), &RemoteKey::disk("/mnt", "00000000000000ab"));
    assert_eq!(hashed.sequence_hash(), Some(0xab));

    let with = RemoteBlockDescriptor::with_metadata(
        RemoteKey::object("b", "k"),
        8,
        RemoteBlockMetadata::with_timestamp(3, 4),
    );
    assert_eq!(with.sequence_hash(), Some(3));
    let without = RemoteBlockDescriptor::new(RemoteKey::object("b", "k"), 8);
    assert_eq!(without.sequence_hash(), None);
}

#[test]
fn metadata_is_stamped_with_the_clock() {
    let before = std::time::SystemTime::UNIX_EPOCH.elapsed().unwrap().as_millis() as u64;
    let meta = RemoteBlockMetadata::new(1);
    let after = std::time::SystemTime::UNIX_EPOCH.elapsed().unwrap().as_millis() as u64;
    assert!(before <= meta.stored_at && meta.stored_at <= after);

    assert_eq!(RemoteBlockMetadata::stored_when(1, Some(1234)).stored_at, 1234);
    assert_eq!(RemoteBlockMetadata::stored_when(1, None).stored_at, 0);
    assert_eq!(RemoteBlockMetadata::stored_when(5, None).sequence_hash, 5);
    assert_eq!(RemoteBlockMetadata::stored_when(1, Some((1 << 64) + 7)).stored_at, 7);
}

#[test]
fn pipelines_hold_what_they_were_made_from() {
    let descs = vec![RemoteBlockDescriptor::object("b", "k", 1)];
    let pipeline = RemoteTransferPipeline::onboard_direct(descs.clone());
    assert!(pipeline.direction().is_onboard());
    assert!(!pipeline.has_bounce());
    assert_eq!(pipeline.descriptors()[0].key(), descs[0].key());

    let copy = pipeline.clone();
    assert!(copy.direction().is_onboard() && !copy.has_bounce());
    assert_eq!(copy.descriptors()[0].key(), descs[0].key());

    let pipeline = RemoteTransferPipeline::offload_with_bounce(descs, vec![3], vec![4]).clone();
    assert!(pipeline.direction().is_offload());
    assert_eq!(pipeline.num_blocks(), 1);
    match pipeline {
        RemoteTransferPipeline::WithBounce { bounce_block_ids, device_block_ids, .. } => {
            assert_eq!(bounce_block_ids, vec![3]);
            assert_eq!(device_block_ids, vec![4]);
        }
        RemoteTransferPipeline::Direct { .. } => panic!("no bounce"),
    }
}

#[test]
fn strategies_fit_direction_and_kind() {
    for direction in [RemoteTransferDirection::Onboard, RemoteTransferDirection::Offload] {
        for kind in [RemoteStorageKind::Object, RemoteStorageKind::Disk] {
            let strategy = RemoteTransferStrategy::from_direction_and_kind(direction, kind);
            assert_eq!(strategy.is_read(), direction.is_onboard());
            assert_eq!(strategy.is_write(), direction.is_offload());
            assert_eq!(strategy.is_object(), kind == RemoteStorageKind::Object);
            assert_eq!(strategy.is_disk(), kind == RemoteStorageKind::Disk);
        }
    }
    let invalid = RemoteTransferStrategy::Invalid;
    assert!(!invalid.is_read() && !invalid.is_write() && !invalid.is_object() && !invalid.is_disk());
}

#[test]
fn a_handle_cancels_its_token() {
    let (_tx, rx) = oneshot::channel::<Result<(), TransferError>>();
    let token = CancellationToken::new();
    let handle = RemoteTransferHandle::new(rx, token.clone());
    let copy = handle.cancellation_token();
    assert!(!handle.is_cancelled());
    assert!(!copy.is_cancelled());
    handle.cancel();
    handle.cancel();
    assert!(handle.is_cancelled());
    assert!(token.is_cancelled());
    assert!(copy.is_cancelled());
}

#[test]
fn a_handle_gives_the_outcome() {
    let (tx, rx) = oneshot::channel();
    let handle = RemoteTransferHandle::new(rx, CancellationToken::new());
    tx.send(Err(TransferError::Cancelled)).unwrap();
    let received = handle.into_completion().blocking_recv();
    let outcome = RemoteTransferHandle::wait_result(received);
    assert!(outcome.unwrap_err().is_cancelled());

    let (tx, rx) = oneshot::channel();
    let handle = RemoteTransferHandle::new(rx, CancellationToken::new());
    tx.send(Ok(())).unwrap();
    let received = handle.into_completion().blocking_recv();
    assert!(RemoteTransferHandle::wait_result(received).is_ok());

    let (tx, rx) = oneshot::channel::<Result<(), TransferError>>();
    let handle = RemoteTransferHandle::new(rx, CancellationToken::new());
    drop(tx);
    let received = handle.into_completion().blocking_recv();
    let outcome = RemoteTransferHandle::wait_result(received);
    assert_eq!(
        outcome.unwrap_err().message(),
        "Transfer execution failed: Transfer task dropped"
    );
}
