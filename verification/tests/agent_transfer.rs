use dynamo_llm::agent_transfer::{
    execute_remote_transfer, show_key, HostRegion, RemoteTransfer, TransferAction, TransferEvent,
    POLL_INTERVAL_MICROS,
};
use dynamo_llm::nixl::{MemType, XferDesc};
use dynamo_llm::remote::{
    RemoteBlockDescriptor, RemoteKey, RemoteStorageKind, RemoteTransferDirection,
};
use dynamo_llm::strategy::XferOp;
use dynamo_llm::transfer::{BlockError, TransferError};

type Region = Result<HostRegion, BlockError>;

fn region(addr: usize, size: usize) -> Region {
    Ok(HostRegion { addr, size })
}

fn unreachable_block(reason: &str) -> Region {
    Err(BlockError::View(reason.to_string()))
}

fn begin(
    kind: RemoteStorageKind,
    descriptors: Vec<RemoteBlockDescriptor>,
    locals: Vec<Region>,
) -> (RemoteTransfer, TransferAction) {
    execute_remote_transfer(
        RemoteTransferDirection::Offload,
        kind,
        descriptors,
        locals,
        false,
        true,
    )
}

fn begin_disk() -> (RemoteTransfer, TransferAction) {
    begin(
        RemoteStorageKind::Disk,
        vec![RemoteBlockDescriptor::disk("/mnt", "a", 4)],
        vec![region(1000, 64)],
    )
}

fn objects(hashes: &[u64]) -> Vec<RemoteBlockDescriptor> {
    hashes.iter().map(|h| RemoteBlockDescriptor::object_from_hash("bucket", *h, 64)).collect()
}

fn outcome(action: TransferAction) -> Result<(), TransferError> {
    match action {
        TransferAction::Finish(result) => result,
        _ => panic!("not finished"),
    }
}

fn failure(action: TransferAction) -> String {
    outcome(action).unwrap_err().message()
}

fn lists_created(action: &TransferAction, memory: MemType) -> bool {
    match action {
        TransferAction::CreateLists { local_memory, remote_memory } => {
            *local_memory == MemType::Dram && *remote_memory == memory
        }
        _ => false,
    }
}

#[test]
fn objects_are_registered_one_by_one() {
    let (mut transfer, action) = begin(
        RemoteStorageKind::Object,
        objects(&[7, 9]),
        vec![region(1000, 64), region(2000, 32)],
    );
    match action {
        TransferAction::RegisterObject { bucket, object_key, size } => {
            assert_eq!((bucket.as_str(), object_key, size), ("bucket", 7, 64));
        }
        _ => panic!("not registered"),
    }
    match transfer.advance(TransferEvent::Registered) {
        TransferAction::RegisterObject { bucket, object_key, size } => {
            assert_eq!((bucket.as_str(), object_key, size), ("bucket", 9, 64));
        }
        _ => panic!("not registered"),
    }
    let action = transfer.advance(TransferEvent::Registered);
    assert!(lists_created(&action, MemType::Object));
    match transfer.advance(TransferEvent::ListsCreated) {
        TransferAction::Submit { op, local, remote } => {
            assert_eq!(op, XferOp::Write);
            assert_eq!(
                local,
                vec![
                    XferDesc { addr: 1000, size: 64, device_id: 0 },
                    XferDesc { addr: 2000, size: 64, device_id: 0 },
                ]
            );
            assert_eq!(
                remote,
                vec![
                    XferDesc { addr: 0, size: 64, device_id: 7 },
                    XferDesc { addr: 0, size: 64, device_id: 9 },
                ]
            );
        }
        _ => panic!("not submitted"),
    }
    assert!(matches!(
        transfer.advance(TransferEvent::Posted { still_pending: true }),
        TransferAction::Poll
    ));
    assert!(matches!(transfer.advance(TransferEvent::InProgress), TransferAction::Poll));
    assert!(outcome(transfer.advance(TransferEvent::Succeeded)).is_ok());
    assert_eq!(POLL_INTERVAL_MICROS, 100);
}

#[test]
fn disk_blocks_are_named_by_the_hash_of_their_key() {
    let key = RemoteKey::disk("/mnt", "a");
    let (mut transfer, action) = execute_remote_transfer(
        RemoteTransferDirection::Onboard,
        RemoteStorageKind::Disk,
        vec![RemoteBlockDescriptor::new(key.clone(), 4)],
        vec![region(1000, 64)],
        false,
        true,
    );
    assert!(lists_created(&action, MemType::File));
    match transfer.advance(TransferEvent::ListsCreated) {
        TransferAction::Submit { op, local, remote } => {
            assert_eq!(op, XferOp::Read);
            assert_eq!(local, vec![XferDesc { addr: 1000, size: 64, device_id: 0 }]);
            assert_eq!(
                remote,
                vec![XferDesc { addr: 0, size: 64, device_id: key.nixl_device_id() }]
            );
        }
        _ => panic!("not submitted"),
    }
    let action = transfer.advance(TransferEvent::Posted { still_pending: false });
    assert!(outcome(action).is_ok());
}

#[test]
fn the_first_check_that_fails_decides() {
    let (_, action) = begin(RemoteStorageKind::Object, vec![], vec![region(1, 1)]);
    assert!(outcome(action).is_ok());
    let (_, action) = begin(RemoteStorageKind::Object, objects(&[1]), vec![]);
    assert!(outcome(action).is_ok());

    let start = |locals: Vec<Region>, cancelled: bool, agent: bool| {
        let (_, action) = execute_remote_transfer(
            RemoteTransferDirection::Offload,
            RemoteStorageKind::Object,
            objects(&[1]),
            locals,
            cancelled,
            agent,
        );
        failure(action)
    };
    assert_eq!(
        start(vec![region(1, 1), region(2, 1)], true, false),
        "Mismatched source/destination counts: 1 sources, 2 destinations"
    );
    assert_eq!(start(vec![unreachable_block("x")], true, false), "Transfer was cancelled");
    assert_eq!(
        start(vec![unreachable_block("x")], false, false),
        "Transfer execution failed: NIXL agent not available"
    );
    assert_eq!(
        start(vec![unreachable_block("x")], false, true),
        "Block operation failed: x"
    );
}

#[test]
fn objects_need_an_object_key_and_a_hash() {
    let disk = vec![RemoteBlockDescriptor::disk_from_hash("/mnt", 1, 4)];
    let (_, action) = begin(RemoteStorageKind::Object, disk, vec![region(1, 1)]);
    assert_eq!(
        failure(action),
        "Incompatible block types provided: Expected Object key for object storage transfer"
    );

    let mut descriptors = objects(&[1]);
    descriptors.push(RemoteBlockDescriptor::object("bu\"cket", "k", 4));
    let (mut transfer, _) =
        begin(RemoteStorageKind::Object, descriptors, vec![region(1, 1), region(2, 1)]);
    let shown = format!("{:?}", RemoteKey::object("bu\"cket", "k"));
    assert_eq!(
        failure(transfer.advance(TransferEvent::Registered)),
        format!("Transfer execution failed: Descriptor missing sequence_hash: {}", shown)
    );
}

#[test]
fn keys_are_shown_as_debug_shows_them() {
    for key in [
        RemoteKey::object("bucket", "key"),
        RemoteKey::object("quote \" and \\", "line\nbreak"),
        RemoteKey::disk("/mnt/\u{e9}", "\u{0}\t"),
    ] {
        assert_eq!(show_key(&key), format!("{:?}", key));
    }
}

#[test]
fn a_later_unreachable_block_stops_the_transfer() {
    let (mut transfer, _) = begin(
        RemoteStorageKind::Disk,
        vec![
            RemoteBlockDescriptor::disk("/mnt", "a", 4),
            RemoteBlockDescriptor::disk("/mnt", "b", 4),
            RemoteBlockDescriptor::disk("/mnt", "c", 4),
        ],
        vec![region(1, 1), unreachable_block("second"), unreachable_block("third")],
    );
    assert_eq!(
        failure(transfer.advance(TransferEvent::ListsCreated)),
        "Block operation failed: second"
    );
}

#[test]
fn registering_can_fail() {
    let (mut transfer, _) =
        begin(RemoteStorageKind::Object, objects(&[1]), vec![region(1, 1)]);
    assert_eq!(
        failure(transfer.advance(TransferEvent::StorageFailed("no".to_string()))),
        "Transfer execution failed: Failed to create ObjectStorage: no"
    );
    let (mut transfer, _) =
        begin(RemoteStorageKind::Object, objects(&[1]), vec![region(1, 1)]);
    assert_eq!(
        failure(transfer.advance(TransferEvent::RegisterFailed("no".to_string()))),
        "Transfer execution failed: Failed to register object storage: no"
    );
}

#[test]
fn the_lists_can_fail() {
    let (mut transfer, _) = begin_disk();
    assert_eq!(
        failure(transfer.advance(TransferEvent::LocalListFailed("no".to_string()))),
        "Transfer execution failed: Failed to create src_dl: no"
    );
    let (mut transfer, _) = begin_disk();
    assert_eq!(
        failure(transfer.advance(TransferEvent::RemoteListFailed("no".to_string()))),
        "Transfer execution failed: Failed to create dst_dl: no"
    );
}

#[test]
fn the_request_can_fail() {
    let (mut transfer, _) = begin_disk();
    transfer.advance(TransferEvent::ListsCreated);
    assert_eq!(
        failure(transfer.advance(TransferEvent::RequestFailed("no".to_string()))),
        "Transfer execution failed: Failed to create xfer_req: no"
    );
    let (mut transfer, _) = begin_disk();
    transfer.advance(TransferEvent::ListsCreated);
    assert_eq!(
        failure(transfer.advance(TransferEvent::PostFailed("no".to_string()))),
        "Transfer execution failed: Failed to post xfer_req: no"
    );
}

#[test]
fn a_running_transfer_can_fail_or_be_cancelled() {
    let polling = || {
        let (mut transfer, _) = begin_disk();
        transfer.advance(TransferEvent::ListsCreated);
        transfer.advance(TransferEvent::Posted { still_pending: true });
        transfer
    };
    assert_eq!(
        failure(polling().advance(TransferEvent::StatusFailed("no".to_string()))),
        "Transfer execution failed: Failed to get transfer status: no"
    );
    assert_eq!(
        failure(polling().advance(TransferEvent::OtherStatus("Stuck".to_string()))),
        "Transfer execution failed: Transfer failed with status: Stuck"
    );
    let error = outcome(polling().advance(TransferEvent::Cancelled)).unwrap_err();
    assert!(error.is_cancelled());
}
