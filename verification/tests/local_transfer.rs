use dynamo_llm::strategy::{
    CudaTransferMode, DeviceStorage, Local, NixlRegisterableStorage, NixlStorage, NixlTransfer,
    PinnedStorage, ReadFromStrategy, ReadableBlock, StorageTypeProvider, SystemStorage,
    TransferStrategy, WritableBlock, WriteToStrategy, XferOp,
};
use dynamo_llm::transfer::{
    handle_local_transfer, resolve_cuda_transfer_mode, BlockError, BlockTarget, LocalStep,
    TransferError,
};

#[test]
fn write_to_strategy() {
    // System to ...
    assert_eq!(
        <SystemStorage as WriteToStrategy<SystemStorage>>::write_to_strategy(),
        TransferStrategy::Memcpy
    );

    assert_eq!(
        <SystemStorage as WriteToStrategy<PinnedStorage>>::write_to_strategy(),
        TransferStrategy::Memcpy
    );

    assert_eq!(
        <SystemStorage as WriteToStrategy<DeviceStorage>>::write_to_strategy(),
        TransferStrategy::CudaBlockingH2D
    );

    assert_eq!(
        <SystemStorage as WriteToStrategy<NixlStorage>>::write_to_strategy(),
        TransferStrategy::Nixl(NixlTransfer::Write)
    );

    // Pinned to ...
    assert_eq!(
        <PinnedStorage as WriteToStrategy<SystemStorage>>::write_to_strategy(),
        TransferStrategy::Memcpy
    );
    assert_eq!(
        <PinnedStorage as WriteToStrategy<PinnedStorage>>::write_to_strategy(),
        TransferStrategy::Memcpy
    );
    assert_eq!(
        <PinnedStorage as WriteToStrategy<DeviceStorage>>::write_to_strategy(),
        TransferStrategy::CudaAsyncH2D
    );
    assert_eq!(
        <PinnedStorage as WriteToStrategy<NixlStorage>>::write_to_strategy(),
        TransferStrategy::Nixl(NixlTransfer::Write)
    );

    // Device to ...
    assert_eq!(
        <DeviceStorage as WriteToStrategy<SystemStorage>>::write_to_strategy(),
        TransferStrategy::CudaBlockingD2H
    );
    assert_eq!(
        <DeviceStorage as WriteToStrategy<PinnedStorage>>::write_to_strategy(),
        TransferStrategy::CudaAsyncD2H
    );
    assert_eq!(
        <DeviceStorage as WriteToStrategy<DeviceStorage>>::write_to_strategy(),
        TransferStrategy::CudaAsyncD2D
    );
    assert_eq!(
        <DeviceStorage as WriteToStrategy<NixlStorage>>::write_to_strategy(),
        TransferStrategy::Nixl(NixlTransfer::Write)
    );
}

struct PinnedBlock;
struct DeviceBlock;
struct RemoteBlock;
struct RegisteredMemory;
struct RegisteredBlock;

impl StorageTypeProvider for PinnedBlock {
    type StorageType = PinnedStorage;
}
impl ReadableBlock for PinnedBlock {}

impl StorageTypeProvider for DeviceBlock {
    type StorageType = DeviceStorage;
}
impl WritableBlock for DeviceBlock {}

impl StorageTypeProvider for RemoteBlock {
    type StorageType = NixlStorage;
}
impl ReadableBlock for RemoteBlock {}

impl Local for RegisteredMemory {}
impl NixlRegisterableStorage for RegisteredMemory {}
impl StorageTypeProvider for RegisteredBlock {
    type StorageType = RegisteredMemory;
}
impl WritableBlock for RegisteredBlock {}

#[test]
fn blocks_are_written_as_their_storage_is() {
    assert_eq!(
        <PinnedBlock as WriteToStrategy<DeviceBlock>>::write_to_strategy(),
        TransferStrategy::CudaAsyncH2D
    );
}

#[test]
fn remote_blocks_are_read_through_nixl() {
    assert_eq!(
        <RegisteredBlock as ReadFromStrategy<RemoteBlock>>::read_from_strategy(),
        TransferStrategy::Nixl(NixlTransfer::Read)
    );
    assert_eq!(NixlTransfer::Read.as_xfer_op(), XferOp::Read);
    assert_eq!(NixlTransfer::Write.as_xfer_op(), XferOp::Write);
}

#[test]
fn scattered_blocks_go_through_the_kernel() {
    for strategy in [TransferStrategy::CudaAsyncH2D, TransferStrategy::CudaAsyncD2H] {
        assert_eq!(resolve_cuda_transfer_mode(strategy, true), CudaTransferMode::Default);
        assert_eq!(resolve_cuda_transfer_mode(strategy, false), CudaTransferMode::Custom);
        assert_eq!(
            handle_local_transfer(strategy, 2, 2, false).unwrap(),
            vec![LocalStep::LaunchKernel, LocalStep::RecordEvent]
        );
        assert_eq!(
            handle_local_transfer(strategy, 2, 2, true).unwrap(),
            vec![
                LocalStep::CudaCopyBlock { index: 0, strategy },
                LocalStep::CudaCopyBlock { index: 1, strategy },
                LocalStep::RecordEvent,
            ]
        );
    }
}

#[test]
fn device_blocks_are_copied_one_by_one() {
    let strategy = TransferStrategy::CudaAsyncD2D;
    for contiguous in [true, false] {
        assert_eq!(
            handle_local_transfer(strategy, 1, 1, contiguous).unwrap(),
            vec![LocalStep::CudaCopyBlock { index: 0, strategy }, LocalStep::RecordEvent]
        );
    }
}

#[test]
fn host_blocks_are_copied_one_by_one() {
    assert_eq!(
        handle_local_transfer(TransferStrategy::Memcpy, 3, 3, true).unwrap(),
        vec![
            LocalStep::CopyBlock { index: 0 },
            LocalStep::CopyBlock { index: 1 },
            LocalStep::CopyBlock { index: 2 },
            LocalStep::Complete,
        ]
    );
}

#[test]
fn nixl_moves_all_blocks_at_once() {
    assert_eq!(
        handle_local_transfer(TransferStrategy::Nixl(NixlTransfer::Write), 5, 5, true).unwrap(),
        vec![LocalStep::StartNixl(NixlTransfer::Write)]
    );
}

#[test]
fn without_blocks_a_transfer_is_complete() {
    assert_eq!(
        handle_local_transfer(TransferStrategy::Invalid, 0, 0, true).unwrap(),
        vec![LocalStep::Complete]
    );
}

#[test]
fn a_transfer_needs_as_many_targets_as_sources() {
    let error = handle_local_transfer(TransferStrategy::Memcpy, 2, 3, true).unwrap_err();
    assert_eq!(
        error.message(),
        "Mismatched source/destination counts: 2 sources, 3 destinations"
    );
    let error = handle_local_transfer(TransferStrategy::Invalid, 0, 3, true).unwrap_err();
    assert!(matches!(error, TransferError::CountMismatch(0, 3)));
}

#[test]
fn blocking_copies_are_not_supported() {
    for (strategy, name) in [
        (TransferStrategy::CudaBlockingH2D, "CudaBlockingH2D"),
        (TransferStrategy::CudaBlockingD2H, "CudaBlockingD2H"),
        (TransferStrategy::Invalid, "Invalid"),
    ] {
        let error = handle_local_transfer(strategy, 1, 1, true).unwrap_err();
        assert_eq!(
            error.message(),
            format!("Incompatible block types provided: Unsupported copy strategy: {}", name)
        );
        assert_eq!(name, format!("{:?}", strategy));
    }
}

#[test]
fn a_block_error_is_a_transfer_error() {
    let error = TransferError::from(BlockError::View("gone".to_string()));
    assert_eq!(error.message(), "Block operation failed: gone");
}

#[test]
fn errors_say_what_went_wrong() {
    for (error, message) in [
        (
            TransferError::BuilderError("no source".to_string()),
            "Builder configuration error: no source",
        ),
        (TransferError::ExecutionError("lost".to_string()), "Transfer execution failed: lost"),
        (
            TransferError::IncompatibleTypes("disk".to_string()),
            "Incompatible block types provided: disk",
        ),
        (
            TransferError::BlockError(BlockError::View("gone".to_string())),
            "Block operation failed: gone",
        ),
        (
            TransferError::BlockError(BlockError::NoSuchLayer { layer: 2, outer: 10 }),
            "Block operation failed: no view of layer 2, outer dimension 10",
        ),
        (TransferError::NoBlocksProvided, "No blocks provided"),
        (
            TransferError::MismatchedBlockSetIndex(BlockTarget::Source, 1, 20),
            "Mismatched Source block set index: 1 != 20",
        ),
        (
            TransferError::MismatchedWorkerID(BlockTarget::Destination, 0, 7),
            "Mismatched Destination worker ID: 0 != 7",
        ),
        (TransferError::Cancelled, "Transfer was cancelled"),
        (TransferError::Other("anything".to_string()), "anything"),
    ] {
        assert_eq!(error.message(), message);
        assert_eq!(error.is_cancelled(), message == "Transfer was cancelled");
    }
}
