use dynamo_llm::remote::{
    RemoteBlockDescriptor, RemoteStorageKind, RemoteTransferDirection, RemoteTransferPipeline,
};
use dynamo_llm::remote_transfer::{
    after_first_stage, after_second_stage, begin_pipeline, handle_remote_transfer, select_blocks,
    PipelineAction, PipelineStage, RemotePlan, StageOutcome,
};
use dynamo_llm::transfer::TransferError;

const ONBOARD: RemoteTransferDirection = RemoteTransferDirection::Onboard;
const OFFLOAD: RemoteTransferDirection = RemoteTransferDirection::Offload;

fn objects(n: u64) -> Vec<RemoteBlockDescriptor> {
    (0..n).map(|hash| RemoteBlockDescriptor::object_from_hash("bucket", hash, 16)).collect()
}

#[test]
fn blocks_are_selected_by_id() {
    let blocks = ["a", "b", "c"];
    assert_eq!(select_blocks(&[2, 0, 2], &blocks), Some(vec!["c", "a", "c"]));
    assert_eq!(select_blocks(&[], &blocks), Some(vec![]));
    assert_eq!(select_blocks(&[0, 3], &blocks), None);
}

#[test]
fn without_descriptors_nothing_is_moved() {
    let pipeline = RemoteTransferPipeline::offload_with_bounce(vec![], vec![9], vec![9]);
    let plan = handle_remote_transfer::<u8, u8>(pipeline, &[], None).unwrap();
    assert!(matches!(plan, RemotePlan::Nothing));
}

#[test]
fn a_direct_transfer_takes_all_host_blocks() {
    let pipeline = RemoteTransferPipeline::offload_direct(objects(2));
    match handle_remote_transfer::<u8, u8>(pipeline, &[7, 8], None).unwrap() {
        RemotePlan::Direct { direction, kind, descriptors, host_blocks } => {
            assert_eq!(direction, OFFLOAD);
            assert_eq!(kind, RemoteStorageKind::Object);
            assert_eq!(descriptors.len(), 2);
            assert_eq!(descriptors[1].sequence_hash(), Some(1));
            assert_eq!(host_blocks, vec![7, 8]);
        }
        _ => panic!("not direct"),
    }
}

#[test]
fn a_pipeline_takes_the_blocks_with_its_ids() {
    let descriptors = vec![RemoteBlockDescriptor::disk("/mnt", "a", 4)];
    let pipeline = RemoteTransferPipeline::onboard_with_bounce(descriptors, vec![1], vec![0]);
    match handle_remote_transfer(pipeline, &["h0", "h1"], Some(&[10, 11][..])).unwrap() {
        RemotePlan::Pipeline { direction, kind, descriptors, bounce_blocks, device_blocks } => {
            assert_eq!(direction, ONBOARD);
            assert_eq!(kind, RemoteStorageKind::Disk);
            assert_eq!(descriptors.len(), 1);
            assert_eq!(bounce_blocks, vec!["h1"]);
            assert_eq!(device_blocks, vec![10]);
        }
        _ => panic!("no pipeline"),
    }
}

#[test]
fn refused_pipelines_say_why() {
    let mut mixed = objects(1);
    mixed.push(RemoteBlockDescriptor::disk("/mnt", "a", 16));
    let pipeline = RemoteTransferPipeline::offload_direct(mixed);
    let error = handle_remote_transfer::<u8, u8>(pipeline, &[1, 2], None).unwrap_err();
    assert_eq!(
        error.message(),
        "Incompatible block types provided: All remote descriptors must have the same storage kind"
    );

    let pipeline = RemoteTransferPipeline::offload_with_bounce(objects(1), vec![5], vec![5]);
    let error = handle_remote_transfer::<u8, u8>(pipeline, &[1], None).unwrap_err();
    assert_eq!(
        error.message(),
        "Incompatible block types provided: Device blocks required for pipeline with bounce"
    );

    let pipeline = RemoteTransferPipeline::offload_with_bounce(objects(1), vec![5], vec![5]);
    let error = handle_remote_transfer::<u8, u8>(pipeline, &[1], Some(&[1][..])).unwrap_err();
    assert_eq!(error.message(), "Transfer execution failed: Invalid bounce block ID");

    let pipeline = RemoteTransferPipeline::offload_with_bounce(objects(1), vec![0], vec![1]);
    let error = handle_remote_transfer::<u8, u8>(pipeline, &[1], Some(&[1][..])).unwrap_err();
    assert_eq!(error.message(), "Transfer execution failed: Invalid device block ID");
}

#[test]
fn onboarding_goes_from_remote_storage_to_the_device() {
    assert!(matches!(begin_pipeline(ONBOARD), PipelineAction::Run(PipelineStage::Remote)));
    assert!(matches!(
        after_first_stage(ONBOARD, StageOutcome::Done, false),
        PipelineAction::Run(PipelineStage::Local)
    ));
    assert!(after_second_stage(ONBOARD, StageOutcome::Done).is_ok());
}

#[test]
fn offloading_goes_from_the_device_to_remote_storage() {
    assert!(matches!(begin_pipeline(OFFLOAD), PipelineAction::Run(PipelineStage::Local)));
    assert!(matches!(
        after_first_stage(OFFLOAD, StageOutcome::Done, false),
        PipelineAction::Run(PipelineStage::Remote)
    ));
    assert!(after_second_stage(OFFLOAD, StageOutcome::Done).is_ok());
}

#[test]
fn a_cancelled_pipeline_has_no_second_stage() {
    for direction in [ONBOARD, OFFLOAD] {
        match after_first_stage(direction, StageOutcome::Done, true) {
            PipelineAction::Finish(Err(error)) => assert!(error.is_cancelled()),
            _ => panic!("not cancelled"),
        }
        let failed = StageOutcome::Failed(TransferError::NoBlocksProvided);
        match after_first_stage(direction, failed, true) {
            PipelineAction::Finish(Err(error)) => {
                assert_eq!(error.message(), "No blocks provided");
            }
            _ => panic!("not failed"),
        }
    }
}

#[test]
fn a_lost_local_stage_is_reported() {
    match after_first_stage(OFFLOAD, StageOutcome::ChannelClosed, false) {
        PipelineAction::Finish(Err(error)) => {
            assert_eq!(error.message(), "Transfer execution failed: D2H transfer channel closed");
        }
        _ => panic!("not failed"),
    }
    let error = after_second_stage(ONBOARD, StageOutcome::ChannelClosed).unwrap_err();
    assert_eq!(error.message(), "Transfer execution failed: H2D transfer channel closed");
    let failed = StageOutcome::Failed(TransferError::Cancelled);
    assert!(after_second_stage(OFFLOAD, failed).unwrap_err().is_cancelled());
}
