//! Transfers that involve remote storage: which blocks take part, and the order
//! of the two stages when data goes by way of bounce buffers.
use vstd::prelude::*;

use crate::remote::{
    RemoteBlockDescriptor, RemoteStorageKind, RemoteTransferDirection, RemoteTransferPipeline,
};
use crate::transfer::TransferError;

verus! {

/// A remote transfer that is ready to run, with the blocks that it needs.
#[derive(Debug)]
pub enum RemotePlan<HB, DB> {
    /// There is nothing to move; the transfer is complete.
    Nothing,
    /// Between remote storage and host blocks.
    Direct {
        direction: RemoteTransferDirection,
        kind: RemoteStorageKind,
        descriptors: Vec<RemoteBlockDescriptor>,
        host_blocks: Vec<HB>,
    },
    /// Between remote storage and device blocks, through bounce blocks.
    Pipeline {
        direction: RemoteTransferDirection,
        kind: RemoteStorageKind,
        descriptors: Vec<RemoteBlockDescriptor>,
        bounce_blocks: Vec<HB>,
        device_blocks: Vec<DB>,
    },
}

/// Whether `copies` are clones of the blocks with these ids, in their order.
pub open spec fn selected<B: Clone>(ids: Seq<usize>, blocks: Seq<B>, copies: Seq<B>) -> bool {
    &&& copies.len() == ids.len()
    &&& forall|i: int|
        0 <= i < ids.len() ==> ids[i] < blocks.len() && cloned(
            blocks[ids[i] as int],
            #[trigger] copies[i],
        )
}

/// Whether every id names a block.
pub open spec fn all_valid(ids: Seq<usize>, count: nat) -> bool {
    forall|i: int| 0 <= i < ids.len() ==> #[trigger] ids[i] < count
}

/// Whether all descriptors have the storage kind of the first.
pub open spec fn same_kind(descriptors: Seq<RemoteBlockDescriptor>) -> bool {
    forall|i: int|
        0 <= i < descriptors.len() ==> (#[trigger] descriptors[i])@.key.storage_kind()
            == descriptors[0]@.key.storage_kind()
}

/// The blocks with the given ids, unless an id names no block.
pub fn select_blocks<B: Clone>(ids: &[usize], blocks: &[B]) -> (selection: Option<Vec<B>>)
    ensures
        selection is Some <==> all_valid(ids@, blocks@.len()),
        selection matches Some(copies) ==> selected(ids@, blocks@, copies@),
{
    let mut copies: Vec<B> = Vec::new();
    let mut i: usize = 0;
    while i < ids.len()
        invariant
            i <= ids@.len(),
            copies@.len() == i,
            forall|k: int| 0 <= k < i ==> #[trigger] ids@[k] < blocks@.len(),
            forall|k: int|
                0 <= k < i ==> cloned(blocks@[ids@[k] as int], #[trigger] copies@[k]),
        decreases ids@.len() - i,
    {
        let id: usize = ids[i];
        if id >= blocks.len() {
            return None;
        }
        let copy = blocks[id].clone();
        copies.push(copy);
        i = i + 1;
    }
    Some(copies)
}

/// Clones of all blocks, in their order.
fn copy_blocks<B: Clone>(blocks: &[B]) -> (copies: Vec<B>)
    ensures
        copies@.len() == blocks@.len(),
        forall|i: int| 0 <= i < blocks@.len() ==> cloned(blocks@[i], #[trigger] copies@[i]),
{
    let mut copies: Vec<B> = Vec::new();
    let mut i: usize = 0;
    while i < blocks.len()
        invariant
            i <= blocks@.len(),
            copies@.len() == i,
            forall|k: int| 0 <= k < i ==> cloned(blocks@[k], #[trigger] copies@[k]),
        decreases blocks@.len() - i,
    {
        let copy = blocks[i].clone();
        copies.push(copy);
        i = i + 1;
    }
    copies
}

/// The first reason, if any, why a pipeline cannot run on these blocks.
pub enum RemoteFault {
    MixedKinds,
    NoDeviceBlocks,
    BadBounceId,
    BadDeviceId,
}

/// The first reason, if any, why a pipeline cannot run on so many host blocks and
/// device blocks.
pub open spec fn remote_fault(
    pipeline: RemoteTransferPipeline,
    host_count: nat,
    device_count: Option<nat>,
) -> Option<RemoteFault> {
    if pipeline.blocks().len() == 0 {
        None
    } else if !same_kind(pipeline.blocks()) {
        Some(RemoteFault::MixedKinds)
    } else {
        match pipeline {
            RemoteTransferPipeline::Direct { .. } => None,
            RemoteTransferPipeline::WithBounce { bounce_block_ids, device_block_ids, .. } => {
                if device_count is None {
                    Some(RemoteFault::NoDeviceBlocks)
                } else if !all_valid(bounce_block_ids@, host_count) {
                    Some(RemoteFault::BadBounceId)
                } else if !all_valid(device_block_ids@, device_count->0) {
                    Some(RemoteFault::BadDeviceId)
                } else {
                    None
                }
            },
        }
    }
}

/// Whether `error` reports `fault`.
pub open spec fn reports(error: TransferError, fault: RemoteFault) -> bool {
    match fault {
        RemoteFault::MixedKinds => error matches TransferError::IncompatibleTypes(reason)
            && reason@ == "All remote descriptors must have the same storage kind"@,
        RemoteFault::NoDeviceBlocks => error matches TransferError::IncompatibleTypes(reason)
            && reason@ == "Device blocks required for pipeline with bounce"@,
        RemoteFault::BadBounceId => error matches TransferError::ExecutionError(reason) && reason@
            == "Invalid bounce block ID"@,
        RemoteFault::BadDeviceId => error matches TransferError::ExecutionError(reason) && reason@
            == "Invalid device block ID"@,
    }
}

/// Whether `plan` runs `pipeline` on clones of the right blocks.
pub open spec fn plans<HB: Clone, DB: Clone>(
    plan: RemotePlan<HB, DB>,
    pipeline: RemoteTransferPipeline,
    host: Seq<HB>,
    device: Option<Seq<DB>>,
) -> bool {
    match plan {
        RemotePlan::Nothing => pipeline.blocks().len() == 0,
        RemotePlan::Direct { direction, kind, descriptors, host_blocks } => {
            &&& pipeline.blocks().len() > 0
            &&& pipeline is Direct
            &&& direction == pipeline.way()
            &&& descriptors@ == pipeline.blocks()
            &&& kind == descriptors@[0]@.key.storage_kind()
            &&& host_blocks@.len() == host.len()
            &&& forall|i: int|
                0 <= i < host.len() ==> cloned(host[i], #[trigger] host_blocks@[i])
        },
        RemotePlan::Pipeline { direction, kind, descriptors, bounce_blocks, device_blocks } => {
            &&& pipeline.blocks().len() > 0
            &&& pipeline is WithBounce
            &&& direction == pipeline.way()
            &&& descriptors@ == pipeline.blocks()
            &&& kind == descriptors@[0]@.key.storage_kind()
            &&& selected(pipeline->bounce_block_ids@, host, bounce_blocks@)
            &&& selected(pipeline->device_block_ids@, device->0, device_blocks@)
        },
    }
}

/// Whether all descriptors have the storage kind of the first.
fn has_same_kind(descriptors: &[RemoteBlockDescriptor]) -> (same: bool)
    ensures
        same == same_kind(descriptors@),
{
    let mut i: usize = 0;
    while i < descriptors.len()
        invariant
            i <= descriptors@.len(),
            forall|k: int|
                0 <= k < i ==> (#[trigger] descriptors@[k])@.key.storage_kind()
                    == descriptors@[0]@.key.storage_kind(),
        decreases descriptors@.len() - i,
    {
        if descriptors[i].kind() != descriptors[0].kind() {
            return false;
        }
        i = i + 1;
    }
    true
}

/// Prepares a transfer that involves remote storage.
///
/// * `pipeline` - The transfer pipeline (direct or with bounce)
/// * `host_blocks` - Host blocks (bounce buffers for pipeline mode, source/dest for direct)
/// * `device_blocks` - Device blocks (only for pipeline mode with bounce)
pub fn handle_remote_transfer<HB: Clone, DB: Clone>(
    pipeline: RemoteTransferPipeline,
    host_blocks: &[HB],
    device_blocks: Option<&[DB]>,
) -> (planned: Result<RemotePlan<HB, DB>, TransferError>)
    ensures
        ({
            let device_count = match device_blocks {
                Some(blocks) => Some(blocks@.len()),
                None => None,
            };
            let device = match device_blocks {
                Some(blocks) => Some(blocks@),
                None => None,
            };
            let fault = remote_fault(pipeline, host_blocks@.len(), device_count);
            match planned {
                Ok(plan) => fault is None && plans(plan, pipeline, host_blocks@, device),
                Err(error) => fault is Some && reports(error, fault->0),
            }
        }),
{
    let descriptors = pipeline.descriptors();
    if descriptors.len() == 0 {
        return Ok(RemotePlan::Nothing);
    }
    let kind = descriptors[0].kind();
    if !has_same_kind(descriptors) {
        return Err(
            TransferError::IncompatibleTypes(
                "All remote descriptors must have the same storage kind".to_owned(),
            ),
        );
    }
    match pipeline {
        RemoteTransferPipeline::Direct { direction, remote_descriptors } => Ok(
            RemotePlan::Direct {
                direction,
                kind,
                descriptors: remote_descriptors,
                host_blocks: copy_blocks(host_blocks),
            },
        ),
        RemoteTransferPipeline::WithBounce {
            direction,
            remote_descriptors,
            bounce_block_ids,
            device_block_ids,
        } => {
            let device_blocks = match device_blocks {
                Some(blocks) => blocks,
                None => {
                    return Err(
                        TransferError::IncompatibleTypes(
                            "Device blocks required for pipeline with bounce".to_owned(),
                        ),
                    );
                },
            };
            let bounce = match select_blocks(bounce_block_ids.as_slice(), host_blocks) {
                Some(copies) => copies,
                None => {
                    return Err(
                        TransferError::ExecutionError("Invalid bounce block ID".to_owned()),
                    );
                },
            };
            let device = match select_blocks(device_block_ids.as_slice(), device_blocks) {
                Some(copies) => copies,
                None => {
                    return Err(
                        TransferError::ExecutionError("Invalid device block ID".to_owned()),
                    );
                },
            };
            Ok(
                RemotePlan::Pipeline {
                    direction,
                    kind,
                    descriptors: remote_descriptors,
                    bounce_blocks: bounce,
                    device_blocks: device,
                },
            )
        },
    }
}

/// One of the two stages of a pipeline with bounce buffers.
#[derive(Debug, Clone, Copy, PartialEq, Eq, Structural)]
pub enum PipelineStage {
    /// Between remote storage and the bounce blocks.
    Remote,
    /// Between the bounce blocks and the device blocks.
    Local,
}

/// How a stage ended.
#[derive(Debug)]
pub enum StageOutcome {
    Done,
    Failed(TransferError),
    /// A local stage went away without reporting.
    ChannelClosed,
}

/// What to do next in a pipeline with bounce buffers.
#[derive(Debug)]
pub enum PipelineAction {
    Run(PipelineStage),
    Finish(Result<(), TransferError>),
}

/// The stage that comes first.
pub open spec fn first_stage(direction: RemoteTransferDirection) -> PipelineStage {
    match direction {
        RemoteTransferDirection::Onboard => PipelineStage::Remote,
        RemoteTransferDirection::Offload => PipelineStage::Local,
    }
}

/// The stage that comes second.
pub open spec fn second_stage(direction: RemoteTransferDirection) -> PipelineStage {
    match direction {
        RemoteTransferDirection::Onboard => PipelineStage::Local,
        RemoteTransferDirection::Offload => PipelineStage::Remote,
    }
}

/// What is said when a local stage goes away without reporting.
pub open spec fn channel_closed_text(direction: RemoteTransferDirection) -> Seq<char> {
    match direction {
        RemoteTransferDirection::Onboard => "H2D transfer channel closed"@,
        RemoteTransferDirection::Offload => "D2H transfer channel closed"@,
    }
}

/// Whether a pipeline that ran a stage with this outcome fails with `error`.
pub open spec fn fails_with(
    direction: RemoteTransferDirection,
    outcome: StageOutcome,
    error: TransferError,
) -> bool {
    match outcome {
        StageOutcome::Done => false,
        StageOutcome::Failed(reason) => error == reason,
        StageOutcome::ChannelClosed => error matches TransferError::ExecutionError(reason)
            && reason@ == channel_closed_text(direction),
    }
}

/// The error of a stage.
fn stage_result(direction: RemoteTransferDirection, outcome: StageOutcome) -> (result: Result<
    (),
    TransferError,
>)
    ensures
        match result {
            Ok(_) => outcome is Done,
            Err(error) => fails_with(direction, outcome, error),
        },
{
    match outcome {
        StageOutcome::Done => Ok(()),
        StageOutcome::Failed(error) => Err(error),
        StageOutcome::ChannelClosed => {
            let reason = match direction {
                RemoteTransferDirection::Onboard => "H2D transfer channel closed",
                RemoteTransferDirection::Offload => "D2H transfer channel closed",
            };
            Err(TransferError::ExecutionError(reason.to_owned()))
        },
    }
}

/// Begins a pipeline: remote storage first when blocks are onboarded, the device
/// first when they are offloaded.
pub fn begin_pipeline(direction: RemoteTransferDirection) -> (action: PipelineAction)
    ensures
        action == PipelineAction::Run(first_stage(direction)),
{
    match direction {
        RemoteTransferDirection::Onboard => PipelineAction::Run(PipelineStage::Remote),
        RemoteTransferDirection::Offload => PipelineAction::Run(PipelineStage::Local),
    }
}

/// Whether `action` is the right one after the first stage.
pub open spec fn continues_with(
    direction: RemoteTransferDirection,
    outcome: StageOutcome,
    cancelled: bool,
    action: PipelineAction,
) -> bool {
    match action {
        PipelineAction::Run(stage) => outcome is Done && !cancelled && stage == second_stage(
            direction,
        ),
        PipelineAction::Finish(Ok(_)) => false,
        PipelineAction::Finish(Err(error)) => {
            ||| outcome is Done && cancelled && error is Cancelled
            ||| fails_with(direction, outcome, error)
        },
    }
}

/// Whether `result` is the right one after the second stage.
pub open spec fn ends_with(
    direction: RemoteTransferDirection,
    outcome: StageOutcome,
    result: Result<(), TransferError>,
) -> bool {
    match result {
        Ok(_) => outcome is Done,
        Err(error) => fails_with(direction, outcome, error),
    }
}

/// Goes on after the first stage. A cancellation that was requested by now stops
/// the pipeline before its second stage.
pub fn after_first_stage(
    direction: RemoteTransferDirection,
    outcome: StageOutcome,
    cancelled: bool,
) -> (action: PipelineAction)
    ensures
        continues_with(direction, outcome, cancelled, action),
{
    match stage_result(direction, outcome) {
        Err(error) => PipelineAction::Finish(Err(error)),
        Ok(_) => if cancelled {
            PipelineAction::Finish(Err(TransferError::Cancelled))
        } else {
            match direction {
                RemoteTransferDirection::Onboard => PipelineAction::Run(PipelineStage::Local),
                RemoteTransferDirection::Offload => PipelineAction::Run(PipelineStage::Remote),
            }
        },
    }
}

/// Ends a pipeline after the second stage.
pub fn after_second_stage(
    direction: RemoteTransferDirection,
    outcome: StageOutcome,
) -> (result: Result<(), TransferError>)
    ensures
        ends_with(direction, outcome, result),
{
    stage_result(direction, outcome)
}

/// The two stages are different ones, and the second only runs once the first is
/// done and no cancellation was requested: a device block is written only after
/// the data came from remote storage, and remote storage is written only after the
/// data came from the device.
pub proof fn the_second_stage_waits_for_the_first(
    direction: RemoteTransferDirection,
    first: StageOutcome,
    cancelled: bool,
    action: PipelineAction,
)
    requires
        continues_with(direction, first, cancelled, action),
        action is Run,
    ensures
        first is Done,
        !cancelled,
        action->Run_0 != first_stage(direction),
        direction == RemoteTransferDirection::Onboard ==> action->Run_0 == PipelineStage::Local,
        direction == RemoteTransferDirection::Offload ==> action->Run_0 == PipelineStage::Remote,
{
}

/// A pipeline that was cancelled between its stages ends as cancelled, unless the
/// first stage had failed already.
pub proof fn cancellation_between_stages_ends_the_pipeline(
    direction: RemoteTransferDirection,
    first: StageOutcome,
    action: PipelineAction,
)
    requires
        continues_with(direction, first, true, action),
    ensures
        action matches PipelineAction::Finish(Err(_)),
        first is Done ==> (action matches PipelineAction::Finish(Err(error)) && error is Cancelled),
{
}

/// A pipeline succeeds exactly when both of its stages do and nobody cancelled in
/// between.
pub proof fn a_pipeline_succeeds_exactly_when_both_stages_do(
    direction: RemoteTransferDirection,
    first: StageOutcome,
    cancelled: bool,
    action: PipelineAction,
    second: StageOutcome,
    result: Result<(), TransferError>,
)
    requires
        continues_with(direction, first, cancelled, action),
        match action {
            PipelineAction::Run(_) => ends_with(direction, second, result),
            PipelineAction::Finish(r) => result == r,
        },
    ensures
        result is Ok <==> first is Done && !cancelled && second is Done,
{
}

/// A planned pipeline moves between the blocks that its ids name: the bounce block and
/// the device block of each id, in the order of the ids, and as many as there are ids.
pub proof fn a_pipeline_uses_the_named_blocks<HB: Clone, DB: Clone>(
    pipeline: RemoteTransferPipeline,
    host: Seq<HB>,
    device: Seq<DB>,
    direction: RemoteTransferDirection,
    kind: RemoteStorageKind,
    descriptors: Vec<RemoteBlockDescriptor>,
    bounce_blocks: Vec<HB>,
    device_blocks: Vec<DB>,
    i: int,
)
    requires
        plans(
            RemotePlan::Pipeline { direction, kind, descriptors, bounce_blocks, device_blocks },
            pipeline,
            host,
            Some(device),
        ),
    ensures
        pipeline matches RemoteTransferPipeline::WithBounce {
            direction: way,
            remote_descriptors,
            bounce_block_ids,
            device_block_ids,
        } && {
            &&& direction == way
            &&& descriptors@ == remote_descriptors@
            &&& bounce_blocks@.len() == bounce_block_ids@.len()
            &&& device_blocks@.len() == device_block_ids@.len()
            &&& 0 <= i < bounce_block_ids@.len() ==> bounce_block_ids@[i] < host.len() && cloned(
                host[bounce_block_ids@[i] as int],
                bounce_blocks@[i],
            )
            &&& 0 <= i < device_block_ids@.len() ==> device_block_ids@[i] < device.len() && cloned(
                device[device_block_ids@[i] as int],
                device_blocks@[i],
            )
        },
{
    if 0 <= i < bounce_blocks@.len() {
        assert(cloned(host[pipeline->bounce_block_ids@[i] as int], bounce_blocks@[i]));
    }
    if 0 <= i < device_blocks@.len() {
        assert(cloned(device[pipeline->device_block_ids@[i] as int], device_blocks@[i]));
    }
}

/// A planned direct transfer takes every host block, in its order, and every
/// descriptor.
pub proof fn a_direct_transfer_uses_all_host_blocks<HB: Clone, DB: Clone>(
    pipeline: RemoteTransferPipeline,
    host: Seq<HB>,
    device: Option<Seq<DB>>,
    direction: RemoteTransferDirection,
    kind: RemoteStorageKind,
    descriptors: Vec<RemoteBlockDescriptor>,
    host_blocks: Vec<HB>,
    i: int,
)
    requires
        plans(
            RemotePlan::<HB, DB>::Direct { direction, kind, descriptors, host_blocks },
            pipeline,
            host,
            device,
        ),
    ensures
        pipeline matches RemoteTransferPipeline::Direct { direction: way, remote_descriptors } && {
            &&& direction == way
            &&& descriptors@ == remote_descriptors@
            &&& host_blocks@.len() == host.len()
            &&& 0 <= i < host.len() ==> cloned(host[i], host_blocks@[i])
        },
{
    if 0 <= i < host.len() {
        assert(cloned(host[i], host_blocks@[i]));
    }
}

/// A transfer that can run has descriptors of one storage kind only, which is the kind
/// of its plan.
pub proof fn a_planned_transfer_has_one_storage_kind<HB: Clone, DB: Clone>(
    plan: RemotePlan<HB, DB>,
    pipeline: RemoteTransferPipeline,
    host: Seq<HB>,
    device: Option<Seq<DB>>,
    device_count: Option<nat>,
    i: int,
)
    requires
        plans(plan, pipeline, host, device),
        remote_fault(pipeline, host.len(), device_count) is None,
        0 <= i < pipeline.blocks().len(),
    ensures
        ({
            let key = pipeline.blocks()[i]@.key;
            match plan {
                RemotePlan::Nothing => false,
                RemotePlan::Direct { kind, .. } => kind == RemoteStorageKind::Object <==> key is Object,
                RemotePlan::Pipeline { kind, .. } => kind == RemoteStorageKind::Object
                    <==> key is Object,
            }
        }),
{
    assert(pipeline.blocks()[i]@.key.storage_kind() == pipeline.blocks()[0]@.key.storage_kind());
}

/// A transfer is refused exactly when there is something to move and its descriptors
/// have different kinds, or device blocks are missing, or an id names no block; it is
/// refused for the first of these.
pub proof fn a_transfer_is_refused_for_the_first_fault(
    direction: RemoteTransferDirection,
    remote_descriptors: Vec<RemoteBlockDescriptor>,
    bounce_block_ids: Vec<usize>,
    device_block_ids: Vec<usize>,
    host_count: nat,
    device_count: Option<nat>,
)
    ensures
        ({
            let mixed = exists|i: int, j: int|
                0 <= i < remote_descriptors@.len() && 0 <= j < remote_descriptors@.len()
                    && (#[trigger] remote_descriptors@[i])@.key is Object && (
                #[trigger] remote_descriptors@[j])@.key is Disk;
            let bad_bounce = exists|i: int|
                0 <= i < bounce_block_ids@.len() && #[trigger] bounce_block_ids@[i] >= host_count;
            let bad_device = exists|i: int|
                0 <= i < device_block_ids@.len() && #[trigger] device_block_ids@[i]
                    >= device_count->0;
            let direct = remote_fault(
                RemoteTransferPipeline::Direct { direction, remote_descriptors },
                host_count,
                device_count,
            );
            let bounced = remote_fault(
                RemoteTransferPipeline::WithBounce {
                    direction,
                    remote_descriptors,
                    bounce_block_ids,
                    device_block_ids,
                },
                host_count,
                device_count,
            );
            &&& direct == (if mixed {
                Some(RemoteFault::MixedKinds)
            } else {
                None
            })
            &&& bounced == (if remote_descriptors@.len() == 0 {
                None
            } else if mixed {
                Some(RemoteFault::MixedKinds)
            } else if device_count is None {
                Some(RemoteFault::NoDeviceBlocks)
            } else if bad_bounce {
                Some(RemoteFault::BadBounceId)
            } else if bad_device {
                Some(RemoteFault::BadDeviceId)
            } else {
                None
            })
        }),
{
    let all = remote_descriptors@;
    if all.len() > 0 {
        if same_kind(all) {
            assert forall|i: int, j: int|
                0 <= i < all.len() && 0 <= j < all.len() && (#[trigger] all[i])@.key
                    is Object implies !((#[trigger] all[j])@.key is Disk) by {
                assert(all[i]@.key.storage_kind() == all[0]@.key.storage_kind());
                assert(all[j]@.key.storage_kind() == all[0]@.key.storage_kind());
            }
        } else {
            let i = choose|i: int|
                0 <= i < all.len() && (#[trigger] all[i])@.key.storage_kind()
                    != all[0]@.key.storage_kind();
            if all[0]@.key is Object {
                assert(all[0]@.key is Object && all[i]@.key is Disk);
            } else {
                assert(all[i]@.key is Object && all[0]@.key is Disk);
            }
        }
    }
    if !all_valid(bounce_block_ids@, host_count) {
        let i = choose|i: int|
            0 <= i < bounce_block_ids@.len() && !(#[trigger] bounce_block_ids@[i] < host_count);
        assert(bounce_block_ids@[i] >= host_count);
    }
    if device_count is Some && !all_valid(device_block_ids@, device_count->0) {
        let i = choose|i: int|
            0 <= i < device_block_ids@.len() && !(#[trigger] device_block_ids@[i]
                < device_count->0);
        assert(device_block_ids@[i] >= device_count->0);
    }
}

/// Onboarding brings data from remote storage into the bounce blocks before it goes to
/// the device; offloading goes the other way round. Each stage is run once.
pub proof fn the_stages_follow_the_data(direction: RemoteTransferDirection)
    ensures
        first_stage(direction) != second_stage(direction),
        first_stage(direction) == PipelineStage::Remote <==> direction
            == RemoteTransferDirection::Onboard,
        second_stage(direction) == PipelineStage::Remote <==> direction
            == RemoteTransferDirection::Offload,
{
}

/// A failed stage ends the pipeline with its own error, whether it was the first or the
/// second and whether or not somebody cancelled.
pub proof fn the_error_of_a_stage_is_that_of_the_pipeline(
    direction: RemoteTransferDirection,
    error: TransferError,
    cancelled: bool,
    action: PipelineAction,
    result: Result<(), TransferError>,
)
    requires
        continues_with(direction, StageOutcome::Failed(error), cancelled, action),
        ends_with(direction, StageOutcome::Failed(error), result),
    ensures
        action == PipelineAction::Finish(Err(error)),
        result == Err::<(), TransferError>(error),
{
}

/// A local stage that goes away without reporting ends the pipeline with an error that
/// names the copy it was to make: to the device when blocks are onboarded, to the host
/// when they are offloaded.
pub proof fn a_stage_that_goes_away_is_named(
    direction: RemoteTransferDirection,
    cancelled: bool,
    action: PipelineAction,
    result: Result<(), TransferError>,
)
    requires
        continues_with(direction, StageOutcome::ChannelClosed, cancelled, action),
        ends_with(direction, StageOutcome::ChannelClosed, result),
    ensures
        action is Finish && action->Finish_0 is Err && action->Finish_0->Err_0 is ExecutionError,
        result is Err && result->Err_0 is ExecutionError,
        action->Finish_0->Err_0->ExecutionError_0@ == result->Err_0->ExecutionError_0@,
        direction == RemoteTransferDirection::Onboard ==> result->Err_0->ExecutionError_0@
            == "H2D transfer channel closed"@,
        direction == RemoteTransferDirection::Offload ==> result->Err_0->ExecutionError_0@
            == "D2H transfer channel closed"@,
{
}

/// Each reason to refuse a pipeline is told with a text of its own: a pipeline that does
/// not fit its blocks has incompatible types, an id that names no block fails to run.
pub proof fn a_fault_is_told_with_its_reason(error: TransferError, fault: RemoteFault)
    requires
        reports(error, fault),
    ensures
        fault is MixedKinds || fault is NoDeviceBlocks ==> error is IncompatibleTypes,
        fault is BadBounceId || fault is BadDeviceId ==> error is ExecutionError,
        fault is MixedKinds ==> error->IncompatibleTypes_0@
            == "All remote descriptors must have the same storage kind"@,
        fault is NoDeviceBlocks ==> error->IncompatibleTypes_0@
            == "Device blocks required for pipeline with bounce"@,
        fault is BadBounceId ==> error->ExecutionError_0@ == "Invalid bounce block ID"@,
        fault is BadDeviceId ==> error->ExecutionError_0@ == "Invalid device block ID"@,
{
}

} // verus!
