//! Transfer errors, and the steps of a transfer between local blocks.
use vstd::prelude::*;
use vstd::string::StringExecFns;

use crate::strategy::{CudaTransferMode, NixlTransfer, TransferStrategy};
use crate::text;

verus! {

/// Which side of a transfer a block is on.
#[derive(Debug, Clone, Copy, PartialEq, Eq, Structural)]
pub enum BlockTarget {
    Source,
    Destination,
}

/// Why the memory of a block could not be reached.
#[derive(Debug)]
pub enum BlockError {
    /// The view of the block could not be made.
    View(String),
    /// The block has no view for this layer and outer dimension.
    NoSuchLayer { layer: usize, outer: usize },
}

/// Why a transfer failed.
#[derive(Debug)]
pub enum TransferError {
    BuilderError(String),
    ExecutionError(String),
    IncompatibleTypes(String),
    CountMismatch(usize, usize),
    BlockError(BlockError),
    NoBlocksProvided,
    MismatchedBlockSetIndex(BlockTarget, usize, usize),
    MismatchedWorkerID(BlockTarget, usize, usize),
    Cancelled,
    Other(String),
}

impl BlockTarget {
    /// The name of the side.
    pub open spec fn name(self) -> Seq<char> {
        match self {
            BlockTarget::Source => "Source"@,
            BlockTarget::Destination => "Destination"@,
        }
    }

    fn name_text(&self) -> (s: &'static str)
        ensures
            s@ == self.name(),
    {
        match self {
            BlockTarget::Source => "Source",
            BlockTarget::Destination => "Destination",
        }
    }
}

impl Clone for BlockError {
    fn clone(&self) -> (copy: Self)
        ensures
            copy == *self,
    {
        match self {
            BlockError::View(reason) => BlockError::View(reason.clone()),
            BlockError::NoSuchLayer { layer, outer } => BlockError::NoSuchLayer {
                layer: *layer,
                outer: *outer,
            },
        }
    }
}

impl BlockError {
    /// The text of the error.
    pub open spec fn text(self) -> Seq<char> {
        match self {
            BlockError::View(reason) => reason@,
            BlockError::NoSuchLayer { layer, outer } => "no view of layer "@
                + text::decimal_numeral(layer as nat) + ", outer dimension "@
                + text::decimal_numeral(outer as nat),
        }
    }

    /// The text of the error.
    pub fn message(&self) -> (message: String)
        ensures
            message@ == self.text(),
    {
        match self {
            BlockError::View(reason) => reason.clone(),
            BlockError::NoSuchLayer { layer, outer } => {
                let mut message = "no view of layer ".to_owned();
                message.append(text::decimal_text(*layer as u64).as_str());
                message.append(", outer dimension ");
                message.append(text::decimal_text(*outer as u64).as_str());
                message
            },
        }
    }
}

impl TransferError {
    /// The text of the error.
    pub open spec fn text(self) -> Seq<char> {
        match self {
            TransferError::BuilderError(reason) => "Builder configuration error: "@ + reason@,
            TransferError::ExecutionError(reason) => "Transfer execution failed: "@ + reason@,
            TransferError::IncompatibleTypes(reason) => "Incompatible block types provided: "@
                + reason@,
            TransferError::CountMismatch(sources, destinations) =>
                "Mismatched source/destination counts: "@ + text::decimal_numeral(sources as nat)
                + " sources, "@ + text::decimal_numeral(destinations as nat) + " destinations"@,
            TransferError::BlockError(error) => "Block operation failed: "@ + error.text(),
            TransferError::NoBlocksProvided => "No blocks provided"@,
            TransferError::MismatchedBlockSetIndex(target, a, b) => "Mismatched "@ + target.name()
                + " block set index: "@ + text::decimal_numeral(a as nat) + " != "@
                + text::decimal_numeral(b as nat),
            TransferError::MismatchedWorkerID(target, a, b) => "Mismatched "@ + target.name()
                + " worker ID: "@ + text::decimal_numeral(a as nat) + " != "@
                + text::decimal_numeral(b as nat),
            TransferError::Cancelled => "Transfer was cancelled"@,
            TransferError::Other(reason) => reason@,
        }
    }

    /// Check if this error represents a cancellation.
    pub fn is_cancelled(&self) -> (cancelled: bool)
        ensures
            cancelled == (*self is Cancelled),
    {
        matches!(self, TransferError::Cancelled)
    }

    /// The text of the error.
    pub fn message(&self) -> (message: String)
        ensures
            message@ == self.text(),
    {
        match self {
            TransferError::BuilderError(reason) => {
                "Builder configuration error: ".to_owned().concat(reason.as_str())
            },
            TransferError::ExecutionError(reason) => {
                "Transfer execution failed: ".to_owned().concat(reason.as_str())
            },
            TransferError::IncompatibleTypes(reason) => {
                "Incompatible block types provided: ".to_owned().concat(reason.as_str())
            },
            TransferError::CountMismatch(sources, destinations) => {
                let mut message = "Mismatched source/destination counts: ".to_owned();
                message.append(text::decimal_text(*sources as u64).as_str());
                message.append(" sources, ");
                message.append(text::decimal_text(*destinations as u64).as_str());
                message.append(" destinations");
                message
            },
            TransferError::BlockError(error) => {
                "Block operation failed: ".to_owned().concat(error.message().as_str())
            },
            TransferError::NoBlocksProvided => "No blocks provided".to_owned(),
            TransferError::MismatchedBlockSetIndex(target, a, b) => {
                let mut message = "Mismatched ".to_owned();
                message.append(target.name_text());
                message.append(" block set index: ");
                message.append(text::decimal_text(*a as u64).as_str());
                message.append(" != ");
                message.append(text::decimal_text(*b as u64).as_str());
                message
            },
            TransferError::MismatchedWorkerID(target, a, b) => {
                let mut message = "Mismatched ".to_owned();
                message.append(target.name_text());
                message.append(" worker ID: ");
                message.append(text::decimal_text(*a as u64).as_str());
                message.append(" != ");
                message.append(text::decimal_text(*b as u64).as_str());
                message
            },
            TransferError::Cancelled => "Transfer was cancelled".to_owned(),
            TransferError::Other(reason) => reason.clone(),
        }
    }
}

impl From<BlockError> for TransferError {
    fn from(error: BlockError) -> (converted: Self) {
        TransferError::BlockError(error)
    }
}

impl vstd::std_specs::convert::FromSpecImpl<BlockError> for TransferError {
    open spec fn obeys_from_spec() -> bool {
        true
    }

    open spec fn from_spec(error: BlockError) -> TransferError {
        TransferError::BlockError(error)
    }
}

/// How blocks are copied between host and GPU memory: scattered blocks go
/// through the custom kernel.
pub fn resolve_cuda_transfer_mode(
    base_strategy: TransferStrategy,
    is_contiguous: bool,
) -> (mode: CudaTransferMode)
    requires
        base_strategy == TransferStrategy::CudaAsyncH2D || base_strategy
            == TransferStrategy::CudaAsyncD2H,
    ensures
        mode == if is_contiguous {
            CudaTransferMode::Default
        } else {
            CudaTransferMode::Custom
        },
{
    if is_contiguous {
        CudaTransferMode::Default
    } else {
        CudaTransferMode::Custom
    }
}

/// One step of a transfer between local blocks.
#[derive(Debug, Clone, Copy, PartialEq, Eq, Structural)]
pub enum LocalStep {
    /// Copy the source block with this index to the target with the same index.
    CopyBlock { index: usize },
    /// Start the asynchronous copy of one block on the stream.
    CudaCopyBlock { index: usize, strategy: TransferStrategy },
    /// Launch the custom kernel for all blocks.
    LaunchKernel,
    /// Let the stream report completion once all before is done.
    RecordEvent,
    /// Start a NIXL transfer of all blocks, which reports completion.
    StartNixl(NixlTransfer),
    /// Report completion.
    Complete,
}

/// Whether a transfer between local blocks can use this strategy.
pub open spec fn is_supported(strategy: TransferStrategy) -> bool {
    match strategy {
        TransferStrategy::CudaBlockingH2D => false,
        TransferStrategy::CudaBlockingD2H => false,
        TransferStrategy::Invalid => false,
        _ => true,
    }
}

/// The steps that move `count` blocks with `strategy`.
pub open spec fn local_steps(
    strategy: TransferStrategy,
    count: nat,
    contiguous: bool,
) -> Seq<LocalStep> {
    let cuda_copies = Seq::new(
        count,
        |i: int| LocalStep::CudaCopyBlock { index: i as usize, strategy },
    );
    if count == 0 {
        seq![LocalStep::Complete]
    } else {
        match strategy {
            TransferStrategy::Memcpy => Seq::new(
                count,
                |i: int| LocalStep::CopyBlock { index: i as usize },
            ).push(LocalStep::Complete),
            TransferStrategy::CudaAsyncD2D => cuda_copies.push(LocalStep::RecordEvent),
            TransferStrategy::CudaAsyncH2D | TransferStrategy::CudaAsyncD2H => if contiguous {
                cuda_copies.push(LocalStep::RecordEvent)
            } else {
                seq![LocalStep::LaunchKernel, LocalStep::RecordEvent]
            },
            TransferStrategy::Nixl(transfer) => seq![LocalStep::StartNixl(transfer)],
            _ => Seq::empty(),
        }
    }
}

/// The name of a strategy in messages.
pub open spec fn strategy_name(strategy: TransferStrategy) -> Seq<char> {
    match strategy {
        TransferStrategy::Memcpy => "Memcpy"@,
        TransferStrategy::CudaAsyncH2D => "CudaAsyncH2D"@,
        TransferStrategy::CudaAsyncD2H => "CudaAsyncD2H"@,
        TransferStrategy::CudaAsyncD2D => "CudaAsyncD2D"@,
        TransferStrategy::CudaBlockingH2D => "CudaBlockingH2D"@,
        TransferStrategy::CudaBlockingD2H => "CudaBlockingD2H"@,
        TransferStrategy::Nixl(NixlTransfer::Read) => "Nixl(Read)"@,
        TransferStrategy::Nixl(NixlTransfer::Write) => "Nixl(Write)"@,
        TransferStrategy::Invalid => "Invalid"@,
    }
}

fn strategy_name_text(strategy: TransferStrategy) -> (s: &'static str)
    ensures
        s@ == strategy_name(strategy),
{
    match strategy {
        TransferStrategy::Memcpy => "Memcpy",
        TransferStrategy::CudaAsyncH2D => "CudaAsyncH2D",
        TransferStrategy::CudaAsyncD2H => "CudaAsyncD2H",
        TransferStrategy::CudaAsyncD2D => "CudaAsyncD2D",
        TransferStrategy::CudaBlockingH2D => "CudaBlockingH2D",
        TransferStrategy::CudaBlockingD2H => "CudaBlockingD2H",
        TransferStrategy::Nixl(NixlTransfer::Read) => "Nixl(Read)",
        TransferStrategy::Nixl(NixlTransfer::Write) => "Nixl(Write)",
        TransferStrategy::Invalid => "Invalid",
    }
}

/// The CUDA copies of `count` blocks, one after the other.
fn cuda_copy_steps(strategy: TransferStrategy, count: usize) -> (steps: Vec<LocalStep>)
    ensures
        steps@ == Seq::new(
            count as nat,
            |i: int| LocalStep::CudaCopyBlock { index: i as usize, strategy },
        ),
{
    let mut steps: Vec<LocalStep> = Vec::new();
    let mut index: usize = 0;
    while index < count
        invariant
            index <= count,
            steps@ == Seq::new(
                index as nat,
                |i: int| LocalStep::CudaCopyBlock { index: i as usize, strategy },
            ),
        decreases count - index,
    {
        steps.push(LocalStep::CudaCopyBlock { index, strategy });
        index = index + 1;
    }
    steps
}

/// Plans a transfer from local source blocks to as many target blocks. The steps
/// are to be taken in turn, and a step that fails ends the transfer.
///
/// `contiguous` says whether the first source block and the first target block
/// each lie in one piece of memory.
pub fn handle_local_transfer(
    strategy: TransferStrategy,
    num_sources: usize,
    num_targets: usize,
    contiguous: bool,
) -> (planned: Result<Vec<LocalStep>, TransferError>)
    ensures
        match planned {
            Ok(steps) => {
                &&& num_sources == num_targets
                &&& num_sources == 0 || is_supported(strategy)
                &&& steps@ == local_steps(strategy, num_sources as nat, contiguous)
            },
            Err(TransferError::CountMismatch(sources, targets)) => {
                num_sources != num_targets && sources == num_sources && targets == num_targets
            },
            Err(TransferError::IncompatibleTypes(reason)) => {
                &&& num_sources == num_targets
                &&& num_sources > 0
                &&& !is_supported(strategy)
                &&& reason@ == "Unsupported copy strategy: "@ + strategy_name(strategy)
            },
            Err(_) => false,
        },
{
    let mut steps: Vec<LocalStep> = Vec::new();
    if num_sources == 0 && num_targets == 0 {
        steps.push(LocalStep::Complete);
        return Ok(steps);
    }
    if num_sources != num_targets {
        return Err(TransferError::CountMismatch(num_sources, num_targets));
    }
    match strategy {
        TransferStrategy::Memcpy => {
            let mut index: usize = 0;
            while index < num_sources
                invariant
                    index <= num_sources,
                    steps@ == Seq::new(
                        index as nat,
                        |i: int| LocalStep::CopyBlock { index: i as usize },
                    ),
                decreases num_sources - index,
            {
                steps.push(LocalStep::CopyBlock { index });
                index = index + 1;
            }
            steps.push(LocalStep::Complete);
            Ok(steps)
        },
        TransferStrategy::CudaAsyncH2D | TransferStrategy::CudaAsyncD2H => {
            match resolve_cuda_transfer_mode(strategy, contiguous) {
                CudaTransferMode::Custom => {
                    steps.push(LocalStep::LaunchKernel);
                },
                CudaTransferMode::Default => {
                    steps = cuda_copy_steps(strategy, num_sources);
                },
            }
            steps.push(LocalStep::RecordEvent);
            Ok(steps)
        },
        TransferStrategy::CudaAsyncD2D => {
            let mut steps = cuda_copy_steps(strategy, num_sources);
            steps.push(LocalStep::RecordEvent);
            Ok(steps)
        },
        TransferStrategy::Nixl(transfer) => {
            steps.push(LocalStep::StartNixl(transfer));
            Ok(steps)
        },
        _ => {
            let reason = "Unsupported copy strategy: ".to_owned().concat(
                strategy_name_text(strategy),
            );
            Err(TransferError::IncompatibleTypes(reason))
        },
    }
}

/// Whether a step reports completion to the one who waits for the transfer.
pub open spec fn reports_completion(step: LocalStep) -> bool {
    step is Complete || step is RecordEvent || step is StartNixl
}

/// Whether a step moves the block with this index.
pub open spec fn moves_block(step: LocalStep, i: int) -> bool {
    match step {
        LocalStep::CopyBlock { index } => index == i,
        LocalStep::CudaCopyBlock { index, .. } => index == i,
        LocalStep::LaunchKernel => true,
        LocalStep::StartNixl(_) => true,
        _ => false,
    }
}

/// Completion is reported exactly once, by the last step.
pub proof fn the_last_step_reports_completion(
    strategy: TransferStrategy,
    count: nat,
    contiguous: bool,
)
    requires
        count == 0 || is_supported(strategy),
        count <= usize::MAX,
    ensures
        ({
            let steps = local_steps(strategy, count, contiguous);
            &&& steps.len() > 0
            &&& forall|k: int|
                0 <= k < steps.len() ==> (#[trigger] reports_completion(steps[k]) <==> k
                    == steps.len() - 1)
        }),
{
}

/// Every block is moved by exactly one step.
pub proof fn each_block_is_moved_once(
    strategy: TransferStrategy,
    count: nat,
    contiguous: bool,
    i: int,
)
    requires
        is_supported(strategy),
        count <= usize::MAX,
        0 <= i < count,
    ensures
        ({
            let steps = local_steps(strategy, count, contiguous);
            exists|k: int|
                {
                    &&& 0 <= k < steps.len()
                    &&& #[trigger] moves_block(steps[k], i)
                    &&& forall|j: int| 0 <= j < steps.len() && j != k ==> !#[trigger] moves_block(steps[j], i)
                }
        }),
{
    let steps = local_steps(strategy, count, contiguous);
    let k = match strategy {
        TransferStrategy::Nixl(_) => 0,
        TransferStrategy::CudaAsyncH2D | TransferStrategy::CudaAsyncD2H => if contiguous {
            i
        } else {
            0
        },
        _ => i,
    };
    assert(moves_block(steps[k], i));
}

/// The steps of a transfer fit its strategy: host memory is copied block by block, a
/// CUDA copy names the strategy it belongs to, the kernel runs for scattered blocks
/// between host and GPU and for no others, and NIXL is asked for the very transfer.
pub proof fn the_steps_fit_the_strategy(
    strategy: TransferStrategy,
    count: nat,
    contiguous: bool,
    k: int,
)
    requires
        is_supported(strategy),
        0 < count <= usize::MAX,
        0 <= k < local_steps(strategy, count, contiguous).len(),
    ensures
        ({
            let step = local_steps(strategy, count, contiguous)[k];
            &&& step is CopyBlock ==> strategy == TransferStrategy::Memcpy
            &&& step is Complete ==> strategy == TransferStrategy::Memcpy
            &&& step matches LocalStep::CudaCopyBlock { strategy: used, .. } ==> used == strategy
                && (strategy == TransferStrategy::CudaAsyncD2D || contiguous)
            &&& step is LaunchKernel ==> !contiguous && (strategy == TransferStrategy::CudaAsyncH2D
                || strategy == TransferStrategy::CudaAsyncD2H)
            &&& step is RecordEvent ==> strategy == TransferStrategy::CudaAsyncH2D || strategy
                == TransferStrategy::CudaAsyncD2H || strategy == TransferStrategy::CudaAsyncD2D
            &&& step matches LocalStep::StartNixl(transfer) ==> strategy == TransferStrategy::Nixl(
                transfer,
            )
        }),
{
}

/// Blocks that are copied one by one are copied in their order, as many as there are.
pub proof fn blocks_are_copied_in_order(
    strategy: TransferStrategy,
    count: nat,
    contiguous: bool,
    i: int,
)
    requires
        count <= usize::MAX,
        0 <= i < count,
        strategy == TransferStrategy::Memcpy || strategy == TransferStrategy::CudaAsyncD2D || (
        contiguous && (strategy == TransferStrategy::CudaAsyncH2D || strategy
            == TransferStrategy::CudaAsyncD2H)),
    ensures
        ({
            let steps = local_steps(strategy, count, contiguous);
            &&& steps.len() == count + 1
            &&& match steps[i] {
                LocalStep::CopyBlock { index } => strategy == TransferStrategy::Memcpy && index == i,
                LocalStep::CudaCopyBlock { index, .. } => strategy != TransferStrategy::Memcpy
                    && index == i,
                _ => false,
            }
        }),
{
}

/// Without blocks a transfer is complete at once, and a strategy that blocks the host
/// or is invalid moves none.
pub proof fn only_these_strategies_move_blocks(strategy: TransferStrategy, contiguous: bool)
    ensures
        local_steps(strategy, 0, contiguous) == seq![LocalStep::Complete],
        !is_supported(strategy) <==> strategy == TransferStrategy::CudaBlockingH2D || strategy
            == TransferStrategy::CudaBlockingD2H || strategy == TransferStrategy::Invalid,
{
}

/// The text of an error that carries a reason ends with the whole reason, and begins
/// with what the error is.
pub proof fn an_error_gives_its_whole_reason(reason: String)
    ensures
        TransferError::BuilderError(reason).text() == "Builder configuration error: "@ + reason@,
        TransferError::ExecutionError(reason).text() == "Transfer execution failed: "@ + reason@,
        TransferError::IncompatibleTypes(reason).text() == "Incompatible block types provided: "@
            + reason@,
        TransferError::BlockError(BlockError::View(reason)).text() == "Block operation failed: "@
            + reason@,
        TransferError::Other(reason).text() == reason@,
{
}

/// The text of an error that carries numbers gives each of them in its place.
pub proof fn an_error_gives_its_numbers(target: BlockTarget, a: usize, b: usize)
    ensures
        TransferError::CountMismatch(a, b).text() == "Mismatched source/destination counts: "@
            + text::decimal_numeral(a as nat) + " sources, "@ + text::decimal_numeral(b as nat)
            + " destinations"@,
        TransferError::MismatchedBlockSetIndex(target, a, b).text() == "Mismatched "@
            + target.name() + " block set index: "@ + text::decimal_numeral(a as nat) + " != "@
            + text::decimal_numeral(b as nat),
        TransferError::MismatchedWorkerID(target, a, b).text() == "Mismatched "@ + target.name()
            + " worker ID: "@ + text::decimal_numeral(a as nat) + " != "@ + text::decimal_numeral(
            b as nat,
        ),
        BlockTarget::Source.name() == "Source"@,
        BlockTarget::Destination.name() == "Destination"@,
{
}

/// The text of an error of a block is that of the block's own error, behind what it is;
/// one about a missing piece gives the layer and the outer dimension.
pub proof fn an_error_of_a_block_is_told(error: BlockError, layer: usize, outer: usize)
    ensures
        TransferError::BlockError(error).text() == "Block operation failed: "@ + error.text(),
        (BlockError::NoSuchLayer { layer, outer }).text() == "no view of layer "@
            + text::decimal_numeral(layer as nat) + ", outer dimension "@
            + text::decimal_numeral(outer as nat),
        TransferError::NoBlocksProvided.text() == "No blocks provided"@,
        TransferError::Cancelled.text() == "Transfer was cancelled"@,
{
}

/// No two strategies have the same name in messages.
pub proof fn strategies_have_different_names(one: TransferStrategy, other: TransferStrategy)
    requires
        one != other,
    ensures
        strategy_name(one) != strategy_name(other),
{
    reveal_strlit("Memcpy");
    reveal_strlit("CudaAsyncH2D");
    reveal_strlit("CudaAsyncD2H");
    reveal_strlit("CudaAsyncD2D");
    reveal_strlit("CudaBlockingH2D");
    reveal_strlit("CudaBlockingD2H");
    reveal_strlit("Nixl(Read)");
    reveal_strlit("Nixl(Write)");
    reveal_strlit("Invalid");
    let a = strategy_name(one);
    let b = strategy_name(other);
    if a == b {
        assert(a.len() == b.len());
        assert(a.last() == b.last());
        assert(a[9] == b[9]);
        assert(a[12] == b[12]);
    }
}

/// The name of a strategy is that of its variant.
pub proof fn a_strategy_is_called_by_its_name(strategy: TransferStrategy)
    ensures
        strategy == TransferStrategy::Memcpy ==> strategy_name(strategy) == "Memcpy"@,
        strategy == TransferStrategy::CudaAsyncH2D ==> strategy_name(strategy) == "CudaAsyncH2D"@,
        strategy == TransferStrategy::CudaAsyncD2H ==> strategy_name(strategy) == "CudaAsyncD2H"@,
        strategy == TransferStrategy::CudaAsyncD2D ==> strategy_name(strategy) == "CudaAsyncD2D"@,
        strategy == TransferStrategy::CudaBlockingH2D ==> strategy_name(strategy)
            == "CudaBlockingH2D"@,
        strategy == TransferStrategy::CudaBlockingD2H ==> strategy_name(strategy)
            == "CudaBlockingD2H"@,
        strategy == TransferStrategy::Nixl(NixlTransfer::Read) ==> strategy_name(strategy)
            == "Nixl(Read)"@,
        strategy == TransferStrategy::Nixl(NixlTransfer::Write) ==> strategy_name(strategy)
            == "Nixl(Write)"@,
        strategy == TransferStrategy::Invalid ==> strategy_name(strategy) == "Invalid"@,
{
}

} // verus!
