//! How data moves between kinds of storage.
use vstd::prelude::*;

verus! {

/// A block that can be the target of a write.
pub trait Writable {

}

/// A block that can be the source of a read.
pub trait Readable {

}

/// A block that can be read and written.
pub trait Mutable: Readable + Writable {

}

/// A block that can only be read.
pub trait Immutable: Readable {

}

/// Storage of this process.
pub trait Local {

}

/// Storage of another process or machine.
pub trait Remote {

}

/// Storage that can be registered with a NIXL agent.
pub trait NixlRegisterableStorage {

}

/// A block that lives in storage of one type.
pub trait StorageTypeProvider {
    type StorageType;
}

/// A block whose data can be read.
pub trait ReadableBlock: StorageTypeProvider {

}

/// A block whose data can be written.
pub trait WritableBlock: StorageTypeProvider {

}

/// Ordinary host memory.
#[derive(Debug, Clone, Copy)]
pub struct SystemStorage;

/// Page-locked host memory.
#[derive(Debug, Clone, Copy)]
pub struct PinnedStorage;

/// GPU memory.
#[derive(Debug, Clone, Copy)]
pub struct DeviceStorage;

/// Memory of another agent, reached through NIXL.
#[derive(Debug, Clone, Copy)]
pub struct NixlStorage;

impl Local for SystemStorage {

}

impl Local for PinnedStorage {

}

impl Local for DeviceStorage {

}

impl Remote for NixlStorage {

}

/// Direction of a NIXL transfer, as the agent names it.
#[derive(Debug, Clone, Copy, PartialEq, Eq, Structural)]
pub enum XferOp {
    Read,
    Write,
}

/// Direction of a NIXL transfer.
#[derive(Debug, Clone, Copy, PartialEq, Eq, Structural)]
pub enum NixlTransfer {
    Read,
    Write,
}

impl NixlTransfer {
    /// The operation that the agent is asked for.
    pub fn as_xfer_op(&self) -> (op: XferOp)
        ensures
            op == (match *self {
                NixlTransfer::Read => XferOp::Read,
                NixlTransfer::Write => XferOp::Write,
            }),
    {
        match self {
            NixlTransfer::Read => XferOp::Read,
            NixlTransfer::Write => XferOp::Write,
        }
    }
}

/// How blocks are copied between host and GPU memory.
#[derive(Debug, Clone, Copy, PartialEq, Eq, Structural)]
pub enum CudaTransferMode {
    /// One launch of the custom kernel for all blocks.
    Custom,
    /// One asynchronous copy for each block.
    Default,
}

/// How data is moved from one kind of storage to another.
#[derive(Debug, Clone, Copy, PartialEq, Eq, Structural)]
pub enum TransferStrategy {
    Memcpy,
    CudaAsyncH2D,
    CudaAsyncD2H,
    CudaAsyncD2D,
    CudaBlockingH2D,
    CudaBlockingD2H,
    Nixl(NixlTransfer),
    Invalid,
}

/// Determines the strategy for writing from a local source to a target, which
/// may be local or remote.
pub trait WriteToStrategy<Target> {
    /// The strategy of this pair of types.
    spec fn write_strategy() -> TransferStrategy;

    fn write_to_strategy() -> (strategy: TransferStrategy)
        ensures
            strategy == Self::write_strategy(),
    ;
}

/// Determines the strategy for reading from a source, which may be local or
/// remote, into `Self`, which is local and writable.
pub trait ReadFromStrategy<Source> {
    /// The strategy of this pair of types.
    spec fn read_strategy() -> TransferStrategy;

    fn read_from_strategy() -> (strategy: TransferStrategy)
        ensures
            strategy == Self::read_strategy(),
    ;
}

/// A block is written the way its storage is.
impl<RB: ReadableBlock, WB: WritableBlock> WriteToStrategy<WB> for RB where
    <RB as StorageTypeProvider>::StorageType: Local + WriteToStrategy<
        <WB as StorageTypeProvider>::StorageType,
    >,
 {
    open spec fn write_strategy() -> TransferStrategy {
        <<RB as StorageTypeProvider>::StorageType as WriteToStrategy<
            <WB as StorageTypeProvider>::StorageType,
        >>::write_strategy()
    }

    fn write_to_strategy() -> TransferStrategy {
        <<RB as StorageTypeProvider>::StorageType as WriteToStrategy<
            <WB as StorageTypeProvider>::StorageType,
        >>::write_to_strategy()
    }
}

/// Remote blocks are read through NIXL.
impl<WB: WritableBlock, RB: ReadableBlock> ReadFromStrategy<RB> for WB where
    <RB as StorageTypeProvider>::StorageType: Remote,
    <WB as StorageTypeProvider>::StorageType: NixlRegisterableStorage,
 {
    open spec fn read_strategy() -> TransferStrategy {
        TransferStrategy::Nixl(NixlTransfer::Read)
    }

    fn read_from_strategy() -> TransferStrategy {
        TransferStrategy::Nixl(NixlTransfer::Read)
    }
}

impl WriteToStrategy<SystemStorage> for SystemStorage {
    open spec fn write_strategy() -> TransferStrategy {
        TransferStrategy::Memcpy
    }

    fn write_to_strategy() -> TransferStrategy {
        TransferStrategy::Memcpy
    }
}

impl WriteToStrategy<PinnedStorage> for SystemStorage {
    open spec fn write_strategy() -> TransferStrategy {
        TransferStrategy::Memcpy
    }

    fn write_to_strategy() -> TransferStrategy {
        TransferStrategy::Memcpy
    }
}

impl WriteToStrategy<DeviceStorage> for SystemStorage {
    open spec fn write_strategy() -> TransferStrategy {
        TransferStrategy::CudaBlockingH2D
    }

    fn write_to_strategy() -> TransferStrategy {
        TransferStrategy::CudaBlockingH2D
    }
}

impl WriteToStrategy<NixlStorage> for SystemStorage {
    open spec fn write_strategy() -> TransferStrategy {
        TransferStrategy::Nixl(NixlTransfer::Write)
    }

    fn write_to_strategy() -> TransferStrategy {
        TransferStrategy::Nixl(NixlTransfer::Write)
    }
}

impl WriteToStrategy<SystemStorage> for PinnedStorage {
    open spec fn write_strategy() -> TransferStrategy {
        TransferStrategy::Memcpy
    }

    fn write_to_strategy() -> TransferStrategy {
        TransferStrategy::Memcpy
    }
}

impl WriteToStrategy<PinnedStorage> for PinnedStorage {
    open spec fn write_strategy() -> TransferStrategy {
        TransferStrategy::Memcpy
    }

    fn write_to_strategy() -> TransferStrategy {
        TransferStrategy::Memcpy
    }
}

impl WriteToStrategy<DeviceStorage> for PinnedStorage {
    open spec fn write_strategy() -> TransferStrategy {
        TransferStrategy::CudaAsyncH2D
    }

    fn write_to_strategy() -> TransferStrategy {
        TransferStrategy::CudaAsyncH2D
    }
}

impl WriteToStrategy<NixlStorage> for PinnedStorage {
    open spec fn write_strategy() -> TransferStrategy {
        TransferStrategy::Nixl(NixlTransfer::Write)
    }

    fn write_to_strategy() -> TransferStrategy {
        TransferStrategy::Nixl(NixlTransfer::Write)
    }
}

impl WriteToStrategy<SystemStorage> for DeviceStorage {
    open spec fn write_strategy() -> TransferStrategy {
        TransferStrategy::CudaBlockingD2H
    }

    fn write_to_strategy() -> TransferStrategy {
        TransferStrategy::CudaBlockingD2H
    }
}

impl WriteToStrategy<PinnedStorage> for DeviceStorage {
    open spec fn write_strategy() -> TransferStrategy {
        TransferStrategy::CudaAsyncD2H
    }

    fn write_to_strategy() -> TransferStrategy {
        TransferStrategy::CudaAsyncD2H
    }
}

impl WriteToStrategy<DeviceStorage> for DeviceStorage {
    open spec fn write_strategy() -> TransferStrategy {
        TransferStrategy::CudaAsyncD2D
    }

    fn write_to_strategy() -> TransferStrategy {
        TransferStrategy::CudaAsyncD2D
    }
}

impl WriteToStrategy<NixlStorage> for DeviceStorage {
    open spec fn write_strategy() -> TransferStrategy {
        TransferStrategy::Nixl(NixlTransfer::Write)
    }

    fn write_to_strategy() -> TransferStrategy {
        TransferStrategy::Nixl(NixlTransfer::Write)
    }
}

/// Blocks are written the way their storage is, whatever blocks they are.
pub proof fn blocks_are_written_as_their_storage<RB: ReadableBlock, WB: WritableBlock>() where
    <RB as StorageTypeProvider>::StorageType: Local + WriteToStrategy<
        <WB as StorageTypeProvider>::StorageType,
    >,

    ensures
        <RB as WriteToStrategy<WB>>::write_strategy()
            == <<RB as StorageTypeProvider>::StorageType as WriteToStrategy<
            <WB as StorageTypeProvider>::StorageType,
        >>::write_strategy(),
{
}

/// Blocks in remote storage are read through NIXL, whatever blocks they are.
pub proof fn remote_blocks_are_read_through_nixl<WB: WritableBlock, RB: ReadableBlock>() where
    <RB as StorageTypeProvider>::StorageType: Remote,
    <WB as StorageTypeProvider>::StorageType: NixlRegisterableStorage,

    ensures
        <WB as ReadFromStrategy<RB>>::read_strategy() == TransferStrategy::Nixl(NixlTransfer::Read),
{
}

/// The two ends decide how data is written: within the host the processor copies,
/// between the host and the GPU the copy is asynchronous exactly when the host memory
/// is page-locked, within the GPU it is asynchronous, and NIXL writes to remote storage.
pub proof fn the_strategy_fits_both_ends()
    ensures
        <SystemStorage as WriteToStrategy<SystemStorage>>::write_strategy()
            == TransferStrategy::Memcpy,
        <SystemStorage as WriteToStrategy<PinnedStorage>>::write_strategy()
            == TransferStrategy::Memcpy,
        <PinnedStorage as WriteToStrategy<SystemStorage>>::write_strategy()
            == TransferStrategy::Memcpy,
        <PinnedStorage as WriteToStrategy<PinnedStorage>>::write_strategy()
            == TransferStrategy::Memcpy,
        <SystemStorage as WriteToStrategy<DeviceStorage>>::write_strategy()
            == TransferStrategy::CudaBlockingH2D,
        <PinnedStorage as WriteToStrategy<DeviceStorage>>::write_strategy()
            == TransferStrategy::CudaAsyncH2D,
        <DeviceStorage as WriteToStrategy<SystemStorage>>::write_strategy()
            == TransferStrategy::CudaBlockingD2H,
        <DeviceStorage as WriteToStrategy<PinnedStorage>>::write_strategy()
            == TransferStrategy::CudaAsyncD2H,
        <DeviceStorage as WriteToStrategy<DeviceStorage>>::write_strategy()
            == TransferStrategy::CudaAsyncD2D,
        <SystemStorage as WriteToStrategy<NixlStorage>>::write_strategy()
            == TransferStrategy::Nixl(NixlTransfer::Write),
        <PinnedStorage as WriteToStrategy<NixlStorage>>::write_strategy()
            == TransferStrategy::Nixl(NixlTransfer::Write),
        <DeviceStorage as WriteToStrategy<NixlStorage>>::write_strategy()
            == TransferStrategy::Nixl(NixlTransfer::Write),
{
}

} // verus!
