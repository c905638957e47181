//! What the leader and the workers tell each other.
use vstd::prelude::*;

verus! {

/// The message that asks whether the other side is there.
pub const ZMQ_PING_MESSAGE: &'static str = "ping";

/// The message that carries a [`WorkerMetadata`].
pub const ZMQ_WORKER_METADATA_MESSAGE: &'static str = "worker_metadata";

/// The message that carries a [`LeaderMetadata`].
pub const ZMQ_LEADER_METADATA_MESSAGE: &'static str = "leader_metadata";

/// The message that carries a [`BlockTransferRequest`].
pub const ZMQ_TRANSFER_BLOCKS_MESSAGE: &'static str = "transfer_blocks";

/// What a worker tells the leader about its blocks.
#[derive(Debug, Clone, Copy, PartialEq, Eq, Structural)]
pub struct WorkerMetadata {
    pub num_device_blocks: usize,
    pub bytes_per_block: usize,
}

/// What the leader tells the workers. `C` is the object storage configuration.
#[derive(Debug, Clone)]
pub struct LeaderMetadata<C> {
    pub num_host_blocks: usize,
    pub num_disk_blocks: usize,
    pub num_object_blocks: usize,
    pub object_storage_config: Option<C>,
}

/// Where blocks live.
#[derive(Debug, Clone, Copy, PartialEq, Eq, Structural)]
pub enum BlockTransferPool {
    Device,
    Host,
    Disk,
    Object,
}

/// Which way a connector moves blocks.
#[derive(Debug, Clone, Copy, PartialEq, Eq, Structural)]
pub enum ConnectorTransferType {
    Store,
    Load,
}

/// A connector's request to the leader.
#[derive(Debug, Clone)]
pub struct ConnectorRequestLeader {
    pub req_id: String,
    pub txn_id: u64,
    pub transfer_type: ConnectorTransferType,
}

/// A request to move blocks from one pool to another. `R` is the connector's
/// request that the transfer belongs to.
#[derive(Debug, Clone)]
pub struct BlockTransferRequest<R> {
    pub from_pool: BlockTransferPool,
    pub to_pool: BlockTransferPool,
    /// The index of a block in the first pool, and in the second.
    pub blocks: Vec<(usize, usize)>,
    pub connector_req: Option<R>,
    pub sequence_hashes: Option<Vec<u64>>,
    pub write_through: bool,
}

/// A copy of each pair of a list and its partner, as long as both have one.
pub open spec fn pairs_of(left: Seq<usize>, right: Seq<usize>) -> Seq<(usize, usize)> {
    let len = if left.len() < right.len() {
        left.len()
    } else {
        right.len()
    };
    Seq::new(len, |i: int| (left[i], right[i]))
}

impl<R> BlockTransferRequest<R> {
    /// The request has these parts.
    pub open spec fn consists_of(
        self,
        from_pool: BlockTransferPool,
        to_pool: BlockTransferPool,
        blocks: Seq<(usize, usize)>,
        connector_req: Option<R>,
        sequence_hashes: Option<Seq<u64>>,
        write_through: bool,
    ) -> bool {
        &&& self.from_pool == from_pool
        &&& self.to_pool == to_pool
        &&& self.blocks@ == blocks
        &&& self.connector_req == connector_req
        &&& match (self.sequence_hashes, sequence_hashes) {
            (Some(hashes), Some(expected)) => hashes@ == expected,
            (None, None) => true,
            _ => false,
        }
        &&& self.write_through == write_through
    }

    /// A request that belongs to no connector's request.
    pub fn new(
        from_pool: BlockTransferPool,
        to_pool: BlockTransferPool,
        blocks: Vec<(usize, usize)>,
    ) -> (request: Self)
        ensures
            request.consists_of(from_pool, to_pool, blocks@, None, None, false),
    {
        BlockTransferRequest {
            from_pool,
            to_pool,
            blocks,
            connector_req: None,
            sequence_hashes: None,
            write_through: false,
        }
    }

    /// A request that belongs to a connector's request.
    pub fn new_with_trigger_id(
        from_pool: BlockTransferPool,
        to_pool: BlockTransferPool,
        blocks: Vec<(usize, usize)>,
        connector_req: R,
    ) -> (request: Self)
        ensures
            request.consists_of(from_pool, to_pool, blocks@, Some(connector_req), None, false),
    {
        BlockTransferRequest {
            from_pool,
            to_pool,
            blocks,
            connector_req: Some(connector_req),
            sequence_hashes: None,
            write_through: false,
        }
    }

    /// A request whose blocks are also written through to object storage.
    pub fn new_with_write_through(
        from_pool: BlockTransferPool,
        to_pool: BlockTransferPool,
        blocks: Vec<(usize, usize)>,
        connector_req: R,
        sequence_hashes: Vec<u64>,
    ) -> (request: Self)
        ensures
            request.consists_of(
                from_pool,
                to_pool,
                blocks@,
                Some(connector_req),
                Some(sequence_hashes@),
                true,
            ),
    {
        BlockTransferRequest {
            from_pool,
            to_pool,
            blocks,
            connector_req: Some(connector_req),
            sequence_hashes: Some(sequence_hashes),
            write_through: true,
        }
    }

    /// A request that names the blocks by their hashes too.
    pub fn new_with_hashes(
        from_pool: BlockTransferPool,
        to_pool: BlockTransferPool,
        blocks: Vec<(usize, usize)>,
        sequence_hashes: Vec<u64>,
    ) -> (request: Self)
        ensures
            request.consists_of(
                from_pool,
                to_pool,
                blocks@,
                None,
                Some(sequence_hashes@),
                false,
            ),
    {
        BlockTransferRequest {
            from_pool,
            to_pool,
            blocks,
            connector_req: None,
            sequence_hashes: Some(sequence_hashes),
            write_through: false,
        }
    }

    /// A request to bring blocks from object storage to the device, each through
    /// the host block at the same place in its list.
    pub fn new_g4_onboard(
        sequence_hashes: Vec<u64>,
        host_block_ids: Vec<usize>,
        device_block_ids: Vec<usize>,
        connector_req: R,
    ) -> (request: Self)
        ensures
            request.consists_of(
                BlockTransferPool::Object,
                BlockTransferPool::Device,
                pairs_of(host_block_ids@, device_block_ids@),
                Some(connector_req),
                Some(sequence_hashes@),
                false,
            ),
            request.blocks@.len() == if host_block_ids@.len() < device_block_ids@.len() {
                host_block_ids@.len()
            } else {
                device_block_ids@.len()
            },
            forall|i: int|
                0 <= i < request.blocks@.len() ==> #[trigger] request.blocks@[i] == (
                    host_block_ids@[i],
                    device_block_ids@[i],
                ),
    {
        let mut blocks: Vec<(usize, usize)> = Vec::new();
        let mut i: usize = 0;
        while i < host_block_ids.len() && i < device_block_ids.len()
            invariant
                i <= host_block_ids@.len(),
                i <= device_block_ids@.len(),
                blocks@ == pairs_of(host_block_ids@, device_block_ids@).take(i as int),
            decreases host_block_ids@.len() - i,
        {
            blocks.push((host_block_ids[i], device_block_ids[i]));
            i = i + 1;
        }
        assert(blocks@ =~= pairs_of(host_block_ids@, device_block_ids@));
        BlockTransferRequest {
            from_pool: BlockTransferPool::Object,
            to_pool: BlockTransferPool::Device,
            blocks,
            connector_req: Some(connector_req),
            sequence_hashes: Some(sequence_hashes),
            write_through: false,
        }
    }

    /// A request to bring host blocks to object storage, where their hashes name
    /// them.
    pub fn new_g4_offload(host_block_ids: Vec<usize>, sequence_hashes: Vec<u64>) -> (request: Self)
        ensures
            request.consists_of(
                BlockTransferPool::Host,
                BlockTransferPool::Object,
                host_block_ids@.map_values(|host: usize| (host, 0usize)),
                None,
                Some(sequence_hashes@),
                false,
            ),
            request.blocks@.len() == host_block_ids@.len(),
            forall|i: int|
                0 <= i < request.blocks@.len() ==> #[trigger] request.blocks@[i] == (
                    host_block_ids@[i],
                    0usize,
                ),
    {
        let mut blocks: Vec<(usize, usize)> = Vec::new();
        let mut i: usize = 0;
        while i < host_block_ids.len()
            invariant
                i <= host_block_ids@.len(),
                blocks@ == host_block_ids@.map_values(|host: usize| (host, 0usize)).take(i as int),
            decreases host_block_ids@.len() - i,
        {
            blocks.push((host_block_ids[i], 0));
            i = i + 1;
        }
        assert(blocks@ =~= host_block_ids@.map_values(|host: usize| (host, 0usize)));
        BlockTransferRequest {
            from_pool: BlockTransferPool::Host,
            to_pool: BlockTransferPool::Object,
            blocks,
            connector_req: None,
            sequence_hashes: Some(sequence_hashes),
            write_through: false,
        }
    }

    /// The pool that the blocks come from.
    pub fn from_pool(&self) -> (pool: &BlockTransferPool)
        ensures
            *pool == self.from_pool,
    {
        &self.from_pool
    }

    /// The pool that the blocks go to.
    pub fn to_pool(&self) -> (pool: &BlockTransferPool)
        ensures
            *pool == self.to_pool,
    {
        &self.to_pool
    }

    /// The index of each block in the first pool, and in the second.
    pub fn blocks(&self) -> (blocks: &Vec<(usize, usize)>)
        ensures
            *blocks == self.blocks,
    {
        &self.blocks
    }

    /// The connector's request that the transfer belongs to.
    pub fn connector_req(&self) -> (request: &Option<R>)
        ensures
            *request == self.connector_req,
    {
        &self.connector_req
    }

    /// The hashes of the blocks.
    pub fn sequence_hashes(&self) -> (hashes: &Option<Vec<u64>>)
        ensures
            *hashes == self.sequence_hashes,
    {
        &self.sequence_hashes
    }

    /// Whether the blocks are also written through to object storage.
    pub fn write_through(&self) -> (write_through: &bool)
        ensures
            *write_through == self.write_through,
    {
        &self.write_through
    }
}

/// Onboarding pairs each host block with the device block at the same place, as long
/// as both lists have one.
pub proof fn blocks_are_paired_place_by_place(host: Seq<usize>, device: Seq<usize>)
    ensures
        pairs_of(host, device).len() <= host.len(),
        pairs_of(host, device).len() <= device.len(),
        pairs_of(host, device).len() == host.len() || pairs_of(host, device).len()
            == device.len(),
        forall|i: int|
            0 <= i < pairs_of(host, device).len() ==> #[trigger] pairs_of(host, device)[i] == (
                host[i],
                device[i],
            ),
{
}

/// A request consists of its parts, each as it was given.
pub proof fn a_request_has_each_of_its_parts<R>(
    request: BlockTransferRequest<R>,
    from_pool: BlockTransferPool,
    to_pool: BlockTransferPool,
    blocks: Seq<(usize, usize)>,
    connector_req: Option<R>,
    sequence_hashes: Option<Seq<u64>>,
    write_through: bool,
)
    requires
        request.consists_of(
            from_pool,
            to_pool,
            blocks,
            connector_req,
            sequence_hashes,
            write_through,
        ),
    ensures
        request.from_pool == from_pool,
        request.to_pool == to_pool,
        request.blocks@ == blocks,
        request.connector_req == connector_req,
        request.sequence_hashes is Some <==> sequence_hashes is Some,
        request.sequence_hashes matches Some(hashes) ==> hashes@ == sequence_hashes->0,
        request.write_through == write_through,
{
}

} // verus!
