//! The leader of the block manager.
//!
//! The leader learns from its workers how large a block is, works out how many
//! blocks each cache tier has, and keeps track of which blocks are in object
//! storage (the fourth tier, G4). There it has up to two registries: a local one,
//! which is a cache, and a distributed one, which is the source of truth.
use std::collections::HashSet;
use vstd::prelude::*;

use crate::leader_config;
use crate::leader_config::KvbmLeaderConfig;
use crate::messages::{LeaderMetadata, WorkerMetadata};

verus! {

broadcast use vstd::std_specs::hash::group_hash_axioms;

/// What the leader has learned so far.
#[derive(Debug, Clone, Copy, PartialEq, Eq, Structural)]
pub struct KvbmLeaderState {
    pub num_device_blocks: usize,
    pub num_host_blocks: usize,
    pub num_disk_blocks: usize,
    pub num_object_blocks: usize,
    pub bytes_per_block: usize,
    /// Whether the workers have been told how many blocks there are.
    pub workers_allocation_ready: bool,
}

impl Default for KvbmLeaderState {
    /// Nothing is known at first.
    fn default() -> (state: Self)
        ensures
            state == (KvbmLeaderState {
                num_device_blocks: 0,
                num_host_blocks: 0,
                num_disk_blocks: 0,
                num_object_blocks: 0,
                bytes_per_block: 0,
                workers_allocation_ready: false,
            }),
    {
        KvbmLeaderState {
            num_device_blocks: 0,
            num_host_blocks: 0,
            num_disk_blocks: 0,
            num_object_blocks: 0,
            bytes_per_block: 0,
            workers_allocation_ready: false,
        }
    }
}

/// What the workers say, taken together.
#[derive(Debug, Clone, Copy, PartialEq, Eq, Structural)]
pub struct WorkerSummary {
    /// The smallest number of device blocks of a worker, where there is one.
    pub num_device_blocks: Option<usize>,
    /// The bytes of a block, over all workers.
    pub bytes_per_block: usize,
}

/// The bytes of a block, over all workers.
pub open spec fn total_bytes(workers: Seq<WorkerMetadata>) -> nat
    decreases workers.len(),
{
    if workers.len() == 0 {
        0
    } else {
        total_bytes(workers.drop_last()) + workers.last().bytes_per_block as nat
    }
}

/// Whether `num_blocks` is the smallest number of device blocks of a worker.
pub open spec fn is_fewest_device_blocks(workers: Seq<WorkerMetadata>, num_blocks: usize) -> bool {
    &&& exists|i: int| 0 <= i < workers.len() && #[trigger] workers[i].num_device_blocks == num_blocks
    &&& forall|i: int|
        0 <= i < workers.len() ==> num_blocks <= (#[trigger] workers[i]).num_device_blocks
}

/// Fewer workers have no more bytes.
proof fn lemma_total_bytes_grow(workers: Seq<WorkerMetadata>, n: int)
    requires
        0 <= n <= workers.len(),
    ensures
        total_bytes(workers.take(n)) <= total_bytes(workers),
    decreases workers.len() - n,
{
    if n < workers.len() {
        lemma_total_bytes_grow(workers, n + 1);
        assert(workers.take(n + 1).drop_last() =~= workers.take(n));
    } else {
        assert(workers.take(n) =~= workers);
    }
}

/// Takes together what the workers say: the smallest number of device blocks, and
/// the sum of the bytes, as each worker holds a part of every block.
pub fn summarize_workers(workers: &[WorkerMetadata]) -> (summary: WorkerSummary)
    requires
        total_bytes(workers@) <= usize::MAX,
    ensures
        summary.bytes_per_block == total_bytes(workers@),
        match summary.num_device_blocks {
            Some(num_blocks) => is_fewest_device_blocks(workers@, num_blocks),
            None => workers@.len() == 0,
        },
{
    let mut num_device_blocks: Option<usize> = None;
    let mut bytes_per_block: usize = 0;
    let mut i: usize = 0;
    while i < workers.len()
        invariant
            i <= workers@.len(),
            total_bytes(workers@) <= usize::MAX,
            bytes_per_block == total_bytes(workers@.take(i as int)),
            match num_device_blocks {
                Some(num_blocks) => is_fewest_device_blocks(workers@.take(i as int), num_blocks),
                None => i == 0,
            },
        decreases workers@.len() - i,
    {
        let worker = workers[i];
        proof {
            let before = workers@.take(i as int);
            let now = workers@.take(i + 1);
            assert(now.drop_last() =~= before);
            lemma_total_bytes_grow(workers@, i + 1);
            assert(now[i as int] == worker);
            assert(forall|j: int| 0 <= j < i ==> now[j] == #[trigger] before[j]);
            assert(forall|j: int| 0 <= j < i ==> #[trigger] now[j] == before[j]);
        }
        bytes_per_block = bytes_per_block + worker.bytes_per_block;
        num_device_blocks = match num_device_blocks {
            Some(num_blocks) => if worker.num_device_blocks < num_blocks {
                Some(worker.num_device_blocks)
            } else {
                Some(num_blocks)
            },
            None => Some(worker.num_device_blocks),
        };
        i = i + 1;
    }
    assert(workers@.take(i as int) =~= workers@);
    WorkerSummary { num_device_blocks, bytes_per_block }
}

/// Where hashes are to be registered.
#[derive(Debug)]
pub struct RegisterPlan {
    /// In the local registry.
    pub local: bool,
    /// In the distributed registry, under this bucket.
    pub distributed: Option<String>,
}

/// Which blocks may be offloaded.
#[derive(Debug)]
pub enum OffloadFilter {
    /// Those with these hashes.
    Known(Vec<u64>),
    /// Of those with these hashes, what the distributed registry allows.
    Ask { bucket: String, hashes: Vec<u64> },
}

/// Which blocks are in object storage.
#[derive(Debug)]
pub enum G4Lookup {
    /// Those with these hashes.
    Known(Vec<u64>),
    /// Those that matched locally, and what the distributed registry finds of the
    /// remaining ones.
    Ask { bucket: String, local: Vec<u64>, remaining: Vec<u64> },
}

/// What a lookup has found.
#[derive(Debug)]
pub struct G4Found {
    /// The hashes of the blocks in object storage.
    pub matched: Vec<u64>,
    /// The hashes that the local registry does not have yet.
    pub to_register: Option<Vec<u64>>,
}

/// The hashes that are not known.
pub open spec fn unknown_hashes(hashes: Seq<u64>, known: Option<Seq<u64>>) -> Seq<u64> {
    match known {
        Some(known) => hashes.filter(|hash: u64| !known.contains(hash)),
        None => hashes,
    }
}

/// The hashes in a reply of the distributed registry, which pairs each with
/// where it is.
pub open spec fn reply_hashes<M>(reply: Option<Seq<(u64, M)>>) -> Seq<u64> {
    match reply {
        Some(entries) => entries.map_values(|entry: (u64, M)| entry.0),
        None => Seq::empty(),
    }
}

/// The contents of an optional list.
pub open spec fn contents<T>(list: Option<Vec<T>>) -> Option<Seq<T>> {
    match list {
        Some(list) => Some(list@),
        None => None,
    }
}

/// The hashes that are not among the known ones, in their order.
fn without_known(hashes: &[u64], known: &Vec<u64>) -> (unknown: Vec<u64>)
    ensures
        unknown@ == unknown_hashes(hashes@, Some(known@)),
{
    let mut existing: HashSet<u64> = HashSet::new();
    let mut i: usize = 0;
    while i < known.len()
        invariant
            i <= known@.len(),
            existing@ == known@.take(i as int).to_set(),
        decreases known@.len() - i,
    {
        existing.insert(known[i]);
        proof {
            let before = known@.take(i as int);
            let now = known@.take(i + 1);
            assert(now =~= before.push(known@[i as int]));
            assert forall|hash: u64| now.to_set().contains(hash) <==> before.to_set().insert(
                known@[i as int],
            ).contains(hash) by {
                if before.contains(hash) {
                    let j = choose|j: int| 0 <= j < before.len() && before[j] == hash;
                    assert(now[j] == hash);
                }
                assert(now[i as int] == known@[i as int]);
            }
            assert(now.to_set() =~= before.to_set().insert(known@[i as int]));
        }
        i = i + 1;
    }
    assert(known@.take(i as int) =~= known@);
    let ghost is_unknown = |hash: u64| !known@.contains(hash);
    let mut unknown: Vec<u64> = Vec::new();
    let mut k: usize = 0;
    while k < hashes.len()
        invariant
            k <= hashes@.len(),
            existing@ == known@.to_set(),
            is_unknown == (|hash: u64| !known@.contains(hash)),
            unknown@ == hashes@.take(k as int).filter(is_unknown),
        decreases hashes@.len() - k,
    {
        let hash = hashes[k];
        proof {
            let now = hashes@.take(k + 1);
            assert(now.drop_last() =~= hashes@.take(k as int));
            assert(now.last() == hash);
            reveal(Seq::filter);
        }
        if !existing.contains(&hash) {
            unknown.push(hash);
        }
        k = k + 1;
    }
    assert(hashes@.take(k as int) =~= hashes@);
    unknown
}

/// A copy of the hashes from an index on.
fn hashes_from(hashes: &[u64], start: usize) -> (rest: Vec<u64>)
    requires
        start <= hashes@.len(),
    ensures
        rest@ == hashes@.skip(start as int),
{
    let mut rest: Vec<u64> = Vec::new();
    let mut i: usize = start;
    while i < hashes.len()
        invariant
            start <= i <= hashes@.len(),
            rest@ == hashes@.subrange(start as int, i as int),
        decreases hashes@.len() - i,
    {
        rest.push(hashes[i]);
        i = i + 1;
        assert(rest@ =~= hashes@.subrange(start as int, i as int));
    }
    rest
}

/// The leader of the block manager. `C` is the object storage configuration.
#[derive(Debug)]
pub struct KvbmLeader<C> {
    pub state: KvbmLeaderState,
    pub config: KvbmLeaderConfig<C>,
    /// The capacity of the local registry, where there is one.
    pub g4_registry_capacity: Option<u64>,
    /// Whether there is a distributed registry.
    pub has_distributed_registry: bool,
    /// The bucket under which the distributed registry is asked.
    pub g4_bucket: String,
    /// Whether there is a runtime on which the distributed registry can be asked.
    pub has_runtime: bool,
}

/// The bucket for a leader without an object storage configuration.
pub const DEFAULT_G4_BUCKET: &'static str = "kvcache";

impl<C> KvbmLeader<C> {
    /// A leader that knows nothing of its workers yet. There is a local registry
    /// where object storage is used as a cache tier, and only there a distributed
    /// one is connected to. `bucket` is that of the object storage configuration.
    pub fn new(
        config: KvbmLeaderConfig<C>,
        object_offload_enabled: bool,
        num_object_blocks: usize,
        distributed_registry_connected: bool,
        bucket: Option<String>,
        has_runtime: bool,
    ) -> (leader: Self)
        ensures
            leader.config == config,
            leader.state == (KvbmLeaderState {
                num_device_blocks: 0,
                num_host_blocks: 0,
                num_disk_blocks: 0,
                num_object_blocks: 0,
                bytes_per_block: 0,
                workers_allocation_ready: false,
            }),
            ({
                let g4 = leader_config::object_tier_configured(
                    object_offload_enabled,
                    num_object_blocks,
                );
                &&& leader.g4_registry_capacity == (if g4 {
                    Some(num_object_blocks as u64)
                } else {
                    None
                })
                &&& leader.has_distributed_registry == (g4 && distributed_registry_connected)
            }),
            leader.g4_bucket@ == leader_config::text_or(bucket, DEFAULT_G4_BUCKET@),
            leader.has_runtime == has_runtime,
    {
        let g4 = leader_config::object_tier_configured(object_offload_enabled, num_object_blocks);
        KvbmLeader {
            state: KvbmLeaderState::default(),
            config,
            g4_registry_capacity: if g4 {
                Some(num_object_blocks as u64)
            } else {
                None
            },
            has_distributed_registry: g4 && distributed_registry_connected,
            g4_bucket: match bucket {
                Some(bucket) => bucket,
                None => DEFAULT_G4_BUCKET.to_owned(),
            },
            has_runtime,
        }
    }

    /// Answers the workers. The arguments after the summary are how many blocks
    /// fit into the cache sizes of the host and the disk tier, and the number of
    /// blocks in object storage.
    pub fn answer_workers(
        &mut self,
        workers: WorkerSummary,
        host_blocks_of_cache_size: usize,
        disk_blocks_of_cache_size: usize,
        num_object_blocks: usize,
    ) -> (answer: LeaderMetadata<C>) where C: Clone
        ensures
            final(self).state == (KvbmLeaderState {
                num_device_blocks: workers.num_device_blocks.unwrap_or(
                    old(self).state.num_device_blocks,
                ),
                num_host_blocks: leader_config::compute_num_blocks(
                    &old(self).config.host_blocks_config,
                    host_blocks_of_cache_size,
                ),
                num_disk_blocks: leader_config::compute_num_blocks(
                    &old(self).config.disk_blocks_config,
                    disk_blocks_of_cache_size,
                ),
                num_object_blocks,
                bytes_per_block: workers.bytes_per_block,
                workers_allocation_ready: old(self).state.workers_allocation_ready,
            }),
            *final(self) == (KvbmLeader { state: final(self).state, ..*old(self) }),
            answer.num_host_blocks == final(self).state.num_host_blocks,
            answer.num_disk_blocks == final(self).state.num_disk_blocks,
            answer.num_object_blocks == final(self).state.num_object_blocks,
            leader_config::is_clone_of(
                old(self).config.object_storage_config,
                answer.object_storage_config,
            ),
    {
        let num_host_blocks = leader_config::compute_num_blocks(
            &self.config.host_blocks_config,
            host_blocks_of_cache_size,
        );
        let num_disk_blocks = leader_config::compute_num_blocks(
            &self.config.disk_blocks_config,
            disk_blocks_of_cache_size,
        );
        self.state = KvbmLeaderState {
            num_device_blocks: match workers.num_device_blocks {
                Some(num_blocks) => num_blocks,
                None => self.state.num_device_blocks,
            },
            num_host_blocks,
            num_disk_blocks,
            num_object_blocks,
            bytes_per_block: workers.bytes_per_block,
            workers_allocation_ready: self.state.workers_allocation_ready,
        };
        LeaderMetadata {
            num_host_blocks,
            num_disk_blocks,
            num_object_blocks,
            object_storage_config: match &self.config.object_storage_config {
                Some(config) => Some(config.clone()),
                None => None,
            },
        }
    }

    /// Notes that the workers have been told how many blocks there are.
    pub fn workers_are_ready(&mut self)
        ensures
            *final(self) == (KvbmLeader {
                state: KvbmLeaderState { workers_allocation_ready: true, ..old(self).state },
                ..*old(self)
            }),
    {
        self.state.workers_allocation_ready = true;
    }

    /// The smallest number of device blocks of a worker.
    pub fn num_device_blocks(&self) -> (num_blocks: usize)
        ensures
            num_blocks == self.state.num_device_blocks,
    {
        self.state.num_device_blocks
    }

    /// The number of host blocks.
    pub fn num_host_blocks(&self) -> (num_blocks: usize)
        ensures
            num_blocks == self.state.num_host_blocks,
    {
        self.state.num_host_blocks
    }

    /// The number of disk blocks.
    pub fn num_disk_blocks(&self) -> (num_blocks: usize)
        ensures
            num_blocks == self.state.num_disk_blocks,
    {
        self.state.num_disk_blocks
    }

    /// The number of blocks in object storage.
    pub fn num_object_blocks(&self) -> (num_blocks: usize)
        ensures
            num_blocks == self.state.num_object_blocks,
    {
        self.state.num_object_blocks
    }

    /// The bytes of a block, over all workers.
    pub fn bytes_per_block(&self) -> (bytes: usize)
        ensures
            bytes == self.state.bytes_per_block,
    {
        self.state.bytes_per_block
    }

    /// Check if G4 is enabled.
    #[verifier::allow_in_spec]
    pub fn g4_enabled(&self) -> bool
        returns
            self.g4_registry_capacity is Some || self.has_distributed_registry,
    {
        self.g4_registry_capacity.is_some() || self.has_distributed_registry
    }

    /// Decides where hashes are registered after a successful offload: in the
    /// local registry, and in the distributed one if it can be asked.
    pub fn g4_register_hashes(&self, hashes: &[u64]) -> (plan: RegisterPlan)
        ensures
            plan.local == (hashes@.len() > 0 && self.g4_registry_capacity is Some),
            match plan.distributed {
                Some(bucket) => {
                    &&& hashes@.len() > 0
                    &&& self.has_distributed_registry
                    &&& self.has_runtime
                    &&& bucket@ == self.g4_bucket@
                },
                None => hashes@.len() == 0 || !self.has_distributed_registry || !self.has_runtime,
            },
    {
        if hashes.len() == 0 {
            return RegisterPlan { local: false, distributed: None };
        }
        RegisterPlan {
            local: self.g4_registry_capacity.is_some(),
            distributed: if self.has_distributed_registry && self.has_runtime {
                Some(self.g4_bucket.clone())
            } else {
                None
            },
        }
    }

    /// Decides which hashes need offloading. `local_matches` are those that the
    /// local registry has, where there is one.
    pub fn g4_filter_for_offload(
        &self,
        hashes: &[u64],
        local_matches: Option<Vec<u64>>,
    ) -> (filter: OffloadFilter)
        ensures
            ({
                let candidates = unknown_hashes(hashes@, contents(local_matches));
                match filter {
                    OffloadFilter::Known(allowed) => {
                        &&& candidates.len() == 0 || !self.has_distributed_registry
                        &&& allowed@ == candidates
                    },
                    OffloadFilter::Ask { bucket, hashes: asked } => {
                        &&& candidates.len() > 0 && self.has_distributed_registry
                        &&& bucket@ == self.g4_bucket@
                        &&& asked@ == candidates
                    },
                }
            }),
    {
        if hashes.len() == 0 {
            proof {
                reveal(Seq::filter);
            }
            return OffloadFilter::Known(Vec::new());
        }
        let candidates = match &local_matches {
            Some(known) => without_known(hashes, known),
            None => hashes_from(hashes, 0),
        };
        if candidates.len() == 0 || !self.has_distributed_registry {
            return OffloadFilter::Known(candidates);
        }
        OffloadFilter::Ask { bucket: self.g4_bucket.clone(), hashes: candidates }
    }

    /// Decides which hashes need offloading after the distributed registry was
    /// asked about `asked`: those that it allows, or all where it failed.
    pub fn g4_filter_after_reply(
        asked: Vec<u64>,
        can_offload: Option<Vec<u64>>,
    ) -> (allowed: Vec<u64>)
        ensures
            allowed@ == (match can_offload {
                Some(can_offload) => can_offload@,
                None => asked@,
            }),
    {
        match can_offload {
            Some(can_offload) => can_offload,
            None => asked,
        }
    }

    /// Matches hashes against the registries. `local_matches` is what the local
    /// registry found, where there is one.
    pub fn g4_lookup(&self, hashes: &[u64], local_matches: Option<Vec<u64>>) -> (lookup: G4Lookup)
        requires
            hashes@.len() > 0 && self.has_distributed_registry ==> {
                local_matches matches Some(local) ==> local@.len() <= hashes@.len()
            },
        ensures
            ({
                let local = if hashes@.len() == 0 {
                    Seq::empty()
                } else {
                    contents(local_matches).unwrap_or(Seq::empty())
                };
                let asks = self.has_distributed_registry && self.has_runtime && local.len()
                    < hashes@.len();
                match lookup {
                    G4Lookup::Known(matched) => !asks && matched@ == local,
                    G4Lookup::Ask { bucket, local: matched, remaining } => {
                        &&& asks
                        &&& bucket@ == self.g4_bucket@
                        &&& matched@ == local
                        &&& remaining@ == hashes@.skip(local.len() as int)
                    },
                }
            }),
    {
        if hashes.len() == 0 {
            return G4Lookup::Known(Vec::new());
        }
        let local = match local_matches {
            Some(local) => local,
            None => Vec::new(),
        };
        if local.len() == hashes.len() || !self.has_distributed_registry || !self.has_runtime {
            return G4Lookup::Known(local);
        }
        let remaining = hashes_from(hashes, local.len());
        G4Lookup::Ask { bucket: self.g4_bucket.clone(), local, remaining }
    }

    /// Goes on with a lookup after the distributed registry was asked; there is no
    /// reply where that failed.
    pub fn g4_lookup_after_reply<M>(
        &self,
        local: Vec<u64>,
        reply: Option<&[(u64, M)]>,
    ) -> (found: G4Found)
        ensures
            ({
                let more = reply_hashes(
                    match reply {
                        Some(entries) => Some(entries@),
                        None => None,
                    },
                );
                &&& found.matched@ == local@ + more
                &&& match found.to_register {
                    Some(hashes) => {
                        &&& more.len() > 0
                        &&& self.g4_registry_capacity is Some
                        &&& hashes@ == more
                    },
                    None => more.len() == 0 || self.g4_registry_capacity is None,
                }
            }),
            reply matches Some(entries) ==> {
                &&& found.matched@.len() == local@.len() + entries@.len()
                &&& forall|j: int|
                    #![trigger entries@[j]]
                    0 <= j < entries@.len() ==> found.matched@[local@.len() + j] == entries@[j].0
                &&& found.to_register matches Some(hashes) ==> hashes@.len() == entries@.len()
                    && forall|j: int|
                    #![trigger entries@[j]]
                    0 <= j < entries@.len() ==> hashes@[j] == entries@[j].0
            },
            reply is None ==> found.matched@ == local@ && found.to_register is None,
    {
        let mut matched = local;
        let mut more: Vec<u64> = Vec::new();
        if let Some(entries) = reply {
            let mut i: usize = 0;
            while i < entries.len()
                invariant
                    i <= entries@.len(),
                    more@ == reply_hashes(Some(entries@)).take(i as int),
                    matched@ == local@ + more@,
                decreases entries@.len() - i,
            {
                let hash = entries[i].0;
                more.push(hash);
                matched.push(hash);
                assert(more@ =~= reply_hashes(Some(entries@)).take(i + 1));
                assert(matched@ =~= local@ + more@);
                i = i + 1;
            }
            assert(more@ =~= reply_hashes(Some(entries@)));
        }
        assert(matched@ =~= local@ + more@);
        let to_register = if more.len() > 0 && self.g4_registry_capacity.is_some() {
            Some(more)
        } else {
            None
        };
        G4Found { matched, to_register }
    }
}

/// Whether `found` are the first of the hashes, up to the first that is not in
/// `stored`.
pub open spec fn is_stored_prefix(hashes: Seq<u64>, found: Seq<u64>, stored: Set<u64>) -> bool {
    &&& found.len() <= hashes.len()
    &&& found == hashes.take(found.len() as int)
    &&& forall|i: int| 0 <= i < found.len() ==> stored.contains(#[trigger] found[i])
    &&& found.len() < hashes.len() ==> !stored.contains(hashes[found.len() as int])
}

/// A lookup returns the contiguous prefix of the hashes that exist in object
/// storage: where the local registry finds the prefix that it has, the distributed
/// registry finds the prefix of the remaining ones that it has, and all that the
/// local registry has is also in the distributed one, the two together are the
/// prefix that the distributed registry has.
pub proof fn lookup_finds_the_stored_prefix(
    hashes: Seq<u64>,
    local: Seq<u64>,
    more: Seq<u64>,
    in_local: Set<u64>,
    in_distributed: Set<u64>,
)
    requires
        is_stored_prefix(hashes, local, in_local),
        is_stored_prefix(hashes.skip(local.len() as int), more, in_distributed),
        in_local.subset_of(in_distributed),
    ensures
        is_stored_prefix(hashes, local + more, in_distributed),
{
    let found = local + more;
    let remaining = hashes.skip(local.len() as int);
    assert(found =~= hashes.take(found.len() as int)) by {
        assert forall|i: int| 0 <= i < found.len() implies found[i] == hashes[i] by {
            if i < local.len() {
                assert(hashes.take(local.len() as int)[i] == hashes[i]);
            } else {
                let k = i - local.len();
                assert(remaining.take(more.len() as int)[k] == remaining[k]);
            }
        }
    }
    assert forall|i: int| 0 <= i < found.len() implies in_distributed.contains(
        #[trigger] found[i],
    ) by {
        if i < local.len() {
            assert(in_local.contains(local[i]));
        } else {
            assert(in_distributed.contains(more[i - local.len()]));
        }
    }
    if found.len() < hashes.len() {
        assert(remaining[more.len() as int] == hashes[found.len() as int]);
    }
}

/// Whatever part of the registries' answers is missing, a lookup returns the first
/// of the hashes without a gap, as long as each registry does.
pub proof fn lookup_returns_a_prefix(hashes: Seq<u64>, local: Seq<u64>, more: Seq<u64>)
    requires
        local.is_prefix_of(hashes),
        more.is_prefix_of(hashes.skip(local.len() as int)),
    ensures
        (local + more).is_prefix_of(hashes),
{
    let remaining = hashes.skip(local.len() as int);
    let found = local + more;
    assert forall|i: int| 0 <= i < found.len() implies #[trigger] found[i] == hashes[i] by {
        if i >= local.len() {
            assert(more[i - local.len()] == remaining[i - local.len()]);
        }
    }
    assert(found =~= hashes.take(found.len() as int));
}

/// The hashes that are offered for offloading are those that the local registry
/// does not have.
pub proof fn only_unknown_hashes_are_offloaded(hashes: Seq<u64>, known: Seq<u64>, hash: u64)
    ensures
        unknown_hashes(hashes, Some(known)).contains(hash) <==> hashes.contains(hash)
            && !known.contains(hash),
    decreases hashes.len(),
{
    let is_unknown = |hash: u64| !known.contains(hash);
    let unknown = hashes.filter(is_unknown);
    reveal(Seq::filter);
    if hashes.len() > 0 {
        let earlier = hashes.drop_last();
        let last = hashes.last();
        only_unknown_hashes_are_offloaded(earlier, known, hash);
        assert(hashes =~= earlier.push(last));
        assert(hashes.contains(hash) <==> earlier.contains(hash) || hash == last) by {
            if earlier.contains(hash) {
                let i = choose|i: int| 0 <= i < earlier.len() && earlier[i] == hash;
                assert(hashes[i] == hash);
            }
            assert(hashes[hashes.len() - 1] == last);
        }
        let kept = earlier.filter(is_unknown);
        if is_unknown(last) {
            assert(unknown.contains(hash) <==> kept.contains(hash) || hash == last) by {
                if kept.contains(hash) {
                    let i = choose|i: int| 0 <= i < kept.len() && kept[i] == hash;
                    assert(unknown[i] == hash);
                }
                assert(unknown[unknown.len() - 1] == last);
            }
        }
    }
}

/// The bytes of a block add up over any split of the workers.
pub proof fn bytes_add_up_over_workers(a: Seq<WorkerMetadata>, b: Seq<WorkerMetadata>)
    ensures
        total_bytes(a + b) == total_bytes(a) + total_bytes(b),
    decreases b.len(),
{
    if b.len() == 0 {
        assert(a + b =~= a);
    } else {
        bytes_add_up_over_workers(a, b.drop_last());
        assert((a + b).drop_last() =~= a + b.drop_last());
    }
}

/// The bytes of a block of one worker alone are its own.
pub proof fn one_worker_has_its_own_bytes(worker: WorkerMetadata)
    ensures
        total_bytes(seq![worker]) == worker.bytes_per_block,
        total_bytes(Seq::empty()) == 0,
{
    reveal_with_fuel(total_bytes, 2);
    assert(seq![worker].drop_last() =~= Seq::empty());
    assert(seq![worker].last() == worker);
}

/// Workers that hold equally many bytes of a block hold as many times these bytes as
/// there are workers.
pub proof fn equal_workers_multiply_the_bytes(workers: Seq<WorkerMetadata>, bytes: usize)
    requires
        forall|i: int| 0 <= i < workers.len() ==> (#[trigger] workers[i]).bytes_per_block == bytes,
    ensures
        total_bytes(workers) == workers.len() * bytes,
    decreases workers.len(),
{
    if workers.len() > 0 {
        equal_workers_multiply_the_bytes(workers.drop_last(), bytes);
        assert(workers.len() * bytes == (workers.len() - 1) * bytes + bytes) by (nonlinear_arith);
    }
}

/// The fewest device blocks are those of some worker, and no worker has fewer; there
/// is only one such number.
pub proof fn no_worker_has_fewer_device_blocks(
    workers: Seq<WorkerMetadata>,
    fewest: usize,
    other: usize,
    i: int,
)
    requires
        is_fewest_device_blocks(workers, fewest),
        0 <= i < workers.len(),
    ensures
        fewest <= workers[i].num_device_blocks,
        exists|j: int| 0 <= j < workers.len() && (#[trigger] workers[j]).num_device_blocks == fewest,
        is_fewest_device_blocks(workers, other) ==> other == fewest,
{
}

/// Of two groups of workers, the one with fewer device blocks decides.
pub proof fn the_smaller_group_decides(
    a: Seq<WorkerMetadata>,
    b: Seq<WorkerMetadata>,
    x: usize,
    y: usize,
)
    requires
        is_fewest_device_blocks(a, x),
        is_fewest_device_blocks(b, y),
    ensures
        is_fewest_device_blocks(
            a + b,
            if x <= y {
                x
            } else {
                y
            },
        ),
{
    let all = a + b;
    let i = choose|i: int| 0 <= i < a.len() && #[trigger] a[i].num_device_blocks == x;
    let j = choose|j: int| 0 <= j < b.len() && #[trigger] b[j].num_device_blocks == y;
    assert(all[i].num_device_blocks == x);
    assert(all[a.len() + j].num_device_blocks == y);
    assert forall|k: int| 0 <= k < all.len() implies (if x <= y {
        x
    } else {
        y
    }) <= (#[trigger] all[k]).num_device_blocks by {
        if k < a.len() {
            assert(all[k] == a[k]);
        } else {
            assert(all[k] == b[k - a.len()]);
        }
    }
}

/// A lookup returns the local matches and then the hash of every entry of the reply,
/// as it is and in its order; these entries, and no others, are new to the local
/// registry.
pub proof fn a_reply_is_returned_entry_by_entry<M>(
    local: Seq<u64>,
    entries: Seq<(u64, M)>,
    matched: Seq<u64>,
    registered: Seq<u64>,
)
    requires
        matched == local + reply_hashes(Some(entries)),
        registered == reply_hashes(Some(entries)),
    ensures
        matched.len() == local.len() + entries.len(),
        registered.len() == entries.len(),
        forall|i: int| 0 <= i < local.len() ==> #[trigger] matched[i] == local[i],
        forall|j: int|
            #![trigger entries[j]]
            0 <= j < entries.len() ==> matched[local.len() + j] == entries[j].0 && registered[j]
                == entries[j].0,
        reply_hashes::<M>(None).len() == 0,
{
}

/// Where the local registry finds the first of the hashes, and the entries of the reply
/// name the next ones, a lookup returns the first of the hashes without a gap.
pub proof fn a_reply_with_the_next_hashes_gives_a_prefix<M>(
    hashes: Seq<u64>,
    local: Seq<u64>,
    entries: Seq<(u64, M)>,
)
    requires
        local.is_prefix_of(hashes),
        local.len() + entries.len() <= hashes.len(),
        forall|j: int|
            #![trigger entries[j]]
            0 <= j < entries.len() ==> entries[j].0 == hashes[local.len() + j],
    ensures
        (local + reply_hashes(Some(entries))).is_prefix_of(hashes),
        (local + reply_hashes(Some(entries))).len() == local.len() + entries.len(),
{
    let found = local + reply_hashes(Some(entries));
    assert forall|i: int| 0 <= i < found.len() implies #[trigger] found[i] == hashes[i] by {
        if i >= local.len() {
            assert(entries[i - local.len()].0 == hashes[i]);
        }
    }
    assert(found =~= hashes.take(found.len() as int));
}

/// The hashes are looked at one by one, each on its own: a known one is left out, any
/// other stays, as often as it comes and where it comes. Without a local registry all
/// of them stay.
pub proof fn hashes_are_filtered_one_by_one(a: Seq<u64>, b: Seq<u64>, hash: u64, known: Seq<u64>)
    ensures
        unknown_hashes(a + b, Some(known)) == unknown_hashes(a, Some(known)) + unknown_hashes(
            b,
            Some(known),
        ),
        known.contains(hash) ==> unknown_hashes(seq![hash], Some(known)) == Seq::<u64>::empty(),
        !known.contains(hash) ==> unknown_hashes(seq![hash], Some(known)) == seq![hash],
        unknown_hashes(a, None) == a,
{
    let is_unknown = |hash: u64| !known.contains(hash);
    Seq::filter_distributes_over_add(a, b, is_unknown);
    reveal(Seq::filter);
    assert(seq![hash].drop_last() =~= Seq::<u64>::empty());
    assert(seq![hash].last() == hash);
    assert(Seq::<u64>::empty().filter(is_unknown) =~= Seq::<u64>::empty());
}

/// An optional list has contents exactly where it is there, and then its own.
pub proof fn contents_are_those_of_the_list<T>(list: Vec<T>)
    ensures
        contents(Some(list)) == Some(list@),
        contents::<T>(None) is None,
{
}

} // verus!
