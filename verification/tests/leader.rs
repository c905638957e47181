use dynamo_llm::leader::{
    summarize_workers, G4Lookup, KvbmLeader, KvbmLeaderState, OffloadFilter, WorkerSummary,
};
use dynamo_llm::leader_config::{
    compute_num_blocks, object_tier_configured, ConfigError, KvbmLeaderConfig,
    KvbmLeaderNumBlocksConfig, KvbmLeaderNumBlocksConfigBuilder,
};
use dynamo_llm::messages::{
    BlockTransferPool, BlockTransferRequest, ConnectorRequestLeader, ConnectorTransferType,
    WorkerMetadata, ZMQ_LEADER_METADATA_MESSAGE, ZMQ_PING_MESSAGE, ZMQ_TRANSFER_BLOCKS_MESSAGE,
    ZMQ_WORKER_METADATA_MESSAGE,
};

fn blocks(gb: f64, overriden: usize) -> KvbmLeaderNumBlocksConfig {
    KvbmLeaderNumBlocksConfigBuilder::default()
        .cache_size_in_gb_bits(gb.to_bits())
        .num_blocks_overriden(overriden)
        .build()
}

fn config() -> KvbmLeaderConfig<&'static str> {
    KvbmLeaderConfig::builder().build(None)
}

/// A leader with object storage.
fn leader(distributed: bool, runtime: bool) -> KvbmLeader<&'static str> {
    KvbmLeader::new(config(), true, 100, distributed, Some("bucket".to_string()), runtime)
}

#[test]
fn a_configuration_has_defaults() {
    let config = config();
    assert_eq!(config.world_size, 1);
    assert_eq!(config.leader_init_timeout_secs, 120);
    assert_eq!(config.host_blocks_config, KvbmLeaderNumBlocksConfig::default());
    assert_eq!(config.disk_blocks_config, KvbmLeaderNumBlocksConfig::default());
    assert_eq!(config.object_storage_config, None);
    assert_eq!(config.leader_pub_url, "tcp://127.0.0.1:56001");
    assert_eq!(config.leader_ack_url, "tcp://127.0.0.1:56002");
    assert_eq!(KvbmLeaderNumBlocksConfig::default().cache_size_in_gb_bits, 0.0f64.to_bits());
    assert_eq!(KvbmLeaderNumBlocksConfigBuilder::default().build(), blocks(0.0, 0));
}

#[test]
fn a_configuration_has_what_it_was_given() {
    let config = KvbmLeaderConfig::builder()
        .world_size(4)
        .leader_init_timeout_secs(7)
        .host_blocks_config(blocks(4.0, 0))
        .disk_blocks_config(blocks(0.0, 9))
        .object_storage_config(Some("given"))
        .leader_pub_url("tcp://a".to_string())
        .leader_ack_url("tcp://b".to_string())
        .build(Some("environment"));
    assert_eq!(config.world_size, 4);
    assert_eq!(config.leader_init_timeout_secs, 7);
    assert_eq!(config.host_blocks_config, blocks(4.0, 0));
    assert_eq!(config.disk_blocks_config, blocks(0.0, 9));
    assert_eq!(config.object_storage_config, Some("given"));
    assert_eq!(config.leader_pub_url, "tcp://a");
    assert_eq!(config.leader_ack_url, "tcp://b");
    let copy = config.clone();
    assert_eq!(copy.world_size, 4);
    assert_eq!(copy.disk_blocks_config, blocks(0.0, 9));
    assert_eq!(copy.object_storage_config, Some("given"));
    assert_eq!(copy.leader_pub_url, "tcp://a");
    let builder = KvbmLeaderConfig::builder().world_size(2).object_storage_config(Some("given"));
    let copy = builder.clone().build(None);
    assert_eq!((copy.world_size, copy.object_storage_config), (2, Some("given")));

    let config = KvbmLeaderConfig::builder().build(Some("environment"));
    assert_eq!(config.object_storage_config, Some("environment"));
    let config = KvbmLeaderConfig::builder().object_storage_config(None).build(Some("environment"));
    assert_eq!(config.object_storage_config, None);
}

#[test]
fn some_cache_tier_is_needed() {
    assert!(!config().cache_tier_configured(false, 0));
    assert!(!config().cache_tier_configured(false, 10));
    assert!(!config().cache_tier_configured(true, 0));
    assert!(config().cache_tier_configured(true, 1));
    assert!(config().sanity_check(true, 1).is_ok());
    for tier in [blocks(0.5, 0), blocks(0.0, 1), blocks(f64::INFINITY, 0), blocks(-1.0, 2)] {
        assert!(tier.is_configured());
        let host = KvbmLeaderConfig::<u8>::builder().host_blocks_config(tier).build(None);
        assert!(host.cache_tier_configured(false, 0));
        assert!(host.sanity_check(false, 0).is_ok());
        let disk = KvbmLeaderConfig::<u8>::builder().disk_blocks_config(tier).build(None);
        assert!(disk.cache_tier_configured(false, 0));
        assert!(disk.sanity_check(false, 0).is_ok());
    }
    for tier in [blocks(-1.0, 0), blocks(0.0, 0), blocks(-0.0, 0), blocks(f64::NAN, 0)] {
        assert!(!tier.is_configured());
    }
    assert!(blocks(f64::MIN_POSITIVE / 4.0, 0).is_configured());
    assert!(!blocks(f64::from_bits(0xfff8_0000_0000_0000), 0).is_configured());
    assert!(!blocks(f64::NEG_INFINITY, 0).is_configured());
    assert!(object_tier_configured(true, 5));
}

#[test]
fn the_urls_have_to_differ() {
    let config = KvbmLeaderConfig::<u8>::builder()
        .leader_pub_url("tcp://a".to_string())
        .leader_ack_url("tcp://a".to_string())
        .build(None);
    let error = config.sanity_check(false, 0).unwrap_err();
    assert_eq!(error, ConfigError::SameUrl);
    assert_eq!(
        error.message(),
        "leader_pub_url and leader_ack_url must differ (same endpoint would fail to bind)."
    );
}

#[test]
fn a_number_of_blocks_overrides_the_cache_size() {
    assert_eq!(compute_num_blocks(&blocks(4.0, 10), 77), 10);
    assert_eq!(compute_num_blocks(&blocks(4.0, 0), 77), 77);
}

#[test]
fn workers_are_summarized() {
    let worker = |num_device_blocks, bytes_per_block| WorkerMetadata {
        num_device_blocks,
        bytes_per_block,
    };
    assert_eq!(
        summarize_workers(&[worker(10, 100), worker(7, 200), worker(9, 300)]),
        WorkerSummary { num_device_blocks: Some(7), bytes_per_block: 600 }
    );
    assert_eq!(
        summarize_workers(&[]),
        WorkerSummary { num_device_blocks: None, bytes_per_block: 0 }
    );
    assert_eq!(
        summarize_workers(&[worker(0, usize::MAX), worker(1, 0)]),
        WorkerSummary { num_device_blocks: Some(0), bytes_per_block: usize::MAX }
    );
}

#[test]
fn the_leader_answers_its_workers() {
    let config = KvbmLeaderConfig::builder()
        .host_blocks_config(blocks(4.0, 0))
        .disk_blocks_config(blocks(4.0, 50))
        .build(Some("s3"));
    let mut leader = KvbmLeader::new(config, false, 0, false, None, true);
    assert_eq!(leader.state, KvbmLeaderState::default());
    let summary = WorkerSummary { num_device_blocks: Some(5), bytes_per_block: 600 };
    let answer = leader.answer_workers(summary, 11, 12, 13);
    assert_eq!(answer.num_host_blocks, 11);
    assert_eq!(answer.num_disk_blocks, 50);
    assert_eq!(answer.num_object_blocks, 13);
    assert_eq!(answer.object_storage_config, Some("s3"));
    assert_eq!(leader.num_device_blocks(), 5);
    assert_eq!(leader.num_host_blocks(), 11);
    assert_eq!(leader.num_disk_blocks(), 50);
    assert_eq!(leader.num_object_blocks(), 13);
    assert_eq!(leader.bytes_per_block(), 600);
    assert!(!leader.state.workers_allocation_ready);

    // Without workers the number of device blocks stays.
    let summary = WorkerSummary { num_device_blocks: None, bytes_per_block: 0 };
    leader.answer_workers(summary, 1, 2, 3);
    assert_eq!(leader.num_device_blocks(), 5);
    assert_eq!(leader.bytes_per_block(), 0);

    leader.workers_are_ready();
    assert!(leader.state.workers_allocation_ready);
    assert_eq!(leader.num_host_blocks(), 1);
}

#[test]
fn g4_needs_offloading_and_blocks() {
    let new = |enabled, num_blocks, connected| {
        KvbmLeader::new(config(), enabled, num_blocks, connected, None, true)
    };
    assert!(!new(false, 100, true).g4_enabled());
    assert!(!new(true, 0, true).g4_enabled());
    assert!(!new(true, 0, true).has_distributed_registry);
    let leader = new(true, 100, false);
    assert!(leader.g4_enabled());
    assert_eq!(leader.g4_registry_capacity, Some(100));
    assert!(!leader.has_distributed_registry);
    assert_eq!(leader.g4_bucket, "kvcache");
    assert!(new(true, 1, true).has_distributed_registry);
}

#[test]
fn hashes_are_registered_where_they_can_be() {
    let plan = leader(true, true).g4_register_hashes(&[1]);
    assert!(plan.local);
    assert_eq!(plan.distributed.as_deref(), Some("bucket"));
    let plan = leader(true, true).g4_register_hashes(&[]);
    assert!(!plan.local);
    assert_eq!(plan.distributed, None);
    let plan = leader(true, false).g4_register_hashes(&[1]);
    assert!(plan.local);
    assert_eq!(plan.distributed, None);
    let plan = leader(false, true).g4_register_hashes(&[1]);
    assert!(plan.local);
    assert_eq!(plan.distributed, None);
    let plan = KvbmLeader::new(config(), false, 0, true, None, true).g4_register_hashes(&[1]);
    assert!(!plan.local);
    assert_eq!(plan.distributed, None);
}

#[test]
fn known_hashes_are_not_offloaded() {
    match leader(false, true).g4_filter_for_offload(&[5, 1, 5, 2, 3], Some(vec![3, 1, 8])) {
        OffloadFilter::Known(hashes) => assert_eq!(hashes, vec![5, 5, 2]),
        OffloadFilter::Ask { .. } => panic!("nobody to ask"),
    }
    match leader(false, true).g4_filter_for_offload(&[2, 1], None) {
        OffloadFilter::Known(hashes) => assert_eq!(hashes, vec![2, 1]),
        OffloadFilter::Ask { .. } => panic!("nobody to ask"),
    }
    match leader(true, true).g4_filter_for_offload(&[2, 1], Some(vec![1, 2])) {
        OffloadFilter::Known(hashes) => assert!(hashes.is_empty()),
        OffloadFilter::Ask { .. } => panic!("nothing to ask"),
    }
    match leader(true, true).g4_filter_for_offload(&[], None) {
        OffloadFilter::Known(hashes) => assert!(hashes.is_empty()),
        OffloadFilter::Ask { .. } => panic!("nothing to ask"),
    }
}

#[test]
fn the_distributed_registry_decides_on_the_rest() {
    match leader(true, false).g4_filter_for_offload(&[1, 2, 3], Some(vec![2])) {
        OffloadFilter::Ask { bucket, hashes } => {
            assert_eq!(bucket, "bucket");
            assert_eq!(hashes, vec![1, 3]);
            let allowed = KvbmLeader::<u8>::g4_filter_after_reply(hashes.clone(), Some(vec![3]));
            assert_eq!(allowed, vec![3]);
            let allowed = KvbmLeader::<u8>::g4_filter_after_reply(hashes, None);
            assert_eq!(allowed, vec![1, 3]);
        }
        OffloadFilter::Known(_) => panic!("not asked"),
    }
}

fn known(lookup: G4Lookup) -> Vec<u64> {
    match lookup {
        G4Lookup::Known(hashes) => hashes,
        G4Lookup::Ask { .. } => panic!("asked"),
    }
}

#[test]
fn a_lookup_asks_only_for_what_is_missing() {
    assert!(known(leader(true, true).g4_lookup(&[], Some(vec![]))).is_empty());
    assert_eq!(known(leader(true, true).g4_lookup(&[1, 2], Some(vec![1, 2]))), vec![1, 2]);
    assert_eq!(known(leader(true, false).g4_lookup(&[1, 2], Some(vec![1]))), vec![1]);
    assert_eq!(known(leader(false, true).g4_lookup(&[1, 2], Some(vec![1]))), vec![1]);
    assert!(known(leader(false, true).g4_lookup(&[1, 2], None)).is_empty());
    match leader(true, true).g4_lookup(&[1, 2, 3], Some(vec![1])) {
        G4Lookup::Ask { bucket, local, remaining } => {
            assert_eq!(bucket, "bucket");
            assert_eq!(local, vec![1]);
            assert_eq!(remaining, vec![2, 3]);
        }
        G4Lookup::Known(_) => panic!("not asked"),
    }
}

#[test]
fn a_lookup_puts_both_answers_together() {
    let leader = leader(true, true);
    let found = leader.g4_lookup_after_reply(vec![1], Some(&[(2, "a"), (3, "b")][..]));
    assert_eq!(found.matched, vec![1, 2, 3]);
    assert_eq!(found.to_register, Some(vec![2, 3]));
    let found = leader.g4_lookup_after_reply::<()>(vec![1], None);
    assert_eq!(found.matched, vec![1]);
    assert_eq!(found.to_register, None);
    let found = leader.g4_lookup_after_reply::<()>(vec![1], Some(&[][..]));
    assert_eq!(found.matched, vec![1]);
    assert_eq!(found.to_register, None);

    let mut without_local = leader;
    without_local.g4_registry_capacity = None;
    let found = without_local.g4_lookup_after_reply(vec![], Some(&[(2, ())][..]));
    assert_eq!(found.matched, vec![2]);
    assert_eq!(found.to_register, None);
}

#[test]
fn requests_hold_what_they_were_made_from() {
    let device = BlockTransferPool::Device;
    let host = BlockTransferPool::Host;
    let request = BlockTransferRequest::<&str>::new(device, host, vec![(1, 2)]);
    assert_eq!(*request.from_pool(), device);
    assert_eq!(*request.to_pool(), host);
    assert_eq!(request.blocks(), &vec![(1, 2)]);
    assert_eq!(*request.connector_req(), None);
    assert_eq!(*request.sequence_hashes(), None);
    assert!(!*request.write_through());

    let request = BlockTransferRequest::new_with_trigger_id(host, device, vec![], "req");
    assert_eq!(request.connector_req, Some("req"));
    assert_eq!(request.sequence_hashes, None);
    assert!(!request.write_through);

    let request =
        BlockTransferRequest::new_with_write_through(device, host, vec![(0, 0)], "req", vec![9]);
    assert_eq!(request.connector_req, Some("req"));
    assert_eq!(request.sequence_hashes, Some(vec![9]));
    assert!(request.write_through);

    let request = BlockTransferRequest::<u8>::new_with_hashes(
        BlockTransferPool::Disk,
        host,
        vec![(3, 4)],
        vec![8],
    );
    assert_eq!(request.from_pool, BlockTransferPool::Disk);
    assert_eq!(request.connector_req, None);
    assert_eq!(request.sequence_hashes, Some(vec![8]));
    assert!(!request.write_through);
    assert_eq!(request.clone().blocks, vec![(3, 4)]);
}

#[test]
fn onboarding_pairs_host_and_device_blocks() {
    let request =
        BlockTransferRequest::new_g4_onboard(vec![7, 8], vec![1, 2, 3], vec![10, 20], "req");
    assert_eq!(request.from_pool, BlockTransferPool::Object);
    assert_eq!(request.to_pool, BlockTransferPool::Device);
    assert_eq!(request.blocks, vec![(1, 10), (2, 20)]);
    assert_eq!(request.connector_req, Some("req"));
    assert_eq!(request.sequence_hashes, Some(vec![7, 8]));
    assert!(!request.write_through);
    let request = BlockTransferRequest::new_g4_onboard(vec![], vec![1], vec![10, 20], "req");
    assert_eq!(request.blocks, vec![(1, 10)]);
}

#[test]
fn offloading_names_host_blocks() {
    let request = BlockTransferRequest::<u8>::new_g4_offload(vec![4, 5], vec![7, 8]);
    assert_eq!(request.from_pool, BlockTransferPool::Host);
    assert_eq!(request.to_pool, BlockTransferPool::Object);
    assert_eq!(request.blocks, vec![(4, 0), (5, 0)]);
    assert_eq!(request.connector_req, None);
    assert_eq!(request.sequence_hashes, Some(vec![7, 8]));
    assert!(!request.write_through);
}

#[test]
fn messages_have_names() {
    assert_eq!(ZMQ_PING_MESSAGE, "ping");
    assert_eq!(ZMQ_WORKER_METADATA_MESSAGE, "worker_metadata");
    assert_eq!(ZMQ_LEADER_METADATA_MESSAGE, "leader_metadata");
    assert_eq!(ZMQ_TRANSFER_BLOCKS_MESSAGE, "transfer_blocks");
    let request = ConnectorRequestLeader {
        req_id: "r".to_string(),
        txn_id: 3,
        transfer_type: ConnectorTransferType::Load,
    };
    assert_eq!(request.clone().txn_id, 3);
}
