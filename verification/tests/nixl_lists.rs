use dynamo_llm::nixl::{
    append_xfer_request, polls_again, write_blocks_to, BlockLayout, MemType, XferDesc, XferStatus,
    POLL_INTERVAL_MILLIS,
};
use dynamo_llm::strategy::{NixlTransfer, XferOp};
use dynamo_llm::transfer::BlockError;

fn desc(addr: usize) -> XferDesc {
    XferDesc { addr, size: 8, device_id: 1 }
}

fn whole(addr: usize) -> BlockLayout {
    BlockLayout {
        mem_type: MemType::Dram,
        fully_contiguous: true,
        whole: Ok(desc(addr)),
        num_outer_dims: 1,
        layers: vec![vec![Ok(desc(addr))]],
    }
}

/// Two layers of two pieces each.
fn scattered(addr: usize) -> BlockLayout {
    BlockLayout {
        mem_type: MemType::Vram,
        fully_contiguous: false,
        whole: Err(BlockError::View("scattered".to_string())),
        num_outer_dims: 2,
        layers: vec![
            vec![Ok(desc(addr)), Ok(desc(addr + 1))],
            vec![Ok(desc(addr + 2)), Ok(desc(addr + 3))],
        ],
    }
}

fn addrs(list: &[XferDesc]) -> Vec<usize> {
    list.iter().map(|d| d.addr).collect()
}

#[test]
fn contiguous_blocks_are_moved_in_one_piece() {
    let plan = write_blocks_to(&[whole(1), whole(2)], &[whole(10), whole(20)], NixlTransfer::Write)
        .unwrap()
        .unwrap();
    assert_eq!(plan.op, XferOp::Write);
    assert_eq!(plan.src_mem, MemType::Dram);
    assert_eq!(addrs(&plan.src_list), vec![1, 2]);
    assert_eq!(addrs(&plan.dst_list), vec![10, 20]);
    assert_eq!(plan.dst_list[1], XferDesc { addr: 20, size: 8, device_id: 1 });
}

#[test]
fn scattered_blocks_are_moved_layer_by_layer() {
    let plan = write_blocks_to(&[scattered(100)], &[scattered(200)], NixlTransfer::Read)
        .unwrap()
        .unwrap();
    assert_eq!(plan.op, XferOp::Read);
    assert_eq!(plan.src_mem, MemType::Vram);
    assert_eq!(plan.dst_mem, MemType::Vram);
    assert_eq!(addrs(&plan.src_list), vec![100, 101, 102, 103]);
    assert_eq!(addrs(&plan.dst_list), vec![200, 201, 202, 203]);
}

#[test]
fn a_scattered_side_scatters_the_pair() {
    let mut contiguous = scattered(100);
    contiguous.fully_contiguous = true;
    contiguous.whole = Ok(desc(100));
    let mut src_list = vec![desc(5)];
    let mut dst_list = vec![desc(6)];
    append_xfer_request(&contiguous, &scattered(200), &mut src_list, &mut dst_list).unwrap();
    assert_eq!(addrs(&src_list), vec![5, 100, 101, 102, 103]);
    assert_eq!(addrs(&dst_list), vec![6, 200, 201, 202, 203]);
}

#[test]
fn the_first_unreachable_piece_is_reported() {
    let mut bad = scattered(100);
    bad.layers[1][0] = Err(BlockError::View("no source".to_string()));
    let mut bad_target = scattered(200);
    bad_target.layers[0][1] = Err(BlockError::View("no target".to_string()));

    let mut src_list = vec![];
    let mut dst_list = vec![];
    let error =
        append_xfer_request(&bad, &scattered(200), &mut src_list, &mut dst_list).unwrap_err();
    assert_eq!(error.message(), "no source");
    assert_eq!(addrs(&src_list), vec![100, 101]);
    assert_eq!(addrs(&dst_list), vec![200, 201]);

    let error = write_blocks_to(
        &[whole(1), bad],
        &[whole(2), bad_target],
        NixlTransfer::Write,
    )
    .unwrap_err();
    assert_eq!(error.message(), "no target");
}

#[test]
fn a_missing_piece_is_reported() {
    let mut short = scattered(100);
    short.layers[1].pop();
    let error = write_blocks_to(&[scattered(0)], &[short], NixlTransfer::Write).unwrap_err();
    assert_eq!(error.message(), "no view of layer 1, outer dimension 1");

    let mut broken = whole(1);
    broken.whole = Err(BlockError::View("unmapped".to_string()));
    let error = write_blocks_to(&[broken], &[whole(2)], NixlTransfer::Write).unwrap_err();
    assert_eq!(error.message(), "unmapped");
}

#[test]
fn an_unmatched_pair_after_an_unreachable_one_is_not_looked_at() {
    let mut broken = whole(1);
    broken.whole = Err(BlockError::View("unmapped".to_string()));
    let mut short = scattered(200);
    short.layers.pop();
    let error = write_blocks_to(
        &[broken, scattered(100)],
        &[whole(2), short],
        NixlTransfer::Write,
    )
    .unwrap_err();
    assert_eq!(error.message(), "unmapped");
}

#[test]
fn nothing_is_planned_for_an_empty_side() {
    assert!(write_blocks_to(&[], &[whole(1)], NixlTransfer::Write).unwrap().is_none());
    assert!(write_blocks_to(&[whole(1)], &[], NixlTransfer::Write).unwrap().is_none());
}

#[test]
fn a_request_is_polled_while_in_progress() {
    assert!(polls_again(XferStatus::InProgress));
    assert!(!polls_again(XferStatus::Success));
    assert!(!polls_again(XferStatus::Unknown));
    assert_eq!(POLL_INTERVAL_MILLIS, 5);
}
