//! Transfers through a NIXL agent: the descriptor lists that an agent is given.
use vstd::prelude::*;

use crate::strategy::{NixlTransfer, XferOp};
use crate::transfer::BlockError;

verus! {

/// Type of memory, as the agent distinguishes it.
#[derive(Debug, Clone, Copy, PartialEq, Eq, Structural)]
pub enum MemType {
    /// Host memory
    Dram,
    /// GPU memory
    Vram,
    /// Block storage
    Block,
    /// Object storage
    Object,
    /// File storage
    File,
}

/// One entry of a descriptor list: a piece of memory on a device.
#[derive(Debug, Clone, Copy, PartialEq, Eq, Structural)]
pub struct XferDesc {
    pub addr: usize,
    pub size: usize,
    pub device_id: u64,
}

/// Where the memory of a block lies: in one piece, or in one piece for each layer
/// and outer dimension. A piece that cannot be reached has the reason in its
/// place.
#[derive(Debug)]
pub struct BlockLayout {
    pub mem_type: MemType,
    pub fully_contiguous: bool,
    /// The block in one piece.
    pub whole: Result<XferDesc, BlockError>,
    pub num_outer_dims: usize,
    /// The pieces, by layer and by outer dimension.
    pub layers: Vec<Vec<Result<XferDesc, BlockError>>>,
}

impl BlockLayout {
    /// The piece for a layer and an outer dimension.
    pub open spec fn piece(self, layer: int, outer: int) -> Result<XferDesc, BlockError> {
        if 0 <= layer < self.layers@.len() && 0 <= outer < self.layers@[layer]@.len() {
            self.layers@[layer]@[outer]
        } else {
            Err(BlockError::NoSuchLayer { layer: layer as usize, outer: outer as usize })
        }
    }

    /// Looks up the piece for a layer and an outer dimension.
    pub fn layer_view(&self, layer: usize, outer: usize) -> (view: Result<XferDesc, BlockError>)
        ensures
            view == self.piece(layer as int, outer as int),
    {
        if layer < self.layers.len() && outer < self.layers[layer].len() {
            match &self.layers[layer][outer] {
                Ok(desc) => Ok(*desc),
                Err(error) => Err(error.clone()),
            }
        } else {
            Err(BlockError::NoSuchLayer { layer, outer })
        }
    }

    /// Looks up the block in one piece.
    pub fn block_view(&self) -> (view: Result<XferDesc, BlockError>)
        ensures
            view == self.whole,
    {
        match &self.whole {
            Ok(desc) => Ok(*desc),
            Err(error) => Err(error.clone()),
        }
    }
}

/// Whether two blocks are moved in one piece.
pub open spec fn in_one_piece(src: BlockLayout, dst: BlockLayout) -> bool {
    src.fully_contiguous && dst.fully_contiguous
}

/// In how many pieces a block is moved.
pub open spec fn piece_count(src: BlockLayout, dst: BlockLayout) -> nat {
    if in_one_piece(src, dst) {
        1
    } else {
        src.layers@.len() * src.num_outer_dims as nat
    }
}

/// The `k`-th piece of `block` when it is moved from `src` to `dst`: layer by
/// layer, and within a layer by outer dimension.
pub open spec fn kth_piece(
    block: BlockLayout,
    src: BlockLayout,
    dst: BlockLayout,
    k: int,
) -> Result<XferDesc, BlockError> {
    if in_one_piece(src, dst) {
        block.whole
    } else {
        block.piece(k / src.num_outer_dims as int, k % src.num_outer_dims as int)
    }
}

/// Why the `k`-th pair of pieces cannot be moved, if so: the source is looked at
/// first.
pub open spec fn pair_error(src: BlockLayout, dst: BlockLayout, k: int) -> Option<BlockError> {
    match kth_piece(src, src, dst, k) {
        Err(error) => Some(error),
        Ok(_) => match kth_piece(dst, src, dst, k) {
            Err(error) => Some(error),
            Ok(_) => None,
        },
    }
}

/// The first `count` pieces of `block`.
pub open spec fn pieces(
    block: BlockLayout,
    src: BlockLayout,
    dst: BlockLayout,
    count: nat,
) -> Seq<XferDesc> {
    Seq::new(count, |k: int| kth_piece(block, src, dst, k)->Ok_0)
}

/// Whether the first `count` pairs of pieces can all be moved.
pub open spec fn movable(src: BlockLayout, dst: BlockLayout, count: nat) -> bool {
    forall|k: int| 0 <= k < count ==> #[trigger] pair_error(src, dst, k) is None
}

/// Appends one pair of pieces to the lists.
fn append_pair(
    src_view: Result<XferDesc, BlockError>,
    dst_view: Result<XferDesc, BlockError>,
    src_list: &mut Vec<XferDesc>,
    dst_list: &mut Vec<XferDesc>,
) -> (appended: Result<(), BlockError>)
    ensures
        match appended {
            Ok(_) => {
                &&& src_view is Ok && dst_view is Ok
                &&& final(src_list)@ == old(src_list)@.push(src_view->Ok_0)
                &&& final(dst_list)@ == old(dst_list)@.push(dst_view->Ok_0)
            },
            Err(error) => {
                &&& src_view == Err::<XferDesc, BlockError>(error) || (src_view is Ok && dst_view
                    == Err::<XferDesc, BlockError>(error))
                &&& final(src_list)@ == old(src_list)@
                &&& final(dst_list)@ == old(dst_list)@
            },
        },
{
    let src_desc = match src_view {
        Ok(desc) => desc,
        Err(error) => {
            return Err(error);
        },
    };
    let dst_desc = match dst_view {
        Ok(desc) => desc,
        Err(error) => {
            return Err(error);
        },
    };
    src_list.push(src_desc);
    dst_list.push(dst_desc);
    Ok(())
}

/// Where piece `outer` of layer `layer` stands when `outer_dims` pieces make a
/// layer.
proof fn lemma_piece_position(layer: int, outer: int, outer_dims: int)
    requires
        0 <= layer,
        0 <= outer < outer_dims,
    ensures
        (layer * outer_dims + outer) / outer_dims == layer,
        (layer * outer_dims + outer) % outer_dims == outer,
{
    assert(layer * outer_dims + outer == outer_dims * layer + outer) by (nonlinear_arith);
    vstd::arithmetic::div_mod::lemma_fundamental_div_mod_converse(
        layer * outer_dims + outer,
        outer_dims,
        layer,
        outer,
    );
}

/// Appends the pieces of one block pair to the lists, source by source and
/// destination by destination. Stops at the first pair that cannot be reached; the
/// pairs before it stay in the lists.
pub fn append_xfer_request(
    src: &BlockLayout,
    dst: &BlockLayout,
    src_list: &mut Vec<XferDesc>,
    dst_list: &mut Vec<XferDesc>,
) -> (appended: Result<(), BlockError>)
    requires
        !in_one_piece(*src, *dst) ==> src.layers@.len() == dst.layers@.len(),
    ensures
        match appended {
            Ok(_) => {
                let count = piece_count(*src, *dst);
                &&& movable(*src, *dst, count)
                &&& final(src_list)@ == old(src_list)@ + pieces(*src, *src, *dst, count)
                &&& final(dst_list)@ == old(dst_list)@ + pieces(*dst, *src, *dst, count)
            },
            Err(error) => exists|count: nat|
                {
                    &&& count < piece_count(*src, *dst)
                    &&& movable(*src, *dst, count)
                    &&& pair_error(*src, *dst, count as int) == Some(error)
                    &&& final(src_list)@ == old(src_list)@ + #[trigger] pieces(
                        *src,
                        *src,
                        *dst,
                        count,
                    )
                    &&& final(dst_list)@ == old(dst_list)@ + pieces(*dst, *src, *dst, count)
                },
        },
{
    if src.fully_contiguous && dst.fully_contiguous {
        let src_view = src.block_view();
        let dst_view = dst.block_view();
        let appended = append_pair(src_view, dst_view, src_list, dst_list);
        proof {
            if appended is Ok {
                assert(src_list@ =~= old(src_list)@ + pieces(*src, *src, *dst, 1));
                assert(dst_list@ =~= old(dst_list)@ + pieces(*dst, *src, *dst, 1));
            } else {
                assert(src_list@ =~= old(src_list)@ + pieces(*src, *src, *dst, 0));
                assert(dst_list@ =~= old(dst_list)@ + pieces(*dst, *src, *dst, 0));
                assert(pair_error(*src, *dst, 0) == Some(appended->Err_0));
            }
        }
        return appended;
    }
    let num_layers: usize = src.layers.len();
    let outer_dims: usize = src.num_outer_dims;
    let ghost total = piece_count(*src, *dst);
    let mut layer: usize = 0;
    while layer < num_layers
        invariant
            !in_one_piece(*src, *dst),
            num_layers == src.layers@.len(),
            outer_dims == src.num_outer_dims,
            total == num_layers * outer_dims,
            total == piece_count(*src, *dst),
            layer <= num_layers,
            movable(*src, *dst, (layer * outer_dims) as nat),
            src_list@ == old(src_list)@ + pieces(*src, *src, *dst, (layer * outer_dims) as nat),
            dst_list@ == old(dst_list)@ + pieces(*dst, *src, *dst, (layer * outer_dims) as nat),
        decreases num_layers - layer,
    {
        let mut outer: usize = 0;
        proof {
            assert((layer + 1) * outer_dims == layer * outer_dims + outer_dims) by (nonlinear_arith);
            assert((layer + 1) * outer_dims <= num_layers * outer_dims) by (nonlinear_arith)
                requires
                    layer + 1 <= num_layers,
                    0 <= outer_dims,
            ;
            assert(layer * outer_dims >= 0) by (nonlinear_arith);
        }
        while outer < outer_dims
            invariant
                !in_one_piece(*src, *dst),
                outer_dims == src.num_outer_dims,
                total == piece_count(*src, *dst),
                0 <= layer * outer_dims,
                layer * outer_dims + outer_dims <= total,
                outer <= outer_dims,
                movable(*src, *dst, (layer * outer_dims + outer) as nat),
                src_list@ == old(src_list)@ + pieces(
                    *src,
                    *src,
                    *dst,
                    (layer * outer_dims + outer) as nat,
                ),
                dst_list@ == old(dst_list)@ + pieces(
                    *dst,
                    *src,
                    *dst,
                    (layer * outer_dims + outer) as nat,
                ),
            decreases outer_dims - outer,
        {
            let ghost k: nat = (layer * outer_dims + outer) as nat;
            proof {
                lemma_piece_position(layer as int, outer as int, outer_dims as int);
            }
            let src_view = src.layer_view(layer, outer);
            let dst_view = dst.layer_view(layer, outer);
            match append_pair(src_view, dst_view, src_list, dst_list) {
                Ok(_) => {
                    proof {
                        assert(pair_error(*src, *dst, k as int) is None);
                        assert(movable(*src, *dst, k + 1));
                        assert(src_list@ =~= old(src_list)@ + pieces(*src, *src, *dst, k + 1));
                        assert(dst_list@ =~= old(dst_list)@ + pieces(*dst, *src, *dst, k + 1));
                    }
                },
                Err(error) => {
                    proof {
                        assert(pair_error(*src, *dst, k as int) == Some(error));
                        assert(k < total);
                    }
                    return Err(error);
                },
            }
            outer = outer + 1;
        }
        layer = layer + 1;
    }
    Ok(())
}

/// A transfer that an agent can be asked for: every entry of one list goes to, or
/// comes from, the entry at the same place of the other.
#[derive(Debug)]
pub struct XferPlan {
    pub op: XferOp,
    pub src_mem: MemType,
    pub dst_mem: MemType,
    pub src_list: Vec<XferDesc>,
    pub dst_list: Vec<XferDesc>,
}

/// The source pieces of the first `n` block pairs.
pub open spec fn source_entries(
    src: Seq<BlockLayout>,
    dst: Seq<BlockLayout>,
    n: nat,
) -> Seq<XferDesc>
    decreases n,
{
    if n == 0 {
        Seq::empty()
    } else {
        let b = (n - 1) as int;
        source_entries(src, dst, (n - 1) as nat) + pieces(
            src[b],
            src[b],
            dst[b],
            piece_count(src[b], dst[b]),
        )
    }
}

/// The destination pieces of the first `n` block pairs.
pub open spec fn destination_entries(
    src: Seq<BlockLayout>,
    dst: Seq<BlockLayout>,
    n: nat,
) -> Seq<XferDesc>
    decreases n,
{
    if n == 0 {
        Seq::empty()
    } else {
        let b = (n - 1) as int;
        destination_entries(src, dst, (n - 1) as nat) + pieces(
            dst[b],
            src[b],
            dst[b],
            piece_count(src[b], dst[b]),
        )
    }
}

/// Whether block pair `b` can be moved as a whole.
pub open spec fn pair_movable(src: Seq<BlockLayout>, dst: Seq<BlockLayout>, b: int) -> bool {
    movable(src[b], dst[b], piece_count(src[b], dst[b]))
}

/// Whether the first `n` block pairs can be moved as a whole.
pub open spec fn all_movable(src: Seq<BlockLayout>, dst: Seq<BlockLayout>, n: nat) -> bool {
    forall|b: int| 0 <= b < n ==> #[trigger] pair_movable(src, dst, b)
}

/// Whether `error` is why the first pair of pieces that cannot be moved from `src` to
/// `dst` cannot be.
pub open spec fn first_error(
    src: BlockLayout,
    dst: BlockLayout,
    error: BlockError,
) -> bool {
    exists|k: nat|
        {
            &&& k < piece_count(src, dst)
            &&& #[trigger] movable(src, dst, k)
            &&& pair_error(src, dst, k as int) == Some(error)
        }
}

/// Plans the transfer of blocks through an agent, block by block. There is nothing
/// to do when either side is empty. Two blocks that are moved in pieces have equally
/// many layers, unless an earlier pair cannot be moved.
pub fn write_blocks_to(
    src: &[BlockLayout],
    dst: &[BlockLayout],
    transfer_type: NixlTransfer,
) -> (planned: Result<Option<XferPlan>, BlockError>)
    requires
        src@.len() > 0 && dst@.len() > 0 ==> src@.len() == dst@.len(),
        forall|b: int|
            #![trigger src@[b]]
            0 <= b < src@.len() && b < dst@.len() && all_movable(src@, dst@, b as nat)
                && !in_one_piece(src@[b], dst@[b]) ==> src@[b].layers@.len()
                == dst@[b].layers@.len(),
    ensures
        match planned {
            Ok(None) => src@.len() == 0 || dst@.len() == 0,
            Ok(Some(plan)) => {
                let n = src@.len();
                &&& src@.len() > 0 && dst@.len() > 0
                &&& all_movable(src@, dst@, n)
                &&& plan.op == (match transfer_type {
                    NixlTransfer::Read => XferOp::Read,
                    NixlTransfer::Write => XferOp::Write,
                })
                &&& plan.src_mem == src@[0].mem_type
                &&& plan.dst_mem == dst@[0].mem_type
                &&& plan.src_list@ == source_entries(src@, dst@, n)
                &&& plan.dst_list@ == destination_entries(src@, dst@, n)
            },
            Err(error) => exists|b: int|
                {
                    &&& 0 <= b < src@.len() && b < dst@.len()
                    &&& all_movable(src@, dst@, b as nat)
                    &&& #[trigger] first_error(src@[b], dst@[b], error)
                },
        },
{
    if src.len() == 0 || dst.len() == 0 {
        return Ok(None);
    }
    let src_mem = src[0].mem_type;
    let dst_mem = dst[0].mem_type;
    let mut src_list: Vec<XferDesc> = Vec::new();
    let mut dst_list: Vec<XferDesc> = Vec::new();
    let mut b: usize = 0;
    while b < src.len()
        invariant
            src@.len() == dst@.len(),
            forall|b: int|
                #![trigger src@[b]]
                0 <= b < src@.len() && b < dst@.len() && all_movable(src@, dst@, b as nat)
                    && !in_one_piece(src@[b], dst@[b]) ==> src@[b].layers@.len()
                    == dst@[b].layers@.len(),
            b <= src@.len(),
            all_movable(src@, dst@, b as nat),
            src_list@ == source_entries(src@, dst@, b as nat),
            dst_list@ == destination_entries(src@, dst@, b as nat),
        decreases src@.len() - b,
    {
        match append_xfer_request(&src[b], &dst[b], &mut src_list, &mut dst_list) {
            Ok(_) => {
                assert(pair_movable(src@, dst@, b as int));
            },
            Err(error) => {
                assert(first_error(src@[b as int], dst@[b as int], error));
                return Err(error);
            },
        }
        b = b + 1;
    }
    Ok(
        Some(
            XferPlan { op: transfer_type.as_xfer_op(), src_mem, dst_mem, src_list, dst_list },
        ),
    )
}

/// The lists of a plan are equally long: every piece that is read has one that is
/// written.
pub proof fn entries_pair_up(src: Seq<BlockLayout>, dst: Seq<BlockLayout>, n: nat)
    ensures
        source_entries(src, dst, n).len() == destination_entries(src, dst, n).len(),
    decreases n,
{
    if n > 0 {
        entries_pair_up(src, dst, (n - 1) as nat);
    }
}

/// Blocks that all lie in one piece give one entry each, in their order.
pub proof fn contiguous_blocks_give_one_entry_each(
    src: Seq<BlockLayout>,
    dst: Seq<BlockLayout>,
    n: nat,
)
    requires
        n <= src.len(),
        n <= dst.len(),
        forall|b: int| 0 <= b < n ==> in_one_piece(#[trigger] src[b], dst[b]),
    ensures
        source_entries(src, dst, n) == Seq::new(n, |b: int| src[b].whole->Ok_0),
        destination_entries(src, dst, n) == Seq::new(n, |b: int| dst[b].whole->Ok_0),
    decreases n,
{
    if n > 0 {
        contiguous_blocks_give_one_entry_each(src, dst, (n - 1) as nat);
        assert(in_one_piece(src[n - 1], dst[n - 1]));
        assert(source_entries(src, dst, n) =~= Seq::new(n, |b: int| src[b].whole->Ok_0));
        assert(destination_entries(src, dst, n) =~= Seq::new(n, |b: int| dst[b].whole->Ok_0));
    }
}

/// How long to wait before the status of a posted request is asked for again, in
/// milliseconds.
pub const POLL_INTERVAL_MILLIS: u64 = 5;

/// What the agent says of a posted request.
#[derive(Debug, Clone, Copy, PartialEq, Eq, Structural)]
pub enum XferStatus {
    /// The transfer is complete.
    Success,
    /// The transfer is still in progress.
    InProgress,
    /// The status could not be had.
    Unknown,
}

/// Whether the status of a posted request has to be asked for again: only while
/// the transfer is in progress.
#[verifier::allow_in_spec]
pub fn polls_again(status: XferStatus) -> bool
    returns
        status == XferStatus::InProgress,
{
    status == XferStatus::InProgress
}

/// The piece for a layer and an outer dimension is the one that stands there; where
/// there is none, the error says which is missing.
pub proof fn a_piece_is_found_by_layer_and_outer_dimension(
    block: BlockLayout,
    layer: usize,
    outer: usize,
)
    ensures
        layer < block.layers@.len() && outer < block.layers@[layer as int]@.len() ==> block.piece(
            layer as int,
            outer as int,
        ) == block.layers@[layer as int]@[outer as int],
        layer >= block.layers@.len() || outer >= block.layers@[layer as int]@.len() ==> block.piece(
            layer as int,
            outer as int,
        ) == Err::<XferDesc, BlockError>(BlockError::NoSuchLayer { layer, outer }),
{
}

/// A block pair that is not moved in one piece is moved as a whole: there is one entry
/// for every layer and every outer dimension on each side, the outer dimensions of a
/// layer one after the other, and no further entry.
pub proof fn a_scattered_block_is_moved_whole(
    src: BlockLayout,
    dst: BlockLayout,
    src_part: Seq<XferDesc>,
    dst_part: Seq<XferDesc>,
)
    requires
        !src.fully_contiguous || !dst.fully_contiguous,
        movable(src, dst, piece_count(src, dst)),
        src_part == pieces(src, src, dst, piece_count(src, dst)),
        dst_part == pieces(dst, src, dst, piece_count(src, dst)),
    ensures
        src_part.len() == src.layers@.len() * src.num_outer_dims,
        dst_part.len() == src.layers@.len() * src.num_outer_dims,
        forall|l: int, o: int|
            #![trigger src.layers@[l]@[o]]
            #![trigger dst.layers@[l]@[o]]
            0 <= l < src.layers@.len() && 0 <= o < src.num_outer_dims ==> {
                let k = l * src.num_outer_dims + o;
                &&& 0 <= k < src_part.len()
                &&& o < src.layers@[l]@.len()
                &&& src.layers@[l]@[o] == Ok::<XferDesc, BlockError>(src_part[k])
                &&& l < dst.layers@.len() && o < dst.layers@[l]@.len()
                &&& dst.layers@[l]@[o] == Ok::<XferDesc, BlockError>(dst_part[k])
            },
{
    let dims = src.num_outer_dims as int;
    assert forall|l: int, o: int|
        #![trigger src.layers@[l]@[o]]
        #![trigger dst.layers@[l]@[o]]
        0 <= l < src.layers@.len() && 0 <= o < src.num_outer_dims implies {
        let k = l * src.num_outer_dims + o;
        &&& 0 <= k < src_part.len()
        &&& o < src.layers@[l]@.len()
        &&& src.layers@[l]@[o] == Ok::<XferDesc, BlockError>(src_part[k])
        &&& l < dst.layers@.len() && o < dst.layers@[l]@.len()
        &&& dst.layers@[l]@[o] == Ok::<XferDesc, BlockError>(dst_part[k])
    } by {
        let k = l * dims + o;
        lemma_piece_position(l, o, dims);
        assert(0 <= k < src.layers@.len() * dims) by (nonlinear_arith)
            requires
                0 <= l < src.layers@.len(),
                0 <= o < dims,
                k == l * dims + o,
        ;
        assert(pair_error(src, dst, k) is None);
    }
}

/// Two contiguous blocks are moved whole, as one entry on each side.
pub proof fn a_contiguous_block_is_moved_whole(
    src: BlockLayout,
    dst: BlockLayout,
    src_part: Seq<XferDesc>,
    dst_part: Seq<XferDesc>,
)
    requires
        src.fully_contiguous,
        dst.fully_contiguous,
        movable(src, dst, piece_count(src, dst)),
        src_part == pieces(src, src, dst, piece_count(src, dst)),
        dst_part == pieces(dst, src, dst, piece_count(src, dst)),
    ensures
        src_part.len() == 1,
        dst_part.len() == 1,
        src.whole == Ok::<XferDesc, BlockError>(src_part[0]),
        dst.whole == Ok::<XferDesc, BlockError>(dst_part[0]),
{
    assert(pair_error(src, dst, 0) is None);
}

/// The entries of a block pair come after those of all pairs before it, on both sides
/// at the same place: one for two contiguous blocks, otherwise one for every layer and
/// outer dimension.
pub proof fn a_plan_goes_block_by_block(src: Seq<BlockLayout>, dst: Seq<BlockLayout>, n: nat)
    requires
        n < src.len(),
        n < dst.len(),
    ensures
        source_entries(src, dst, 0).len() == 0,
        destination_entries(src, dst, 0).len() == 0,
        source_entries(src, dst, n).is_prefix_of(source_entries(src, dst, n + 1)),
        destination_entries(src, dst, n).is_prefix_of(destination_entries(src, dst, n + 1)),
        ({
            let s = src[n as int];
            let d = dst[n as int];
            source_entries(src, dst, n + 1).len() == source_entries(src, dst, n).len() + (
            if s.fully_contiguous && d.fully_contiguous {
                1
            } else {
                s.layers@.len() * s.num_outer_dims
            })
        }),
        source_entries(src, dst, n + 1).len() == destination_entries(src, dst, n + 1).len(),
{
    entries_pair_up(src, dst, n + 1);
    let s = src[n as int];
    let d = dst[n as int];
    assert(s.layers@.len() * s.num_outer_dims >= 0) by (nonlinear_arith);
    assert(source_entries(src, dst, n + 1).take(source_entries(src, dst, n).len() as int)
        =~= source_entries(src, dst, n));
    assert(destination_entries(src, dst, n + 1).take(destination_entries(src, dst, n).len() as int)
        =~= destination_entries(src, dst, n));
}

/// More pairs leave the entries of the first ones where they are.
proof fn lemma_entries_stay(src: Seq<BlockLayout>, dst: Seq<BlockLayout>, m: nat, n: nat, k: int)
    requires
        m <= n,
        0 <= k < source_entries(src, dst, m).len(),
    ensures
        k < source_entries(src, dst, n).len(),
        k < destination_entries(src, dst, n).len(),
        source_entries(src, dst, n)[k] == source_entries(src, dst, m)[k],
        destination_entries(src, dst, n)[k] == destination_entries(src, dst, m)[k],
    decreases n - m,
{
    entries_pair_up(src, dst, m);
    if m < n {
        entries_pair_up(src, dst, (n - 1) as nat);
        lemma_entries_stay(src, dst, m, (n - 1) as nat, k);
    }
}

/// A plan moves every piece of every block: each has a place in the lists where it
/// stands on the source side, and its counterpart stands on the destination side.
pub proof fn a_plan_moves_every_piece(
    src: Seq<BlockLayout>,
    dst: Seq<BlockLayout>,
    n: nat,
    b: int,
    layer: int,
    outer: int,
)
    requires
        all_movable(src, dst, n),
        0 <= b < n,
        n <= src.len(),
        n <= dst.len(),
        !src[b].fully_contiguous || !dst[b].fully_contiguous,
        0 <= layer < src[b].layers@.len(),
        0 <= outer < src[b].num_outer_dims,
    ensures
        exists|k: int|
            {
                &&& 0 <= k < source_entries(src, dst, n).len()
                &&& k < destination_entries(src, dst, n).len()
                &&& src[b].layers@[layer]@[outer] == Ok::<XferDesc, BlockError>(
                    #[trigger] source_entries(src, dst, n)[k],
                )
                &&& dst[b].layers@[layer]@[outer] == Ok::<XferDesc, BlockError>(
                    destination_entries(src, dst, n)[k],
                )
            },
{
    let s = src[b];
    let d = dst[b];
    assert(pair_movable(src, dst, b));
    let count = piece_count(s, d);
    a_scattered_block_is_moved_whole(s, d, pieces(s, s, d, count), pieces(d, s, d, count));
    entries_pair_up(src, dst, b as nat);
    let before = source_entries(src, dst, b as nat).len();
    let p = layer * s.num_outer_dims + outer;
    let k = before + p;
    assert(s.layers@[layer]@[outer] == Ok::<XferDesc, BlockError>(pieces(s, s, d, count)[p]));
    let m = (b + 1) as nat;
    assert(source_entries(src, dst, m)[k] == pieces(s, s, d, count)[p]);
    assert(destination_entries(src, dst, m)[k] == pieces(d, s, d, count)[p]);
    lemma_entries_stay(src, dst, m, n, k);
    assert(src[b].layers@[layer]@[outer] == Ok::<XferDesc, BlockError>(
        source_entries(src, dst, n)[k],
    ));
}

/// A plan moves every contiguous pair of blocks.
pub proof fn a_plan_moves_every_contiguous_block(
    src: Seq<BlockLayout>,
    dst: Seq<BlockLayout>,
    n: nat,
    b: int,
)
    requires
        all_movable(src, dst, n),
        0 <= b < n,
        n <= src.len(),
        n <= dst.len(),
        src[b].fully_contiguous,
        dst[b].fully_contiguous,
    ensures
        exists|k: int|
            {
                &&& 0 <= k < source_entries(src, dst, n).len()
                &&& k < destination_entries(src, dst, n).len()
                &&& src[b].whole == Ok::<XferDesc, BlockError>(
                    #[trigger] source_entries(src, dst, n)[k],
                )
                &&& dst[b].whole == Ok::<XferDesc, BlockError>(destination_entries(src, dst, n)[k])
            },
{
    let s = src[b];
    let d = dst[b];
    assert(pair_movable(src, dst, b));
    let count = piece_count(s, d);
    a_contiguous_block_is_moved_whole(s, d, pieces(s, s, d, count), pieces(d, s, d, count));
    entries_pair_up(src, dst, b as nat);
    let k = source_entries(src, dst, b as nat).len() as int;
    let m = (b + 1) as nat;
    assert(source_entries(src, dst, m)[k] == pieces(s, s, d, count)[0]);
    assert(destination_entries(src, dst, m)[k] == pieces(d, s, d, count)[0]);
    lemma_entries_stay(src, dst, m, n, k);
    assert(src[b].whole == Ok::<XferDesc, BlockError>(source_entries(src, dst, n)[k]));
}

/// The error of a scattered pair is that of a piece of it, and all pieces before that
/// one, layer by layer, can be reached on both sides; of one pair of pieces the source
/// is looked at first.
pub proof fn a_refused_block_has_an_unreachable_piece(
    src: BlockLayout,
    dst: BlockLayout,
    error: BlockError,
)
    requires
        first_error(src, dst, error),
        !src.fully_contiguous || !dst.fully_contiguous,
    ensures
        exists|l: int, o: int|
            {
                &&& 0 <= l < src.layers@.len()
                &&& 0 <= o < src.num_outer_dims
                &&& #[trigger] src.piece(l, o) == Err::<XferDesc, BlockError>(error) || (src.piece(
                    l,
                    o,
                ) is Ok && dst.piece(l, o) == Err::<XferDesc, BlockError>(error))
                &&& forall|m: int, p: int|
                    0 <= m <= l && 0 <= p < src.num_outer_dims && (m < l || p < o)
                        ==> #[trigger] src.piece(m, p) is Ok && dst.piece(m, p) is Ok
            },
{
    let dims = src.num_outer_dims as int;
    let k = choose|k: nat|
        {
            &&& k < piece_count(src, dst)
            &&& #[trigger] movable(src, dst, k)
            &&& pair_error(src, dst, k as int) == Some(error)
        };
    assert(dims > 0) by {
        if dims == 0 {
            assert(src.layers@.len() * dims == 0) by (nonlinear_arith)
                requires
                    dims == 0,
            ;
        }
    }
    let l = k as int / dims;
    let o = k as int % dims;
    vstd::arithmetic::div_mod::lemma_fundamental_div_mod(k as int, dims);
    assert(0 <= l < src.layers@.len() && 0 <= o < dims) by (nonlinear_arith)
        requires
            k == dims * l + o,
            0 <= o < dims,
            0 <= k < src.layers@.len() * dims,
    ;
    assert forall|m: int, p: int|
        0 <= m <= l && 0 <= p < src.num_outer_dims && (m < l || p < o) implies #[trigger] src.piece(
        m,
        p,
    ) is Ok && dst.piece(m, p) is Ok by {
        let q = m * dims + p;
        lemma_piece_position(m, p, dims);
        assert(0 <= q < k) by (nonlinear_arith)
            requires
                q == m * dims + p,
                k == dims * l + o,
                0 <= m <= l,
                0 <= p < dims,
                0 <= o,
                m < l || p < o,
        ;
        assert(pair_error(src, dst, q) is None);
    }
    assert(src.piece(l, o) == Err::<XferDesc, BlockError>(error) || (src.piece(l, o) is Ok
        && dst.piece(l, o) == Err::<XferDesc, BlockError>(error)));
}

/// The error of a contiguous pair is that of the source, or else that of the
/// destination.
pub proof fn a_refused_contiguous_block_is_unreachable(
    src: BlockLayout,
    dst: BlockLayout,
    error: BlockError,
)
    requires
        first_error(src, dst, error),
        src.fully_contiguous,
        dst.fully_contiguous,
    ensures
        src.whole == Err::<XferDesc, BlockError>(error) || (src.whole is Ok && dst.whole == Err::<
            XferDesc,
            BlockError,
        >(error)),
{
}

} // verus!
