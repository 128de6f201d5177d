//! The order in which a chunk's blocks are drawn.
//!
//! Without a depth test the renderer has to draw far blocks before near ones.
//! The caller measures how far each block is from the viewer and hands over
//! one key per block, larger for farther; keys compare as unsigned integers,
//! which is also how the bit patterns of non-negative IEEE floats compare.
//! Blocks are reordered by descending key. Blocks with equal keys keep their
//! relative order, so the result is determined by the keys alone.

use crate::block::{spec_rel_pos, Block};
use crate::codec::{fits_capacity, lemma_capacity_axis, lemma_decode_in_grid, spec_volume, volume};
use crate::vertex::GridPos;
use vstd::prelude::*;

verus! {

/// The squared Euclidean distance between two lattice positions.
pub open spec fn spec_distance_squared(a: GridPos, b: GridPos) -> int {
    (a.x - b.x) * (a.x - b.x) + (a.y - b.y) * (a.y - b.y) + (a.z - b.z) * (a.z - b.z)
}

/// Whether a viewer at `viewer`, relative to the chunk's anchor, is near
/// enough for its squared distance to every block center to be a 32-bit key.
pub open spec fn in_key_range(viewer: GridPos) -> bool {
    &&& -0x8000 <= viewer.x < 0x8000
    &&& -0x8000 <= viewer.y < 0x8000
    &&& -0x8000 <= viewer.z < 0x8000
}

/// Whether `distances` holds, for every cell of a chunk of side `axis`, the
/// squared distance of the cell's block center from `viewer`.
pub open spec fn is_measured_from(distances: Seq<u32>, axis: int, viewer: GridPos) -> bool {
    &&& distances.len() == spec_volume(axis)
    &&& forall|n: int|
        0 <= n < distances.len() ==> #[trigger] distances[n] == spec_distance_squared(
            spec_rel_pos(axis, n),
            viewer,
        )
}

/// Whether the block from slot `a` is drawn before the block from slot `b`:
/// it is farther from the viewer, or as far and earlier in the array.
pub open spec fn draws_before(keys: Seq<u32>, a: int, b: int) -> bool {
    keys[a] > keys[b] || (keys[a] == keys[b] && a < b)
}

/// Whether some position of `order` holds slot `s`.
pub open spec fn occurs_in(order: Seq<int>, s: int) -> bool {
    exists|i: int| 0 <= i < order.len() && #[trigger] order[i] == s
}

/// Whether `order` is the farthest-first order for `keys`: `order[i]` is the
/// slot whose block is drawn `i`-th, every slot occurs, and each block is
/// drawn before all that follow it.
pub open spec fn is_draw_order(keys: Seq<u32>, order: Seq<int>) -> bool {
    &&& order.len() == keys.len()
    &&& forall|i: int| 0 <= i < order.len() ==> 0 <= #[trigger] order[i] < keys.len()
    &&& forall|s: int| 0 <= s < keys.len() ==> #[trigger] occurs_in(order, s)
    &&& forall|i: int, j: int|
        0 <= i < j < order.len() ==> draws_before(keys, #[trigger] order[i], #[trigger] order[j])
}

/// The slots that the blocks of an array record, in array order.
pub open spec fn recorded_slots(blocks: Seq<Block>) -> Seq<int> {
    Seq::new(blocks.len(), |i: int| blocks[i].block_num as int)
}

/// Whether every block records its own position in the array.
pub open spec fn is_numbered(blocks: Seq<Block>) -> bool {
    forall|i: int| 0 <= i < blocks.len() ==> (#[trigger] blocks[i]).block_num == i
}

/// Farthest-first means that the keys never increase along the order.
pub proof fn lemma_draw_order_descends(keys: Seq<u32>, order: Seq<int>, i: int)
    requires
        is_draw_order(keys, order),
        0 <= i,
        i + 1 < order.len(),
    ensures
        keys[order[i]] >= keys[order[i + 1]],
{
    assert(draws_before(keys, order[i], order[i + 1]));
}

/// Sort order: when the keys are the squared distances of the block centers
/// from a viewer, each block in a farthest-first order is at least as far
/// from the viewer as the block after it.
pub proof fn lemma_draw_order_by_distance(
    distances: Seq<u32>,
    axis: int,
    viewer: GridPos,
    order: Seq<int>,
    i: int,
)
    requires
        is_measured_from(distances, axis, viewer),
        is_draw_order(distances, order),
        0 <= i,
        i + 1 < order.len(),
    ensures
        spec_distance_squared(spec_rel_pos(axis, order[i]), viewer) >= spec_distance_squared(
            spec_rel_pos(axis, order[i + 1]),
            viewer,
        ),
{
    lemma_draw_order_descends(distances, order, i);
    assert(0 <= order[i] < distances.len() && 0 <= order[i + 1] < distances.len());
    assert(distances[order[i]] == spec_distance_squared(spec_rel_pos(axis, order[i]), viewer));
    assert(distances[order[i + 1]] == spec_distance_squared(
        spec_rel_pos(axis, order[i + 1]),
        viewer,
    ));
}

/// No slot occurs twice in a farthest-first order.
pub proof fn lemma_draw_order_injective(keys: Seq<u32>, order: Seq<int>, i: int, j: int)
    requires
        is_draw_order(keys, order),
        0 <= i < order.len(),
        0 <= j < order.len(),
        order[i] == order[j],
    ensures
        i == j,
{
    if i < j {
        assert(draws_before(keys, order[i], order[j]));
    } else if j < i {
        assert(draws_before(keys, order[j], order[i]));
    }
}

/// Two farthest-first orders for the same keys agree at every position.
proof fn lemma_draw_orders_agree(keys: Seq<u32>, first: Seq<int>, second: Seq<int>, i: int)
    requires
        is_draw_order(keys, first),
        is_draw_order(keys, second),
        0 <= i < keys.len(),
    ensures
        first[i] == second[i],
    decreases i,
{
    assert forall|j: int| 0 <= j < i implies first[j] == second[j] by {
        lemma_draw_orders_agree(keys, first, second, j);
    }
    let s = first[i];
    let t = second[i];
    if s != t {
        // Where each order holds the other's block.
        assert(occurs_in(first, t) && occurs_in(second, s));
        let p = choose|p: int| 0 <= p < first.len() && #[trigger] first[p] == t;
        let q = choose|q: int| 0 <= q < second.len() && #[trigger] second[q] == s;
        if p < i {
            // `t` stands before position `i` in both orders and at `i` in `second`.
            assert(second[p] == t);
            lemma_draw_order_injective(keys, second, p, i);
        } else if q < i {
            assert(first[q] == s);
            lemma_draw_order_injective(keys, first, q, i);
        } else {
            assert(p != i && q != i);
            assert(draws_before(keys, first[i], first[p]));
            assert(draws_before(keys, second[i], second[q]));
        }
    }
}

/// The farthest-first order is unique: the keys determine it.
pub proof fn lemma_draw_order_unique(keys: Seq<u32>, first: Seq<int>, second: Seq<int>)
    requires
        is_draw_order(keys, first),
        is_draw_order(keys, second),
    ensures
        first == second,
{
    assert forall|i: int| 0 <= i < first.len() implies first[i] == second[i] by {
        lemma_draw_orders_agree(keys, first, second, i);
    }
    assert(first =~= second);
}

/// The squared distance between the block center `center` and `viewer`.
fn distance_squared(center: GridPos, viewer: GridPos) -> (distance: u32)
    requires
        0 <= center.x <= 24,
        0 <= center.y <= 24,
        0 <= center.z <= 24,
        in_key_range(viewer),
    ensures
        distance == spec_distance_squared(center, viewer),
{
    let dx: i64 = center.x as i64 - viewer.x as i64;
    let dy: i64 = center.y as i64 - viewer.y as i64;
    let dz: i64 = center.z as i64 - viewer.z as i64;
    assert(0 <= dx * dx <= 0x8018 * 0x8018 && 0 <= dy * dy <= 0x8018 * 0x8018 && 0 <= dz * dz
        <= 0x8018 * 0x8018) by (nonlinear_arith)
        requires
            -0x8018 <= dx <= 0x8018,
            -0x8018 <= dy <= 0x8018,
            -0x8018 <= dz <= 0x8018,
    ;
    (dx * dx + dy * dy + dz * dz) as u32
}

/// The distance keys of a chunk of side `axis` for a viewer on the lattice:
/// for every cell the exact squared distance of its block center from
/// `viewer`, which is given relative to the chunk's anchor.
pub fn lattice_distances(axis: u16, viewer: GridPos) -> (distances: Vec<u32>)
    requires
        fits_capacity(axis as int),
        in_key_range(viewer),
    ensures
        is_measured_from(distances@, axis as int, viewer),
{
    proof {
        lemma_capacity_axis(axis as int);
        assert(axis == 0 ==> spec_volume(axis as int) == 0) by (nonlinear_arith);
    }
    let size: u16 = volume(axis) as u16;
    let mut distances: Vec<u32> = Vec::with_capacity(size as usize);
    let mut n: u16 = 0;
    while n < size
        invariant
            n <= size,
            size == spec_volume(axis as int),
            0 < axis <= 13 || size == 0,
            in_key_range(viewer),
            distances@.len() == n,
            forall|k: int|
                0 <= k < n ==> #[trigger] distances@[k] == spec_distance_squared(
                    spec_rel_pos(axis as int, k),
                    viewer,
                ),
        decreases size - n,
    {
        proof {
            lemma_decode_in_grid(axis as int, n as int);
        }
        let center: GridPos = Block::calc_rel_pos(n, axis);
        distances.push(distance_squared(center, viewer));
        n = n + 1;
    }
    distances
}

/// Reorders `blocks` farthest-first by `distances`, where `distances[s]` is
/// the key of the block in slot `s`. Each block moves as a whole and keeps
/// the slot it recorded, so after the call `block_num` tells where a block
/// came from; blocks with equal keys keep their relative order.
pub fn sort_blocks(blocks: &mut Vec<Block>, distances: &[u32])
    requires
        old(blocks)@.len() == distances@.len(),
        is_numbered(old(blocks)@),
    ensures
        final(blocks)@.len() == old(blocks)@.len(),
        is_draw_order(distances@, recorded_slots(final(blocks)@)),
        forall|i: int|
            #![trigger final(blocks)@[i]]
            0 <= i < final(blocks)@.len() ==> {
                let block = final(blocks)@[i];
                block == old(blocks)@[block.block_num as int]
            },
{
    let n: usize = blocks.len();
    let ghost unsorted: Seq<Block> = blocks@;
    let ghost keys: Seq<u32> = distances@;
    // Where the block of each slot currently stands.
    let ghost mut place: Seq<int> = Seq::new(n as nat, |s: int| s);
    let mut i: usize = 0;
    while i < n
        invariant
            i <= n,
            n == blocks@.len(),
            n == keys.len(),
            keys == distances@,
            is_numbered(unsorted),
            unsorted.len() == n,
            place.len() == n,
            forall|p: int|
                0 <= p < n ==> 0 <= (#[trigger] blocks@[p]).block_num < n && blocks@[p]
                    == unsorted[blocks@[p].block_num as int],
            forall|s: int|
                0 <= s < n ==> 0 <= #[trigger] place[s] < n && blocks@[place[s]].block_num == s,
            forall|p: int| i <= p < n ==> (#[trigger] blocks@[p]).block_num == p,
            forall|p: int| 0 <= p < i ==> (#[trigger] blocks@[p]).block_num < i,
            forall|p: int, q: int|
                0 <= p < q < i ==> draws_before(
                    keys,
                    (#[trigger] blocks@[p]).block_num as int,
                    (#[trigger] blocks@[q]).block_num as int,
                ),
        decreases n - i,
    {
        let mut j: usize = i;
        while j > 0 && distances[blocks[j - 1].block_num as usize] < distances[blocks[j].block_num as usize]
            invariant
                j <= i < n,
                n == blocks@.len(),
                n == keys.len(),
                keys == distances@,
                is_numbered(unsorted),
                unsorted.len() == n,
                place.len() == n,
                forall|p: int|
                    0 <= p < n ==> 0 <= (#[trigger] blocks@[p]).block_num < n && blocks@[p]
                        == unsorted[blocks@[p].block_num as int],
                forall|s: int|
                    0 <= s < n ==> 0 <= #[trigger] place[s] < n && blocks@[place[s]].block_num
                        == s,
                forall|p: int| i < p < n ==> (#[trigger] blocks@[p]).block_num == p,
                forall|p: int| 0 <= p <= i && p != j ==> (#[trigger] blocks@[p]).block_num < i,
                blocks@[j as int].block_num == i,
                forall|p: int, q: int|
                    0 <= p < q <= i && p != j && q != j ==> draws_before(
                        keys,
                        (#[trigger] blocks@[p]).block_num as int,
                        (#[trigger] blocks@[q]).block_num as int,
                    ),
                forall|q: int|
                    j < q <= i ==> draws_before(
                        keys,
                        i as int,
                        (#[trigger] blocks@[q]).block_num as int,
                    ),
            decreases j,
        {
            let nearer: Block = blocks[j - 1];
            let farther: Block = blocks[j];
            blocks[j - 1] = farther;
            blocks[j] = nearer;
            proof {
                place = place.update(farther.block_num as int, j - 1).update(
                    nearer.block_num as int,
                    j as int,
                );
            }
            j = j - 1;
        }
        i = i + 1;
    }
    proof {
        let order = recorded_slots(blocks@);
        assert forall|s: int| 0 <= s < keys.len() implies #[trigger] occurs_in(order, s) by {
            assert(order[place[s]] == s);
        }
    }
}

} // verus!
