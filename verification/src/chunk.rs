//! A chunk: its blocks and the vertex and index buffers derived from them.
//!
//! The buffers have a fixed layout. Every block owns 24 consecutive vertices,
//! four for each face in slot order, and 36 consecutive indices. A face that is
//! not drawn keeps its four vertices as degenerate zero vertices, so the index
//! buffer depends on the number of blocks alone and the vertex buffer on the
//! solidity pattern alone.

use crate::block::{
    lemma_neighbor_symmetric, quad_corner, spec_block_index, spec_neighbor, spec_rel_pos, Block,
    BlockNeighbors, INDICES_PER_BLOCK,
};
use crate::codec::{
    fits_capacity, lemma_capacity_axis, lemma_decode_in_grid, spec_volume, volume, MAX_CHUNK_AXIS,
};
use crate::sorter::{
    is_draw_order, is_numbered, lemma_draw_order_unique, occurs_in, recorded_slots, sort_blocks,
};
use crate::vertex::{
    cube_vertex, is_zero_quad, lemma_drawn_vertex_not_zero, lemma_face_slots, Face, GridPos,
    Vertex, VERTICES_PER_BLOCK,
};
use vstd::prelude::*;

verus! {

/// Whether the neighbor across `face` hides that face of block `n`: the
/// neighbor exists and is solid.
pub open spec fn face_hidden(axis: int, solid: Seq<bool>, n: int, face: Face) -> bool {
    match spec_neighbor(axis, n, face) {
        Some(m) => solid[m],
        None => false,
    }
}

/// Whether `face` of block `n` is drawn: the block is solid and nothing hides
/// the face.
pub open spec fn face_drawn(axis: int, solid: Seq<bool>, n: int, face: Face) -> bool {
    solid[n] && !face_hidden(axis, solid, n, face)
}

/// Vertex `j` of the mesh of a chunk of side `axis` with solidity pattern
/// `solid`. It belongs to block `j / 24`, to the face in slot `(j % 24) / 4`,
/// and is corner `j % 4` of that face if the face is drawn, the zero vertex
/// if not.
pub open spec fn mesh_vertex(axis: int, solid: Seq<bool>, j: int) -> Vertex {
    let n = j / 24;
    let face = Face::of_slot((j % 24) / 4);
    if face_drawn(axis, solid, n, face) {
        face.vertex(spec_rel_pos(axis, n), j % 4)
    } else {
        Vertex::spec_zero()
    }
}

/// The vertex buffer of a chunk of side `axis` with solidity pattern `solid`.
pub open spec fn mesh_vertices(axis: int, solid: Seq<bool>) -> Seq<Vertex> {
    Seq::new(24 * solid.len(), |j: int| mesh_vertex(axis, solid, j))
}

/// Index `j` of the index buffer: index `j % 36` of block `j / 36`.
pub open spec fn mesh_index(j: int) -> int {
    spec_block_index(j / 36, j % 36)
}

/// The index buffer of a chunk of `size` blocks.
pub open spec fn mesh_indices(size: nat) -> Seq<u16> {
    Seq::new(36 * size, |j: int| mesh_index(j) as u16)
}

/// The solidity pattern `solid` after the blocks moved into `order`:
/// position `i` holds what slot `order[i]` held.
pub open spec fn reorder(solid: Seq<bool>, order: Seq<int>) -> Seq<bool> {
    Seq::new(order.len(), |i: int| solid[order[i]])
}

/// Whether `order` is the farthest-first order for `distances` and `after`
/// is `before` with its blocks moved into that order.
pub open spec fn is_reordered(
    before: Seq<bool>,
    distances: Seq<u32>,
    order: Seq<int>,
    after: Seq<bool>,
) -> bool {
    is_draw_order(distances, order) && after == reorder(before, order)
}

/// The solid flags of an array of blocks, in array order.
pub open spec fn solidity_of(blocks: Seq<Block>) -> Seq<bool> {
    Seq::new(blocks.len(), |i: int| blocks[i].solid)
}

/// Why a chunk could not be made.
#[derive(Clone, Copy, Debug, PartialEq, Eq)]
pub enum ChunkError {
    /// The chunk would have more blocks than 16-bit indices can address.
    TooLarge,
    /// The solidity pattern does not have one flag for each block.
    SolidityLength,
}

/// What a chunk is, seen from outside.
pub struct ChunkView {
    /// The number of blocks along each axis.
    pub axis: int,
    /// The solid flag of each cell, by linear index.
    pub solid: Seq<bool>,
    /// The vertex buffer.
    pub vertices: Seq<Vertex>,
    /// The index buffer.
    pub indices: Seq<u16>,
}

impl ChunkView {
    /// Whether the chunk has a legal size, one flag per cell, and buffers that
    /// are the mesh of its solidity pattern.
    pub open spec fn is_meshed(self) -> bool {
        &&& fits_capacity(self.axis)
        &&& self.solid.len() == spec_volume(self.axis)
        &&& self.vertices == mesh_vertices(self.axis, self.solid)
        &&& self.indices == mesh_indices(self.solid.len())
    }

    /// Whether `self` is what a rebuild with `distances` makes of `before`:
    /// a chunk of the same side whose pattern is `before`'s in farthest-first
    /// order, with the buffers of that pattern.
    pub open spec fn is_rebuild_of(self, before: ChunkView, distances: Seq<u32>) -> bool {
        &&& self.is_meshed()
        &&& self.axis == before.axis
        &&& exists|order: Seq<int>| #[trigger]
            is_reordered(before.solid, distances, order, self.solid)
    }
}

/// Vertex `24 * n + 4 * slot + c` of the buffer is corner `c` of the face in
/// slot `slot` of block `n`.
proof fn lemma_vertex_place(n: int, slot: int, c: int)
    requires
        0 <= n,
        0 <= slot < 6,
        0 <= c < 4,
    ensures
        (24 * n + 4 * slot + c) / 24 == n,
        ((24 * n + 4 * slot + c) % 24) / 4 == slot,
        (24 * n + 4 * slot + c) % 4 == c,
{
}

/// What one face of a solid block contributes is what the mesh holds in the
/// face's slot: the quad `calced` if `quad` was chosen by the rule of
/// `Chunk::draw_face` from the neighbor across the face.
proof fn lemma_face_slot_meshed(
    axis: int,
    blocks: Seq<Block>,
    n: int,
    face: Face,
    neighbor: Option<u16>,
    calced: Seq<Vertex>,
    quad: Seq<Vertex>,
)
    requires
        0 < axis,
        blocks.len() == spec_volume(axis),
        0 <= n < blocks.len(),
        blocks[n].solid,
        match neighbor {
            Some(m) => spec_neighbor(axis, n, face) == Some(m as int),
            None => spec_neighbor(axis, n, face) is None,
        },
        face.is_quad(spec_rel_pos(axis, n), calced),
        if neighbor matches Some(m) && m < blocks.len() && blocks[m as int].solid {
            is_zero_quad(quad)
        } else {
            quad == calced
        },
    ensures
        forall|c: int|
            0 <= c < 4 ==> #[trigger] quad[c] == mesh_vertex(
                axis,
                solidity_of(blocks),
                24 * n + 4 * face.slot() + c,
            ),
{
    let solid = solidity_of(blocks);
    let center = spec_rel_pos(axis, n);
    let across = spec_neighbor(axis, n, face);
    lemma_face_slots(face);
    assert(across matches Some(m) ==> 0 <= m < blocks.len()) by {
        if across is Some {
            lemma_neighbor_symmetric(axis, n, face);
        }
    }
    let hidden = neighbor matches Some(m) && m < blocks.len() && blocks[m as int].solid;
    assert(face_hidden(axis, solid, n, face) == hidden);
    assert(face_drawn(axis, solid, n, face) == !hidden);
    assert forall|c: int| 0 <= c < 4 implies #[trigger] quad[c] == mesh_vertex(
        axis,
        solid,
        24 * n + 4 * face.slot() + c,
    ) by {
        let slot = face.slot();
        let j = 24 * n + 4 * slot + c;
        lemma_vertex_place(n, slot, c);
        assert(mesh_vertex(axis, solid, j) == if face_drawn(axis, solid, n, face) {
            face.vertex(center, c)
        } else {
            Vertex::spec_zero()
        });
        if hidden {
            assert(quad[c] == Vertex::spec_zero());
        } else {
            assert(quad[c] == face.vertex(center, c));
        }
    }
}

/// A cubic grid of blocks together with the buffers that draw it. The blocks
/// are kept in draw order; the block at array position `n` occupies the cell
/// with linear index `n`.
pub struct Chunk {
    axis: u16,
    blocks: Vec<Block>,
    vertices: Vec<Vertex>,
    indices: Vec<u16>,
}

impl View for Chunk {
    type V = ChunkView;

    closed spec fn view(&self) -> ChunkView {
        ChunkView {
            axis: self.axis as int,
            solid: solidity_of(self.blocks@),
            vertices: self.vertices@,
            indices: self.indices@,
        }
    }
}

impl Chunk {
    /// Whether the chunk has a legal size and one block per cell.
    closed spec fn is_sized(&self) -> bool {
        &&& fits_capacity(self.axis as int)
        &&& self.blocks@.len() == spec_volume(self.axis as int)
    }

    /// Whether every block records the cell it occupies.
    pub closed spec fn is_numbered(&self) -> bool {
        is_numbered(self.blocks@)
    }

    /// The invariant of a chunk between calls: every block records its cell,
    /// and the buffers are the mesh of the solidity pattern.
    pub open spec fn wf(&self) -> bool {
        &&& self.is_numbered()
        &&& self@.is_meshed()
    }

    /// Makes a chunk of side `axis` whose cell `n` is solid where `solid[n]`
    /// is, and builds its buffers.
    pub fn new(axis: u16, solid: &[bool]) -> (result: Result<Chunk, ChunkError>)
        ensures
            match result {
                Ok(chunk) => {
                    &&& fits_capacity(axis as int)
                    &&& solid@.len() == spec_volume(axis as int)
                    &&& chunk.wf()
                    &&& chunk@.axis == axis
                    &&& chunk@.solid == solid@
                    &&& chunk@.vertices.len() == 24 * solid@.len()
                    &&& chunk@.indices.len() == 36 * solid@.len()
                },
                Err(ChunkError::TooLarge) => !fits_capacity(axis as int),
                Err(ChunkError::SolidityLength) => {
                    &&& fits_capacity(axis as int)
                    &&& solid@.len() != spec_volume(axis as int)
                },
            },
    {
        proof {
            lemma_capacity_axis(axis as int);
        }
        if axis > MAX_CHUNK_AXIS {
            return Err(ChunkError::TooLarge);
        }
        let size: u64 = volume(axis);
        if solid.len() as u64 != size {
            return Err(ChunkError::SolidityLength);
        }
        let size: usize = solid.len();
        let mut blocks: Vec<Block> = Vec::with_capacity(size);
        let mut i: usize = 0;
        while i < size
            invariant
                i <= size,
                size == solid@.len(),
                blocks@.len() == i,
                forall|k: int| 0 <= k < i ==> (#[trigger] blocks@[k]).solid == solid@[k],
            decreases size - i,
        {
            blocks.push(Block::new(0, solid[i]));
            i = i + 1;
        }
        let mut chunk = Chunk {
            axis,
            blocks,
            vertices: Vec::with_capacity(size * VERTICES_PER_BLOCK),
            indices: Vec::with_capacity(size * INDICES_PER_BLOCK),
        };
        chunk.update_block_nums();
        chunk.update_vertices();
        chunk.update_indices();
        assert(chunk@.solid =~= solid@);
        Ok(chunk)
    }

    /// Rebuilds the chunk for a viewer: reorders the blocks farthest-first by
    /// `distances`, lets each block occupy the cell of its new position, and
    /// regenerates both buffers. `distances[n]` is the key of the block in
    /// cell `n`, larger for farther.
    pub fn update_graphics(&mut self, distances: &[u32])
        requires
            old(self).wf(),
            distances@.len() == old(self)@.solid.len(),
        ensures
            final(self).wf(),
            final(self)@.is_rebuild_of(old(self)@, distances@),
            final(self)@.vertices.len() == old(self)@.vertices.len(),
            final(self)@.indices == old(self)@.indices,
    {
        let ghost before: Seq<Block> = self.blocks@;
        sort_blocks(&mut self.blocks, distances);
        let ghost order: Seq<int> = recorded_slots(self.blocks@);
        let ghost moved: Seq<Block> = self.blocks@;
        self.update_block_nums();
        self.update_vertices();
        self.update_indices();
        proof {
            assert(self@.solid =~= reorder(solidity_of(before), order)) by {
                assert forall|i: int| 0 <= i < moved.len() implies self@.solid[i] == solidity_of(
                    before,
                )[order[i]] by {
                    assert(moved[i] == before[moved[i].block_num as int]);
                }
            }
            assert(is_reordered(old(self)@.solid, distances@, order, self@.solid));
        }
    }

    /// The vertex buffer: 24 vertices for each block in array order.
    pub fn vertices(&self) -> (vertices: &[Vertex])
        ensures
            vertices@ == self@.vertices,
    {
        self.vertices.as_slice()
    }

    /// The index buffer: 36 indices for each block in array order.
    pub fn indices(&self) -> (indices: &[u16])
        ensures
            indices@ == self@.indices,
    {
        self.indices.as_slice()
    }

    /// The number of blocks along each axis.
    pub fn axis(&self) -> (axis: u16)
        ensures
            axis == self@.axis,
    {
        self.axis
    }

    /// The blocks in array order.
    pub fn blocks(&self) -> (blocks: &[Block])
        ensures
            solidity_of(blocks@) == self@.solid,
            self.wf() ==> is_numbered(blocks@),
    {
        self.blocks.as_slice()
    }

    /// Lets every block record the cell of its position in the array.
    fn update_block_nums(&mut self)
        requires
            old(self).is_sized(),
        ensures
            final(self).is_sized(),
            final(self).is_numbered(),
            final(self).axis == old(self).axis,
            final(self).vertices == old(self).vertices,
            final(self).indices == old(self).indices,
            final(self).blocks@.len() == old(self).blocks@.len(),
            forall|i: int|
                0 <= i < old(self).blocks@.len() ==> (#[trigger] final(self).blocks@[i]).solid
                    == old(self).blocks@[i].solid,
    {
        let n: usize = self.blocks.len();
        let mut i: usize = 0;
        while i < n
            invariant
                i <= n,
                n == self.blocks@.len(),
                n <= 2730,
                self.axis == old(self).axis,
                self.vertices == old(self).vertices,
                self.indices == old(self).indices,
                self.blocks@.len() == old(self).blocks@.len(),
                forall|k: int|
                    0 <= k < n ==> (#[trigger] self.blocks@[k]).solid == old(self).blocks@[k].solid,
                forall|k: int| 0 <= k < i ==> (#[trigger] self.blocks@[k]).block_num == k,
            decreases n - i,
        {
            let solid: bool = self.blocks[i].solid;
            self.blocks[i] = Block::new(i as u16, solid);
            i = i + 1;
        }
    }

    /// The quad that a face contributes: `calced_block_vertices` unless the
    /// neighbor across the face exists and is solid, four zero vertices if
    /// so. An index that is no block of the chunk counts as no neighbor.
    fn draw_face(&self, neighbor_block_index: Option<u16>, calced_block_vertices: [Vertex; 4]) -> (quad: [Vertex; 4])
        ensures
            ({
                let hidden = neighbor_block_index matches Some(m) && m < self.blocks@.len()
                    && self.blocks@[m as int].solid;
                if hidden {
                    is_zero_quad(quad@)
                } else {
                    quad == calced_block_vertices
                }
            }),
    {
        match neighbor_block_index {
            Some(neighbor_block_index) => {
                let neighbor_block_index: usize = neighbor_block_index as usize;
                if neighbor_block_index < self.blocks.len() {
                    if self.blocks[neighbor_block_index].solid {
                        [Vertex::zero(); 4]
                    } else {
                        calced_block_vertices
                    }
                } else {
                    calced_block_vertices
                }
            },
            None => calced_block_vertices,
        }
    }

    /// Writes `quad` into the four vertices of slot `slot` of a block.
    fn put_quad(block_vertices: &mut [Vertex; 24], slot: usize, quad: &[Vertex; 4])
        requires
            slot < 6,
        ensures
            forall|k: int|
                0 <= k < 24 ==> (#[trigger] final(block_vertices)@[k]) == (if 4 * slot <= k < 4
                    * slot + 4 {
                    quad@[k - 4 * slot]
                } else {
                    old(block_vertices)@[k]
                }),
    {
        let start: usize = 4 * slot;
        block_vertices[start] = quad[0];
        block_vertices[start + 1] = quad[1];
        block_vertices[start + 2] = quad[2];
        block_vertices[start + 3] = quad[3];
    }

    /// Regenerates the vertex buffer from the blocks: for each block in array
    /// order its 24 vertices, each face either as its quad or as four zero
    /// vertices.
    fn update_vertices(&mut self)
        requires
            old(self).is_sized(),
            old(self).is_numbered(),
        ensures
            final(self).axis == old(self).axis,
            final(self).blocks == old(self).blocks,
            final(self).indices == old(self).indices,
            final(self).vertices@ == mesh_vertices(
                old(self).axis as int,
                solidity_of(old(self).blocks@),
            ),
    {
        self.vertices.clear();
        let n: usize = self.blocks.len();
        let ghost axis: int = self.axis as int;
        let ghost solid: Seq<bool> = solidity_of(self.blocks@);
        let mut i: usize = 0;
        while i < n
            invariant
                i <= n,
                n == self.blocks@.len(),
                self.is_sized(),
                self.is_numbered(),
                self.axis == old(self).axis,
                self.blocks == old(self).blocks,
                self.indices == old(self).indices,
                axis == self.axis,
                solid == solidity_of(self.blocks@),
                self.vertices@.len() == 24 * i,
                forall|j: int|
                    0 <= j < 24 * i ==> (#[trigger] self.vertices@[j]) == mesh_vertex(
                        axis,
                        solid,
                        j,
                    ),
            decreases n - i,
        {
            let block: Block = self.blocks[i];
            let mut current_block_vertices: [Vertex; 24] = [Vertex::zero(); 24];

            if block.solid {
                proof {
                    lemma_capacity_axis(axis);
                }
                // The block's position relative to the chunk's anchor.
                let block_rel_pos: GridPos = Block::calc_rel_pos(block.block_num, self.axis);
                let block_neighbors: BlockNeighbors = block.get_neighbor_indexes(self.axis);
                let ghost blocks: Seq<Block> = self.blocks@;
                let ghost n: int = i as int;

                let calced = block.as_vertices_z_pos(block_rel_pos);
                let top = self.draw_face(block_neighbors.z_pos, calced);
                proof {
                    assert(block_neighbors.toward(Face::ZPos) == spec_neighbor(axis, n, Face::ZPos));
                    lemma_face_slot_meshed(axis, blocks, n, Face::ZPos, block_neighbors.z_pos, calced@, top@);
                }
                let calced = block.as_vertices_z_neg(block_rel_pos);
                let bottom = self.draw_face(block_neighbors.z_neg, calced);
                proof {
                    assert(block_neighbors.toward(Face::ZNeg) == spec_neighbor(axis, n, Face::ZNeg));
                    lemma_face_slot_meshed(axis, blocks, n, Face::ZNeg, block_neighbors.z_neg, calced@, bottom@);
                }
                let calced = block.as_vertices_right(block_rel_pos);
                let right = self.draw_face(block_neighbors.x_pos, calced);
                proof {
                    assert(block_neighbors.toward(Face::XPos) == spec_neighbor(axis, n, Face::XPos));
                    lemma_face_slot_meshed(axis, blocks, n, Face::XPos, block_neighbors.x_pos, calced@, right@);
                }
                let calced = block.as_vertices_left(block_rel_pos);
                let left = self.draw_face(block_neighbors.x_neg, calced);
                proof {
                    assert(block_neighbors.toward(Face::XNeg) == spec_neighbor(axis, n, Face::XNeg));
                    lemma_face_slot_meshed(axis, blocks, n, Face::XNeg, block_neighbors.x_neg, calced@, left@);
                }
                let calced = block.as_vertices_y_pos(block_rel_pos);
                let front = self.draw_face(block_neighbors.y_pos, calced);
                proof {
                    assert(block_neighbors.toward(Face::YPos) == spec_neighbor(axis, n, Face::YPos));
                    lemma_face_slot_meshed(axis, blocks, n, Face::YPos, block_neighbors.y_pos, calced@, front@);
                }
                let calced = block.as_vertices_y_neg(block_rel_pos);
                let back = self.draw_face(block_neighbors.y_neg, calced);
                proof {
                    assert(block_neighbors.toward(Face::YNeg) == spec_neighbor(axis, n, Face::YNeg));
                    lemma_face_slot_meshed(axis, blocks, n, Face::YNeg, block_neighbors.y_neg, calced@, back@);
                }

                Self::put_quad(&mut current_block_vertices, 0, &top);
                Self::put_quad(&mut current_block_vertices, 1, &bottom);
                Self::put_quad(&mut current_block_vertices, 2, &right);
                Self::put_quad(&mut current_block_vertices, 3, &left);
                Self::put_quad(&mut current_block_vertices, 4, &front);
                Self::put_quad(&mut current_block_vertices, 5, &back);
                assert forall|k: int| 0 <= k < 24 implies current_block_vertices@[k]
                    == mesh_vertex(axis, solid, 24 * i + k) by {
                    let slot = k / 4;
                    let c = k % 4;
                    assert(k == 4 * slot + c);
                    if slot == 0 {
                        assert(current_block_vertices@[k] == top@[c]);
                    } else if slot == 1 {
                        assert(current_block_vertices@[k] == bottom@[c]);
                    } else if slot == 2 {
                        assert(current_block_vertices@[k] == right@[c]);
                    } else if slot == 3 {
                        assert(current_block_vertices@[k] == left@[c]);
                    } else if slot == 4 {
                        assert(current_block_vertices@[k] == front@[c]);
                    } else {
                        assert(current_block_vertices@[k] == back@[c]);
                    }
                }
            } else {
                assert forall|k: int| 0 <= k < 24 implies current_block_vertices@[k]
                    == mesh_vertex(axis, solid, 24 * i + k) by {
                    let j = 24 * i + k;
                    assert(j / 24 == i);
                    assert(!solid[i as int]);
                }
            }

            self.vertices.extend_from_slice(&current_block_vertices);
            i = i + 1;
        }
        assert(self.vertices@ =~= mesh_vertices(axis, solid));
    }

    /// Regenerates the index buffer: for each block in array order its 36
    /// indices.
    fn update_indices(&mut self)
        requires
            old(self).is_sized(),
        ensures
            final(self).axis == old(self).axis,
            final(self).blocks == old(self).blocks,
            final(self).vertices == old(self).vertices,
            final(self).indices@ == mesh_indices(old(self).blocks@.len()),
    {
        self.indices.clear();
        let n: usize = self.blocks.len();
        let mut i: usize = 0;
        while i < n
            invariant
                i <= n,
                n == self.blocks@.len(),
                n <= 2730,
                self.axis == old(self).axis,
                self.blocks == old(self).blocks,
                self.vertices == old(self).vertices,
                self.indices@.len() == 36 * i,
                forall|j: int|
                    0 <= j < 36 * i ==> (#[trigger] self.indices@[j]) == mesh_index(j) as u16,
            decreases n - i,
        {
            let current_block_indices: [u16; 36] = Block::as_indices(i as u16);
            self.indices.extend_from_slice(&current_block_indices);
            i = i + 1;
        }
        assert(self.indices@ =~= mesh_indices(n as nat));
    }
}


/// The center of every block of a chunk has even coordinates with room for
/// the block's corners around it.
pub proof fn lemma_rel_pos_even(axis: int, n: int)
    requires
        fits_capacity(axis),
        0 <= n < spec_volume(axis),
    ensures
        spec_rel_pos(axis, n).has_margin(),
        spec_rel_pos(axis, n).is_even(),
{
    lemma_capacity_axis(axis);
    if axis == 0 {
        assert(spec_volume(axis) == 0) by (nonlinear_arith)
            requires
                axis == 0,
        ;
    }
    lemma_decode_in_grid(axis, n);
}

/// Fixed buffer size: whatever the solidity pattern, a chunk's vertex buffer
/// holds 24 vertices and its index buffer 36 indices for each of its
/// `axis * axis * axis` blocks.
pub proof fn lemma_buffer_sizes(chunk: Chunk)
    requires
        chunk.wf(),
    ensures
        chunk@.solid.len() == spec_volume(chunk@.axis),
        chunk@.vertices.len() == 24 * spec_volume(chunk@.axis),
        chunk@.indices.len() == 36 * spec_volume(chunk@.axis),
{
}

/// The culling rule, for every face of every block alike: the four vertices
/// in the face's slot are the face's quad if the block is solid and the
/// neighbor across the face is absent or not solid, and four zero vertices
/// otherwise.
pub proof fn lemma_face_rule(chunk: Chunk, n: int, face: Face, c: int)
    requires
        chunk.wf(),
        0 <= n < chunk@.solid.len(),
        0 <= c < 4,
    ensures
        chunk@.vertices[24 * n + 4 * face.slot() + c] == (if face_drawn(
            chunk@.axis,
            chunk@.solid,
            n,
            face,
        ) {
            face.vertex(spec_rel_pos(chunk@.axis, n), c)
        } else {
            Vertex::spec_zero()
        }),
        face_drawn(chunk@.axis, chunk@.solid, n, face) ==> chunk@.vertices[24 * n + 4
            * face.slot() + c] != Vertex::spec_zero(),
{
    lemma_face_slots(face);
    lemma_vertex_place(n, face.slot(), c);
    lemma_rel_pos_even(chunk@.axis, n);
    lemma_drawn_vertex_not_zero(face, spec_rel_pos(chunk@.axis, n), c);
}

/// Empty block: a block that is not solid contributes 24 zero vertices,
/// whatever its neighbors are.
pub proof fn lemma_empty_block(chunk: Chunk, n: int, k: int)
    requires
        chunk.wf(),
        0 <= n < chunk@.solid.len(),
        !chunk@.solid[n],
        0 <= k < 24,
    ensures
        chunk@.vertices[24 * n + k] == Vertex::spec_zero(),
{
    lemma_face_rule(chunk, n, Face::of_slot(k / 4), k % 4);
}

/// Full occlusion: a solid block whose six neighbors all exist and are solid
/// contributes 24 zero vertices.
pub proof fn lemma_full_occlusion(chunk: Chunk, n: int, k: int)
    requires
        chunk.wf(),
        0 <= n < chunk@.solid.len(),
        chunk@.solid[n],
        forall|face: Face|
            (#[trigger] spec_neighbor(chunk@.axis, n, face)) matches Some(m) && chunk@.solid[m],
        0 <= k < 24,
    ensures
        chunk@.vertices[24 * n + k] == Vertex::spec_zero(),
{
    let face = Face::of_slot(k / 4);
    assert(spec_neighbor(chunk@.axis, n, face) is Some);
    lemma_face_rule(chunk, n, face, k % 4);
}

/// Full exposure: a solid block none of whose neighbors is solid contributes
/// the 24 vertices of the complete cube of edge 2 around its center, none of
/// them the zero vertex.
pub proof fn lemma_full_exposure(chunk: Chunk, n: int, k: int)
    requires
        chunk.wf(),
        0 <= n < chunk@.solid.len(),
        chunk@.solid[n],
        forall|face: Face|
            (#[trigger] spec_neighbor(chunk@.axis, n, face)) matches Some(m) ==> !chunk@.solid[m],
        0 <= k < 24,
    ensures
        chunk@.vertices[24 * n + k] == cube_vertex(spec_rel_pos(chunk@.axis, n), k),
        chunk@.vertices[24 * n + k] != Vertex::spec_zero(),
{
    let face = Face::of_slot(k / 4);
    assert(spec_neighbor(chunk@.axis, n, face) matches Some(m) ==> !chunk@.solid[m]);
    lemma_face_rule(chunk, n, face, k % 4);
}

/// Boundary face always drawn: where a solid block has no neighbor across a
/// face, because the face lies on the chunk's boundary, that face is drawn,
/// whatever the block's other neighbors are.
pub proof fn lemma_boundary_face_drawn(chunk: Chunk, n: int, face: Face, c: int)
    requires
        chunk.wf(),
        0 <= n < chunk@.solid.len(),
        chunk@.solid[n],
        spec_neighbor(chunk@.axis, n, face) is None,
        0 <= c < 4,
    ensures
        chunk@.vertices[24 * n + 4 * face.slot() + c] == face.vertex(
            spec_rel_pos(chunk@.axis, n),
            c,
        ),
        chunk@.vertices[24 * n + 4 * face.slot() + c] != Vertex::spec_zero(),
{
    lemma_face_rule(chunk, n, face, c);
}

/// The index buffer does not depend on the solidity pattern: index `t` of
/// quad `slot` of block `n` refers to a vertex of that quad, by the pattern
/// `0, 1, 2, 2, 3, 0`.
pub proof fn lemma_index_rule(chunk: Chunk, n: int, slot: int, t: int)
    requires
        chunk.wf(),
        0 <= n < chunk@.solid.len(),
        0 <= slot < 6,
        0 <= t < 6,
    ensures
        chunk@.indices[36 * n + 6 * slot + t] == 24 * n + 4 * slot + quad_corner(t),
        0 <= chunk@.indices[36 * n + 6 * slot + t] < chunk@.vertices.len(),
{
    let j = 36 * n + 6 * slot + t;
    assert(j / 36 == n && (j % 36) / 6 == slot && (j % 36) % 6 == t);
    lemma_capacity_axis(chunk@.axis);
}

/// Idempotence: two chunks of the same side with the same solidity pattern
/// have identical vertex and index buffers, so a rebuild that leaves the
/// pattern as it was leaves both buffers as they were.
pub proof fn lemma_same_pattern_same_buffers(first: Chunk, second: Chunk)
    requires
        first.wf(),
        second.wf(),
        first@.axis == second@.axis,
        first@.solid == second@.solid,
    ensures
        first@.vertices == second@.vertices,
        first@.indices == second@.indices,
{
}

/// A rebuild is determined by the chunk and the distances: any two results of
/// rebuilding the same chunk with the same distances are equal.
pub proof fn lemma_rebuild_determined(
    before: ChunkView,
    distances: Seq<u32>,
    first: ChunkView,
    second: ChunkView,
)
    requires
        first.is_rebuild_of(before, distances),
        second.is_rebuild_of(before, distances),
    ensures
        first == second,
{
    let order1 = choose|order: Seq<int>| #[trigger]
        is_reordered(before.solid, distances, order, first.solid);
    let order2 = choose|order: Seq<int>| #[trigger]
        is_reordered(before.solid, distances, order, second.solid);
    lemma_draw_order_unique(distances, order1, order2);
}

/// Blocks that are already in farthest-first order stay where they are: a
/// rebuild with distances that never increase along the array leaves the
/// chunk as it was.
pub proof fn lemma_rebuild_in_order(before: ChunkView, distances: Seq<u32>, after: ChunkView)
    requires
        before.is_meshed(),
        distances.len() == before.solid.len(),
        forall|i: int, j: int|
            0 <= i < j < distances.len() ==> #[trigger] distances[i] >= #[trigger] distances[j],
        after.is_rebuild_of(before, distances),
    ensures
        after == before,
{
    let order = choose|order: Seq<int>| #[trigger]
        is_reordered(before.solid, distances, order, after.solid);
    let identity = Seq::new(distances.len(), |i: int| i);
    assert forall|s: int| 0 <= s < distances.len() implies #[trigger] occurs_in(identity, s) by {
        assert(identity[s] == s);
    }
    assert(is_draw_order(distances, identity));
    lemma_draw_order_unique(distances, order, identity);
    assert(after.solid =~= before.solid);
}

} // verus!
