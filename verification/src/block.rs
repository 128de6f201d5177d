//! One block of a chunk: its neighbors, its face quads and its indices.

use crate::codec::{
    decode, in_grid, lemma_decode_encode, lemma_encode_decode, spec_decode, spec_encode,
    spec_volume, volume, GridCoord, MAX_CHUNK_SIZE,
};
use crate::vertex::{Face, GridPos, Vertex, BLOCK_SIZE};
use vstd::prelude::*;

verus! {

/// The number of indices every block contributes: two triangles for each of
/// its six faces.
pub const INDICES_PER_BLOCK: usize = 36;

/// The linear indices of the six neighbors of a block, `None` where the block
/// touches the chunk's boundary.
#[derive(Clone, Copy, Debug, PartialEq, Eq)]
pub struct BlockNeighbors {
    pub z_pos: Option<u16>,
    pub z_neg: Option<u16>,
    pub y_pos: Option<u16>,
    pub y_neg: Option<u16>,
    pub x_pos: Option<u16>,
    pub x_neg: Option<u16>,
}

impl BlockNeighbors {
    /// The neighbor across `face`.
    pub open spec fn toward(self, face: Face) -> Option<int> {
        let index = match face {
            Face::ZPos => self.z_pos,
            Face::ZNeg => self.z_neg,
            Face::XPos => self.x_pos,
            Face::XNeg => self.x_neg,
            Face::YPos => self.y_pos,
            Face::YNeg => self.y_neg,
        };
        match index {
            Some(m) => Some(m as int),
            None => None,
        }
    }
}

/// The neighbor of block `n` across `face` in a chunk of side `axis`: the
/// block one cell further along the face's normal, if that cell is in the
/// grid.
pub open spec fn spec_neighbor(axis: int, n: int, face: Face) -> Option<int> {
    let (x, y, z) = spec_decode(axis, n);
    let (dx, dy, dz) = face.normal();
    if in_grid(axis, x + dx, y + dy, z + dz) {
        Some(spec_encode(axis, x + dx, y + dy, z + dz))
    } else {
        None
    }
}

/// The center of block `n`, relative to the chunk's anchor: twice its grid
/// coordinate.
pub open spec fn spec_rel_pos(axis: int, n: int) -> GridPos {
    let (x, y, z) = spec_decode(axis, n);
    GridPos { x: (2 * x) as i32, y: (2 * y) as i32, z: (2 * z) as i32 }
}

/// The corner of a quad that position `t` of its six indices refers to: the
/// triangles `(0, 1, 2)` and `(2, 3, 0)`.
pub open spec fn quad_corner(t: int) -> int {
    if t == 0 || t == 5 {
        0
    } else if t == 1 {
        1
    } else if t == 2 || t == 3 {
        2
    } else {
        3
    }
}

/// Index `k` of the 36 indices of the block at array position `block_num`.
pub open spec fn spec_block_index(block_num: int, k: int) -> int {
    block_num * 24 + (k / 6) * 4 + quad_corner(k % 6)
}

/// The difference between the linear indices of two blocks that are
/// neighbors across `face`.
pub open spec fn spec_stride(axis: int, face: Face) -> int {
    match face {
        Face::XPos => 1,
        Face::XNeg => -1,
        Face::YPos => axis,
        Face::YNeg => -axis,
        Face::ZPos => axis * axis,
        Face::ZNeg => -(axis * axis),
    }
}

/// Moving one cell along a face's normal moves the linear index by the
/// stride of that face.
proof fn lemma_encode_step(axis: int, x: int, y: int, z: int, face: Face)
    by (nonlinear_arith)
    ensures
        ({
            let (dx, dy, dz) = face.normal();
            spec_encode(axis, x + dx, y + dy, z + dz) == spec_encode(axis, x, y, z) + spec_stride(
                axis,
                face,
            )
        }),
{
}

/// A chunk whose blocks all have 16-bit indices has a side of at most 40.
proof fn lemma_axis_small(axis: int)
    by (nonlinear_arith)
    requires
        0 < axis,
        spec_volume(axis) <= 0x1_0000,
    ensures
        axis <= 40,
        axis * axis <= 1600,
{
    if axis >= 41 {
        assert(axis * axis * axis >= 41 * 41 * 41);
    }
}

/// A neighbor is a block of the chunk, and the block is its neighbor across
/// the opposite face: adjacency is symmetric.
pub proof fn lemma_neighbor_symmetric(axis: int, n: int, face: Face)
    requires
        0 < axis,
        0 <= n < spec_volume(axis),
        spec_neighbor(axis, n, face) is Some,
    ensures
        ({
            let m = spec_neighbor(axis, n, face)->0;
            &&& 0 <= m < spec_volume(axis)
            &&& m != n
            &&& spec_neighbor(axis, m, face.opposite()) == Some(n)
        }),
{
    lemma_encode_decode(axis, n);
    let (x, y, z) = spec_decode(axis, n);
    let (dx, dy, dz) = face.normal();
    lemma_decode_encode(axis, x + dx, y + dy, z + dz);
    lemma_decode_encode(axis, x, y, z);
}

/// One voxel cell of a chunk.
#[derive(Clone, Copy, Debug, PartialEq, Eq)]
pub struct Block {
    /// Whether the block is solid; an empty block draws nothing.
    pub solid: bool,
    /// The block's current position in its chunk's array, which is also the
    /// cell it occupies.
    pub block_num: u16,
}

impl Block {
    /// A block at array position `block_num` that is solid if `solid` is.
    pub fn new(block_num: u16, solid: bool) -> (block: Block)
        ensures
            block.block_num == block_num,
            block.solid == solid,
    {
        Self { solid, block_num }
    }

    /// The corner of the block around `block_pos` at offset `(dx, dy, dz)`,
    /// with texture coordinate `(u, v)`.
    fn corner(block_pos: GridPos, dx: i32, dy: i32, dz: i32, u: u8, v: u8) -> (vertex: Vertex)
        requires
            block_pos.has_margin(),
            -1 <= dx <= 1,
            -1 <= dy <= 1,
            -1 <= dz <= 1,
        ensures
            vertex == (Vertex {
                position: GridPos {
                    x: (block_pos.x + dx) as i32,
                    y: (block_pos.y + dy) as i32,
                    z: (block_pos.z + dz) as i32,
                },
                tex_coords: (u, v),
            }),
    {
        Vertex {
            position: GridPos { x: block_pos.x + dx, y: block_pos.y + dy, z: block_pos.z + dz },
            tex_coords: (u, v),
        }
    }

    /// The quad of the `+z` face of a block centered at `block_pos`.
    pub fn as_vertices_z_pos(&self, block_pos: GridPos) -> (quad: [Vertex; 4])
        requires
            block_pos.has_margin(),
        ensures
            Face::ZPos.is_quad(block_pos, quad@),
    {
        [
            Self::corner(block_pos, -1, -1, 1, 1, 1),
            Self::corner(block_pos, 1, -1, 1, 1, 0),
            Self::corner(block_pos, 1, 1, 1, 0, 0),
            Self::corner(block_pos, -1, 1, 1, 0, 1),
        ]
    }

    /// The quad of the `-z` face of a block centered at `block_pos`.
    pub fn as_vertices_z_neg(&self, block_pos: GridPos) -> (quad: [Vertex; 4])
        requires
            block_pos.has_margin(),
        ensures
            Face::ZNeg.is_quad(block_pos, quad@),
    {
        [
            Self::corner(block_pos, -1, 1, -1, 1, 1),
            Self::corner(block_pos, 1, 1, -1, 1, 0),
            Self::corner(block_pos, 1, -1, -1, 0, 0),
            Self::corner(block_pos, -1, -1, -1, 0, 1),
        ]
    }

    /// The quad of the `-x` face of a block centered at `block_pos`.
    pub fn as_vertices_left(&self, block_pos: GridPos) -> (quad: [Vertex; 4])
        requires
            block_pos.has_margin(),
        ensures
            Face::XNeg.is_quad(block_pos, quad@),
    {
        [
            Self::corner(block_pos, -1, -1, 1, 1, 1),
            Self::corner(block_pos, -1, 1, 1, 1, 0),
            Self::corner(block_pos, -1, 1, -1, 0, 0),
            Self::corner(block_pos, -1, -1, -1, 0, 1),
        ]
    }

    /// The quad of the `+x` face of a block centered at `block_pos`.
    pub fn as_vertices_right(&self, block_pos: GridPos) -> (quad: [Vertex; 4])
        requires
            block_pos.has_margin(),
        ensures
            Face::XPos.is_quad(block_pos, quad@),
    {
        [
            Self::corner(block_pos, 1, -1, -1, 1, 1),
            Self::corner(block_pos, 1, 1, -1, 1, 0),
            Self::corner(block_pos, 1, 1, 1, 0, 0),
            Self::corner(block_pos, 1, -1, 1, 0, 1),
        ]
    }

    /// The quad of the `+y` face of a block centered at `block_pos`.
    pub fn as_vertices_y_pos(&self, block_pos: GridPos) -> (quad: [Vertex; 4])
        requires
            block_pos.has_margin(),
        ensures
            Face::YPos.is_quad(block_pos, quad@),
    {
        [
            Self::corner(block_pos, 1, 1, -1, 0, 0),
            Self::corner(block_pos, -1, 1, -1, 0, 1),
            Self::corner(block_pos, -1, 1, 1, 1, 1),
            Self::corner(block_pos, 1, 1, 1, 1, 0),
        ]
    }

    /// The quad of the `-y` face of a block centered at `block_pos`.
    pub fn as_vertices_y_neg(&self, block_pos: GridPos) -> (quad: [Vertex; 4])
        requires
            block_pos.has_margin(),
        ensures
            Face::YNeg.is_quad(block_pos, quad@),
    {
        [
            Self::corner(block_pos, 1, -1, 1, 1, 1),
            Self::corner(block_pos, -1, -1, 1, 1, 0),
            Self::corner(block_pos, -1, -1, -1, 0, 0),
            Self::corner(block_pos, 1, -1, -1, 0, 1),
        ]
    }

    /// The 36 indices of the block at array position `block_num`: for each of
    /// its six quads, whose vertices start at `block_num * 24 + slot * 4`, the
    /// triangles `(0, 1, 2)` and `(2, 3, 0)`. They do not depend on what the
    /// block draws.
    pub fn as_indices(block_num: u16) -> (indices: [u16; 36])
        requires
            block_num < MAX_CHUNK_SIZE,
        ensures
            forall|k: int|
                0 <= k < 36 ==> #[trigger] indices@[k] == spec_block_index(block_num as int, k),
    {
        let s: u16 = block_num * 24;
        [
            s, 1 + s, 2 + s, 2 + s, 3 + s, s,
            4 + s, 5 + s, 6 + s, 6 + s, 7 + s, 4 + s,
            8 + s, 9 + s, 10 + s, 10 + s, 11 + s, 8 + s,
            12 + s, 13 + s, 14 + s, 14 + s, 15 + s, 12 + s,
            16 + s, 17 + s, 18 + s, 18 + s, 19 + s, 16 + s,
            20 + s, 21 + s, 22 + s, 22 + s, 23 + s, 20 + s,
        ]
    }

    /// The center of the block at array position `block_num`, relative to the
    /// chunk's anchor.
    pub fn calc_rel_pos(block_num: u16, axis: u16) -> (pos: GridPos)
        requires
            0 < axis,
            block_num < spec_volume(axis as int),
        ensures
            pos == spec_rel_pos(axis as int, block_num as int),
            pos.has_margin(),
            pos.is_even(),
    {
        let c: GridCoord = decode(axis, block_num);
        GridPos {
            x: BLOCK_SIZE * (c.x as i32),
            y: BLOCK_SIZE * (c.y as i32),
            z: BLOCK_SIZE * (c.z as i32),
        }
    }

    /// The neighbor of block `block_num` across `face`. The candidate index is
    /// `block_num` moved by the stride of the face's axis; it counts only if it
    /// is an index of the chunk and its cell differs from the block's by one
    /// step along that axis and in nothing else.
    fn resolve_neighbor(axis: u16, block_num: u16, face: Face) -> (neighbor: Option<u16>)
        requires
            0 < axis,
            spec_volume(axis as int) <= 0x1_0000,
            block_num < spec_volume(axis as int),
        ensures
            neighbor is Some <==> spec_neighbor(axis as int, block_num as int, face) is Some,
            neighbor matches Some(m) ==> spec_neighbor(axis as int, block_num as int, face)
                == Some(m as int),
    {
        let ghost (x, y, z) = spec_decode(axis as int, block_num as int);
        let ghost (dx, dy, dz) = face.normal();
        proof {
            lemma_axis_small(axis as int);
            lemma_encode_decode(axis as int, block_num as int);
            lemma_encode_step(axis as int, x, y, z, face);
            if in_grid(axis as int, x + dx, y + dy, z + dz) {
                lemma_decode_encode(axis as int, x + dx, y + dy, z + dz);
            }
        }
        let candidate: Option<u16> = match face {
            Face::XPos => block_num.checked_add(1),
            Face::XNeg => block_num.checked_sub(1),
            Face::YPos => block_num.checked_add(axis),
            Face::YNeg => block_num.checked_sub(axis),
            Face::ZPos => block_num.checked_add(axis * axis),
            Face::ZNeg => block_num.checked_sub(axis * axis),
        };
        match candidate {
            None => None,
            Some(m) => {
                if (m as u64) < volume(axis) {
                    let from: GridCoord = decode(axis, block_num);
                    let to: GridCoord = decode(axis, m);
                    let one_step: bool = match face {
                        Face::XPos => to.x == from.x + 1 && to.y == from.y && to.z == from.z,
                        Face::XNeg => from.x == to.x + 1 && to.y == from.y && to.z == from.z,
                        Face::YPos => to.x == from.x && to.y == from.y + 1 && to.z == from.z,
                        Face::YNeg => to.x == from.x && from.y == to.y + 1 && to.z == from.z,
                        Face::ZPos => to.x == from.x && to.y == from.y && to.z == from.z + 1,
                        Face::ZNeg => to.x == from.x && to.y == from.y && from.z == to.z + 1,
                    };
                    if one_step {
                        Some(m)
                    } else {
                        None
                    }
                } else {
                    None
                }
            },
        }
    }

    /// The linear indices of the block's six neighbors in a chunk of side
    /// `axis`, `None` for each direction in which the block has none.
    pub fn get_neighbor_indexes(&self, axis: u16) -> (neighbors: BlockNeighbors)
        requires
            0 < axis,
            spec_volume(axis as int) <= 0x1_0000,
            self.block_num < spec_volume(axis as int),
        ensures
            forall|face: Face|
                #[trigger] neighbors.toward(face) == spec_neighbor(
                    axis as int,
                    self.block_num as int,
                    face,
                ),
    {
        BlockNeighbors {
            z_pos: Self::resolve_neighbor(axis, self.block_num, Face::ZPos),
            z_neg: Self::resolve_neighbor(axis, self.block_num, Face::ZNeg),
            y_pos: Self::resolve_neighbor(axis, self.block_num, Face::YPos),
            y_neg: Self::resolve_neighbor(axis, self.block_num, Face::YNeg),
            x_pos: Self::resolve_neighbor(axis, self.block_num, Face::XPos),
            x_neg: Self::resolve_neighbor(axis, self.block_num, Face::XNeg),
        }
    }
}

} // verus!
