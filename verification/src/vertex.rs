//! Vertices and the six faces of a block.
//!
//! A block is a cube of edge 2 around its center. Each face is a quad of four
//! corners in a fixed order with fixed texture coordinates; the order winds
//! counter-clockwise when the face is seen from outside the cube, so that the
//! index pattern `(0, 1, 2), (2, 3, 0)` yields two front-facing triangles.

use vstd::prelude::*;

verus! {

/// The number of vertices every block contributes, drawn or not.
pub const VERTICES_PER_BLOCK: usize = 24;

/// The distance between the centers of two adjacent blocks.
pub const BLOCK_SIZE: i32 = 2;

/// A position in the chunk's lattice, in world units relative to the chunk's
/// anchor.
#[derive(Clone, Copy, Debug, PartialEq, Eq, Structural)]
pub struct GridPos {
    pub x: i32,
    pub y: i32,
    pub z: i32,
}

impl GridPos {
    /// Whether a cube of edge 2 around this center has representable corners.
    pub open spec fn has_margin(self) -> bool {
        &&& i32::MIN < self.x < i32::MAX
        &&& i32::MIN < self.y < i32::MAX
        &&& i32::MIN < self.z < i32::MAX
    }

    /// Whether every coordinate is even, as it is for every block center.
    pub open spec fn is_even(self) -> bool {
        &&& self.x as int % 2 == 0
        &&& self.y as int % 2 == 0
        &&& self.z as int % 2 == 0
    }
}

/// One vertex of the mesh: a lattice position and a texture coordinate whose
/// components are 0 or 1.
#[derive(Clone, Copy, Debug, PartialEq, Eq)]
pub struct Vertex {
    pub position: GridPos,
    pub tex_coords: (u8, u8),
}

/// The face directions of a block, in the order of their slots among the
/// block's 24 vertices.
#[derive(Clone, Copy, Debug, PartialEq, Eq, Structural)]
pub enum Face {
    /// `+z`, the top face, vertices `0..4`.
    ZPos,
    /// `-z`, the bottom face, vertices `4..8`.
    ZNeg,
    /// `+x`, the right face, vertices `8..12`.
    XPos,
    /// `-x`, the left face, vertices `12..16`.
    XNeg,
    /// `+y`, the front face, vertices `16..20`.
    YPos,
    /// `-y`, the back face, vertices `20..24`.
    YNeg,
}

impl Face {
    /// The position of this face among the six faces of a block.
    pub open spec fn slot(self) -> int {
        match self {
            Face::ZPos => 0,
            Face::ZNeg => 1,
            Face::XPos => 2,
            Face::XNeg => 3,
            Face::YPos => 4,
            Face::YNeg => 5,
        }
    }

    /// The face that occupies slot `slot`.
    pub open spec fn of_slot(slot: int) -> Face {
        if slot == 0 {
            Face::ZPos
        } else if slot == 1 {
            Face::ZNeg
        } else if slot == 2 {
            Face::XPos
        } else if slot == 3 {
            Face::XNeg
        } else if slot == 4 {
            Face::YPos
        } else {
            Face::YNeg
        }
    }

    /// The face on the other side of the block.
    pub open spec fn opposite(self) -> Face {
        match self {
            Face::ZPos => Face::ZNeg,
            Face::ZNeg => Face::ZPos,
            Face::XPos => Face::XNeg,
            Face::XNeg => Face::XPos,
            Face::YPos => Face::YNeg,
            Face::YNeg => Face::YPos,
        }
    }

    /// The outward unit normal of this face.
    pub open spec fn normal(self) -> (int, int, int) {
        match self {
            Face::ZPos => (0, 0, 1),
            Face::ZNeg => (0, 0, -1),
            Face::XPos => (1, 0, 0),
            Face::XNeg => (-1, 0, 0),
            Face::YPos => (0, 1, 0),
            Face::YNeg => (0, -1, 0),
        }
    }

    /// The offset of corner `k` of this face from the block's center.
    pub open spec fn corner_offset(self, k: int) -> (int, int, int) {
        match self {
            Face::ZPos => if k == 0 {
                (-1, -1, 1)
            } else if k == 1 {
                (1, -1, 1)
            } else if k == 2 {
                (1, 1, 1)
            } else {
                (-1, 1, 1)
            },
            Face::ZNeg => if k == 0 {
                (-1, 1, -1)
            } else if k == 1 {
                (1, 1, -1)
            } else if k == 2 {
                (1, -1, -1)
            } else {
                (-1, -1, -1)
            },
            Face::XPos => if k == 0 {
                (1, -1, -1)
            } else if k == 1 {
                (1, 1, -1)
            } else if k == 2 {
                (1, 1, 1)
            } else {
                (1, -1, 1)
            },
            Face::XNeg => if k == 0 {
                (-1, -1, 1)
            } else if k == 1 {
                (-1, 1, 1)
            } else if k == 2 {
                (-1, 1, -1)
            } else {
                (-1, -1, -1)
            },
            Face::YPos => if k == 0 {
                (1, 1, -1)
            } else if k == 1 {
                (-1, 1, -1)
            } else if k == 2 {
                (-1, 1, 1)
            } else {
                (1, 1, 1)
            },
            Face::YNeg => if k == 0 {
                (1, -1, 1)
            } else if k == 1 {
                (-1, -1, 1)
            } else if k == 2 {
                (-1, -1, -1)
            } else {
                (1, -1, -1)
            },
        }
    }

    /// The texture coordinate of corner `k` of this face.
    pub open spec fn corner_tex(self, k: int) -> (u8, u8) {
        let turned = if self == Face::YPos {
            (k + 2) % 4
        } else {
            k
        };
        if turned == 0 {
            (1, 1)
        } else if turned == 1 {
            (1, 0)
        } else if turned == 2 {
            (0, 0)
        } else {
            (0, 1)
        }
    }

    /// Vertex `k` of this face of the block centered at `center`.
    pub open spec fn vertex(self, center: GridPos, k: int) -> Vertex {
        let (dx, dy, dz) = self.corner_offset(k);
        Vertex {
            position: GridPos {
                x: (center.x + dx) as i32,
                y: (center.y + dy) as i32,
                z: (center.z + dz) as i32,
            },
            tex_coords: self.corner_tex(k),
        }
    }

    /// Whether `quad` holds the four vertices of this face around `center`.
    pub open spec fn is_quad(self, center: GridPos, quad: Seq<Vertex>) -> bool {
        &&& quad.len() == 4
        &&& forall|k: int| 0 <= k < 4 ==> quad[k] == self.vertex(center, k)
    }
}

impl Vertex {
    /// The degenerate vertex: zero position, zero texture coordinate.
    pub open spec fn spec_zero() -> Vertex {
        Vertex { position: GridPos { x: 0, y: 0, z: 0 }, tex_coords: (0, 0) }
    }

    /// The degenerate vertex that stands for geometry that is not drawn.
    pub fn zero() -> (v: Vertex)
        ensures
            v == Vertex::spec_zero(),
    {
        Vertex { position: GridPos { x: 0, y: 0, z: 0 }, tex_coords: (0, 0) }
    }

    /// Whether this is the degenerate vertex.
    pub fn is_zero(&self) -> (b: bool)
        ensures
            b <==> *self == Vertex::spec_zero(),
    {
        self.position.x == 0 && self.position.y == 0 && self.position.z == 0
            && self.tex_coords.0 == 0 && self.tex_coords.1 == 0
    }
}

/// Whether `quad` holds four degenerate vertices.
pub open spec fn is_zero_quad(quad: Seq<Vertex>) -> bool {
    &&& quad.len() == 4
    &&& forall|k: int| 0 <= k < 4 ==> quad[k] == Vertex::spec_zero()
}

/// Vertex `k` of the 24 vertices of a fully drawn block centered at `center`:
/// face `k / 4` in slot order, corner `k % 4`.
pub open spec fn cube_vertex(center: GridPos, k: int) -> Vertex {
    Face::of_slot(k / 4).vertex(center, k % 4)
}

/// The cross product of two lattice vectors.
pub open spec fn cross(a: (int, int, int), b: (int, int, int)) -> (int, int, int) {
    (a.1 * b.2 - a.2 * b.1, a.2 * b.0 - a.0 * b.2, a.0 * b.1 - a.1 * b.0)
}

/// The lattice vector from `a` to `b`.
pub open spec fn between(a: (int, int, int), b: (int, int, int)) -> (int, int, int) {
    (b.0 - a.0, b.1 - a.1, b.2 - a.2)
}

/// Slots and faces correspond one to one.
pub proof fn lemma_face_slots(face: Face)
    ensures
        0 <= face.slot() < 6,
        Face::of_slot(face.slot()) == face,
{
}

/// Each corner of a face lies on the unit cube, on the side its normal points
/// to: the component along the normal is the normal's, the others are `1` or
/// `-1`.
pub proof fn lemma_corners_on_face(face: Face, k: int)
    requires
        0 <= k < 4,
    ensures
        ({
            let (dx, dy, dz) = face.corner_offset(k);
            let (nx, ny, nz) = face.normal();
            &&& dx == 1 || dx == -1
            &&& dy == 1 || dy == -1
            &&& dz == 1 || dz == -1
            &&& dx * nx + dy * ny + dz * nz == 1
        }),
{
}

/// Both triangles of a face, `(0, 1, 2)` and `(2, 3, 0)`, wind
/// counter-clockwise seen from outside: the cross product of their edges
/// points along the outward normal.
pub proof fn lemma_faces_wind_outward(face: Face)
    by (nonlinear_arith)
    ensures
        ({
            let a = face.corner_offset(0);
            let b = face.corner_offset(1);
            let c = face.corner_offset(2);
            let d = face.corner_offset(3);
            let (nx, ny, nz) = face.normal();
            &&& cross(between(a, b), between(a, c)) == (4 * nx, 4 * ny, 4 * nz)
            &&& cross(between(c, d), between(c, a)) == (4 * nx, 4 * ny, 4 * nz)
        }),
{
}

/// A vertex of a block whose center has even coordinates is never the
/// degenerate vertex: its coordinates are odd.
pub proof fn lemma_drawn_vertex_not_zero(face: Face, center: GridPos, k: int)
    requires
        center.has_margin(),
        center.is_even(),
        0 <= k < 4,
    ensures
        face.vertex(center, k) != Vertex::spec_zero(),
        face.vertex(center, k).position.x as int % 2 != 0,
{
    lemma_corners_on_face(face, k);
}

} // verus!
