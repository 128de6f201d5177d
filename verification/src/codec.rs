//! The mapping between a block's linear index and its grid coordinate.
//!
//! Blocks are numbered row-major with `x` varying fastest:
//! `n = x + axis * (y + axis * z)`. Decoding uses floor division and remainder
//! on the 0-based index and is the exact inverse of that encoding.

use vstd::arithmetic::div_mod::{
    lemma_div_denominator, lemma_fundamental_div_mod, lemma_fundamental_div_mod_converse,
    lemma_mod_pos_bound, lemma_multiply_divide_lt,
};
use vstd::arithmetic::mul::{lemma_mul_is_associative, lemma_mul_is_distributive_add};
use vstd::prelude::*;

verus! {

/// The largest number of blocks a chunk may hold: with 24 vertices per block,
/// every vertex of a chunk of this size still has a 16-bit index.
pub const MAX_CHUNK_SIZE: u16 = 2730;

/// The largest side whose cube does not exceed [`MAX_CHUNK_SIZE`].
pub const MAX_CHUNK_AXIS: u16 = 13;

/// A grid coordinate inside a chunk, one component per axis.
#[derive(Clone, Copy, Debug, PartialEq, Eq, Structural)]
pub struct GridCoord {
    pub x: u16,
    pub y: u16,
    pub z: u16,
}

/// The number of blocks in a chunk of side `axis`.
pub open spec fn spec_volume(axis: int) -> int {
    axis * axis * axis
}

/// Whether `(x, y, z)` names a cell of a chunk of side `axis`.
pub open spec fn in_grid(axis: int, x: int, y: int, z: int) -> bool {
    &&& 0 <= x < axis
    &&& 0 <= y < axis
    &&& 0 <= z < axis
}

/// The linear index of the cell `(x, y, z)`.
pub open spec fn spec_encode(axis: int, x: int, y: int, z: int) -> int {
    x + axis * (y + axis * z)
}

/// The grid coordinate of the block with linear index `n`.
pub open spec fn spec_decode(axis: int, n: int) -> (int, int, int) {
    (n % axis, (n / axis) % axis, n / (axis * axis))
}

/// Whether a chunk of side `axis` stays within the 16-bit index capacity.
pub open spec fn fits_capacity(axis: int) -> bool {
    0 <= axis && spec_volume(axis) <= MAX_CHUNK_SIZE
}

/// A chunk fits the capacity exactly when its side is at most [`MAX_CHUNK_AXIS`].
pub proof fn lemma_capacity_axis(axis: int)
    ensures
        fits_capacity(axis) <==> 0 <= axis <= MAX_CHUNK_AXIS,
{
    if 0 <= axis <= 13 {
        assert(axis * axis * axis <= 2197) by (nonlinear_arith)
            requires
                0 <= axis <= 13,
        ;
    } else if axis >= 14 {
        assert(axis * axis * axis >= 2744) by (nonlinear_arith)
            requires
                axis >= 14,
        ;
    }
}

/// Every index below the volume decodes to a cell of the grid.
pub proof fn lemma_decode_in_grid(axis: int, n: int)
    requires
        0 < axis,
        0 <= n < spec_volume(axis),
    ensures
        ({
            let (x, y, z) = spec_decode(axis, n);
            in_grid(axis, x, y, z)
        }),
{
    lemma_mod_pos_bound(n, axis);
    assert(0 <= n / axis) by (nonlinear_arith)
        requires
            0 <= n,
            0 < axis,
    ;
    lemma_mod_pos_bound(n / axis, axis);
    assert(0 < axis * axis) by (nonlinear_arith)
        requires
            0 < axis,
    ;
    assert(0 <= n / (axis * axis)) by (nonlinear_arith)
        requires
            0 <= n,
            0 < axis * axis,
    ;
    lemma_mul_is_associative(axis, axis, axis);
    lemma_multiply_divide_lt(n, axis * axis, axis);
}

/// Round trip from an index: encoding the decoded coordinate of any index
/// below the volume gives the index back, and the decoded coordinate lies in
/// the grid.
pub proof fn lemma_encode_decode(axis: int, n: int)
    requires
        0 < axis,
        0 <= n < spec_volume(axis),
    ensures
        ({
            let (x, y, z) = spec_decode(axis, n);
            &&& in_grid(axis, x, y, z)
            &&& spec_encode(axis, x, y, z) == n
        }),
{
    lemma_decode_in_grid(axis, n);
    let q = n / axis;
    lemma_fundamental_div_mod(n, axis);
    lemma_fundamental_div_mod(q, axis);
    assert(0 <= n / axis) by (nonlinear_arith)
        requires
            0 <= n,
            0 < axis,
    ;
    lemma_div_denominator(n, axis, axis);
    assert(q / axis == n / (axis * axis));
    assert(axis * (q % axis + axis * (q / axis)) == axis * (axis * (q / axis) + q % axis));
}

/// Round trip from a coordinate: every cell of the grid has an index below
/// the volume, and that index decodes to the cell.
pub proof fn lemma_decode_encode(axis: int, x: int, y: int, z: int)
    requires
        in_grid(axis, x, y, z),
    ensures
        0 <= spec_encode(axis, x, y, z) < spec_volume(axis),
        spec_decode(axis, spec_encode(axis, x, y, z)) == (x, y, z),
{
    let q = y + axis * z;
    let n = x + axis * q;
    assert(q == z * axis + y) by (nonlinear_arith)
        requires
            q == y + axis * z,
    ;
    assert(n == q * axis + x) by (nonlinear_arith)
        requires
            n == x + axis * q,
    ;
    lemma_fundamental_div_mod_converse(q, axis, z, y);
    lemma_fundamental_div_mod_converse(n, axis, q, x);
    assert(0 <= q && 0 <= n && n < axis * axis * axis) by (nonlinear_arith)
        requires
            in_grid(axis, x, y, z),
            q == y + axis * z,
            n == x + axis * q,
    ;
    lemma_div_denominator(n, axis, axis);
}

/// The number of blocks in a chunk of side `axis`.
pub fn volume(axis: u16) -> (v: u64)
    ensures
        v == spec_volume(axis as int),
{
    let a: u64 = axis as u64;
    assert(a * a <= 0xffff * 0xffff) by (nonlinear_arith)
        requires
            a <= 0xffff,
    ;
    assert(a * a * a <= 0xffff * 0xffff * 0xffff) by (nonlinear_arith)
        requires
            a <= 0xffff,
    ;
    a * a * a
}

/// Decodes the linear index `n` into its grid coordinate.
pub fn decode(axis: u16, n: u16) -> (c: GridCoord)
    requires
        0 < axis,
        n < spec_volume(axis as int),
    ensures
        (c.x as int, c.y as int, c.z as int) == spec_decode(axis as int, n as int),
        in_grid(axis as int, c.x as int, c.y as int, c.z as int),
        spec_encode(axis as int, c.x as int, c.y as int, c.z as int) == n,
{
    proof {
        lemma_encode_decode(axis as int, n as int);
        lemma_div_denominator(n as int, axis as int, axis as int);
    }
    let q: u16 = n / axis;
    GridCoord { x: n % axis, y: q % axis, z: q / axis }
}

/// Encodes a grid coordinate into its linear index.
pub fn encode(axis: u16, c: GridCoord) -> (n: u16)
    requires
        in_grid(axis as int, c.x as int, c.y as int, c.z as int),
        spec_volume(axis as int) <= 0x1_0000,
    ensures
        n == spec_encode(axis as int, c.x as int, c.y as int, c.z as int),
        n < spec_volume(axis as int),
        spec_decode(axis as int, n as int) == (c.x as int, c.y as int, c.z as int),
{
    proof {
        lemma_decode_encode(axis as int, c.x as int, c.y as int, c.z as int);
        let q = c.y as int + (axis as int) * (c.z as int);
        assert(0 <= (axis as int) * (c.z as int) <= q && (axis as int) * q <= spec_encode(
            axis as int,
            c.x as int,
            c.y as int,
            c.z as int,
        ) && q <= (axis as int) * q) by (nonlinear_arith)
            requires
                in_grid(axis as int, c.x as int, c.y as int, c.z as int),
                q == c.y as int + (axis as int) * (c.z as int),
        ;
    }
    c.x + axis * (c.y + axis * c.z)
}

} // verus!
