//! Mesh generation for one cubic chunk of voxel blocks.
//!
//! A chunk is a grid of `axis * axis * axis` blocks, each solid or empty. From
//! the solidity pattern the crate derives the vertex and index buffers that
//! draw exactly the faces of solid blocks that no solid neighbor hides, and it
//! reorders the blocks farthest-first for a renderer that has no depth test.
//!
//! All geometry is exact integer geometry in the chunk's own lattice: a block
//! is a cube of edge 2 centered at twice its grid coordinate, so every corner
//! has odd coordinates. A caller that renders in floating point adds its world
//! anchor to the positions and supplies the viewer distances as ordered keys.

pub mod codec;
pub mod vertex;
pub mod block;
pub mod sorter;
pub mod chunk;
