use chunk_mesh::block::Block;
use chunk_mesh::chunk::{Chunk, ChunkError};
use chunk_mesh::vertex::{GridPos, Vertex};

fn vertex(x: i32, y: i32, z: i32, u: u8, v: u8) -> Vertex {
    Vertex { position: GridPos { x, y, z }, tex_coords: (u, v) }
}

/// The 24 vertices of a fully drawn block centered at `(x, y, z)`.
fn cube(x: i32, y: i32, z: i32) -> Vec<Vertex> {
    let b = Block::new(0, true);
    let p = GridPos { x, y, z };
    let mut all: Vec<Vertex> = Vec::new();
    all.extend_from_slice(&b.as_vertices_z_pos(p));
    all.extend_from_slice(&b.as_vertices_z_neg(p));
    all.extend_from_slice(&b.as_vertices_right(p));
    all.extend_from_slice(&b.as_vertices_left(p));
    all.extend_from_slice(&b.as_vertices_y_pos(p));
    all.extend_from_slice(&b.as_vertices_y_neg(p));
    all
}

fn zeros(count: usize) -> Vec<Vertex> {
    vec![Vertex::zero(); count]
}

fn block_vertices(chunk: &Chunk, n: usize) -> Vec<Vertex> {
    chunk.vertices()[24 * n..24 * n + 24].to_vec()
}

fn solidity(chunk: &Chunk) -> Vec<bool> {
    chunk.blocks().iter().map(|b| b.solid).collect()
}

fn only(size: usize, solid: &[usize]) -> Vec<bool> {
    let mut pattern = vec![false; size];
    for n in solid {
        pattern[*n] = true;
    }
    pattern
}

#[test]
fn a_chunk_of_the_largest_side_is_made() {
    let chunk = Chunk::new(13, &vec![false; 2197]).unwrap();
    assert_eq!(chunk.axis(), 13);
    assert_eq!(chunk.blocks().len(), 2197);
    assert_eq!(chunk.vertices().len(), 2197 * 24);
    assert_eq!(chunk.indices().len(), 2197 * 36);
    assert_eq!(*chunk.indices().iter().max().unwrap(), 2197 * 24 - 1);
}

#[test]
fn a_chunk_too_large_for_16_bit_indices_is_rejected() {
    assert_eq!(Chunk::new(14, &vec![true; 2744]).err(), Some(ChunkError::TooLarge));
    assert_eq!(Chunk::new(14, &[]).err(), Some(ChunkError::TooLarge));
    assert_eq!(Chunk::new(u16::MAX, &[true]).err(), Some(ChunkError::TooLarge));
}

#[test]
fn a_pattern_of_the_wrong_length_is_rejected() {
    assert_eq!(Chunk::new(3, &vec![true; 26]).err(), Some(ChunkError::SolidityLength));
    assert_eq!(Chunk::new(3, &vec![true; 28]).err(), Some(ChunkError::SolidityLength));
    assert_eq!(Chunk::new(2, &[]).err(), Some(ChunkError::SolidityLength));
    assert_eq!(Chunk::new(0, &[true]).err(), Some(ChunkError::SolidityLength));
}

#[test]
fn a_chunk_without_blocks_has_empty_buffers() {
    let mut chunk = Chunk::new(0, &[]).unwrap();
    assert!(chunk.vertices().is_empty());
    assert!(chunk.indices().is_empty());
    chunk.update_graphics(&[]);
    assert!(chunk.vertices().is_empty());
    assert!(chunk.indices().is_empty());
}

#[test]
fn new_chunk_numbers_its_blocks_and_keeps_the_pattern() {
    let pattern = only(8, &[1, 6]);
    let chunk = Chunk::new(2, &pattern).unwrap();
    assert_eq!(solidity(&chunk), pattern);
    for (i, b) in chunk.blocks().iter().enumerate() {
        assert_eq!(b.block_num as usize, i);
    }
}

#[test]
fn buffer_sizes_are_fixed_for_any_pattern() {
    let patterns: [Vec<bool>; 4] =
        [vec![true; 27], vec![false; 27], only(27, &[13]), only(27, &[0, 2, 5, 13, 14, 26])];
    for pattern in patterns {
        let mut chunk = Chunk::new(3, &pattern).unwrap();
        assert_eq!(chunk.vertices().len(), 27 * 24);
        assert_eq!(chunk.indices().len(), 27 * 36);
        let keys: Vec<u32> = (0..27u32).map(|n| (n * 5) % 11).collect();
        chunk.update_graphics(&keys);
        assert_eq!(chunk.vertices().len(), 27 * 24);
        assert_eq!(chunk.indices().len(), 27 * 36);
    }
}

#[test]
fn an_enclosed_solid_block_is_fully_occluded() {
    let chunk = Chunk::new(3, &vec![true; 27]).unwrap();
    assert_eq!(block_vertices(&chunk, 13), zeros(24));
}

#[test]
fn a_solid_block_without_solid_neighbors_is_fully_exposed() {
    // Alone in the middle of the chunk: all six neighbors exist and are empty.
    let chunk = Chunk::new(3, &only(27, &[13])).unwrap();
    let got = block_vertices(&chunk, 13);
    assert_eq!(got, cube(2, 2, 2));
    assert!(got.iter().all(|v| !v.is_zero()));
    // Alone in a corner: three neighbors are absent, three are empty.
    let chunk = Chunk::new(3, &only(27, &[26])).unwrap();
    assert_eq!(block_vertices(&chunk, 26), cube(4, 4, 4));
    // The only block of its chunk: all six neighbors are absent.
    let chunk = Chunk::new(1, &[true]).unwrap();
    assert_eq!(chunk.vertices().to_vec(), cube(0, 0, 0));
}

#[test]
fn an_exposed_cube_has_its_corners_one_unit_from_the_center() {
    let chunk = Chunk::new(3, &only(27, &[14])).unwrap();
    for v in block_vertices(&chunk, 14) {
        assert_eq!((v.position.x - 4).abs(), 1);
        assert_eq!((v.position.y - 2).abs(), 1);
        assert_eq!((v.position.z - 2).abs(), 1);
        assert!(v.tex_coords.0 <= 1 && v.tex_coords.1 <= 1);
    }
}

#[test]
fn an_empty_block_contributes_zero_vertices() {
    // Whatever surrounds it: solid blocks, empty blocks or the boundary.
    let mut pattern = vec![true; 27];
    pattern[13] = false;
    pattern[0] = false;
    let chunk = Chunk::new(3, &pattern).unwrap();
    assert_eq!(block_vertices(&chunk, 13), zeros(24));
    assert_eq!(block_vertices(&chunk, 0), zeros(24));
    let chunk = Chunk::new(3, &vec![false; 27]).unwrap();
    assert_eq!(chunk.vertices().to_vec(), zeros(27 * 24));
}

#[test]
fn a_face_is_hidden_exactly_by_a_solid_neighbor() {
    // Block 13 with solid neighbors across +x (14) and -z (4) only.
    let chunk = Chunk::new(3, &only(27, &[4, 13, 14])).unwrap();
    let got = block_vertices(&chunk, 13);
    let full = cube(2, 2, 2);
    assert_eq!(got[0..4], full[0..4]);
    assert_eq!(got[4..8], zeros(4)[..]);
    assert_eq!(got[8..12], zeros(4)[..]);
    assert_eq!(got[12..16], full[12..16]);
    assert_eq!(got[16..20], full[16..20]);
    assert_eq!(got[20..24], full[20..24]);
    // And the neighbors hide their faces toward block 13.
    let right = block_vertices(&chunk, 14);
    assert_eq!(right[12..16], zeros(4)[..]);
    assert_eq!(right[8..12], cube(4, 2, 2)[8..12]);
    let below = block_vertices(&chunk, 4);
    assert_eq!(below[0..4], zeros(4)[..]);
    assert_eq!(below[4..8], cube(2, 2, 0)[4..8]);
}

#[test]
fn culling_is_the_same_along_every_axis() {
    // Two solid blocks side by side along each axis in turn.
    for (a, b, slot_a, slot_b) in [(0usize, 1usize, 2usize, 3usize), (0, 2, 4, 5), (0, 4, 0, 1)] {
        let chunk = Chunk::new(2, &only(8, &[a, b])).unwrap();
        let va = block_vertices(&chunk, a);
        let vb = block_vertices(&chunk, b);
        for slot in 0..6 {
            let hidden_a = va[4 * slot..4 * slot + 4] == zeros(4)[..];
            let hidden_b = vb[4 * slot..4 * slot + 4] == zeros(4)[..];
            assert_eq!(hidden_a, slot == slot_a);
            assert_eq!(hidden_b, slot == slot_b);
        }
    }
}

#[test]
fn a_boundary_face_is_drawn_among_solid_neighbors() {
    // Every block is solid. Block 0 has no neighbor across -x, -y and -z.
    let chunk = Chunk::new(3, &vec![true; 27]).unwrap();
    let got = block_vertices(&chunk, 0);
    let full = cube(0, 0, 0);
    assert_eq!(got[0..4], zeros(4)[..]);
    assert_eq!(got[4..8], full[4..8]);
    assert_eq!(got[8..12], zeros(4)[..]);
    assert_eq!(got[12..16], full[12..16]);
    assert_eq!(got[16..20], zeros(4)[..]);
    assert_eq!(got[20..24], full[20..24]);
    // Block 14 is the middle of the +x side: only its +x face is drawn.
    let got = block_vertices(&chunk, 14);
    let full = cube(4, 2, 2);
    assert_eq!(got[8..12], full[8..12]);
    assert_eq!(got[0..8], zeros(8)[..]);
    assert_eq!(got[12..24], zeros(12)[..]);
}

#[test]
fn a_row_end_does_not_hide_the_next_row_start() {
    // Blocks 2 and 3 follow each other in the array but are not neighbors.
    let chunk = Chunk::new(3, &only(27, &[2, 3])).unwrap();
    assert_eq!(block_vertices(&chunk, 2), cube(4, 0, 0));
    assert_eq!(block_vertices(&chunk, 3), cube(0, 2, 0));
}

#[test]
fn index_buffer_does_not_depend_on_the_pattern() {
    let full = Chunk::new(2, &[true; 8]).unwrap();
    let empty = Chunk::new(2, &[false; 8]).unwrap();
    assert_eq!(full.indices(), empty.indices());
    let mut want: Vec<u16> = Vec::new();
    for n in 0..8u16 {
        for slot in 0..6u16 {
            let base = n * 24 + slot * 4;
            want.extend_from_slice(&[base, base + 1, base + 2, base + 2, base + 3, base]);
        }
    }
    assert_eq!(full.indices().to_vec(), want);
    let mut by_block: Vec<u16> = Vec::new();
    for n in 0..8u16 {
        by_block.extend_from_slice(&Block::as_indices(n));
    }
    assert_eq!(full.indices().to_vec(), by_block);
}

#[test]
fn every_index_refers_to_a_vertex_of_its_own_block() {
    let chunk = Chunk::new(3, &vec![true; 27]).unwrap();
    for (j, i) in chunk.indices().iter().enumerate() {
        assert_eq!((*i as usize) / 24, j / 36);
        assert!((*i as usize) < chunk.vertices().len());
    }
}

#[test]
fn a_rebuild_moves_the_solid_flags_farthest_first() {
    let mut chunk = Chunk::new(2, &only(8, &[0])).unwrap();
    // Cell 0 is the nearest, cell 7 the farthest.
    chunk.update_graphics(&[0, 10, 20, 30, 40, 50, 60, 70]);
    assert_eq!(solidity(&chunk), only(8, &[7]));
    for (i, b) in chunk.blocks().iter().enumerate() {
        assert_eq!(b.block_num as usize, i);
    }
    assert_eq!(block_vertices(&chunk, 7), cube(2, 2, 2));
    assert_eq!(chunk.vertices()[0..7 * 24], zeros(7 * 24)[..]);
    // The same distances again: the flag in cell 7 is now the farthest.
    chunk.update_graphics(&[0, 10, 20, 30, 40, 50, 60, 70]);
    assert_eq!(solidity(&chunk), only(8, &[0]));
    assert_eq!(block_vertices(&chunk, 0), cube(0, 0, 0));
}

#[test]
fn a_rebuild_of_blocks_already_in_order_changes_nothing() {
    let pattern = only(27, &[0, 5, 13, 14, 22]);
    let mut chunk = Chunk::new(3, &pattern).unwrap();
    let vertices = chunk.vertices().to_vec();
    let indices = chunk.indices().to_vec();
    let keys: Vec<u32> = (0..27u32).map(|n| 100 - n).collect();
    chunk.update_graphics(&keys);
    assert_eq!(solidity(&chunk), pattern);
    assert_eq!(chunk.vertices().to_vec(), vertices);
    assert_eq!(chunk.indices().to_vec(), indices);
}

#[test]
fn rebuilds_with_an_unchanged_pattern_give_identical_buffers() {
    // Every block is solid, so no reordering changes the pattern.
    let mut chunk = Chunk::new(3, &vec![true; 27]).unwrap();
    let keys: Vec<u32> = (0..27u32).map(|n| (n * 17) % 29).collect();
    chunk.update_graphics(&keys);
    let vertices = chunk.vertices().to_vec();
    let indices = chunk.indices().to_vec();
    chunk.update_graphics(&keys);
    assert_eq!(chunk.vertices().to_vec(), vertices);
    assert_eq!(chunk.indices().to_vec(), indices);
    // Equal distances keep every block in place, whatever the pattern.
    let mut chunk = Chunk::new(3, &only(27, &[1, 9, 20])).unwrap();
    chunk.update_graphics(&[6; 27]);
    let vertices = chunk.vertices().to_vec();
    let indices = chunk.indices().to_vec();
    chunk.update_graphics(&[6; 27]);
    assert_eq!(chunk.vertices().to_vec(), vertices);
    assert_eq!(chunk.indices().to_vec(), indices);
    assert_eq!(solidity(&chunk), only(27, &[1, 9, 20]));
}

#[test]
fn one_solid_block_seen_from_far_along_z() {
    // A chunk of side 2 with only the block at (0, 0, 0) solid.
    let mut chunk = Chunk::new(2, &only(8, &[0])).unwrap();
    // The viewer stands far away on the z axis of the chunk's anchor. At that
    // distance the blocks of one layer are all equally far in single precision.
    let viewer: (f32, f32, f32) = (0.0, 0.0, 1.0e6);
    let mut keys: Vec<u32> = Vec::new();
    for n in 0..8u16 {
        let p = Block::calc_rel_pos(n, 2);
        let (dx, dy, dz) = (p.x as f32 - viewer.0, p.y as f32 - viewer.1, p.z as f32 - viewer.2);
        keys.push((dx * dx + dy * dy + dz * dz).to_bits());
    }
    assert!(keys[0] == keys[3] && keys[4] == keys[7] && keys[0] > keys[4]);
    chunk.update_graphics(&keys);

    let vertices = chunk.vertices();
    assert_eq!(vertices.len(), 8 * 24);
    assert_eq!(vertices.iter().filter(|v| !v.is_zero()).count(), 24);
    // The cube is centered at the chunk's anchor.
    assert_eq!(vertices[0..24].to_vec(), cube(0, 0, 0));
    assert_eq!(vertices[24..].to_vec(), zeros(7 * 24));
    assert_eq!(vertices[0], vertex(-1, -1, 1, 1, 1));
    assert_eq!(vertices[23], vertex(1, -1, -1, 0, 1));
    assert_eq!(chunk.indices().len(), 8 * 36);
    assert_eq!(chunk.indices().len(), 288);
}

#[test]
fn one_solid_block_is_drawn_once_wherever_the_viewer_is() {
    for seed in 0..20u32 {
        let mut chunk = Chunk::new(2, &only(8, &[3])).unwrap();
        let keys: Vec<u32> = (0..8u32).map(|n| (n * 2654435761u32.wrapping_mul(seed + 1)) >> 7).collect();
        chunk.update_graphics(&keys);
        assert_eq!(chunk.vertices().iter().filter(|v| !v.is_zero()).count(), 24);
        assert_eq!(solidity(&chunk).iter().filter(|s| **s).count(), 1);
        assert_eq!(chunk.indices().len(), 288);
    }
}
