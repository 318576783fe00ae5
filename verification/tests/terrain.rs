use noise::{NoiseFn, Perlin};
use terrain_gen::block::{release_block, Block};
use terrain_gen::column::generate_flat_column;
use terrain_gen::heightmap::assemble_heightmap;

/// One elevation sample per row, as the host computes them: the noise field
/// at `((x + i) * 0.05, (z + i) * 0.05)` mapped into a byte. Both axes move
/// with the row index, so one sample serves a whole row.
fn sample_rows(x: i32, z: i32) -> Vec<u8> {
    let scale = 0.05;
    let perlin = Perlin::new(Perlin::DEFAULT_SEED);
    let mut rows: Vec<u8> = Vec::with_capacity(16);
    for i in 0..16i32 {
        let x_coord = (x as f64 + i as f64) * scale;
        let z_coord = (z as f64 + i as f64) * scale;
        let v = perlin.get([x_coord, z_coord]);
        rows.push(((v + 1.0) * 65.0 + 50.0) as u8);
    }
    rows
}

fn generate_heightmap(x: i32, z: i32) -> Block {
    assemble_heightmap(&sample_rows(x, z))
}

#[test]
fn heightmap_block_has_256_bytes() {
    let b = generate_heightmap(3, -7);
    assert_eq!(b.len(), 256);
}

#[test]
fn flat_column_block_has_16384_bytes() {
    let b = generate_flat_column(0, 0);
    assert_eq!(b.len(), 16384);
}

#[test]
fn heightmap_is_deterministic() {
    let a = generate_heightmap(12, 34);
    let b = generate_heightmap(12, 34);
    assert_eq!(a.len(), b.len());
    for k in 0..a.len() {
        assert_eq!(a.byte_at(k), b.byte_at(k));
    }
}

#[test]
fn heightmap_rows_are_laid_out_row_major() {
    let mut rows: Vec<u8> = Vec::new();
    for i in 0..16u8 {
        rows.push(100 + i);
    }
    let b = assemble_heightmap(&rows);
    for i in 0..16usize {
        for j in 0..16usize {
            assert_eq!(b.byte_at(i * 16 + j), 100 + i as u8);
        }
    }
}

#[test]
fn column_layering_holds_everywhere() {
    let b = generate_flat_column(-5, 99);
    for y in 0..64usize {
        let expected: u8 = match y {
            0 => 3,
            1..=3 => 2,
            4 => 1,
            _ => 0,
        };
        for z in 0..16usize {
            for x in 0..16usize {
                let k: usize = ((y * 16) + z) * 16 + x;
                assert_eq!(b.byte_at(k), expected);
            }
        }
    }
}

#[test]
fn flat_column_boundary_cells() {
    let b = generate_flat_column(0, 0);
    let bedrock_cell: usize = ((0 * 16) + 5) * 16 + 5;
    assert_eq!(b.byte_at(bedrock_cell), 3);
    let air_cell: usize = ((10 * 16) + 5) * 16 + 5;
    assert_eq!(b.byte_at(air_cell), 0);
}

#[test]
fn heightmap_values_stay_in_transform_range() {
    let b = generate_heightmap(0, 0);
    for k in 0..b.len() {
        let v = b.byte_at(k);
        assert!((50..=180).contains(&v));
    }
}

#[test]
fn heightmap_handles_extreme_coordinates() {
    for &(x, z) in &[
        (i32::MIN, i32::MIN),
        (i32::MIN, i32::MAX),
        (i32::MAX, i32::MIN),
        (i32::MAX, i32::MAX),
        (-1, 1),
    ] {
        let b = generate_heightmap(x, z);
        assert_eq!(b.len(), 256);
    }
}

#[test]
fn release_accepts_generated_blocks_with_their_length() {
    let h = generate_heightmap(7, 7);
    let h_len = h.len();
    release_block(Some(h), h_len);

    let c = generate_flat_column(7, 7);
    let c_len = c.len();
    release_block(Some(c), c_len);
}

#[test]
fn release_of_nothing_is_a_no_op() {
    release_block(None, 0);
    release_block(None, 16384);
}
