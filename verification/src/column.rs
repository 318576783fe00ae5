use vstd::prelude::*;

use crate::block::Block;

verus! {

/// Grid width of a block, in cells.
pub const WIDTH: usize = 16;

/// Grid depth of a block, in cells.
pub const DEPTH: usize = 16;

/// Vertical extent of a column block, in levels.
pub const HEIGHT: usize = 64;

/// Byte count of a column block: width * depth * height.
pub const COLUMN_LEN: usize = 16384;

/// Material identifier for air.
pub const AIR: u8 = 0;

/// Material identifier for grass.
pub const GRASS: u8 = 1;

/// Material identifier for dirt.
pub const DIRT: u8 = 2;

/// Material identifier for bedrock.
pub const BEDROCK: u8 = 3;

/// The material assigned to vertical level `y`: bedrock at the bottom, three
/// levels of dirt, one of grass, and air above.
pub open spec fn material_for_level(y: int) -> u8 {
    if y == 0 {
        BEDROCK
    } else if 1 <= y <= 3 {
        DIRT
    } else if y == 4 {
        GRASS
    } else {
        AIR
    }
}

/// Position of cell `(x, y, z)` in the flat layout of a column block.
pub open spec fn flat_index(x: int, y: int, z: int) -> int {
    ((y * DEPTH) + z) * WIDTH + x
}

/// The contents of every column block: the layering depends on the vertical
/// level alone, so the block is one fixed byte sequence.
pub open spec fn column_spec() -> Seq<u8> {
    Seq::new(COLUMN_LEN as nat, |k: int| material_for_level(k / ((WIDTH * DEPTH) as int)))
}

/// Produces the column block for coordinate `(x, z)`. The layering is
/// coordinate-independent; the coordinate is accepted for symmetry with the
/// heightmap generator.
pub fn generate_flat_column(x: i32, z: i32) -> (b: Block)
    ensures
        b@ == column_spec(),
        b@.len() == COLUMN_LEN,
{
    let mut data: Vec<u8> = Vec::with_capacity(COLUMN_LEN);
    for y in 0..HEIGHT
        invariant
            data@.len() == y * WIDTH * DEPTH,
            forall|k: int|
                0 <= k < data@.len() ==> data@[k] == material_for_level(k / ((WIDTH * DEPTH) as int)),
    {
        for z_pos in 0..DEPTH
            invariant
                0 <= y < HEIGHT,
                data@.len() == y * WIDTH * DEPTH + z_pos * WIDTH,
                forall|k: int|
                    0 <= k < data@.len() ==> data@[k] == material_for_level(
                        k / ((WIDTH * DEPTH) as int),
                    ),
        {
            for x_pos in 0..WIDTH
                invariant
                    0 <= y < HEIGHT,
                    0 <= z_pos < DEPTH,
                    data@.len() == y * WIDTH * DEPTH + z_pos * WIDTH + x_pos,
                    forall|k: int|
                        0 <= k < data@.len() ==> data@[k] == material_for_level(
                            k / ((WIDTH * DEPTH) as int),
                        ),
            {
                let level_material: u8 = if y == 0 {
                    BEDROCK
                } else if y <= 3 {
                    DIRT
                } else if y == 4 {
                    GRASS
                } else {
                    AIR
                };
                proof {
                    let k = data@.len() as int;
                    assert(k / ((WIDTH * DEPTH) as int) == y) by (nonlinear_arith)
                        requires
                            k == y * WIDTH * DEPTH + z_pos * WIDTH + x_pos,
                            0 <= z_pos < DEPTH,
                            0 <= x_pos < WIDTH,
                            0 <= y,
                            WIDTH == 16,
                            DEPTH == 16,
                    ;
                }
                data.push(level_material);
            }
        }
    }
    proof {
        assert(data@ =~= column_spec());
    }
    Block::from_bytes(data)
}

/// Layering invariant: in a column block, the byte at the flat index of any
/// in-range cell `(x, y, z)` is the material of its vertical level -- bedrock
/// at level 0, dirt at levels 1 through 3, grass at level 4, air above.
pub proof fn lemma_column_layering(b: Block, x: int, y: int, z: int)
    requires
        b@ == column_spec(),
        0 <= x < WIDTH,
        0 <= y < HEIGHT,
        0 <= z < DEPTH,
    ensures
        0 <= flat_index(x, y, z) < b@.len(),
        b@[flat_index(x, y, z)] == material_for_level(y),
        y == 0 ==> b@[flat_index(x, y, z)] == BEDROCK,
        1 <= y <= 3 ==> b@[flat_index(x, y, z)] == DIRT,
        y == 4 ==> b@[flat_index(x, y, z)] == GRASS,
        y >= 5 ==> b@[flat_index(x, y, z)] == AIR,
{
    let k = flat_index(x, y, z);
    assert(0 <= k < COLUMN_LEN && k / ((WIDTH * DEPTH) as int) == y) by (nonlinear_arith)
        requires
            k == ((y * DEPTH) + z) * WIDTH + x,
            0 <= x < WIDTH,
            0 <= z < DEPTH,
            0 <= y < HEIGHT,
            WIDTH == 16,
            DEPTH == 16,
            HEIGHT == 64,
            COLUMN_LEN == 16384,
    ;
}

} // verus!
