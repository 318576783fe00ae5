use vstd::prelude::*;

use crate::block::Block;
use crate::column::{DEPTH, WIDTH};

verus! {

/// Byte count of a heightmap block: width * depth.
pub const HEIGHTMAP_LEN: usize = 256;

/// The contents of a heightmap block assembled from one elevation sample per
/// row: row-major, every cell of row `i` holding sample `i`. Both axes of the
/// sample position advance with the row index, so a row never varies across
/// its cells and the block is a diagonal slice of the sampled field.
pub open spec fn heightmap_spec(row_samples: Seq<u8>) -> Seq<u8> {
    Seq::new(HEIGHTMAP_LEN as nat, |k: int| row_samples[k / (DEPTH as int)])
}

/// Lays one elevation sample per row out as a full heightmap block: a
/// width * depth grid in row-major order, every cell of row `i` equal to
/// `row_samples[i]`. The block is determined by the samples alone.
pub fn assemble_heightmap(row_samples: &Vec<u8>) -> (b: Block)
    requires
        row_samples@.len() == WIDTH,
    ensures
        b@ == heightmap_spec(row_samples@),
        b@.len() == HEIGHTMAP_LEN,
{
    let mut data: Vec<u8> = Vec::with_capacity(HEIGHTMAP_LEN);
    for i in 0..WIDTH
        invariant
            row_samples@.len() == WIDTH,
            data@.len() == i * DEPTH,
            forall|k: int|
                0 <= k < data@.len() ==> data@[k] == row_samples@[k / (DEPTH as int)],
    {
        for j in 0..DEPTH
            invariant
                0 <= i < WIDTH,
                row_samples@.len() == WIDTH,
                data@.len() == i * DEPTH + j,
                forall|k: int|
                    0 <= k < data@.len() ==> data@[k] == row_samples@[k / (DEPTH as int)],
        {
            let h = row_samples[i];
            proof {
                let k = data@.len() as int;
                assert(k / (DEPTH as int) == i) by (nonlinear_arith)
                    requires
                        k == i * DEPTH + j,
                        0 <= j < DEPTH,
                        0 <= i,
                        DEPTH == 16,
                ;
            }
            data.push(h);
        }
    }
    proof {
        assert(data@ =~= heightmap_spec(row_samples@));
    }
    Block::from_bytes(data)
}

/// Row-major layout: in an assembled heightmap block, the cell at row `i`,
/// column `j` holds the row's sample.
pub proof fn lemma_heightmap_cell(b: Block, row_samples: Seq<u8>, i: int, j: int)
    requires
        row_samples.len() == WIDTH,
        b@ == heightmap_spec(row_samples),
        0 <= i < WIDTH,
        0 <= j < DEPTH,
    ensures
        0 <= i * DEPTH + j < b@.len(),
        b@[i * DEPTH + j] == row_samples[i],
{
    let k = i * DEPTH + j;
    assert(0 <= k < HEIGHTMAP_LEN && k / (DEPTH as int) == i) by (nonlinear_arith)
        requires
            k == i * DEPTH + j,
            0 <= i < WIDTH,
            0 <= j < DEPTH,
            WIDTH == 16,
            DEPTH == 16,
            HEIGHTMAP_LEN == 256,
    ;
}

/// Determinism of assembly: two heightmap blocks laid out from identical
/// sample rows hold identical bytes.
pub proof fn lemma_heightmap_deterministic(a: Block, b: Block, row_samples: Seq<u8>)
    requires
        a@ == heightmap_spec(row_samples),
        b@ == heightmap_spec(row_samples),
    ensures
        a@ == b@,
{
}

/// Every byte of an assembled heightmap block lies in whatever bounds hold of
/// the sample row it was drawn from.
pub proof fn lemma_heightmap_range(b: Block, row_samples: Seq<u8>, lo: u8, hi: u8)
    requires
        row_samples.len() == WIDTH,
        b@ == heightmap_spec(row_samples),
        forall|i: int| 0 <= i < row_samples.len() ==> lo <= #[trigger] row_samples[i] <= hi,
    ensures
        forall|k: int| 0 <= k < b@.len() ==> lo <= #[trigger] b@[k] <= hi,
{
    assert forall|k: int| 0 <= k < b@.len() implies lo <= #[trigger] b@[k] <= hi by {
        let i = k / (DEPTH as int);
        assert(0 <= i < WIDTH) by (nonlinear_arith)
            requires
                0 <= k < 256,
                i == k / 16,
                DEPTH == 16,
                WIDTH == 16,
        ;
    }
}

} // verus!
