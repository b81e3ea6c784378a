//! The sample-point lattice: the integer grid positions that the point
//! generator scales by its spacing and perturbs.
//!
//! The generator walks columns `1..count_width` and, within each column,
//! rows `1..count_height`; the border column `0` and row `0` are left out.
//! [`lattice_indices`] reproduces that walk and pins down both the count
//! and the exact position of every lattice point.

use vstd::prelude::*;

verus! {

use vstd::arithmetic::div_mod::lemma_fundamental_div_mod_converse;

/// The lattice of grid positions `(col, row)` with `1 <= col <
/// count_width` and `1 <= row < count_height`, columns outermost, exactly
/// as the point generator visits them.
pub fn lattice_indices(count_width: usize, count_height: usize) -> (out: Vec<(usize, usize)>)
    ensures
        count_width >= 1 && count_height >= 1 ==> out@.len() == (count_width - 1) * (count_height
            - 1),
        count_width < 1 || count_height < 1 ==> out@.len() == 0,
        forall|k: int|
            0 <= k < out@.len() ==> (#[trigger] out@[k]).0 == k / (count_height - 1) + 1
                && out@[k].1 == k % (count_height - 1) + 1,
{
    let mut out: Vec<(usize, usize)> = Vec::new();
    if count_width < 1 || count_height < 1 {
        return out;
    }
    let rows: usize = count_height - 1;
    let mut col: usize = 1;
    while col < count_width
        invariant
            rows == count_height - 1,
            count_height >= 1,
            1 <= col <= count_width || (count_width < 1 && col == 1),
            count_width >= 1 ==> col <= count_width,
            out@.len() == (col - 1) * rows,
            forall|k: int|
                0 <= k < out@.len() ==> (#[trigger] out@[k]).0 == k / (rows as int) + 1
                    && out@[k].1 == k % (rows as int) + 1,
        decreases count_width - col,
    {
        let mut row: usize = 1;
        while row < count_height
            invariant
                rows == count_height - 1,
                1 <= col < count_width,
                1 <= row,
                count_height >= 1 ==> row <= count_height,
                out@.len() == (col - 1) * rows + (row - 1),
                forall|k: int|
                    0 <= k < out@.len() ==> (#[trigger] out@[k]).0 == k / (rows as int) + 1
                        && out@[k].1 == k % (rows as int) + 1,
            decreases count_height - row,
        {
            out.push((col, row));
            proof {
                let k = out@.len() - 1;
                lemma_fundamental_div_mod_converse(k, rows as int, col - 1, row - 1);
            }
            row = row + 1;
        }
        proof {
            assert((col - 1) * rows + rows == ((col - 1) + 1) * rows) by (nonlinear_arith);
        }
        col = col + 1;
    }
    out
}

} // verus!
