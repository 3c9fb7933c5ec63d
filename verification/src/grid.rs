//! The square grid the cube instances are laid out on: rows along z, each
//! row running along x.

use vstd::prelude::*;

verus! {

/// Number of instances along each side of the grid.
pub const INSTANCES_PER_ROW: u32 = 200;

/// A cell of the grid.
#[derive(Debug, Clone, Copy, PartialEq, Eq, Structural)]
pub struct GridCell {
    pub x: u32,
    pub z: u32,
}

/// The cells of a `per_row` x `per_row` grid, row by row: cell
/// `z * per_row + x` is `(x, z)`.
pub fn grid_cells(per_row: u32) -> (cells: Vec<GridCell>)
    requires
        per_row as int * per_row as int <= usize::MAX,
    ensures
        cells@.len() == per_row as int * per_row as int,
        forall|z: int, x: int| 0 <= z < per_row && 0 <= x < per_row
            ==> #[trigger] cells@[z * per_row + x] == (GridCell { x: x as u32, z: z as u32 }),
{
    let n = per_row as usize;
    let mut cells: Vec<GridCell> = Vec::new();
    let mut z: u32 = 0;
    while z < per_row
        invariant
            n == per_row,
            z <= per_row,
            per_row as int * per_row as int <= usize::MAX,
            cells@.len() == z as int * per_row as int,
            forall|zz: int, x: int| 0 <= zz < z && 0 <= x < per_row
                ==> #[trigger] cells@[zz * per_row + x] == (GridCell { x: x as u32, z: zz as u32 }),
        decreases per_row - z,
    {
        let ghost start = cells@.len();
        let ghost before = cells@;
        let mut x: u32 = 0;
        while x < per_row
            invariant
                n == per_row,
                z < per_row,
                x <= per_row,
                start == z as int * per_row as int,
                cells@.len() == start + x,
                cells@.subrange(0, start as int) == before,
                before.len() == start,
                forall|xx: int| 0 <= xx < x ==> #[trigger] cells@[start + xx] == (GridCell { x: xx as u32, z }),
            decreases per_row - x,
        {
            cells.push(GridCell { x, z });
            x = x + 1;
            assert(cells@.subrange(0, start as int) =~= before);
        }
        assert forall|zz: int, xx: int| 0 <= zz < z + 1 && 0 <= xx < per_row
            implies #[trigger] cells@[zz * per_row + xx] == (GridCell { x: xx as u32, z: zz as u32 }) by {
            if zz < z {
                assert(zz * per_row + xx < z * per_row) by (nonlinear_arith)
                    requires zz < z, xx < per_row, 0 <= zz, 0 <= xx;
                assert(cells@[zz * per_row + xx] == before[zz * per_row + xx]);
            } else {
                assert(zz * per_row + xx == start + xx);
            }
        }
        assert((z + 1) as int * per_row as int == z as int * per_row as int + per_row as int) by (nonlinear_arith);
        z = z + 1;
    }
    cells
}

} // verus!
