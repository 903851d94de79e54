use crate::pointer::{Pointer, HEIGHT, WIDTH};
use vstd::prelude::*;

verus! {

/// Number of cells of the grid.
pub const CELLS: usize = 2000;

/// Index of cell `(x, y)` in the row-major cell sequence.
pub open spec fn cell_index(x: int, y: int) -> int {
    y * WIDTH + x
}

/// The fixed `WIDTH` x `HEIGHT` program grid, one byte per cell, stored row
/// by row.
pub struct Grid {
    cells: [u8; CELLS],
}

impl View for Grid {
    type V = Seq<u8>;

    closed spec fn view(&self) -> Seq<u8> {
        self.cells@
    }
}

impl Grid {
    /// Number of cells: the grid always holds exactly one byte per cell.
    pub fn len(&self) -> (r: usize)
        ensures
            r == self@.len(),
            r == CELLS,
            CELLS == WIDTH * HEIGHT,
    {
        CELLS
    }

    /// A grid whose every cell holds `fill`.
    pub fn filled(fill: u8) -> (g: Grid)
        ensures
            g@ == Seq::new(CELLS as nat, |i: int| fill),
    {
        let cells = [fill; CELLS];
        assert(cells@ =~= Seq::new(CELLS as nat, |i: int| fill));
        Grid { cells }
    }

    /// A grid from its cells in row-major order, or `None` unless there are
    /// exactly `CELLS` of them.
    pub fn from_cells(cells: Vec<u8>) -> (r: Option<Grid>)
        ensures
            cells@.len() == CELLS <==> r is Some,
            r matches Some(g) ==> g@ == cells@,
    {
        if cells.len() != CELLS {
            return None;
        }
        let mut grid = Grid::filled(0);
        let mut i: usize = 0;
        while i < CELLS
            invariant
                cells@.len() == CELLS,
                i <= CELLS,
                grid@.len() == CELLS,
                forall|k: int| 0 <= k < i ==> grid@[k] == cells@[k],
            decreases CELLS - i,
        {
            grid.cells[i] = cells[i];
            i = i + 1;
        }
        assert(grid@ =~= cells@);
        Some(grid)
    }

    /// The byte at `pointer`, which must name a cell.
    pub fn get(&self, pointer: &Pointer) -> (r: u8)
        requires
            pointer.in_grid(),
        ensures
            r == self@[cell_index(pointer.x as int, pointer.y as int)],
    {
        self.cells[pointer.y * WIDTH + pointer.x]
    }

    /// Writes `value` at `pointer`. A position outside the grid is ignored,
    /// as reading there gives zero rather than an error.
    pub fn put(&mut self, pointer: &Pointer, value: u8)
        ensures
            pointer.in_grid() ==> final(self)@ == old(self)@.update(
                cell_index(pointer.x as int, pointer.y as int),
                value,
            ),
            !pointer.in_grid() ==> final(self)@ == old(self)@,
    {
        if pointer.x < WIDTH && pointer.y < HEIGHT {
            self.cells[pointer.y * WIDTH + pointer.x] = value;
        }
    }
}

} // verus!
