//! The cell-grid prototype's logic: a fixed 80-by-60 field of cells,
//! each alive or dead, re-rolled wholesale every frame, and the
//! arithmetic that places a cell on the window.

use vstd::prelude::*;

verus! {

use crate::rng::random_flip;

/// Cells per row: the window width over the cell side.
pub const NUM_COLS: u32 = 80;

/// Rows of cells: the window height over the cell side.
pub const NUM_ROWS: u32 = 60;

/// Cells on the whole field.
pub const NUM_SQUARES: u32 = 4800;

/// The field of cells, row-major; `true` is alive.
pub struct Grid {
    pub cell: Vec<bool>,
}

impl View for Grid {
    type V = Seq<bool>;

    open spec fn view(&self) -> Seq<bool> {
        self.cell@
    }
}

/// A grid always holds exactly one cell per square of the field.
pub open spec fn grid_wf(g: Seq<bool>) -> bool {
    g.len() == NUM_SQUARES
}

/// Roll a full field of random cells.
pub fn random_grid() -> (g: Grid)
    ensures
        grid_wf(g@),
{
    let mut cell: Vec<bool> = Vec::new();
    let mut i: u32 = 0;
    while i < NUM_SQUARES
        invariant
            i <= NUM_SQUARES,
            cell@.len() == i,
        decreases NUM_SQUARES - i,
    {
        cell.push(random_flip());
        i = i + 1;
    }
    Grid { cell }
}

/// Re-roll every cell of the field in place.
pub fn update_loop(game: &mut Grid)
    ensures
        final(game)@.len() == old(game)@.len(),
{
    let mut i: usize = 0;
    while i < game.cell.len()
        invariant
            i <= game.cell@.len(),
            game.cell@.len() == old(game).cell@.len(),
        decreases game.cell@.len() - i,
    {
        let alive = random_flip();
        game.cell[i] = alive;
        i = i + 1;
    }
}

/// The column a cell index falls in.
pub fn cell_col(i: u32) -> (c: u32)
    requires
        i < NUM_SQUARES,
    ensures
        c == i as int % 80,
        c < NUM_COLS,
{
    i % NUM_COLS
}

/// The row a cell index falls in.
pub fn cell_row(i: u32) -> (r: u32)
    requires
        i < NUM_SQUARES,
    ensures
        r == i as int / 80,
        r < NUM_ROWS,
{
    i / NUM_COLS
}

/// The window x of a cell's centre, in pixels: its column scaled to
/// cell widths, shifted to the left edge plus half a cell.
pub fn cell_draw_x(col: u32) -> (x: i32)
    requires
        col < NUM_COLS,
    ensures
        x == 8 * col - 316,
{
    -320 + (col as i32) * 8 + 4
}

/// The window y of a cell's centre, in pixels: its row scaled to
/// cell heights from the top edge, the vertical axis flipped.
pub fn cell_draw_y(row: u32) -> (y: i32)
    requires
        row < NUM_ROWS,
    ensures
        y == 236 - 8 * row,
{
    -(-240 + (row as i32) * 8 + 4)
}

} // verus!
