//! Picking one grid cell at random, excluding flat index 0, and turning the
//! flat index into 2-D coordinates plus the resolved palette color.
//!
//! The row coordinate is derived as `flat_index / height` — height, not
//! width. That asymmetry is this widget's defined behavior, stated literally
//! in the contracts below rather than smoothed over.

use vstd::prelude::*;
use rand::Rng;
use crate::image::PixelGrid;
use crate::palette::{PaletteColor, PaletteTable};

verus! {

/// Sampling was attempted on a grid with fewer than two cells, which leaves
/// no legal flat index once index 0 is excluded.
#[derive(Debug, Clone, Copy, PartialEq, Eq, Structural)]
pub struct EmptyGridError;

/// The result of one random pick: the drawn flat index, the derived
/// coordinates with any display offset added, and the resolved color.
#[derive(Debug)]
pub struct Selection {
    pub flat_index: usize,
    pub x: usize,
    pub y: usize,
    pub color: PaletteColor,
}

/// Exactly what a selection must hold for a drawn flat index: coordinates
/// `(flat % width + offset_x, flat / height + offset_y)` and the palette
/// entry the cell points at.
pub open spec fn selection_matches(
    grid: &PixelGrid,
    colors: Seq<PaletteColor>,
    flat: int,
    offset_x: int,
    offset_y: int,
    sel: Selection,
) -> bool {
    &&& sel.flat_index == flat
    &&& sel.x == flat % (grid.width as int) + offset_x
    &&& sel.y == flat / (grid.height as int) + offset_y
    &&& sel.color == colors[grid.cells@[flat] as int]
}

/// Relies on rand's `thread_rng` and `Rng::gen_range` over `1..len`: the
/// result lies inside the half-open range; `gen_range` panics only on an
/// empty range, which the precondition rules out.
#[verifier::external_body]
fn random_flat_index(len: usize) -> (r: usize)
    requires
        2 <= len,
    ensures
        1 <= r < len,
{
    rand::thread_rng().gen_range(1..len)
}

/// The deterministic part of a pick: for a given flat index, derives the
/// coordinates — literally `x = flat % width`, `y = flat / height` — adds
/// the display offsets, and resolves the cell's palette entry.
pub fn selection_at(
    grid: &PixelGrid,
    table: &PaletteTable,
    flat_index: usize,
    offset_x: usize,
    offset_y: usize,
) -> (sel: Selection)
    requires
        grid.wf(table.colors_seq()),
        1 <= flat_index < grid.cells@.len(),
        offset_x + grid.width <= usize::MAX,
        offset_y + (grid.cells@.len() as int) / (grid.height as int) <= usize::MAX,
    ensures
        selection_matches(
            grid,
            table.colors_seq(),
            flat_index as int,
            offset_x as int,
            offset_y as int,
            sel,
        ),
{
    proof {
        assert(grid.cells@.len() == grid.width * grid.height);
        assert(grid.width > 0 && grid.height > 0) by (nonlinear_arith)
            requires
                grid.width * grid.height > 0,
        ;
        assert((flat_index as int) / (grid.height as int) <= (grid.cells@.len() as int) / (
        grid.height as int)) by (nonlinear_arith)
            requires
                grid.height > 0,
                0 <= flat_index as int <= grid.cells@.len() as int,
        ;
    }
    let relative_x = flat_index % grid.width;
    let relative_y = flat_index / grid.height;
    let x = relative_x + offset_x;
    let y = relative_y + offset_y;
    let cell = grid.cells[flat_index];
    let color = table.color_at(cell as usize).clone();
    Selection { flat_index, x, y, color }
}

/// Picks one cell uniformly at random from flat indices `[1, len)` — index 0
/// is never chosen — and resolves it; fails when the grid has fewer than two
/// cells.
pub fn pick_pixel(
    grid: &PixelGrid,
    table: &PaletteTable,
    offset_x: usize,
    offset_y: usize,
) -> (r: Result<Selection, EmptyGridError>)
    requires
        grid.wf(table.colors_seq()),
        offset_x + grid.width <= usize::MAX,
        offset_y + (grid.cells@.len() as int) / (grid.height as int) <= usize::MAX,
    ensures
        match r {
            Ok(sel) => {
                &&& grid.cells@.len() >= 2
                &&& 1 <= sel.flat_index < grid.cells@.len()
                &&& selection_matches(
                    grid,
                    table.colors_seq(),
                    sel.flat_index as int,
                    offset_x as int,
                    offset_y as int,
                    sel,
                )
            },
            Err(e) => grid.cells@.len() < 2 && e == EmptyGridError,
        },
{
    if grid.cells.len() < 2 {
        return Err(EmptyGridError);
    }
    let flat_index = random_flat_index(grid.cells.len());
    Ok(selection_at(grid, table, flat_index, offset_x, offset_y))
}

} // verus!
