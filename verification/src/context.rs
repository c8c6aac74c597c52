//! The decode-once, sample-many context: a palette and the grid decoded
//! against it, built once at startup and handed by reference to whatever
//! triggers a new pick. Replaces hidden global state with an explicit value.

use vstd::prelude::*;
use crate::image::{load_image_cells, png_frame_of, decode_outcome, DecodeError, PixelGrid};
use crate::palette::{PaletteColor, PaletteTable};
use crate::sample::{pick_pixel, selection_matches, EmptyGridError, Selection};

verus! {

/// A palette together with the grid that was decoded against it.
pub struct PickerContext {
    table: PaletteTable,
    grid: PixelGrid,
}

impl PickerContext {
    /// The palette entries the context carries.
    pub closed spec fn colors(&self) -> Seq<PaletteColor> {
        self.table.colors_seq()
    }

    /// The decoded grid the context carries.
    pub closed spec fn grid_spec(&self) -> PixelGrid {
        self.grid
    }

    /// Well-formedness: the palette is well-formed and every grid cell is a
    /// valid index into it.
    pub closed spec fn wf(&self) -> bool {
        &&& self.table.wf()
        &&& self.grid.wf(self.table.colors_seq())
    }

    /// Decodes the image bytes against the given palette and, on success,
    /// binds the two together for later picks.
    pub fn new(table: PaletteTable, bytes: &[u8]) -> (r: Result<PickerContext, DecodeError>)
        requires
            table.wf(),
            table.colors_seq().len() <= 256,
        ensures
            match r {
                Ok(ctx) => {
                    &&& ctx.wf()
                    &&& ctx.colors() == table.colors_seq()
                    &&& match png_frame_of(bytes@) {
                        Some(m) => decode_outcome(
                            m.0 as int,
                            m.1 as int,
                            m.2 as int,
                            m.3 as int,
                            m.4,
                            table.colors_seq(),
                            Ok(ctx.grid_spec()),
                        ),
                        None => false,
                    }
                },
                Err(e) => match png_frame_of(bytes@) {
                    None => e == DecodeError::MalformedImage,
                    Some(m) => decode_outcome(
                        m.0 as int,
                        m.1 as int,
                        m.2 as int,
                        m.3 as int,
                        m.4,
                        table.colors_seq(),
                        Err(e),
                    ),
                },
            },
    {
        match load_image_cells(bytes, &table) {
            Ok(grid) => Ok(PickerContext { table, grid }),
            Err(e) => Err(e),
        }
    }

    /// The grid's pixel width.
    pub fn width(&self) -> (w: usize)
        ensures
            w == self.grid_spec().width,
    {
        self.grid.width
    }

    /// The grid's pixel height.
    pub fn height(&self) -> (h: usize)
        ensures
            h == self.grid_spec().height,
    {
        self.grid.height
    }

    /// How many cells the grid has.
    pub fn cell_count(&self) -> (n: usize)
        ensures
            n == self.grid_spec().cells@.len(),
    {
        self.grid.cells.len()
    }

    /// The decoded grid.
    pub fn grid(&self) -> (g: &PixelGrid)
        ensures
            *g == self.grid_spec(),
    {
        &self.grid
    }

    /// The palette index stored at a flat grid index.
    pub fn cell_at(&self, flat_index: usize) -> (c: u8)
        requires
            flat_index < self.grid_spec().cells@.len(),
        ensures
            c == self.grid_spec().cells@[flat_index as int],
    {
        self.grid.cells[flat_index]
    }

    /// The palette entry at a given palette index.
    pub fn color_at(&self, i: usize) -> (c: &PaletteColor)
        requires
            i < self.colors().len(),
        ensures
            *c == self.colors()[i as int],
    {
        self.table.color_at(i)
    }

    /// Picks one cell at random from flat indices `[1, cells.len())` against
    /// the context's own palette; fails when the grid has fewer than two
    /// cells.
    pub fn pick(&self, offset_x: usize, offset_y: usize) -> (r: Result<Selection, EmptyGridError>)
        requires
            self.wf(),
            offset_x + self.grid_spec().width <= usize::MAX,
            offset_y + (self.grid_spec().cells@.len() as int) / (self.grid_spec().height as int)
                <= usize::MAX,
        ensures
            match r {
                Ok(sel) => {
                    &&& self.grid_spec().cells@.len() >= 2
                    &&& 1 <= sel.flat_index < self.grid_spec().cells@.len()
                    &&& selection_matches(
                        &self.grid_spec(),
                        self.colors(),
                        sel.flat_index as int,
                        offset_x as int,
                        offset_y as int,
                        sel,
                    )
                },
                Err(e) => self.grid_spec().cells@.len() < 2 && e == EmptyGridError,
            },
    {
        pick_pixel(&self.grid, &self.table, offset_x, offset_y)
    }
}

} // verus!
