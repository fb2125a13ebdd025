use vstd::prelude::*;

use crate::globals::{CHIP8_SCREEN_HEIGHT, CHIP8_SCREEN_WIDTH};

verus! {

/// Number of cells of the pixel grid.
pub const TOTAL_RENDER_TABLE_SIZE: usize = 2048;

/// The two states a cell of the pixel grid can be in.
#[derive(Clone, Copy, Debug, PartialEq, Eq, Structural)]
pub enum PixelState {
    SwitchedOn,
    SwitchedOff,
}

/// Whether `(x, y)` names a cell of the grid.
pub open spec fn on_screen(x: int, y: int) -> bool {
    0 <= x < CHIP8_SCREEN_WIDTH && 0 <= y < CHIP8_SCREEN_HEIGHT
}

/// Position of the cell `(x, y)` in the row-major sequence of cells.
pub open spec fn cell_index(x: int, y: int) -> int {
    y * CHIP8_SCREEN_WIDTH + x
}

/// Whether the cell `(x, y)` is lit. Coordinates off the grid name no cell
/// and read as unlit.
pub open spec fn pixel_at(cells: Seq<bool>, x: int, y: int) -> bool {
    on_screen(x, y) && cells[cell_index(x, y)]
}

/// The grid after the cell `(x, y)` was set to `lit`; unchanged where the
/// coordinates are off the grid.
pub open spec fn with_pixel(cells: Seq<bool>, x: int, y: int, lit: bool) -> Seq<bool> {
    if on_screen(x, y) {
        cells.update(cell_index(x, y), lit)
    } else {
        cells
    }
}

/// The grid with every cell unlit.
pub open spec fn blank_screen() -> Seq<bool> {
    Seq::new(TOTAL_RENDER_TABLE_SIZE as nat, |i: int| false)
}

/// Computes the position of an on-grid cell in the row-major storage.
fn cell_offset(x: u8, y: u8) -> (offset: usize)
    requires
        on_screen(x as int, y as int),
    ensures
        offset == cell_index(x as int, y as int),
        offset < TOTAL_RENDER_TABLE_SIZE,
{
    y as usize * CHIP8_SCREEN_WIDTH as usize + x as usize
}

/// The 64 by 32 monochrome pixel grid, stored row by row.
pub struct RenderTable {
    render_table: [bool; 2048],
}

impl View for RenderTable {
    type V = Seq<bool>;

    closed spec fn view(&self) -> Seq<bool> {
        self.render_table@
    }
}

impl RenderTable {
    /// The view of every grid has one entry per cell.
    pub proof fn lemma_size(&self)
        ensures
            self@.len() == TOTAL_RENDER_TABLE_SIZE,
    {
    }

    /// A grid with every cell unlit.
    pub fn new() -> (table: RenderTable)
        ensures
            table@ == blank_screen(),
    {
        RenderTable { render_table: [false; 2048] }
    }

    /// Whether the cell `(x, y)` is lit; `false` for coordinates off the grid.
    pub fn is_pixel_switched_on(&self, x: u8, y: u8) -> (lit: bool)
        ensures
            lit == pixel_at(self@, x as int, y as int),
    {
        if x >= CHIP8_SCREEN_WIDTH || y >= CHIP8_SCREEN_HEIGHT {
            return false;
        }
        self.render_table[cell_offset(x, y)]
    }

    /// Sets the cell `(x, y)` to `new_state`. Coordinates off the grid are
    /// ignored.
    pub fn change_pixel_state_to(&mut self, x: u8, y: u8, new_state: PixelState)
        ensures
            final(self)@ == with_pixel(
                old(self)@,
                x as int,
                y as int,
                new_state == PixelState::SwitchedOn,
            ),
    {
        if x >= CHIP8_SCREEN_WIDTH || y >= CHIP8_SCREEN_HEIGHT {
            return ;
        }
        let state: bool = new_state == PixelState::SwitchedOn;
        self.render_table[cell_offset(x, y)] = state;
    }

    /// Switches every cell off.
    pub fn clear(&mut self)
        ensures
            final(self)@ == blank_screen(),
    {
        let mut y: u8 = 0;
        while y < CHIP8_SCREEN_HEIGHT
            invariant
                y <= CHIP8_SCREEN_HEIGHT,
                self@.len() == TOTAL_RENDER_TABLE_SIZE,
                forall|i: int| 0 <= i < cell_index(0, y as int) ==> !self@[i],
            decreases CHIP8_SCREEN_HEIGHT - y,
        {
            let mut x: u8 = 0;
            while x < CHIP8_SCREEN_WIDTH
                invariant
                    y < CHIP8_SCREEN_HEIGHT,
                    x <= CHIP8_SCREEN_WIDTH,
                    self@.len() == TOTAL_RENDER_TABLE_SIZE,
                    forall|i: int| 0 <= i < cell_index(x as int, y as int) ==> !self@[i],
                decreases CHIP8_SCREEN_WIDTH - x,
            {
                self.render_table[cell_offset(x, y)] = false;
                x += 1;
            }
            y += 1;
        }
    }
}

} // verus!
