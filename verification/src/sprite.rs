//! What drawing a sprite does to the pixel grid, and the steps by which a
//! draw that goes bit by bit arrives there.

use vstd::prelude::*;

use crate::globals::{CHIP8_SCREEN_HEIGHT, CHIP8_SCREEN_WIDTH};
use crate::memory::read_at;
use crate::render_table::{cell_index, TOTAL_RENDER_TABLE_SIZE};

verus! {

/// Whether bit `column` of a sprite row is set, counting from the most
/// significant bit, which is the leftmost pixel.
pub open spec fn sprite_bit(row: u8, column: int) -> bool {
    0 <= column < 8 && row & (0x80u8 >> (column as u8)) != 0
}

/// Whether the sprite of `rows` rows stored at `index`, drawn with its top
/// left corner at `(ox, oy)` and wrapped around the edges of the grid, has a
/// set bit on the cell numbered `cell`.
pub open spec fn sprite_covers(
    memory: Seq<u8>,
    index: int,
    rows: int,
    ox: int,
    oy: int,
    cell: int,
) -> bool {
    let column = (cell % (CHIP8_SCREEN_WIDTH as int) - ox) % (CHIP8_SCREEN_WIDTH as int);
    let row = (cell / (CHIP8_SCREEN_WIDTH as int) - oy) % (CHIP8_SCREEN_HEIGHT as int);
    row < rows && sprite_bit(read_at(memory, index + row), column)
}

/// The grid after the sprite was drawn: every cell under a set bit of the
/// sprite is inverted, every other cell is left as it was.
pub open spec fn draw_sprite(
    screen: Seq<bool>,
    memory: Seq<u8>,
    index: int,
    rows: int,
    ox: int,
    oy: int,
) -> Seq<bool> {
    Seq::new(
        screen.len(),
        |cell: int| screen[cell] != sprite_covers(memory, index, rows, ox, oy, cell),
    )
}

/// Whether drawing the sprite switches a lit cell off.
pub open spec fn sprite_collides(
    screen: Seq<bool>,
    memory: Seq<u8>,
    index: int,
    rows: int,
    ox: int,
    oy: int,
) -> bool {
    exists|cell: int|
        0 <= cell < screen.len() && screen[cell] && #[trigger] sprite_covers(
            memory,
            index,
            rows,
            ox,
            oy,
            cell,
        )
}

/// The cell on which the sprite's bit at `(row, column)` lands.
pub(crate) open spec fn target_cell(ox: int, oy: int, row: int, column: int) -> int {
    cell_index(
        (ox + column) % (CHIP8_SCREEN_WIDTH as int),
        (oy + row) % (CHIP8_SCREEN_HEIGHT as int),
    )
}

/// Whether the sprite has a set bit on `cell` among the bits drawn so far:
/// those of the rows before `row_limit`, and of row `row_limit` those before
/// `column_limit`.
pub(crate) open spec fn covers_before(
    memory: Seq<u8>,
    index: int,
    ox: int,
    oy: int,
    row_limit: int,
    column_limit: int,
    cell: int,
) -> bool {
    let column = (cell % (CHIP8_SCREEN_WIDTH as int) - ox) % (CHIP8_SCREEN_WIDTH as int);
    let row = (cell / (CHIP8_SCREEN_WIDTH as int) - oy) % (CHIP8_SCREEN_HEIGHT as int);
    (row < row_limit || (row == row_limit && column < column_limit)) && sprite_bit(
        read_at(memory, index + row),
        column,
    )
}

/// Whether one of the bits drawn so far landed on a cell that was lit.
pub(crate) open spec fn collides_before(
    screen: Seq<bool>,
    memory: Seq<u8>,
    index: int,
    ox: int,
    oy: int,
    row_limit: int,
    column_limit: int,
) -> bool {
    exists|cell: int|
        0 <= cell < screen.len() && screen[cell] && #[trigger] covers_before(
            memory,
            index,
            ox,
            oy,
            row_limit,
            column_limit,
            cell,
        )
}

/// The grid after the bits drawn so far.
pub(crate) open spec fn drawn_before(
    screen: Seq<bool>,
    memory: Seq<u8>,
    index: int,
    ox: int,
    oy: int,
    row_limit: int,
    column_limit: int,
) -> Seq<bool> {
    Seq::new(
        screen.len(),
        |cell: int|
            screen[cell] != covers_before(memory, index, ox, oy, row_limit, column_limit, cell),
    )
}

/// On an axis of 64 cells, the cell that lies `offset` past `origin` is the
/// only one from which `origin` is `offset` cells back.
proof fn lemma_wrap_column(origin: int, offset: int, c: int)
    requires
        0 <= origin < 0x100,
        0 <= offset < 64,
        0 <= c < 64,
    ensures
        ((c - origin) % 64 == offset) == (c == (origin + offset) % 64),
{
}

/// On an axis of 32 cells, the cell that lies `offset` past `origin` is the
/// only one from which `origin` is `offset` cells back.
proof fn lemma_wrap_row(origin: int, offset: int, c: int)
    requires
        0 <= origin < 0x100,
        0 <= offset < 32,
        0 <= c < 32,
    ensures
        ((c - origin) % 32 == offset) == (c == (origin + offset) % 32),
{
}

/// Drawing one more bit of the sprite adds its target cell, where the bit is
/// set, to the cells covered so far, and no other cell.
proof fn lemma_cover_step(
    memory: Seq<u8>,
    index: int,
    ox: int,
    oy: int,
    row: int,
    column: int,
    cell: int,
)
    requires
        0 <= ox < 0x100,
        0 <= oy < 0x100,
        0 <= row < CHIP8_SCREEN_HEIGHT,
        0 <= column < 8,
        0 <= cell < TOTAL_RENDER_TABLE_SIZE,
    ensures
        covers_before(memory, index, ox, oy, row, column + 1, cell) == (covers_before(
            memory,
            index,
            ox,
            oy,
            row,
            column,
            cell,
        ) || (cell == target_cell(ox, oy, row, column) && sprite_bit(
            read_at(memory, index + row),
            column,
        ))),
        cell == target_cell(ox, oy, row, column) ==> !covers_before(
            memory,
            index,
            ox,
            oy,
            row,
            column,
            cell,
        ),
{
    let cx = cell % 64;
    let cy = cell / 64;
    let tx = (ox + column) % 64;
    let ty = (oy + row) % 32;
    lemma_wrap_column(ox, column, cx);
    lemma_wrap_row(oy, row, cy);
    assert((cell == ty * 64 + tx) == (cx == tx && cy == ty));
    assert((cell == target_cell(ox, oy, row, column)) == ((cx - ox) % 64 == column && (cy - oy)
        % 32 == row));
}

/// The sprite's bit at `(row, column)` lands on a cell of the grid, and the
/// sprite covers that cell exactly where the bit is set and the row is one
/// of its rows.
pub(crate) proof fn lemma_target_covered(
    memory: Seq<u8>,
    index: int,
    rows: int,
    ox: int,
    oy: int,
    row: int,
    column: int,
)
    requires
        0 <= ox < 0x100,
        0 <= oy < 0x100,
        0 <= row < CHIP8_SCREEN_HEIGHT,
        0 <= column < 8,
    ensures
        0 <= target_cell(ox, oy, row, column) < TOTAL_RENDER_TABLE_SIZE,
        sprite_covers(memory, index, rows, ox, oy, target_cell(ox, oy, row, column)) == (row
            < rows && sprite_bit(read_at(memory, index + row), column)),
{
    let tx = (ox + column) % 64;
    let ty = (oy + row) % 32;
    let cell = target_cell(ox, oy, row, column);
    lemma_wrap_column(ox, column, tx);
    lemma_wrap_row(oy, row, ty);
    assert(cell == ty * 64 + tx);
    assert(cell % 64 == tx && cell / 64 == ty);
}

/// The effect of drawing the sprite's bit at `(row, column)` on the grid and
/// on the collision flag, given what the bits before it have done.
pub(crate) proof fn lemma_draw_bit(
    screen: Seq<bool>,
    memory: Seq<u8>,
    index: int,
    ox: int,
    oy: int,
    row: int,
    column: int,
)
    requires
        0 <= ox < 0x100,
        0 <= oy < 0x100,
        0 <= row < CHIP8_SCREEN_HEIGHT,
        0 <= column < 8,
        screen.len() == TOTAL_RENDER_TABLE_SIZE,
    ensures
        0 <= target_cell(ox, oy, row, column) < TOTAL_RENDER_TABLE_SIZE,
        drawn_before(screen, memory, index, ox, oy, row, column)[target_cell(
            ox,
            oy,
            row,
            column,
        )] == screen[target_cell(ox, oy, row, column)],
        drawn_before(screen, memory, index, ox, oy, row, column + 1) == if sprite_bit(
            read_at(memory, index + row),
            column,
        ) {
            drawn_before(screen, memory, index, ox, oy, row, column).update(
                target_cell(ox, oy, row, column),
                !screen[target_cell(ox, oy, row, column)],
            )
        } else {
            drawn_before(screen, memory, index, ox, oy, row, column)
        },
        collides_before(screen, memory, index, ox, oy, row, column + 1) == (collides_before(
            screen,
            memory,
            index,
            ox,
            oy,
            row,
            column,
        ) || (sprite_bit(read_at(memory, index + row), column) && screen[target_cell(
            ox,
            oy,
            row,
            column,
        )])),
{
    let target = target_cell(ox, oy, row, column);
    let bit = sprite_bit(read_at(memory, index + row), column);
    let current = drawn_before(screen, memory, index, ox, oy, row, column);
    let next = drawn_before(screen, memory, index, ox, oy, row, column + 1);
    assert forall|cell: int| 0 <= cell < TOTAL_RENDER_TABLE_SIZE implies (#[trigger] covers_before(
        memory,
        index,
        ox,
        oy,
        row,
        column + 1,
        cell,
    ) == (covers_before(memory, index, ox, oy, row, column, cell) || (cell == target && bit)))
        && (cell == target ==> !covers_before(memory, index, ox, oy, row, column, cell)) by {
        lemma_cover_step(memory, index, ox, oy, row, column, cell);
    }
    lemma_cover_step(memory, index, ox, oy, row, column, target);
    if bit {
        assert(next =~= current.update(target, !screen[target]));
    } else {
        assert(next =~= current);
    }
    let hit = collides_before(screen, memory, index, ox, oy, row, column);
    let hit_next = collides_before(screen, memory, index, ox, oy, row, column + 1);
    if hit {
        let cell = choose|cell: int|
            0 <= cell < screen.len() && screen[cell] && #[trigger] covers_before(
                memory,
                index,
                ox,
                oy,
                row,
                column,
                cell,
            );
        assert(covers_before(memory, index, ox, oy, row, column + 1, cell));
    }
    if bit && screen[target] {
        assert(covers_before(memory, index, ox, oy, row, column + 1, target));
    }
    if hit_next {
        let cell = choose|cell: int|
            0 <= cell < screen.len() && screen[cell] && #[trigger] covers_before(
                memory,
                index,
                ox,
                oy,
                row,
                column + 1,
                cell,
            );
        assert(covers_before(memory, index, ox, oy, row, column, cell) || (cell == target && bit));
    }
}

/// Once the eight bits of a row are drawn, the next row begins with the
/// same grid and the same collision flag.
pub(crate) proof fn lemma_draw_row(
    screen: Seq<bool>,
    memory: Seq<u8>,
    index: int,
    ox: int,
    oy: int,
    row: int,
)
    ensures
        drawn_before(screen, memory, index, ox, oy, row, 8) == drawn_before(
            screen,
            memory,
            index,
            ox,
            oy,
            row + 1,
            0,
        ),
        collides_before(screen, memory, index, ox, oy, row, 8) == collides_before(
            screen,
            memory,
            index,
            ox,
            oy,
            row + 1,
            0,
        ),
{
    assert forall|cell: int| #[trigger]
        covers_before(memory, index, ox, oy, row, 8, cell) == covers_before(
            memory,
            index,
            ox,
            oy,
            row + 1,
            0,
            cell,
        ) by {}
    assert(drawn_before(screen, memory, index, ox, oy, row, 8) =~= drawn_before(
        screen,
        memory,
        index,
        ox,
        oy,
        row + 1,
        0,
    ));
    if collides_before(screen, memory, index, ox, oy, row, 8) {
        let cell = choose|cell: int|
            0 <= cell < screen.len() && screen[cell] && #[trigger] covers_before(
                memory,
                index,
                ox,
                oy,
                row,
                8,
                cell,
            );
        assert(covers_before(memory, index, ox, oy, row + 1, 0, cell));
    }
    if collides_before(screen, memory, index, ox, oy, row + 1, 0) {
        let cell = choose|cell: int|
            0 <= cell < screen.len() && screen[cell] && #[trigger] covers_before(
                memory,
                index,
                ox,
                oy,
                row + 1,
                0,
                cell,
            );
        assert(covers_before(memory, index, ox, oy, row, 8, cell));
    }
}

/// Before the first bit of row `rows` the whole sprite of `rows` rows is
/// drawn.
pub(crate) proof fn lemma_draw_done(
    screen: Seq<bool>,
    memory: Seq<u8>,
    index: int,
    ox: int,
    oy: int,
    rows: int,
)
    ensures
        drawn_before(screen, memory, index, ox, oy, rows, 0) == draw_sprite(
            screen,
            memory,
            index,
            rows,
            ox,
            oy,
        ),
        collides_before(screen, memory, index, ox, oy, rows, 0) == sprite_collides(
            screen,
            memory,
            index,
            rows,
            ox,
            oy,
        ),
{
    assert forall|cell: int| #[trigger]
        covers_before(memory, index, ox, oy, rows, 0, cell) == sprite_covers(
            memory,
            index,
            rows,
            ox,
            oy,
            cell,
        ) by {}
    assert(drawn_before(screen, memory, index, ox, oy, rows, 0) =~= draw_sprite(
        screen,
        memory,
        index,
        rows,
        ox,
        oy,
    ));
    if collides_before(screen, memory, index, ox, oy, rows, 0) {
        let cell = choose|cell: int|
            0 <= cell < screen.len() && screen[cell] && #[trigger] covers_before(
                memory,
                index,
                ox,
                oy,
                rows,
                0,
                cell,
            );
        assert(sprite_covers(memory, index, rows, ox, oy, cell));
    }
    if sprite_collides(screen, memory, index, rows, ox, oy) {
        let cell = choose|cell: int|
            0 <= cell < screen.len() && screen[cell] && #[trigger] sprite_covers(
                memory,
                index,
                rows,
                ox,
                oy,
                cell,
            );
        assert(covers_before(memory, index, ox, oy, rows, 0, cell));
    }
}

} // verus!
