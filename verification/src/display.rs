use vstd::prelude::*;

verus! {

/// Pixels in one row of the screen.
pub const SCREEN_WIDTH: usize = 64;

/// Rows of the screen.
pub const SCREEN_HEIGHT: usize = 32;

/// Pixels of the screen, stored row after row.
pub const SCREEN_CELLS: usize = 2048;

/// Pixels in one row of a sprite.
pub const SPRITE_WIDTH: usize = 8;

/// The screen with every pixel off.
pub open spec fn blank() -> Seq<bool> {
    Seq::new(SCREEN_CELLS as nat, |cell: int| false)
}

/// The pixel in `column` of a sprite row; column 0 is the leftmost pixel and
/// the most significant bit. A row has the columns 0 to 7.
pub open spec fn sprite_bit(row: u8, column: int) -> bool {
    if column == 0 {
        row / 0x80 % 2 == 1
    } else if column == 1 {
        row / 0x40 % 2 == 1
    } else if column == 2 {
        row / 0x20 % 2 == 1
    } else if column == 3 {
        row / 0x10 % 2 == 1
    } else if column == 4 {
        row / 0x08 % 2 == 1
    } else if column == 5 {
        row / 0x04 % 2 == 1
    } else if column == 6 {
        row / 0x02 % 2 == 1
    } else if column == 7 {
        row % 2 == 1
    } else {
        false
    }
}

/// The sprite row that falls on the screen row of `cell` when the sprite's top
/// edge is at row `y0`.
pub open spec fn sprite_row(y0: int, cell: int) -> int {
    cell / 64 - y0
}

/// The sprite column that falls on the screen column of `cell` when the
/// sprite's left edge is at column `x0`; columns past the right edge of the
/// screen come back in at the left.
pub open spec fn sprite_column(x0: int, cell: int) -> int {
    (cell % 64 - x0) % 64
}

/// Whether the sprite, with its top left corner at column `x0` and row `y0`,
/// has a set pixel on `cell`. Rows below the bottom edge fall on no cell.
pub open spec fn sprite_covers(sprite: Seq<u8>, x0: int, y0: int, cell: int) -> bool {
    let row = sprite_row(y0, cell);
    let column = sprite_column(x0, cell);
    0 <= row < sprite.len() && column < 8 && sprite_bit(sprite[row], column)
}

/// The screen after the sprite has been drawn: each pixel that the sprite
/// covers is flipped, the others stay.
pub open spec fn drawn(display: Seq<bool>, sprite: Seq<u8>, x0: int, y0: int) -> Seq<bool> {
    Seq::new(display.len(), |cell: int| display[cell] != sprite_covers(sprite, x0, y0, cell))
}

/// Whether drawing the sprite turns a pixel off.
pub open spec fn collides(display: Seq<bool>, sprite: Seq<u8>, x0: int, y0: int) -> bool {
    exists|cell: int|
        0 <= cell < display.len() && display[cell] && #[trigger] sprite_covers(
            sprite,
            x0,
            y0,
            cell,
        )
}

/// Whether the sprite has a set pixel on `cell` in a sprite row above `row`, or
/// in `row` itself left of `column`: what has been drawn when the drawing has
/// come to that place.
spec fn covered_before(
    sprite: Seq<u8>,
    x0: int,
    y0: int,
    cell: int,
    row: int,
    column: int,
) -> bool {
    sprite_covers(sprite, x0, y0, cell) && (sprite_row(y0, cell) < row || (sprite_row(y0, cell)
        == row && sprite_column(x0, cell) < column))
}

/// The bit that a shift to the right brings to the low end is the quotient by
/// the bit's weight, modulo 2.
proof fn lemma_bit_is_quotient(v: u8)
    by (bit_vector)
    ensures
        (v >> 7u8) & 1 == v / 0x80 % 2,
        (v >> 6u8) & 1 == v / 0x40 % 2,
        (v >> 5u8) & 1 == v / 0x20 % 2,
        (v >> 4u8) & 1 == v / 0x10 % 2,
        (v >> 3u8) & 1 == v / 0x08 % 2,
        (v >> 2u8) & 1 == v / 0x04 % 2,
        (v >> 1u8) & 1 == v / 0x02 % 2,
        (v >> 0u8) & 1 == v % 2,
{
}

/// Reads one pixel of a sprite row.
fn pixel_of(row: u8, column: usize) -> (set: bool)
    requires
        column < 8,
    ensures
        set == sprite_bit(row, column as int),
    no_unwind
{
    let shift = 7 - column;
    proof {
        lemma_bit_is_quotient(row);
    }
    (row >> shift) & 1 == 1
}

/// Draws the sprite that stands in `memory` at `start`, `height` rows of eight
/// pixels, with its top left corner at column `x0` and row `y0`. Tells whether
/// a pixel was turned off.
pub(crate) fn draw_sprite(
    display: &mut [bool; 2048],
    memory: &[u8; 4096],
    start: usize,
    height: usize,
    x0: usize,
    y0: usize,
) -> (collision: bool)
    requires
        start + height <= 4096,
        x0 < 64,
        y0 < 32,
    ensures
        final(display)@ == drawn(
            old(display)@,
            memory@.subrange(start as int, start + height),
            x0 as int,
            y0 as int,
        ),
        collision == collides(
            old(display)@,
            memory@.subrange(start as int, start + height),
            x0 as int,
            y0 as int,
        ),
    no_unwind
{
    let ghost sprite = memory@.subrange(start as int, start + height);
    let ghost before = display@;
    let ghost mut witness: int = 0;
    let mut collision = false;
    let mut row: usize = 0;
    while row < height && y0 + row < 32
        invariant
            row <= height,
            y0 + row <= 32,
            start + height <= 4096,
            x0 < 64,
            y0 < 32,
            sprite == memory@.subrange(start as int, start + height),
            before.len() == 2048,
            forall|cell: int|
                0 <= cell < 2048 ==> display@[cell] == (before[cell] != covered_before(
                    sprite,
                    x0 as int,
                    y0 as int,
                    cell,
                    row as int,
                    0,
                )),
            collision ==> 0 <= witness < 2048 && before[witness] && sprite_covers(
                sprite,
                x0 as int,
                y0 as int,
                witness,
            ),
            !collision ==> forall|cell: int|
                0 <= cell < 2048 ==> !(before[cell] && covered_before(
                    sprite,
                    x0 as int,
                    y0 as int,
                    cell,
                    row as int,
                    0,
                )),
        decreases height - row,
    {
        let bits = memory[start + row];
        let mut column: usize = 0;
        while column < 8
            invariant
                column <= 8,
                row < height,
                y0 + row < 32,
                start + height <= 4096,
                x0 < 64,
                y0 < 32,
                sprite == memory@.subrange(start as int, start + height),
                bits == sprite[row as int],
                before.len() == 2048,
                forall|cell: int|
                    0 <= cell < 2048 ==> display@[cell] == (before[cell] != covered_before(
                        sprite,
                        x0 as int,
                        y0 as int,
                        cell,
                        row as int,
                        column as int,
                    )),
                collision ==> 0 <= witness < 2048 && before[witness] && sprite_covers(
                    sprite,
                    x0 as int,
                    y0 as int,
                    witness,
                ),
                !collision ==> forall|cell: int|
                    0 <= cell < 2048 ==> !(before[cell] && covered_before(
                        sprite,
                        x0 as int,
                        y0 as int,
                        cell,
                        row as int,
                        column as int,
                    )),
            decreases 8 - column,
        {
            let cell = (y0 + row) * 64 + (x0 + column) % 64;
            let set = pixel_of(bits, column);
            proof {
                assert(sprite_row(y0 as int, cell as int) == row);
                assert(sprite_column(x0 as int, cell as int) == column);
                assert forall|other: int| 0 <= other < 2048 && other != cell implies !(sprite_row(
                    y0 as int,
                    other,
                ) == row && sprite_column(x0 as int, other) == column) by {}
            }
            if set {
                if display[cell] {
                    collision = true;
                    proof {
                        witness = cell as int;
                    }
                }
                display[cell] = !display[cell];
            }
            column = column + 1;
        }
        row = row + 1;
    }
    proof {
        assert forall|cell: int| 0 <= cell < 2048 implies covered_before(
            sprite,
            x0 as int,
            y0 as int,
            cell,
            row as int,
            0,
        ) == sprite_covers(sprite, x0 as int, y0 as int, cell) by {}
        assert(display@ =~= drawn(before, sprite, x0 as int, y0 as int));
    }
    collision
}

} // verus!
