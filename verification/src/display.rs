//! Sprites on the 64 by 32 display: what drawing one means.
//!
//! A sprite is a sequence of bytes, one per row, the most significant bit
//! leftmost. Drawing places its top-left corner at a position and flips every
//! pixel under a set bit; columns wrap around at 64 and rows at 32.

use vstd::prelude::*;
use crate::state::{SCREEN_HEIGHT, SCREEN_PIXELS, SCREEN_WIDTH};

verus! {

/// Whether the bit of `bits` in place `place` is set, counting from the most
/// significant bit: place 0 is the bit worth 128, place 7 the bit worth 1.
pub open spec fn bit_from_left(bits: u8, place: u8) -> bool {
    if place == 0 {
        (bits / 128) % 2 == 1
    } else if place == 1 {
        (bits / 64) % 2 == 1
    } else if place == 2 {
        (bits / 32) % 2 == 1
    } else if place == 3 {
        (bits / 16) % 2 == 1
    } else if place == 4 {
        (bits / 8) % 2 == 1
    } else if place == 5 {
        (bits / 4) % 2 == 1
    } else if place == 6 {
        (bits / 2) % 2 == 1
    } else {
        place == 7 && bits % 2 == 1
    }
}

/// Whether a sprite row has a set bit in column `col`, column 0 being the
/// leftmost.
pub open spec fn sprite_bit(bits: u8, col: int) -> bool {
    0 <= col < 8 && bit_from_left(bits, col as u8)
}

/// Testing a row against the mask `0x80` shifted to a column tests the bit
/// in that column.
proof fn lemma_sprite_bit(bits: u8, col: u8)
    requires
        col < 8,
    ensures
        (bits & (0x80u8 >> col) != 0) == sprite_bit(bits, col as int),
{
    assert(col < 8 ==> ((bits & (0x80u8 >> col) != 0) <==> bit_from_left(bits, col)))
        by (bit_vector);
}

/// Whether the sprite, its corner at column `left` and row `top`, has a set
/// bit that lands on the pixel at column `px` and row `py`.
pub open spec fn sprite_covers(sprite: Seq<u8>, left: int, top: int, px: int, py: int) -> bool {
    let col = (px - left) % (SCREEN_WIDTH as int);
    let row = (py - top) % (SCREEN_HEIGHT as int);
    col < 8 && row < sprite.len() && sprite_bit(sprite[row], col)
}

/// Whether the sprite has a set bit landing on the pixel stored at `index`.
pub open spec fn sprite_covers_index(sprite: Seq<u8>, left: int, top: int, index: int) -> bool {
    sprite_covers(sprite, left, top, index % (SCREEN_WIDTH as int), index / (SCREEN_WIDTH as int))
}

/// The screen after the sprite has been drawn: each pixel under a set bit
/// is flipped, every other pixel is kept.
pub open spec fn blit(screen: Seq<bool>, sprite: Seq<u8>, left: int, top: int) -> Seq<bool> {
    Seq::new(
        SCREEN_PIXELS as nat,
        |index: int| screen[index] != sprite_covers_index(sprite, left, top, index),
    )
}

/// Whether drawing the sprite turns at least one lit pixel off.
pub open spec fn collides(screen: Seq<bool>, sprite: Seq<u8>, left: int, top: int) -> bool {
    exists|index: int|
        0 <= index < SCREEN_PIXELS && #[trigger] screen[index] && sprite_covers_index(
            sprite,
            left,
            top,
            index,
        )
}

/// The blank screen.
pub open spec fn blank_screen() -> Seq<bool> {
    Seq::new(SCREEN_PIXELS as nat, |index: int| false)
}

/// Where the pixel under bit `col` of sprite row `row` is stored.
pub open spec fn pixel_index(left: int, top: int, row: int, col: int) -> int {
    ((top + row) % (SCREEN_HEIGHT as int)) * (SCREEN_WIDTH as int) + (left + col) % (
    SCREEN_WIDTH as int)
}

/// The sprite column that lands on the pixel stored at `index`.
spec fn column_over(left: int, index: int) -> int {
    (index % (SCREEN_WIDTH as int) - left) % (SCREEN_WIDTH as int)
}

/// The sprite row that lands on the pixel stored at `index`.
spec fn row_over(top: int, index: int) -> int {
    (index / (SCREEN_WIDTH as int) - top) % (SCREEN_HEIGHT as int)
}

/// Whether the sprite has a set bit landing on the pixel stored at `index`
/// that comes before bit `col` of row `row`, going row by row.
spec fn covers_before(
    sprite: Seq<u8>,
    left: int,
    top: int,
    index: int,
    row: int,
    col: int,
) -> bool {
    &&& sprite_covers_index(sprite, left, top, index)
    &&& row_over(top, index) < row || (row_over(top, index) == row && column_over(left, index)
        < col)
}

/// The screen with the sprite bits before bit `col` of row `row` drawn.
spec fn blit_before(
    screen: Seq<bool>,
    sprite: Seq<u8>,
    left: int,
    top: int,
    row: int,
    col: int,
) -> Seq<bool> {
    Seq::new(
        SCREEN_PIXELS as nat,
        |index: int| screen[index] != covers_before(sprite, left, top, index, row, col),
    )
}

/// Whether one of the sprite bits before bit `col` of row `row` lands on a lit pixel.
spec fn collides_before(
    screen: Seq<bool>,
    sprite: Seq<u8>,
    left: int,
    top: int,
    row: int,
    col: int,
) -> bool {
    exists|index: int|
        0 <= index < SCREEN_PIXELS && #[trigger] screen[index] && covers_before(
            sprite,
            left,
            top,
            index,
            row,
            col,
        )
}

/// Each sprite bit lands on one pixel, and each pixel lies under one sprite
/// position.
proof fn lemma_pixel_index(left: int, top: int, row: int, col: int)
    requires
        0 <= left,
        0 <= top,
        0 <= row < SCREEN_HEIGHT,
        0 <= col < SCREEN_WIDTH,
    ensures
        0 <= pixel_index(left, top, row, col) < SCREEN_PIXELS,
        column_over(left, pixel_index(left, top, row, col)) == col,
        row_over(top, pixel_index(left, top, row, col)) == row,
        forall|index: int|
            0 <= index < SCREEN_PIXELS && row_over(top, index) == row && column_over(left, index)
                == col ==> index == pixel_index(left, top, row, col),
{
}

/// The `rows` bytes of `memory` from `start` on.
pub open spec fn sprite_in(memory: Seq<u8>, start: int, rows: int) -> Seq<u8> {
    Seq::new(rows as nat, |row: int| memory[start + row])
}

/// Draws the sprite held in `rows` bytes of `memory` from `start` on, its
/// corner at column `left` and row `top`. Returns whether a lit pixel was
/// turned off.
pub(crate) fn draw_sprite(
    screen: &mut [bool; 2048],
    memory: &[u8; 4096],
    start: usize,
    rows: usize,
    left: usize,
    top: usize,
) -> (collision: bool)
    requires
        rows > 0 ==> start + rows <= 4096,
        rows <= 32,
        left < 256,
        top < 256,
    ensures
        final(screen)@ == blit(
            old(screen)@,
            sprite_in(memory@, start as int, rows as int),
            left as int,
            top as int,
        ),
        collision == collides(
            old(screen)@,
            sprite_in(memory@, start as int, rows as int),
            left as int,
            top as int,
        ),
{
    let ghost before = screen@;
    let ghost sprite = sprite_in(memory@, start as int, rows as int);
    let mut collision = false;
    let mut row: usize = 0;
    while row < rows
        invariant
            row <= rows <= 32,
            rows > 0 ==> start + rows <= 4096,
            left < 256,
            top < 256,
            sprite == sprite_in(memory@, start as int, rows as int),
            screen@ == blit_before(before, sprite, left as int, top as int, row as int, 0),
            collision == collides_before(before, sprite, left as int, top as int, row as int, 0),
        decreases rows - row,
    {
        let bits = memory[start + row];
        let mut col: usize = 0;
        while col < 8
            invariant
                col <= 8,
                row < rows <= 32,
                left < 256,
                top < 256,
                bits == sprite[row as int],
                sprite.len() == rows,
                screen@ == blit_before(
                    before,
                    sprite,
                    left as int,
                    top as int,
                    row as int,
                    col as int,
                ),
                collision == collides_before(
                    before,
                    sprite,
                    left as int,
                    top as int,
                    row as int,
                    col as int,
                ),
            decreases 8 - col,
        {
            let index = ((top + row) % 32) * 64 + (left + col) % 64;
            proof {
                lemma_pixel_index(left as int, top as int, row as int, col as int);
                lemma_sprite_bit(bits, col as u8);
            }
            if bits & (0x80u8 >> (col as u8)) != 0 {
                if screen[index] {
                    collision = true;
                }
                screen[index] = !screen[index];
            }
            proof {
                lemma_collides_before_step(
                    before,
                    sprite,
                    left as int,
                    top as int,
                    row as int,
                    col as int,
                );
            }
            col = col + 1;
        }
        row = row + 1;
    }
    collision
}

/// Taking one more sprite bit into account adds the collision at its pixel,
/// if there is one, and no other.
proof fn lemma_collides_before_step(
    screen: Seq<bool>,
    sprite: Seq<u8>,
    left: int,
    top: int,
    row: int,
    col: int,
)
    requires
        0 <= left,
        0 <= top,
        0 <= row < SCREEN_HEIGHT,
        0 <= col < SCREEN_WIDTH,
    ensures
        collides_before(screen, sprite, left, top, row, col + 1) <==> (collides_before(
            screen,
            sprite,
            left,
            top,
            row,
            col,
        ) || (screen[pixel_index(left, top, row, col)] && sprite_covers_index(
            sprite,
            left,
            top,
            pixel_index(left, top, row, col),
        ))),
{
    lemma_pixel_index(left, top, row, col);
    let here = pixel_index(left, top, row, col);
    if collides_before(screen, sprite, left, top, row, col) {
        let index = choose|index: int|
            0 <= index < SCREEN_PIXELS && #[trigger] screen[index] && covers_before(
                sprite,
                left,
                top,
                index,
                row,
                col,
            );
        assert(covers_before(sprite, left, top, index, row, col + 1));
    }
    if screen[here] && sprite_covers_index(sprite, left, top, here) {
        assert(covers_before(sprite, left, top, here, row, col + 1));
    }
    if collides_before(screen, sprite, left, top, row, col + 1) {
        let index = choose|index: int|
            0 <= index < SCREEN_PIXELS && #[trigger] screen[index] && covers_before(
                sprite,
                left,
                top,
                index,
                row,
                col + 1,
            );
        if index != here {
            assert(covers_before(sprite, left, top, index, row, col));
        }
    }
}

} // verus!
