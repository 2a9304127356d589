//! Drawing sprites.
//!
//! A sprite is a run of up to fifteen bytes in memory. Each byte is one row
//! of eight pixels, the most significant bit leftmost. Drawing XORs the
//! sprite into the display:
//!
//! * The sprite's top left corner is the pixel in column `vx % 64` of row
//!   `vy % 32`: coordinates beyond the display wrap around.
//! * Rows that would lie below the last row of the display are not drawn.
//! * Within a row the eight pixels follow each other in the linear order of
//!   the display, which wraps at its end: a row that starts less than eight
//!   pixels before the right edge continues at the left edge of the row below,
//!   and from the last row at the start of the first.

use vstd::prelude::*;
use crate::display::{bit_of, wrap_pixel, DISPLAY_HEIGHT, DISPLAY_WIDTH, TOTAL_PIXELS};
use crate::machine::{Emulator, Machine, FLAG_REGISTER};
use crate::memory::byte_at;

verus! {

/// The largest number of rows of a sprite.
pub const MAX_SPRITE_ROWS: usize = 15;

/// The `rows` bytes of the sprite that memory `memory` holds at `idx`.
pub open spec fn sprite_at(memory: Seq<u8>, idx: u16, rows: int) -> Seq<u8> {
    Seq::new(rows as nat, |r: int| byte_at(memory, idx + r))
}

/// The index of the pixel at which a sprite drawn at `(vx, vy)` starts.
pub open spec fn sprite_origin(vx: u8, vy: u8) -> int {
    (vy as int % (DISPLAY_HEIGHT as int)) * DISPLAY_WIDTH + vx as int % (DISPLAY_WIDTH as int)
}

/// How many rows of a sprite of `rows` rows, drawn from row `vy` on, lie on
/// the display.
pub open spec fn visible_rows(vy: u8, rows: int) -> int {
    let room: int = DISPLAY_HEIGHT - vy as int % (DISPLAY_HEIGHT as int);
    if rows <= room {
        rows
    } else {
        room
    }
}

/// How far pixel `p` lies behind the pixel `origin` in the linear order of
/// the display.
pub open spec fn offset_from(origin: int, p: int) -> int {
    wrap_pixel(p - origin)
}

/// Whether the first `rows` rows of `sprite`, drawn from `origin` on, have a
/// set bit on pixel `p`.
pub open spec fn sprite_covers(sprite: Seq<u8>, rows: int, origin: int, p: int) -> bool {
    let d: int = offset_from(origin, p);
    let row: int = d / (DISPLAY_WIDTH as int);
    let column: int = d % (DISPLAY_WIDTH as int);
    row < rows && column < 8 && bit_of(sprite[row], (7 - column) as u8)
}

/// The display after the first `rows` rows of `sprite` were XORed into it
/// from `origin` on.
pub open spec fn with_sprite(pixels: Seq<bool>, sprite: Seq<u8>, rows: int, origin: int) -> Seq<
    bool,
> {
    Seq::new(TOTAL_PIXELS as nat, |p: int| pixels[p] != sprite_covers(sprite, rows, origin, p))
}

/// Whether drawing the first `rows` rows of `sprite` from `origin` on erases
/// a pixel: some pixel that is lit lies under a set bit of the sprite.
pub open spec fn sprite_erases(pixels: Seq<bool>, sprite: Seq<u8>, rows: int, origin: int) -> bool {
    exists|p: int|
        0 <= p < TOTAL_PIXELS && pixels[p] && #[trigger] sprite_covers(sprite, rows, origin, p)
}

/// The machine after the sprite of `n` rows at the index register was drawn
/// at the coordinates that registers `x` and `y` hold: the display holds the
/// sprite XORed in, and the flag register is 1 where that erased a pixel and
/// 0 where it did not.
pub open spec fn sprite_drawn(m: Machine, x: int, y: int, n: int) -> Machine {
    let sprite: Seq<u8> = sprite_at(m.memory, m.idx, n);
    let origin: int = sprite_origin(m.registers[x], m.registers[y]);
    let rows: int = visible_rows(m.registers[y], n);
    Machine {
        pixels: with_sprite(m.pixels, sprite, rows, origin),
        registers: m.registers.update(
            FLAG_REGISTER as int,
            if sprite_erases(m.pixels, sprite, rows, origin) {
                1u8
            } else {
                0u8
            },
        ),
        ..m
    }
}

/// Drawing the same sprite twice at the same place restores the display.
pub proof fn lemma_sprite_twice(pixels: Seq<bool>, sprite: Seq<u8>, rows: int, origin: int)
    requires
        pixels.len() == TOTAL_PIXELS,
    ensures
        with_sprite(with_sprite(pixels, sprite, rows, origin), sprite, rows, origin) == pixels,
{
    assert(with_sprite(with_sprite(pixels, sprite, rows, origin), sprite, rows, origin)
        =~= pixels);
}

/// Whether one sprite row `byte`, drawn from pixel `start` on, has a set bit
/// on pixel `p`. Only the first `columns` columns of the row count.
spec fn row_covers(byte: u8, columns: int, start: int, p: int) -> bool {
    let d: int = offset_from(start, p);
    d < columns && d < 8 && bit_of(byte, (7 - d) as u8)
}

/// Whether XORing the first `columns` columns of the sprite row `byte` into
/// `pixels` from pixel `start` on erases a pixel.
spec fn row_erases(pixels: Seq<bool>, byte: u8, columns: int, start: int) -> bool {
    exists|p: int|
        0 <= p < TOTAL_PIXELS && pixels[p] && #[trigger] row_covers(byte, columns, start, p)
}

/// The next column of a row covers exactly one more pixel, the one that it is
/// drawn on, and covers it where its bit is set.
proof fn lemma_next_column(byte: u8, column: int, start: int, p: int)
    requires
        0 <= column < 8,
        0 <= start < TOTAL_PIXELS,
        0 <= p < TOTAL_PIXELS,
    ensures
        row_covers(byte, column + 1, start, p) == if p == wrap_pixel(start + column) {
            bit_of(byte, (7 - column) as u8)
        } else {
            row_covers(byte, column, start, p)
        },
        p == wrap_pixel(start + column) ==> !row_covers(byte, column, start, p),
{
}

/// The next row of a sprite covers pixels that no earlier row covers, and
/// with it the sprite covers what it covered before and what the row covers.
proof fn lemma_next_row(sprite: Seq<u8>, row: int, origin: int, p: int)
    requires
        0 <= row < DISPLAY_HEIGHT,
        0 <= origin < TOTAL_PIXELS,
        origin + DISPLAY_WIDTH * row < TOTAL_PIXELS,
        0 <= p < TOTAL_PIXELS,
    ensures
        sprite_covers(sprite, row + 1, origin, p) == (sprite_covers(sprite, row, origin, p)
            || row_covers(sprite[row], 8, origin + DISPLAY_WIDTH * row, p)),
        !(sprite_covers(sprite, row, origin, p) && row_covers(
            sprite[row],
            8,
            origin + DISPLAY_WIDTH * row,
            p,
        )),
{
    let d: int = offset_from(origin, p);
    let e: int = offset_from(origin + DISPLAY_WIDTH * row, p);
    assert(e == wrap_pixel(d - 64 * row));
    if d / 64 == row {
        assert(e == d % 64);
    } else if e < 8 {
        assert(d == 64 * row + e);
    }
}

/// Reads the `n` bytes of the sprite at the index register.
fn read_sprite(emu: &Emulator, n: u8) -> (sprite: [u8; 15])
    requires
        n <= MAX_SPRITE_ROWS,
    ensures
        forall|r: int| 0 <= r < n ==> sprite@[r] == sprite_at(emu@.memory, emu@.idx, n as int)[r],
{
    let mut sprite: [u8; 15] = [0u8; 15];
    let mut i: u8 = 0;
    while i < n
        invariant
            i <= n <= MAX_SPRITE_ROWS,
            forall|r: int|
                0 <= r < i ==> sprite@[r] == sprite_at(emu@.memory, emu@.idx, n as int)[r],
        decreases n - i,
    {
        sprite[i as usize] = emu.getWord(emu.idx.wrapping_add(i as u16));
        i += 1;
    }
    sprite
}

/// XORs the eight pixels of one sprite row into the display, from pixel
/// `start` on. Tells whether that erased a pixel.
fn draw_row(emu: &mut Emulator, byte: u8, start: u16) -> (erased: bool)
    requires
        start < TOTAL_PIXELS,
    ensures
        final(emu)@ == (Machine {
            pixels: Seq::new(
                TOTAL_PIXELS as nat,
                |p: int| old(emu)@.pixels[p] != row_covers(byte, 8, start as int, p),
            ),
            ..old(emu)@
        }),
        erased == row_erases(old(emu)@.pixels, byte, 8, start as int),
{
    let ghost before: Seq<bool> = emu@.pixels;
    let mut erased: bool = false;
    let mut o: u8 = 0;
    while o < 8
        invariant
            o <= 8,
            start < TOTAL_PIXELS,
            before == old(emu)@.pixels,
            emu@ == (Machine { pixels: emu@.pixels, ..old(emu)@ }),
            forall|p: int|
                0 <= p < TOTAL_PIXELS ==> emu@.pixels[p] == (before[p] != row_covers(
                    byte,
                    o as int,
                    start as int,
                    p,
                )),
            erased == row_erases(before, byte, o as int, start as int),
        decreases 8 - o,
    {
        assert((byte >> ((7 - o) as u8)) & 1 <= 1) by (bit_vector);
        let bit: u8 = (byte >> (7 - o)) & 0x1;
        let ghost target: int = wrap_pixel(start + o);
        let hit: u8 = emu.writePixel(start + o as u16, bit);
        proof {
            assert(bit_of(byte, (7 - o) as u8) == (bit % 2 == 1));
            assert forall|p: int| 0 <= p < TOTAL_PIXELS implies emu@.pixels[p] == (before[p]
                != row_covers(byte, o + 1, start as int, p)) by {
                lemma_next_column(byte, o as int, start as int, p);
            }
            lemma_next_column(byte, o as int, start as int, target);
            if row_erases(before, byte, o + 1, start as int) {
                let p: int = choose|p: int|
                    0 <= p < TOTAL_PIXELS && before[p] && #[trigger] row_covers(
                        byte,
                        o + 1,
                        start as int,
                        p,
                    );
                lemma_next_column(byte, o as int, start as int, p);
                if p != target {
                    assert(row_covers(byte, o as int, start as int, p));
                }
            }
            if row_erases(before, byte, o as int, start as int) {
                let p: int = choose|p: int|
                    0 <= p < TOTAL_PIXELS && before[p] && #[trigger] row_covers(
                        byte,
                        o as int,
                        start as int,
                        p,
                    );
                lemma_next_column(byte, o as int, start as int, p);
                assert(row_covers(byte, o + 1, start as int, p));
            }
            if hit == 1 {
                assert(before[target] && row_covers(byte, o + 1, start as int, target));
            }
        }
        if hit == 1 {
            erased = true;
        }
        o += 1;
    }
    assert(emu@.pixels =~= Seq::new(
        TOTAL_PIXELS as nat,
        |p: int| before[p] != row_covers(byte, 8, start as int, p),
    ));
    erased
}

/// Draws the sprite of `n` rows at the index register at the coordinates that
/// registers `x` and `y` hold, and sets the flag register.
pub(crate) fn draw_sprite(emu: &mut Emulator, x: usize, y: usize, n: u8)
    requires
        x < 16,
        y < 16,
        n <= MAX_SPRITE_ROWS,
    ensures
        final(emu)@ == sprite_drawn(old(emu)@, x as int, y as int, n as int),
{
    let ghost before: Machine = emu@;
    let ghost shape: Seq<u8> = sprite_at(before.memory, before.idx, n as int);
    let ghost origin: int = sprite_origin(before.registers[x as int], before.registers[y as int]);
    let ghost rows: int = visible_rows(before.registers[y as int], n as int);
    let sprite: [u8; 15] = read_sprite(emu, n);
    let vx: u16 = (emu.reg[x] % 64) as u16;
    let vy: u16 = (emu.reg[y] % 32) as u16;
    let mut px: u16 = vx + vy * 64;
    let mut flag: u8 = 0;
    let mut s: u8 = 0;
    while s < n && px < TOTAL_PIXELS
        invariant
            s <= rows <= n <= MAX_SPRITE_ROWS,
            rows <= DISPLAY_HEIGHT,
            x < 16,
            y < 16,
            origin == sprite_origin(before.registers[x as int], before.registers[y as int]),
            rows == visible_rows(before.registers[y as int], n as int),
            px == origin + 64 * s,
            before.pixels.len() == TOTAL_PIXELS,
            shape.len() == n,
            forall|r: int| 0 <= r < n ==> sprite@[r] == shape[r],
            emu@ == (Machine { pixels: emu@.pixels, ..before }),
            forall|p: int|
                0 <= p < TOTAL_PIXELS ==> emu@.pixels[p] == (before.pixels[p] != sprite_covers(
                    shape,
                    s as int,
                    origin,
                    p,
                )),
            flag == if sprite_erases(before.pixels, shape, s as int, origin) {
                1u8
            } else {
                0u8
            },
        decreases n - s,
    {
        let ghost canvas: Seq<bool> = emu@.pixels;
        let byte: u8 = sprite[s as usize];
        let erased: bool = draw_row(emu, byte, px);
        proof {
            assert forall|p: int| 0 <= p < TOTAL_PIXELS implies emu@.pixels[p] == (before.pixels[p]
                != sprite_covers(shape, s + 1, origin, p)) by {
                lemma_next_row(shape, s as int, origin, p);
            }
            if row_erases(canvas, byte, 8, px as int) {
                let p: int = choose|p: int|
                    0 <= p < TOTAL_PIXELS && canvas[p] && #[trigger] row_covers(
                        byte,
                        8,
                        px as int,
                        p,
                    );
                lemma_next_row(shape, s as int, origin, p);
                assert(before.pixels[p] && sprite_covers(shape, s + 1, origin, p));
            }
            if sprite_erases(before.pixels, shape, s as int, origin) {
                let p: int = choose|p: int|
                    0 <= p < TOTAL_PIXELS && before.pixels[p] && #[trigger] sprite_covers(
                        shape,
                        s as int,
                        origin,
                        p,
                    );
                lemma_next_row(shape, s as int, origin, p);
                assert(sprite_covers(shape, s + 1, origin, p));
            }
            if sprite_erases(before.pixels, shape, s + 1, origin) {
                let p: int = choose|p: int|
                    0 <= p < TOTAL_PIXELS && before.pixels[p] && #[trigger] sprite_covers(
                        shape,
                        s + 1,
                        origin,
                        p,
                    );
                lemma_next_row(shape, s as int, origin, p);
                if !sprite_covers(shape, s as int, origin, p) {
                    assert(canvas[p] && row_covers(byte, 8, px as int, p));
                }
            }
        }
        if erased {
            flag = 1;
        }
        px += 64;
        s += 1;
    }
    emu.reg[0xF] = flag;
    proof {
        let goal: Machine = sprite_drawn(before, x as int, y as int, n as int);
        assert(s == rows);
        assert(emu@.pixels =~= goal.pixels);
        assert(emu@.registers =~= goal.registers);
    }
}

} // verus!
