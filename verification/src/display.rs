//! Sprites on the 64 by 32 screen: what a draw does to the pixels, and the
//! executable drawing that is proved against it.
use vstd::prelude::*;
use crate::chip8::{MEMORY_SIZE, SCREEN_HEIGHT, SCREEN_SIZE, SCREEN_WIDTH};

verus! {

/// Bit `column` of a sprite row, counted from the most significant bit.
pub open spec fn sprite_bit(row_bits: u8, column: u8) -> bool {
    row_bits & (0x80u8 >> column) != 0
}

/// A sprite: `rows` bytes of `memory` from address `base` on, to be drawn
/// with its top left corner at column `left`, row `top`.
pub struct Sprite {
    pub memory: Seq<u8>,
    pub base: int,
    pub rows: int,
    pub left: int,
    pub top: int,
}

impl Sprite {
    /// The pixel at column `x`, row `y` of the screen lies under the sprite.
    pub open spec fn covers(self, x: int, y: int) -> bool {
        &&& self.left <= x < self.left + 8
        &&& self.top <= y < self.top + self.rows
    }

    /// The sprite has a lit bit over the pixel at column `x`, row `y`.
    pub open spec fn lit(self, x: int, y: int) -> bool {
        &&& self.covers(x, y)
        &&& sprite_bit(self.memory[self.base + (y - self.top)], (x - self.left) as u8)
    }

    /// The sprite has a lit bit over the pixel with index `pixel`.
    pub open spec fn lit_at(self, pixel: int) -> bool {
        self.lit(pixel % 64, pixel / 64)
    }

    /// How many rows of the sprite fall on the screen; the rest is clipped
    /// at the bottom edge.
    pub open spec fn visible_rows(self) -> int {
        if self.top + self.rows <= 32 {
            self.rows
        } else {
            32 - self.top
        }
    }

    /// The rows that are in view lie within the 4096 bytes of memory.
    pub open spec fn fits_memory(self) -> bool {
        self.visible_rows() > 0 ==> self.base + self.visible_rows() <= 4096
    }

    /// The screen after the sprite was drawn onto `screen`: each pixel under
    /// a lit bit is flipped, every other pixel is kept. Nothing wraps round.
    pub open spec fn drawn(self, screen: Seq<bool>) -> Seq<bool> {
        Seq::new(2048, |pixel: int| screen[pixel] ^ self.lit_at(pixel))
    }

    /// Some lit bit of the sprite falls on a pixel of `screen` that is lit.
    pub open spec fn collides(self, screen: Seq<bool>) -> bool {
        exists|pixel: int| 0 <= pixel < 2048 && screen[pixel] && #[trigger] self.lit_at(pixel)
    }
}

/// The sprite with the given parts.
pub open spec fn sprite_at(memory: Seq<u8>, base: u16, rows: u8, left: u8, top: u8) -> Sprite {
    Sprite {
        memory,
        base: base as int,
        rows: rows as int,
        left: left as int,
        top: top as int,
    }
}

/// Within row `y` of the screen, the pixel with index `pixel` lies under a
/// lit bit among the first `columns` bits of the sprite row `bits` that
/// starts at column `left`.
pub open spec fn row_lit(bits: u8, left: int, y: int, columns: int, pixel: int) -> bool {
    &&& pixel / 64 == y
    &&& left <= pixel % 64 < left + columns
    &&& sprite_bit(bits, (pixel % 64 - left) as u8)
}

/// Draws the sprite row `bits` into row `y` of the screen from column `left`
/// on, clipped at the right edge, and tells whether it hit a lit pixel.
fn draw_row(screen: &mut [bool; SCREEN_SIZE], bits: u8, left: u8, y: u8) -> (hit: bool)
    requires
        left < SCREEN_WIDTH,
        y < SCREEN_HEIGHT,
    ensures
        forall|p: int|
            0 <= p < 2048 ==> final(screen)@[p] == (old(screen)@[p] ^ row_lit(
                bits,
                left as int,
                y as int,
                8,
                p,
            )),
        hit <==> exists|p: int|
            0 <= p < 2048 && old(screen)@[p] && row_lit(bits, left as int, y as int, 8, p),
{
    let mut hit = false;
    let mut col: u8 = 0;
    while col < 8 && left + col < SCREEN_WIDTH as u8
        invariant
            col <= 8,
            left < SCREEN_WIDTH,
            y < SCREEN_HEIGHT,
            forall|p: int|
                0 <= p < 2048 ==> screen@[p] == (old(screen)@[p] ^ row_lit(
                    bits,
                    left as int,
                    y as int,
                    col as int,
                    p,
                )),
            hit <==> exists|p: int|
                0 <= p < 2048 && old(screen)@[p] && row_lit(
                    bits,
                    left as int,
                    y as int,
                    col as int,
                    p,
                ),
        decreases 8 - col,
    {
        let screen_x = left + col;
        let sprite_pixel = (bits & (0b1000_0000u8 >> col)) != 0;
        let index = screen_x as usize + y as usize * SCREEN_WIDTH;
        let screen_pixel = screen[index];
        proof {
            assert(index as int / 64 == y as int && index as int % 64 == screen_x as int);
            assert forall|p: int| 0 <= p < 2048 && p != index implies row_lit(
                bits,
                left as int,
                y as int,
                col + 1,
                p,
            ) == row_lit(bits, left as int, y as int, col as int, p) by {
                if p / 64 == y as int && p % 64 == screen_x as int {
                    assert(p == index);
                }
            }
            if sprite_pixel && screen_pixel {
                assert(row_lit(bits, left as int, y as int, col + 1, index as int));
            }
        }
        if sprite_pixel && screen_pixel {
            hit = true;
        }
        screen[index] = screen_pixel ^ sprite_pixel;
        col += 1;
    }
    hit
}

/// Draws the sprite of `rows` rows that stands in `memory` at `base` onto
/// the screen, with its corner at column `left`, row `top`, and tells
/// whether it hit a lit pixel. The rows that are in view must lie in memory.
pub fn draw_sprite(
    screen: &mut [bool; SCREEN_SIZE],
    memory: &[u8; MEMORY_SIZE],
    base: u16,
    rows: u8,
    left: u8,
    top: u8,
) -> (hit: bool)
    requires
        left < SCREEN_WIDTH,
        top < SCREEN_HEIGHT,
        sprite_at(memory@, base, rows, left, top).fits_memory(),
    ensures
        final(screen)@ == sprite_at(memory@, base, rows, left, top).drawn(old(screen)@),
        hit == sprite_at(memory@, base, rows, left, top).collides(old(screen)@),
{
    let ghost sprite = sprite_at(memory@, base, rows, left, top);
    let mut hit = false;
    let mut row: u8 = 0;
    while row < rows && top + row < SCREEN_HEIGHT as u8
        invariant
            row <= rows,
            left < SCREEN_WIDTH,
            top < SCREEN_HEIGHT,
            top + row <= SCREEN_HEIGHT,
            sprite == sprite_at(memory@, base, rows, left, top),
            sprite.fits_memory(),
            screen@ == (Sprite { rows: row as int, ..sprite }).drawn(old(screen)@),
            hit == (Sprite { rows: row as int, ..sprite }).collides(old(screen)@),
        decreases rows - row,
    {
        let ghost done = Sprite { rows: row as int, ..sprite };
        let ghost next = Sprite { rows: row + 1, ..sprite };
        let ghost before = screen@;
        let screen_y = top + row;
        let bits = memory[base as usize + row as usize];
        let row_hit = draw_row(screen, bits, left, screen_y);
        proof {
            assert(screen@ =~= next.drawn(old(screen)@));
            if done.collides(old(screen)@) {
                let p = choose|p: int|
                    0 <= p < 2048 && old(screen)@[p] && #[trigger] done.lit_at(p);
                assert(next.lit_at(p));
            }
            if row_hit {
                let p = choose|p: int|
                    0 <= p < 2048 && before[p] && row_lit(
                        bits,
                        left as int,
                        screen_y as int,
                        8,
                        p,
                    );
                assert(!done.lit_at(p));
                assert(old(screen)@[p] && next.lit_at(p));
            }
            if next.collides(old(screen)@) {
                let p = choose|p: int|
                    0 <= p < 2048 && old(screen)@[p] && #[trigger] next.lit_at(p);
                if !done.lit_at(p) {
                    assert(before[p] && row_lit(bits, left as int, screen_y as int, 8, p));
                }
            }
        }
        if row_hit {
            hit = true;
        }
        row += 1;
    }
    proof {
        let done = Sprite { rows: row as int, ..sprite };
        assert(screen@ =~= sprite.drawn(old(screen)@));
        if done.collides(old(screen)@) {
            let p = choose|p: int| 0 <= p < 2048 && old(screen)@[p] && #[trigger] done.lit_at(p);
            assert(sprite.lit_at(p));
        }
        if sprite.collides(old(screen)@) {
            let p = choose|p: int|
                0 <= p < 2048 && old(screen)@[p] && #[trigger] sprite.lit_at(p);
            assert(done.lit_at(p));
        }
    }
    hit
}

} // verus!
