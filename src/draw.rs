use vstd::prelude::*;

use crate::execute::ExecuteError;
use crate::memory::{
    Memory, MemoryView, FLAG_REGISTER, SIZE_DISPLAY_HEIGHT, SIZE_DISPLAY_WIDTH, SIZE_RAM,
};

verus! {

/// Whether column `col` (0 leftmost, 7 rightmost) of a sprite row is set.
pub open spec fn sprite_bit(row: u8, col: int) -> bool {
    (row >> ((7 - col) as u8)) & 1u8 == 1u8
}

/// Whether the sprite at `m.i`, `height` rows tall and drawn with its top left
/// corner at (`x0`, `y0`), sets the pixel (`x`, `y`).
pub open spec fn sprite_covers(m: MemoryView, x0: int, y0: int, height: int, x: int, y: int) -> bool {
    &&& x0 <= x < x0 + 8
    &&& y0 <= y < y0 + height
    &&& sprite_bit(m.ram[m.i + (y - y0)], x - x0)
}

/// The framebuffer with the sprite XORed into it. Pixels that would fall past
/// the right or bottom edge are not drawn.
pub open spec fn drawn_screen(m: MemoryView, x0: int, y0: int, height: int) -> Seq<Seq<bool>> {
    Seq::new(
        SIZE_DISPLAY_HEIGHT as nat,
        |y: int|
            Seq::new(
                SIZE_DISPLAY_WIDTH as nat,
                |x: int| m.vram[y][x] != sprite_covers(m, x0, y0, height, x, y),
            ),
    )
}

/// Whether drawing the sprite unsets a pixel that was set.
pub open spec fn draw_collides(m: MemoryView, x0: int, y0: int, height: int) -> bool {
    exists|x: int, y: int|
        0 <= x < SIZE_DISPLAY_WIDTH && 0 <= y < SIZE_DISPLAY_HEIGHT && #[trigger] m.vram[y][x]
            && sprite_covers(m, x0, y0, height, x, y)
}

/// `Dxyn`: draw `height` rows of the sprite at the index register, with its
/// top left corner at (`Vx` mod 64, `Vy` mod 32). The flag register ends as 1
/// when a set pixel was unset, else 0. A sprite row past the end of RAM is an
/// error.
pub open spec fn draw_spec(m: MemoryView, vx: int, vy: int, height: int) -> Result<
    MemoryView,
    ExecuteError,
> {
    if height > 0 && m.i + height > SIZE_RAM {
        Err(ExecuteError::InvalidAddress(m.i))
    } else {
        let x0 = m.v[vx] as int % 64;
        let y0 = m.v[vy] as int % 32;
        Ok(
            MemoryView {
                vram: drawn_screen(m, x0, y0, height),
                v: m.v.update(
                    FLAG_REGISTER as int,
                    if draw_collides(m, x0, y0, height) {
                        1u8
                    } else {
                        0u8
                    },
                ),
                ..m
            },
        )
    }
}

/// Pixels of the drawing done so far: every row above `y0 + r`, and the
/// first `p` columns of row `y0 + r`.
pub open spec fn done(x0: int, y0: int, r: int, p: int, x: int, y: int) -> bool {
    y < y0 + r || (y == y0 + r && x < x0 + p)
}

/// Whether a pixel drawn so far was set before and is covered by the sprite.
pub open spec fn collides_so_far(m: MemoryView, x0: int, y0: int, height: int, r: int, p: int) -> bool {
    exists|x: int, y: int|
        0 <= x < SIZE_DISPLAY_WIDTH && 0 <= y < SIZE_DISPLAY_HEIGHT && done(x0, y0, r, p, x, y)
            && #[trigger] m.vram[y][x] && sprite_covers(m, x0, y0, height, x, y)
}

impl Memory {
    /// Draw a sprite as `draw_spec` describes; on error nothing changes.
    pub fn draw_sprite(&mut self, vx: usize, vy: usize, height: u8) -> (r: Result<(), ExecuteError>)
        requires
            vx < 16,
            vy < 16,
        ensures
            match draw_spec(old(self)@, vx as int, vy as int, height as int) {
                Ok(m) => r is Ok && final(self)@ == m,
                Err(e) => r == Err::<(), ExecuteError>(e) && final(self)@ == old(self)@,
            },
    {
        if height > 0 && self.i as usize + height as usize > SIZE_RAM {
            return Err(ExecuteError::InvalidAddress(self.i));
        }
        let ghost m = self@;
        let x0: usize = (self.v[vx] % 64) as usize;
        let y0: usize = (self.v[vy] % 32) as usize;
        let h: usize = height as usize;
        let mut collision = false;
        let mut r: usize = 0;
        while r < h && y0 + r < SIZE_DISPLAY_HEIGHT
            invariant
                m == old(self)@,
                h > 0 ==> m.i + h <= SIZE_RAM,
                x0 == m.v[vx as int] % 64,
                y0 == m.v[vy as int] % 32,
                h == height,
                r <= h,
                y0 + r <= SIZE_DISPLAY_HEIGHT,
                self@ == (MemoryView { vram: self@.vram, ..m }),
                forall|y: int, x: int|
                    0 <= y < SIZE_DISPLAY_HEIGHT && 0 <= x < SIZE_DISPLAY_WIDTH ==> #[trigger] self.vram[y][x]
                        == (m.vram[y][x] != (sprite_covers(m, x0 as int, y0 as int, h as int, x, y)
                        && done(x0 as int, y0 as int, r as int, 0, x, y))),
                collision == collides_so_far(m, x0 as int, y0 as int, h as int, r as int, 0),
            decreases h - r,
        {
            let row = self.ram[self.i as usize + r];
            let mut p: usize = 0;
            while p < 8 && x0 + p < SIZE_DISPLAY_WIDTH
                invariant
                    m == old(self)@,
                    m.i + h <= SIZE_RAM,
                    x0 == m.v[vx as int] % 64,
                    y0 == m.v[vy as int] % 32,
                    h == height,
                    r < h,
                    y0 + r < SIZE_DISPLAY_HEIGHT,
                    row == m.ram[m.i + r],
                    p <= 8,
                    x0 + p <= SIZE_DISPLAY_WIDTH,
                    self@ == (MemoryView { vram: self@.vram, ..m }),
                    forall|y: int, x: int|
                        0 <= y < SIZE_DISPLAY_HEIGHT && 0 <= x < SIZE_DISPLAY_WIDTH
                            ==> #[trigger] self.vram[y][x] == (m.vram[y][x] != (sprite_covers(
                            m,
                            x0 as int,
                            y0 as int,
                            h as int,
                            x,
                            y,
                        ) && done(x0 as int, y0 as int, r as int, p as int, x, y))),
                    collision == collides_so_far(m, x0 as int, y0 as int, h as int, r as int, p as int),
                decreases 8 - p,
            {
                let ghost before = self.vram;
                let ghost old_collision = collision;
                let y = y0 + r;
                let x = x0 + p;
                let shift: u8 = 7 - p as u8;
                if (row >> shift) & 1 == 1 {
                    let flipped = !self.vram[y][x];
                    self.vram[y][x] = flipped;
                    if !flipped {
                        collision = true;
                    }
                }
                proof {
                    let covered = sprite_covers(m, x0 as int, y0 as int, h as int, x as int, y as int);
                    assert(covered == ((row >> shift) & 1u8 == 1u8));
                    if collides_so_far(m, x0 as int, y0 as int, h as int, r as int, p as int + 1) {
                        let (wx, wy) = choose|wx: int, wy: int|
                            0 <= wx < SIZE_DISPLAY_WIDTH && 0 <= wy < SIZE_DISPLAY_HEIGHT && done(
                                x0 as int,
                                y0 as int,
                                r as int,
                                p as int + 1,
                                wx,
                                wy,
                            ) && #[trigger] m.vram[wy][wx] && sprite_covers(
                                m,
                                x0 as int,
                                y0 as int,
                                h as int,
                                wx,
                                wy,
                            );
                        if wx != x || wy != y {
                            assert(done(x0 as int, y0 as int, r as int, p as int, wx, wy));
                            assert(old_collision);
                        } else {
                            assert(collision);
                        }
                    }
                    if collision && !old_collision {
                        assert(m.vram[y as int][x as int] && covered);
                        assert(collides_so_far(m, x0 as int, y0 as int, h as int, r as int, p as int + 1));
                    }
                    if old_collision {
                        let (wx, wy) = choose|wx: int, wy: int|
                            0 <= wx < SIZE_DISPLAY_WIDTH && 0 <= wy < SIZE_DISPLAY_HEIGHT && done(
                                x0 as int,
                                y0 as int,
                                r as int,
                                p as int,
                                wx,
                                wy,
                            ) && #[trigger] m.vram[wy][wx] && sprite_covers(
                                m,
                                x0 as int,
                                y0 as int,
                                h as int,
                                wx,
                                wy,
                            );
                        assert(done(x0 as int, y0 as int, r as int, p as int + 1, wx, wy));
                    }
                }
                p = p + 1;
            }
            proof {
                assert forall|y: int, x: int|
                    0 <= y < SIZE_DISPLAY_HEIGHT && 0 <= x < SIZE_DISPLAY_WIDTH && sprite_covers(
                        m,
                        x0 as int,
                        y0 as int,
                        h as int,
                        x,
                        y,
                    ) implies done(x0 as int, y0 as int, r as int, p as int, x, y) == done(
                    x0 as int,
                    y0 as int,
                    r as int + 1,
                    0,
                    x,
                    y,
                ) by {}
                if collision {
                    let (wx, wy) = choose|wx: int, wy: int|
                        0 <= wx < SIZE_DISPLAY_WIDTH && 0 <= wy < SIZE_DISPLAY_HEIGHT && done(
                            x0 as int,
                            y0 as int,
                            r as int,
                            p as int,
                            wx,
                            wy,
                        ) && #[trigger] m.vram[wy][wx] && sprite_covers(m, x0 as int, y0 as int, h as int, wx, wy);
                    assert(done(x0 as int, y0 as int, r as int + 1, 0, wx, wy));
                }
                if collides_so_far(m, x0 as int, y0 as int, h as int, r as int + 1, 0) {
                    let (wx, wy) = choose|wx: int, wy: int|
                        0 <= wx < SIZE_DISPLAY_WIDTH && 0 <= wy < SIZE_DISPLAY_HEIGHT && done(
                            x0 as int,
                            y0 as int,
                            r as int + 1,
                            0,
                            wx,
                            wy,
                        ) && #[trigger] m.vram[wy][wx] && sprite_covers(m, x0 as int, y0 as int, h as int, wx, wy);
                    assert(done(x0 as int, y0 as int, r as int, p as int, wx, wy));
                }
            }
            r = r + 1;
        }
        self.v[FLAG_REGISTER] = if collision {
            1
        } else {
            0
        };
        proof {
            let x0 = x0 as int;
            let y0 = y0 as int;
            let h = h as int;
            assert forall|y: int, x: int|
                0 <= y < SIZE_DISPLAY_HEIGHT && 0 <= x < SIZE_DISPLAY_WIDTH && sprite_covers(
                    m,
                    x0,
                    y0,
                    h,
                    x,
                    y,
                ) implies done(x0, y0, r as int, 0, x, y) by {}
            assert(collision == draw_collides(m, x0, y0, h)) by {
                if draw_collides(m, x0, y0, h) {
                    let (wx, wy) = choose|wx: int, wy: int|
                        0 <= wx < SIZE_DISPLAY_WIDTH && 0 <= wy < SIZE_DISPLAY_HEIGHT
                            && #[trigger] m.vram[wy][wx] && sprite_covers(m, x0, y0, h, wx, wy);
                    assert(done(x0, y0, r as int, 0, wx, wy));
                }
            }
            let want = drawn_screen(m, x0, y0, h);
            assert forall|y: int| 0 <= y < SIZE_DISPLAY_HEIGHT implies #[trigger] self@.vram[y]
                =~= want[y] by {
                assert forall|x: int| 0 <= x < SIZE_DISPLAY_WIDTH implies self@.vram[y][x]
                    == want[y][x] by {
                    assert(self.vram[y][x] == self@.vram[y][x]);
                }
            }
            assert(self@.vram =~= want);
            assert(self@.v =~= m.v.update(FLAG_REGISTER as int, if collision { 1u8 } else { 0u8 }));
        }
        Ok(())
    }
}

} // verus!
