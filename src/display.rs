use vstd::prelude::*;
use vstd::arithmetic::div_mod::{lemma_fundamental_div_mod, lemma_fundamental_div_mod_converse};

verus! {

pub const DISPLAY_WIDTH: usize = 64;
pub const DISPLAY_HEIGHT: usize = 32;
pub const DISPLAY_SCALE: u32 = 8;
/// Pixels in the frame buffer: `DISPLAY_WIDTH * DISPLAY_HEIGHT`.
pub const PIXEL_COUNT: usize = 2048;

/// The sprite row that lands on the screen row of pixel `idx`.
pub open spec fn sprite_row(y: u8, idx: int) -> int {
    (idx / 64 + 32 - (y as int) % 32) % 32
}

/// The sprite column that lands on the screen column of pixel `idx`.
pub open spec fn sprite_col(x: u8, idx: int) -> int {
    (idx % 64 + 64 - (x as int) % 64) % 64
}

/// The bit that a sprite sets at pixel `idx` when drawn at `(x, y)`: the
/// screen wraps in both directions, row `r` of the sprite lands on screen row
/// `(y + r) % 32`, and bit 7 of a sprite byte is its leftmost pixel.
pub open spec fn sprite_bit(sprite: Seq<u8>, x: u8, y: u8, idx: int) -> u8 {
    let dr = sprite_row(y, idx);
    let dc = sprite_col(x, idx);
    if dr < sprite.len() && dc < 8 {
        ((sprite[dr] >> ((7 - dc) as u8)) & 1) as u8
    } else {
        0
    }
}

/// The frame buffer after drawing: each pixel XORed with the sprite's bit there.
pub open spec fn drawn(fb: Seq<u8>, sprite: Seq<u8>, x: u8, y: u8) -> Seq<u8> {
    Seq::new(fb.len(), |idx: int| fb[idx] ^ sprite_bit(sprite, x, y, idx))
}

/// Whether drawing erases a pixel that was set.
pub open spec fn erases(fb: Seq<u8>, sprite: Seq<u8>, x: u8, y: u8) -> bool {
    exists|idx: int| 0 <= idx < fb.len() && fb[idx] == 1 && #[trigger] sprite_bit(sprite, x, y, idx) == 1
}

/// The pixel that row `r`, column `c` of a sprite drawn at `(x, y)` lands on.
pub open spec fn cell_index(x: u8, y: u8, r: int, c: int) -> int {
    ((((y as int) % 32) + r) % 32) * 64 + ((x as int) + c) % 64
}

/// `cell_index` is a pixel of the screen, it lies at sprite row `r` and
/// column `c`, and it is the only pixel there.
proof fn lemma_cell_index(x: u8, y: u8, r: int, c: int)
    requires
        0 <= r < 32,
        0 <= c < 8,
    ensures
        0 <= cell_index(x, y, r, c) < PIXEL_COUNT,
        sprite_row(y, cell_index(x, y, r, c)) == r,
        sprite_col(x, cell_index(x, y, r, c)) == c,
        forall|idx: int|
            0 <= idx < PIXEL_COUNT && #[trigger] sprite_row(y, idx) == r && #[trigger] sprite_col(x, idx)
                == c ==> idx == cell_index(x, y, r, c),
{
    let row = (((y as int) % 32) + r) % 32;
    let col = ((x as int) + c) % 64;
    let off = row * 64 + col;
    lemma_fundamental_div_mod_converse(off, 64, row, col);
    lemma_wrap_offset((y as int) % 32, r, 32);
    lemma_wrap_offset((x as int) % 64, c, 64);
    assert(((x as int) + c) % 64 == ((x as int) % 64 + c) % 64);
    assert forall|idx: int|
        0 <= idx < PIXEL_COUNT && #[trigger] sprite_row(y, idx) == r && #[trigger] sprite_col(x, idx)
            == c implies idx == off by {
        lemma_fundamental_div_mod(idx, 64);
        lemma_wrap_unique((y as int) % 32, idx / 64, r, 32);
        lemma_wrap_unique((x as int) % 64, idx % 64, c, 64);
    }
}

/// Stepping `k` forward from `base` on a cycle of `n` and measuring the
/// distance back to `base` gives `k`.
proof fn lemma_wrap_offset(base: int, k: int, n: int)
    requires
        0 <= base < n,
        0 <= k < n,
    ensures
        (((base + k) % n) + n - base) % n == k,
{
    if base + k < n {
        lemma_fundamental_div_mod_converse(base + k, n, 0, base + k);
        lemma_fundamental_div_mod_converse(k + n, n, 1, k);
    } else {
        lemma_fundamental_div_mod_converse(base + k, n, 1, base + k - n);
        lemma_fundamental_div_mod_converse(k, n, 0, k);
    }
}

/// The point on a cycle of `n` at distance `k` from `base` is `(base + k) % n`.
proof fn lemma_wrap_unique(base: int, a: int, k: int, n: int)
    requires
        0 <= base < n,
        0 <= a < n,
        0 <= k < n,
        (a + n - base) % n == k,
    ensures
        a == (base + k) % n,
{
    if a >= base {
        lemma_fundamental_div_mod_converse(a + n - base, n, 1, a - base);
        lemma_fundamental_div_mod_converse(base + k, n, 0, a);
    } else {
        lemma_fundamental_div_mod_converse(a + n - base, n, 0, a + n - base);
        lemma_fundamental_div_mod_converse(base + k, n, 1, a);
    }
}

/// The bit that the drawing loop has applied at pixel `idx` once it has
/// reached row `r`, column `c` of the sprite.
pub open spec fn partial_bit(sprite: Seq<u8>, x: u8, y: u8, idx: int, r: int, c: int) -> u8 {
    let dr = sprite_row(y, idx);
    let dc = sprite_col(x, idx);
    if dr < r || (dr == r && dc < c) {
        sprite_bit(sprite, x, y, idx)
    } else {
        0
    }
}

/// A frame buffer of `PIXEL_COUNT` pixels, each 0 or 1.
pub open spec fn frame_wf(fb: Seq<u8>) -> bool {
    &&& fb.len() == PIXEL_COUNT
    &&& forall|i: int| 0 <= i < fb.len() ==> #[trigger] fb[i] <= 1
}

/// Drawing a one-byte sprite with a set bit twice at the same place, onto
/// pixels that it finds clear, reports a collision the second time and leaves
/// those pixels clear again; the rest of the screen is as before too.
pub proof fn lemma_draw_twice_erases(fb: Seq<u8>, sprite: Seq<u8>, x: u8, y: u8)
    requires
        frame_wf(fb),
        sprite.len() == 1,
        sprite[0] != 0,
        forall|idx: int| 0 <= idx < fb.len() && #[trigger] sprite_bit(sprite, x, y, idx) == 1 ==> fb[idx] == 0,
    ensures
        erases(drawn(fb, sprite, x, y), sprite, x, y),
        drawn(drawn(fb, sprite, x, y), sprite, x, y) == fb,
        forall|idx: int|
            0 <= idx < fb.len() && #[trigger] sprite_bit(sprite, x, y, idx) == 1 ==> drawn(
                drawn(fb, sprite, x, y),
                sprite,
                x,
                y,
            )[idx] == 0,
{
    let once = drawn(fb, sprite, x, y);
    let twice = drawn(once, sprite, x, y);
    assert forall|idx: int| 0 <= idx < fb.len() implies twice[idx] == fb[idx] by {
        let a = fb[idx];
        let b = sprite_bit(sprite, x, y, idx);
        assert((a ^ b) ^ b == a) by (bit_vector);
    }
    assert(twice =~= fb);
    let b0 = sprite[0];
    assert(b0 != 0 ==> (b0 >> 7u8) & 1 == 1 || (b0 >> 6u8) & 1 == 1 || (b0 >> 5u8) & 1 == 1 || (b0
        >> 4u8) & 1 == 1 || (b0 >> 3u8) & 1 == 1 || (b0 >> 2u8) & 1 == 1 || (b0 >> 1u8) & 1 == 1 || (
    b0 >> 0u8) & 1 == 1) by (bit_vector);
    let c: int = if (b0 >> 7u8) & 1 == 1 {
        0
    } else if (b0 >> 6u8) & 1 == 1 {
        1
    } else if (b0 >> 5u8) & 1 == 1 {
        2
    } else if (b0 >> 4u8) & 1 == 1 {
        3
    } else if (b0 >> 3u8) & 1 == 1 {
        4
    } else if (b0 >> 2u8) & 1 == 1 {
        5
    } else if (b0 >> 1u8) & 1 == 1 {
        6
    } else {
        7
    };
    lemma_cell_index(x, y, 0, c);
    let idx = cell_index(x, y, 0, c);
    assert(sprite_bit(sprite, x, y, idx) == 1);
    let a = fb[idx];
    assert(a == 0);
    assert(a ^ 1u8 == 1) by (bit_vector)
        requires
            a == 0,
    ;
    assert(once[idx] == 1);
}

/// The window-pixel corners of the lit pixels among the first `n`, in order.
pub open spec fn lit_rects(fb: Seq<u8>, n: int) -> Seq<(u32, u32)>
    decreases n,
{
    if n <= 0 {
        Seq::empty()
    } else {
        lit_rects(fb, n - 1) + if fb[n - 1] == 1 {
            seq![((((n - 1) % 64) * 8) as u32, (((n - 1) / 64) * 8) as u32)]
        } else {
            Seq::empty()
        }
    }
}

/// The screen contents, one byte per pixel in row-major order.
pub struct Display {
    pub frame_buffer: Vec<u8>,
}

impl Display {
    pub open spec fn wf(&self) -> bool {
        frame_wf(self.frame_buffer@)
    }

    /// A blank screen.
    pub fn new() -> (d: Display)
        ensures
            d.wf(),
            d.frame_buffer@ == Seq::new(PIXEL_COUNT as nat, |i: int| 0u8),
    {
        let mut frame_buffer: Vec<u8> = Vec::new();
        while frame_buffer.len() < PIXEL_COUNT
            invariant
                frame_buffer.len() <= PIXEL_COUNT,
                forall|i: int| 0 <= i < frame_buffer.len() ==> frame_buffer@[i] == 0,
            decreases PIXEL_COUNT - frame_buffer.len(),
        {
            frame_buffer.push(0);
        }
        let d = Display { frame_buffer };
        assert(d.frame_buffer@ =~= Seq::new(PIXEL_COUNT as nat, |i: int| 0u8));
        d
    }

    /// Turns every pixel off.
    pub fn clear(&mut self)
        requires
            old(self).wf(),
        ensures
            final(self).wf(),
            final(self).frame_buffer@ == Seq::new(PIXEL_COUNT as nat, |i: int| 0u8),
    {
        let mut k: usize = 0;
        while k < PIXEL_COUNT
            invariant
                self.frame_buffer.len() == PIXEL_COUNT,
                k <= PIXEL_COUNT,
                forall|i: int| 0 <= i < k ==> self.frame_buffer@[i] == 0,
                forall|i: int| 0 <= i < PIXEL_COUNT ==> #[trigger] self.frame_buffer@[i] <= 1,
            decreases PIXEL_COUNT - k,
        {
            self.frame_buffer.set(k, 0);
            k = k + 1;
        }
        assert(self.frame_buffer@ =~= Seq::new(PIXEL_COUNT as nat, |i: int| 0u8));
    }

    /// Draws row `r` of the sprite; the rows before it are drawn already.
    fn draw_row(
        &mut self,
        x_position: u8,
        y_position: u8,
        row_y: u8,
        sprite: &[u8],
        r: usize,
        erased_before: bool,
        Ghost(fb0): Ghost<Seq<u8>>,
    ) -> (erased: bool)
        requires
            frame_wf(fb0),
            old(self).frame_buffer.len() == PIXEL_COUNT,
            r < sprite@.len() < 16,
            row_y as int == ((y_position as int) % 32 + r) % 32,
            forall|k: int| 0 <= k < PIXEL_COUNT ==> #[trigger] old(self).frame_buffer@[k] <= 1,
            forall|k: int|
                0 <= k < PIXEL_COUNT ==> #[trigger] old(self).frame_buffer@[k] == fb0[k] ^ partial_bit(
                    sprite@,
                    x_position,
                    y_position,
                    k,
                    r as int,
                    0,
                ),
            erased_before == exists|k: int|
                0 <= k < PIXEL_COUNT && fb0[k] == 1 && #[trigger] partial_bit(sprite@, x_position, y_position, k, r as int, 0) == 1,
        ensures
            final(self).frame_buffer.len() == PIXEL_COUNT,
            forall|k: int| 0 <= k < PIXEL_COUNT ==> #[trigger] final(self).frame_buffer@[k] <= 1,
            forall|k: int|
                0 <= k < PIXEL_COUNT ==> #[trigger] final(self).frame_buffer@[k] == fb0[k] ^ partial_bit(
                    sprite@,
                    x_position,
                    y_position,
                    k,
                    r + 1,
                    0,
                ),
            erased == exists|k: int|
                0 <= k < PIXEL_COUNT && fb0[k] == 1 && #[trigger] partial_bit(sprite@, x_position, y_position, k, r + 1, 0) == 1,
    {
        let ghost x = x_position;
        let ghost y = y_position;
        let mut pixel_erased = erased_before;
        let byte = sprite[r];
        let mut i: usize = 0;
        while i < 8
            invariant
                frame_wf(fb0),
                self.frame_buffer.len() == PIXEL_COUNT,
                r < sprite@.len() < 16,
                byte == sprite@[r as int],
                i <= 8,
                row_y as int == ((y as int) % 32 + r) % 32,
                x == x_position,
                y == y_position,
                forall|k: int| 0 <= k < PIXEL_COUNT ==> #[trigger] self.frame_buffer@[k] <= 1,
                forall|k: int|
                    0 <= k < PIXEL_COUNT ==> #[trigger] self.frame_buffer@[k] == fb0[k] ^ partial_bit(
                        sprite@,
                        x,
                        y,
                        k,
                        r as int,
                        i as int,
                    ),
                pixel_erased == exists|k: int|
                    0 <= k < PIXEL_COUNT && fb0[k] == 1 && #[trigger] partial_bit(sprite@, x, y, k, r as int, i as int) == 1,
            decreases 8 - i,
        {
            let offset = row_y as usize * DISPLAY_WIDTH + (x_position as usize + i) % DISPLAY_WIDTH;
            proof {
                lemma_cell_index(x, y, r as int, i as int);
                assert(offset == cell_index(x, y, r as int, i as int));
            }
            let old_pixel = self.frame_buffer[offset];
            let bit = (byte >> ((7 - i) as u8)) & 1;
            let new_pixel = old_pixel ^ bit;
            proof {
                assert(bit == sprite_bit(sprite@, x, y, offset as int));
                let f = fb0[offset as int];
                assert(f ^ 0u8 == f) by (bit_vector);
                assert(old_pixel == f);
                assert(fb0[offset as int] <= 1);
                assert(bit <= 1) by (bit_vector)
                    requires
                        bit == (byte >> ((7 - i) as u8)) & 1,
                ;
                assert(old_pixel ^ 0u8 == old_pixel) by (bit_vector);
                assert(new_pixel <= 1 && (old_pixel == 1 && new_pixel == 0 <==> old_pixel == 1
                    && bit == 1)) by (bit_vector)
                    requires
                        old_pixel <= 1,
                        bit <= 1,
                        new_pixel == old_pixel ^ bit,
                ;
            }
            self.frame_buffer.set(offset, new_pixel);
            if old_pixel == 1 && new_pixel == 0 {
                pixel_erased = true;
            }
            proof {
                let ni = (i + 1) as int;
                assert forall|k: int| 0 <= k < PIXEL_COUNT && k != offset implies partial_bit(
                    sprite@,
                    x,
                    y,
                    k,
                    r as int,
                    ni,
                ) == partial_bit(sprite@, x, y, k, r as int, i as int) by {
                    if sprite_row(y, k) == r as int && sprite_col(x, k) == i as int {
                        assert(k == cell_index(x, y, r as int, i as int));
                    }
                }
                assert(partial_bit(sprite@, x, y, offset as int, r as int, ni) == bit);
                assert(partial_bit(sprite@, x, y, offset as int, r as int, i as int) == 0);
                if pixel_erased {
                    if old_pixel == 1 && new_pixel == 0 {
                        assert(fb0[offset as int] == 1);
                        assert(partial_bit(sprite@, x, y, offset as int, r as int, ni) == 1);
                    } else {
                        let w = choose|k: int|
                            0 <= k < PIXEL_COUNT && fb0[k] == 1 && #[trigger] partial_bit(sprite@, x, y, k, r as int, i as int) == 1;
                        assert(partial_bit(sprite@, x, y, w, r as int, ni) == 1);
                    }
                } else {
                    assert forall|k: int|
                        0 <= k < PIXEL_COUNT && fb0[k] == 1 implies #[trigger] partial_bit(
                            sprite@,
                            x,
                            y,
                            k,
                            r as int,
                            ni,
                        ) != 1 by {
                        if k != offset {
                            assert(partial_bit(sprite@, x, y, k, r as int, i as int) != 1);
                        }
                    }
                }
            }
            i = i + 1;
        }
        proof {
            assert forall|k: int| 0 <= k < PIXEL_COUNT implies #[trigger] partial_bit(
                sprite@,
                x,
                y,
                k,
                r as int,
                8,
            ) == partial_bit(sprite@, x, y, k, r + 1, 0) by {}
            if pixel_erased {
                let w = choose|k: int|
                    0 <= k < PIXEL_COUNT && fb0[k] == 1 && #[trigger] partial_bit(sprite@, x, y, k, r as int, 8) == 1;
                assert(partial_bit(sprite@, x, y, w, r + 1, 0) == 1);
            } else {
                assert forall|k: int|
                    0 <= k < PIXEL_COUNT && fb0[k] == 1 implies #[trigger] partial_bit(
                        sprite@,
                        x,
                        y,
                        k,
                        r + 1,
                        0,
                    ) != 1 by {
                    assert(partial_bit(sprite@, x, y, k, r as int, 8) != 1);
                }
            }
        }
        pixel_erased
    }

    /// XORs the sprite onto the screen at `(x_position, y_position)`, wrapping
    /// around both edges, and reports whether a pixel that was on went off.
    pub fn draw_sprite(&mut self, x_position: u8, y_position: u8, sprite: &[u8]) -> (erased: bool)
        requires
            old(self).wf(),
            sprite@.len() < 16,
        ensures
            final(self).wf(),
            final(self).frame_buffer@ == drawn(old(self).frame_buffer@, sprite@, x_position, y_position),
            erased == erases(old(self).frame_buffer@, sprite@, x_position, y_position),
    {
        let ghost fb0 = self.frame_buffer@;
        let ghost x = x_position;
        let ghost y = y_position;
        let mut pixel_erased = false;
        proof {
            assert forall|k: int| 0 <= k < PIXEL_COUNT implies #[trigger] self.frame_buffer@[k] == fb0[k]
                ^ partial_bit(sprite@, x, y, k, 0, 0) by {
                let f = fb0[k];
                assert(f ^ 0u8 == f) by (bit_vector);
            }
        }
        let mut row_y: u8 = y_position % 32;
        let mut r: usize = 0;
        while r < sprite.len()
            invariant
                fb0 == old(self).frame_buffer@,
                frame_wf(fb0),
                self.frame_buffer.len() == PIXEL_COUNT,
                r <= sprite@.len() < 16,
                x == x_position,
                y == y_position,
                row_y as int == ((y as int) % 32 + r) % 32,
                forall|k: int| 0 <= k < PIXEL_COUNT ==> #[trigger] self.frame_buffer@[k] <= 1,
                forall|k: int|
                    0 <= k < PIXEL_COUNT ==> #[trigger] self.frame_buffer@[k] == fb0[k] ^ partial_bit(
                        sprite@,
                        x,
                        y,
                        k,
                        r as int,
                        0,
                    ),
                pixel_erased == exists|k: int|
                    0 <= k < PIXEL_COUNT && fb0[k] == 1 && #[trigger] partial_bit(sprite@, x, y, k, r as int, 0) == 1,
            decreases sprite@.len() - r,
        {
            pixel_erased = self.draw_row(x_position, y_position, row_y, sprite, r, pixel_erased, Ghost(fb0));
            row_y = (row_y + 1) % 32;
            r = r + 1;
        }
        proof {
            assert forall|k: int| 0 <= k < PIXEL_COUNT implies #[trigger] partial_bit(
                sprite@,
                x,
                y,
                k,
                sprite@.len() as int,
                0,
            ) == sprite_bit(sprite@, x, y, k) by {}
            assert(self.frame_buffer@ =~= drawn(fb0, sprite@, x, y));
            if pixel_erased {
                let w = choose|k: int|
                    0 <= k < PIXEL_COUNT && fb0[k] == 1 && #[trigger] partial_bit(sprite@, x, y, k, sprite@.len() as int, 0) == 1;
                assert(sprite_bit(sprite@, x, y, w) == 1);
            } else {
                assert forall|k: int| 0 <= k < fb0.len() && fb0[k] == 1 implies #[trigger] sprite_bit(
                    sprite@,
                    x,
                    y,
                    k,
                ) != 1 by {
                    assert(partial_bit(sprite@, x, y, k, sprite@.len() as int, 0) != 1);
                }
            }
        }
        pixel_erased
    }

    /// The frame to present: for each lit pixel, row by row, the top-left
    /// corner of the `DISPLAY_SCALE`-sided square that shows it in the window.
    pub fn refresh(&self) -> (rects: Vec<(u32, u32)>)
        requires
            self.wf(),
        ensures
            rects@ == lit_rects(self.frame_buffer@, PIXEL_COUNT as int),
    {
        let mut rects: Vec<(u32, u32)> = Vec::new();
        let mut k: usize = 0;
        while k < PIXEL_COUNT
            invariant
                self.wf(),
                k <= PIXEL_COUNT,
                rects@ == lit_rects(self.frame_buffer@, k as int),
            decreases PIXEL_COUNT - k,
        {
            if self.frame_buffer[k] == 1 {
                let x = (k % DISPLAY_WIDTH) as u32 * DISPLAY_SCALE;
                let y = (k / DISPLAY_WIDTH) as u32 * DISPLAY_SCALE;
                rects.push((x, y));
            }
            proof {
                assert(rects@ =~= lit_rects(self.frame_buffer@, k + 1));
            }
            k = k + 1;
        }
        rects
    }
}

} // verus!
