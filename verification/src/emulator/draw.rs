//! The two blits: how a glyph of the sprite or font ROM reaches the
//! framebuffer.

use super::Emulator;
use crate::blit::{
    blended, blit, blit_digits, blit_pixel, column_offset, decimal_digits, ink, row_offset,
    under_glyph, BlitRule,
};
use crate::layout::{FONT_ROM_START, GLYPH_BYTES, RAM_SIZE, SCREEN_HEIGHT, SCREEN_WIDTH};
use vstd::prelude::*;

verus! {

/// While a glyph is walked byte column by byte column, and row by row inside
/// each, glyph cell `(dc, dr)` has been passed once the walk stands at byte
/// column `i` and row `j`.
spec fn passed(i: int, j: int, dc: int, dr: int) -> bool {
    dc / 2 < i || (dc / 2 == i && dr < j)
}

/// The colour of pixel `(c, r)` while a blit stands at byte column `i` and
/// row `j`: blitted where the walk has passed, as before elsewhere.
spec fn pixel_during_blit(
    screen: Seq<Seq<u8>>,
    ram: Seq<u8>,
    rule: BlitRule,
    color: u8,
    base: int,
    x: u8,
    y: u8,
    i: int,
    j: int,
    c: int,
    r: int,
) -> u8 {
    if under_glyph(x, y, c, r) && passed(i, j, column_offset(x, c), row_offset(y, r)) {
        blit_pixel(screen, ram, rule, color, base, x, y, c, r)
    } else {
        screen[c][r]
    }
}

/// Every pixel of `now` is as a blit that stands at byte column `i` and row
/// `j` leaves it.
spec fn blit_stands_at(
    now: Seq<Seq<u8>>,
    screen: Seq<Seq<u8>>,
    ram: Seq<u8>,
    rule: BlitRule,
    color: u8,
    base: int,
    x: u8,
    y: u8,
    i: int,
    j: int,
) -> bool {
    forall|c: int, r: int|
        0 <= c < SCREEN_WIDTH && 0 <= r < SCREEN_HEIGHT ==> #[trigger] now[c][r]
            == pixel_during_blit(screen, ram, rule, color, base, x, y, i, j, c, r)
}

/// `after` is `mid` with the two pixels of one glyph byte blended in: its
/// high nibble at column `left`, its low nibble at column `right`, both in
/// row `row`.
spec fn byte_blended(
    after: Seq<Seq<u8>>,
    mid: Seq<Seq<u8>>,
    rule: BlitRule,
    color: u8,
    byte: u8,
    left: int,
    right: int,
    row: int,
) -> bool {
    forall|c: int, r: int|
        0 <= c < SCREEN_WIDTH && 0 <= r < SCREEN_HEIGHT ==> #[trigger] after[c][r] == if r == row
            && c == left {
            blended(rule, byte / 16, color, mid[c][r])
        } else if r == row && c == right {
            blended(rule, byte % 16, color, mid[c][r])
        } else {
            mid[c][r]
        }
}

/// Column `c` is the wrapped column `x + k` exactly when it lies `k` columns
/// to the right of `x`; likewise for rows.
proof fn lemma_offset_of_wrapped(x: u8, k: int, c: int)
    requires
        0 <= c < 64,
        0 <= k < 64,
    ensures
        c == (x + k) % 64 <==> column_offset(x, c) == k,
        c == (x + k) % 64 <==> row_offset(x, c) == k,
        0 <= column_offset(x, c) < 64,
        0 <= row_offset(x, c) < 64,
{
}

/// Blending one glyph byte moves the walk of a blit one row on.
proof fn lemma_blit_advances(
    after: Seq<Seq<u8>>,
    mid: Seq<Seq<u8>>,
    screen: Seq<Seq<u8>>,
    ram: Seq<u8>,
    rule: BlitRule,
    color: u8,
    base: int,
    x: u8,
    y: u8,
    i: int,
    j: int,
)
    requires
        0 <= i < 4,
        0 <= j < 8,
        blit_stands_at(mid, screen, ram, rule, color, base, x, y, i, j),
        byte_blended(
            after,
            mid,
            rule,
            color,
            ram[base + i + 4 * j],
            (x + 2 * i) % 64,
            (x + 2 * i + 1) % 64,
            (y + j) % 64,
        ),
    ensures
        blit_stands_at(after, screen, ram, rule, color, base, x, y, i, j + 1),
{
    assert forall|c: int, r: int|
        0 <= c < SCREEN_WIDTH && 0 <= r < SCREEN_HEIGHT implies #[trigger] after[c][r]
        == pixel_during_blit(screen, ram, rule, color, base, x, y, i, j + 1, c, r) by {
        lemma_offset_of_wrapped(x, 2 * i, c);
        lemma_offset_of_wrapped(x, 2 * i + 1, c);
        lemma_offset_of_wrapped(y, j, r);
        let dc = column_offset(x, c);
        let dr = row_offset(y, r);
        assert(mid[c][r] == pixel_during_blit(screen, ram, rule, color, base, x, y, i, j, c, r));
        assert(dc / 2 == i <==> (dc == 2 * i || dc == 2 * i + 1));
        if dr == j && dc == 2 * i {
            assert(base + 4 * dr + dc / 2 == base + i + 4 * j);
        } else if dr == j && dc == 2 * i + 1 {
            assert(base + 4 * dr + dc / 2 == base + i + 4 * j);
        } else {
            assert(passed(i, j + 1, dc, dr) == passed(i, j, dc, dr));
        }
    }
}

/// The screen coordinate `offset` places past `origin`, wrapping modulo 64.
fn wrapped_coordinate(origin: u8, offset: u8) -> (at: usize)
    ensures
        at == (origin + offset) % 64,
{
    (origin.wrapping_add(offset) % 64) as usize
}

/// The colour to write for a glyph nibble, or `None` where the rule leaves
/// the pixel alone.
fn ink_for(rule: BlitRule, nibble: u8, color: u8) -> (paint: Option<u8>)
    ensures
        paint == ink(rule, nibble, color),
{
    match rule {
        BlitRule::OpaqueNonzero => if nibble != 0 {
            Some(nibble)
        } else {
            None
        },
        BlitRule::KeyedStencil => if nibble == 0xF {
            Some(color)
        } else {
            None
        },
    }
}

impl Emulator {
    /// Blends the two pixels of one glyph byte into the framebuffer: the high
    /// nibble at column `left`, the low nibble at column `right`, both in row
    /// `row`.
    fn blend_byte(&mut self, rule: BlitRule, byte: u8, left: usize, right: usize, row: usize)
        requires
            left < SCREEN_WIDTH,
            right < SCREEN_WIDTH,
            left != right,
            row < SCREEN_HEIGHT,
        ensures
            byte_blended(
                final(self)@.screen,
                old(self)@.screen,
                rule,
                old(self)@.f_reg,
                byte,
                left as int,
                right as int,
                row as int,
            ),
            final(self)@ == old(self)@.with_screen(final(self)@.screen),
    {
        let pixel1 = (byte & 0xF0) >> 4;
        let pixel2 = byte & 0x0F;
        proof {
            use_type_invariant(&*self);
            assert((byte & 0xF0) >> 4 == byte / 16) by (bit_vector);
            assert(byte & 0x0F == byte % 16) by (bit_vector);
        }
        match ink_for(rule, pixel1, self.f_reg) {
            Some(paint) => {
                self.screen[left][row] = paint;
            },
            None => {},
        }
        match ink_for(rule, pixel2, self.f_reg) {
            Some(paint) => {
                self.screen[right][row] = paint;
            },
            None => {},
        }
    }

    /// Blits the glyph at memory address `base` at `(x, y)` under `rule`,
    /// with all coordinates wrapping modulo 64.
    fn blit_glyph(&mut self, rule: BlitRule, x: u8, y: u8, base: usize)
        requires
            base + GLYPH_BYTES <= RAM_SIZE,
        ensures
            final(self)@ == old(self)@.with_screen(
                blit(old(self)@.screen, old(self)@.ram, rule, old(self)@.f_reg, base as int, x, y),
            ),
            final(self)@.wf(),
    {
        let ghost before = self@;
        proof {
            use_type_invariant(&*self);
        }
        let mut i: usize = 0;
        while i < 4
            invariant
                i <= 4,
                base + GLYPH_BYTES <= RAM_SIZE,
                before == old(self)@,
                self@ == before.with_screen(self@.screen),
                blit_stands_at(
                    self@.screen,
                    before.screen,
                    before.ram,
                    rule,
                    before.f_reg,
                    base as int,
                    x,
                    y,
                    i as int,
                    0,
                ),
            decreases 4 - i,
        {
            let mut j: usize = 0;
            while j < 8
                invariant
                    i < 4,
                    j <= 8,
                    base + GLYPH_BYTES <= RAM_SIZE,
                    before == old(self)@,
                    self@ == before.with_screen(self@.screen),
                    blit_stands_at(
                        self@.screen,
                        before.screen,
                        before.ram,
                        rule,
                        before.f_reg,
                        base as int,
                        x,
                        y,
                        i as int,
                        j as int,
                    ),
                decreases 8 - j,
            {
                let full_pixel = self.ram[base + i + (j * 4)];
                let left = wrapped_coordinate(x, (i * 2) as u8);
                let right = wrapped_coordinate(x, (i * 2 + 1) as u8);
                let row = wrapped_coordinate(y, j as u8);
                let ghost mid = self@.screen;
                self.blend_byte(rule, full_pixel, left, right, row);
                proof {
                    lemma_blit_advances(
                        self@.screen,
                        mid,
                        before.screen,
                        before.ram,
                        rule,
                        before.f_reg,
                        base as int,
                        x,
                        y,
                        i as int,
                        j as int,
                    );
                }
                j += 1;
            }
            i += 1;
        }
        proof {
            use_type_invariant(&*self);
            assert(self@.screen =~~= blit(
                before.screen,
                before.ram,
                rule,
                before.f_reg,
                base as int,
                x,
                y,
            ));
        }
    }
}

/// The decimal digits of `v`, most significant first, without leading zeros.
fn digits_of(v: u8) -> (digits: Vec<u8>)
    ensures
        digits@ == decimal_digits(v),
{
    let mut digits: Vec<u8> = Vec::new();
    if v >= 100 {
        digits.push(v / 100);
    }
    if v >= 10 {
        digits.push((v / 10) % 10);
    }
    digits.push(v % 10);
    proof {
        assert(digits@ =~= decimal_digits(v));
    }
    digits
}

impl Emulator {
    /// Draws the font glyph at memory address `z` at `(x, y)`: a nibble of
    /// `0xF` writes the font colour, any other nibble leaves the pixel as it
    /// was. Coordinates wrap modulo 64.
    pub fn draw_font(&mut self, x: u8, y: u8, z: usize)
        requires
            z + GLYPH_BYTES <= RAM_SIZE,
        ensures
            final(self)@ == old(self)@.with_screen(
                blit(
                    old(self)@.screen,
                    old(self)@.ram,
                    BlitRule::KeyedStencil,
                    old(self)@.f_reg,
                    z as int,
                    x,
                    y,
                ),
            ),
            final(self)@.wf(),
    {
        self.blit_glyph(BlitRule::KeyedStencil, x, y, z);
    }

    /// Draws the sprite at memory address `a` at `(x, y)`: a nonzero nibble
    /// is written as the pixel's colour, a zero nibble leaves the pixel as it
    /// was. Coordinates wrap modulo 64.
    pub fn draw_sprite(&mut self, x: u8, y: u8, a: usize)
        requires
            a + GLYPH_BYTES <= RAM_SIZE,
        ensures
            final(self)@ == old(self)@.with_screen(
                blit(
                    old(self)@.screen,
                    old(self)@.ram,
                    BlitRule::OpaqueNonzero,
                    old(self)@.f_reg,
                    a as int,
                    x,
                    y,
                ),
            ),
            final(self)@.wf(),
    {
        self.blit_glyph(BlitRule::OpaqueNonzero, x, y, a);
    }

    /// Draws the decimal digits of `v` as font glyphs from `(x, y)` on, each
    /// eight columns to the right of the one before.
    pub(super) fn draw_number(&mut self, v: u8, x: u8, y: u8)
        ensures
            final(self)@ == old(self)@.with_screen(
                blit_digits(
                    old(self)@.screen,
                    old(self)@.ram,
                    old(self)@.f_reg,
                    decimal_digits(v),
                    x,
                    y,
                ),
            ),
            final(self)@.wf(),
    {
        let ghost before = self@;
        let digits = digits_of(v);
        proof {
            use_type_invariant(&*self);
            assert(before.with_screen(before.screen) == before);
            assert(digits@.take(0) =~= Seq::<u8>::empty());
        }
        let mut k: usize = 0;
        while k < digits.len()
            invariant
                k <= digits@.len() <= 3,
                digits@ == decimal_digits(v),
                before == old(self)@,
                self@ == before.with_screen(
                    blit_digits(before.screen, before.ram, before.f_reg, digits@.take(k as int), x, y),
                ),
                self@.wf(),
            decreases digits@.len() - k,
        {
            let digit = digits[k];
            let ghost shown = digits@.take(k as int);
            let ghost next = digits@.take(k + 1);
            proof {
                assert(digit < 10);
                assert(next.drop_last() =~= shown);
                assert(next[k as int] == digit);
            }
            self.draw_font(
                x.wrapping_add((k * 8) as u8),
                y,
                (digit as usize * GLYPH_BYTES) + FONT_ROM_START,
            );
            k += 1;
        }
        proof {
            assert(digits@.take(k as int) =~= digits@);
        }
    }
}

} // verus!
