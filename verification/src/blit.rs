//! Glyphs and the two ways of blitting them onto the framebuffer, as
//! mathematical functions.

use crate::arith::wrap8;
use crate::layout::{FONT_ROM_START, GLYPH_BYTES, SCREEN_HEIGHT, SCREEN_WIDTH};
use vstd::prelude::*;

verus! {

/// The transparency rule of a blit.
#[derive(Clone, Copy, Debug, PartialEq, Eq, Structural)]
pub enum BlitRule {
    /// A nonzero nibble is written as the new colour; a zero nibble leaves
    /// the pixel as it was.
    OpaqueNonzero,
    /// A nibble of exactly `0xF` writes the font colour; any other nibble
    /// leaves the pixel as it was.
    KeyedStencil,
}

/// The grid has the framebuffer's shape and every pixel is a colour index
/// (0 to 15).
pub open spec fn screen_wf(screen: Seq<Seq<u8>>) -> bool {
    &&& screen.len() == SCREEN_WIDTH
    &&& forall|c: int| 0 <= c < SCREEN_WIDTH ==> (#[trigger] screen[c]).len() == SCREEN_HEIGHT
    &&& forall|c: int, r: int|
        0 <= c < SCREEN_WIDTH && 0 <= r < SCREEN_HEIGHT ==> #[trigger] screen[c][r] < 16
}

/// The framebuffer with every pixel at colour 0.
pub open spec fn blank_screen() -> Seq<Seq<u8>> {
    Seq::new(SCREEN_WIDTH as nat, |c: int| Seq::new(SCREEN_HEIGHT as nat, |r: int| 0u8))
}

/// Where the glyph selected by `index` starts inside a ROM that starts at
/// `rom_start`.
pub open spec fn glyph_address(rom_start: int, index: int) -> int {
    rom_start + index * GLYPH_BYTES
}

/// The pixel of the glyph at `base` that lies `dc` columns and `dr` rows from
/// the glyph's top-left corner: rows are four bytes apart, and a byte holds
/// the even column in its high nibble and the odd column in its low nibble.
pub open spec fn glyph_nibble(ram: Seq<u8>, base: int, dc: int, dr: int) -> u8 {
    let byte = ram[base + 4 * dr + dc / 2];
    if dc % 2 == 0 {
        byte / 16
    } else {
        byte % 16
    }
}

/// How far column `c` lies to the right of column `x` on the torus.
pub open spec fn column_offset(x: u8, c: int) -> int {
    (c - x) % (SCREEN_WIDTH as int)
}

/// How far row `r` lies below row `y` on the torus.
pub open spec fn row_offset(y: u8, r: int) -> int {
    (r - y) % (SCREEN_HEIGHT as int)
}

/// Pixel `(c, r)` lies under the 8x8 glyph whose top-left corner is at
/// `(x, y)`, with both coordinates wrapping.
pub open spec fn under_glyph(x: u8, y: u8, c: int, r: int) -> bool {
    column_offset(x, c) < 8 && row_offset(y, r) < 8
}

/// The colour that a blit under `rule` writes for glyph nibble `nibble`, or
/// `None` where the nibble is transparent; `color` is the font colour.
pub open spec fn ink(rule: BlitRule, nibble: u8, color: u8) -> Option<u8> {
    match rule {
        BlitRule::OpaqueNonzero => if nibble != 0 {
            Some(nibble)
        } else {
            None
        },
        BlitRule::KeyedStencil => if nibble == 0xF {
            Some(color)
        } else {
            None
        },
    }
}

/// The colour a pixel has after a blit under `rule` met it with glyph nibble
/// `nibble`, where `below` is the pixel's colour before.
pub open spec fn blended(rule: BlitRule, nibble: u8, color: u8, below: u8) -> u8 {
    match ink(rule, nibble, color) {
        Some(written) => written,
        None => below,
    }
}

/// The colour of pixel `(c, r)` after the glyph at `base` was blitted at
/// `(x, y)`.
pub open spec fn blit_pixel(
    screen: Seq<Seq<u8>>,
    ram: Seq<u8>,
    rule: BlitRule,
    color: u8,
    base: int,
    x: u8,
    y: u8,
    c: int,
    r: int,
) -> u8 {
    if under_glyph(x, y, c, r) {
        blended(
            rule,
            glyph_nibble(ram, base, column_offset(x, c), row_offset(y, r)),
            color,
            screen[c][r],
        )
    } else {
        screen[c][r]
    }
}

/// The framebuffer after the glyph at `base` was blitted at `(x, y)`.
pub open spec fn blit(
    screen: Seq<Seq<u8>>,
    ram: Seq<u8>,
    rule: BlitRule,
    color: u8,
    base: int,
    x: u8,
    y: u8,
) -> Seq<Seq<u8>> {
    Seq::new(
        SCREEN_WIDTH as nat,
        |c: int|
            Seq::new(
                SCREEN_HEIGHT as nat,
                |r: int| blit_pixel(screen, ram, rule, color, base, x, y, c, r),
            ),
    )
}

/// The decimal digits of `v`, most significant first, without leading zeros.
pub open spec fn decimal_digits(v: u8) -> Seq<u8> {
    if v >= 100 {
        seq![v / 100, (v / 10) % 10, v % 10]
    } else if v >= 10 {
        seq![v / 10, v % 10]
    } else {
        seq![v]
    }
}

/// The framebuffer after the font glyphs of `digits` were blitted from left
/// to right, the first at `(x, y)` and each one eight columns to the right of
/// the one before.
pub open spec fn blit_digits(
    screen: Seq<Seq<u8>>,
    ram: Seq<u8>,
    color: u8,
    digits: Seq<u8>,
    x: u8,
    y: u8,
) -> Seq<Seq<u8>>
    decreases digits.len(),
{
    if digits.len() == 0 {
        screen
    } else {
        let k = digits.len() - 1;
        blit(
            blit_digits(screen, ram, color, digits.drop_last(), x, y),
            ram,
            BlitRule::KeyedStencil,
            color,
            glyph_address(FONT_ROM_START as int, digits[k] as int),
            wrap8(x + 8 * k),
            y,
        )
    }
}

} // verus!
