//! Fixed sizes and region boundaries of the machine.

use vstd::prelude::*;

verus! {

/// Number of framebuffer columns.
pub const SCREEN_WIDTH: usize = 64;

/// Number of framebuffer rows.
pub const SCREEN_HEIGHT: usize = 64;

/// Size of the flat memory in bytes.
pub const RAM_SIZE: usize = 2208;

/// Number of general-purpose registers.
pub const REGISTER_COUNT: usize = 16;

/// Number of keys in the input latch.
pub const KEY_COUNT: usize = 6;

/// First address of the sprite ROM; the program region ends here.
pub const SPRITE_ROM_START: usize = 512;

/// First address of the font ROM; the sprite ROM ends here.
pub const FONT_ROM_START: usize = 1024;

/// Bytes per glyph: eight rows of four bytes, two pixels to the byte.
pub const GLYPH_BYTES: usize = 32;

/// Value the font colour register holds after construction.
pub const DEFAULT_FONT_COLOR: u8 = 15;

} // verus!
