//! Laws of the instruction set, proved about the machine model.
//!
//! The executable emulator is tied to the model by its contracts, so each law
//! holds of every run of the emulator.

use crate::blit::{
    blank_screen, blended, blit, blit_digits, column_offset, decimal_digits, glyph_address,
    row_offset, screen_wf, under_glyph, BlitRule,
};
use crate::fault::{Fault, FaultKind};
use crate::instruction::{
    low_address, low_byte, nibble1, nibble2, nibble3, nibble4, spec_decode, word, word_with_byte,
    Instruction,
};
use crate::layout::{
    FONT_ROM_START, GLYPH_BYTES, KEY_COUNT, RAM_SIZE, SCREEN_HEIGHT, SCREEN_WIDTH,
    SPRITE_ROM_START,
};
use crate::machine::{is_random, Machine};
use vstd::arithmetic::div_mod::lemma_fundamental_div_mod_converse;
use vstd::prelude::*;

verus! {

/// A word put together from four nibbles splits into the same four nibbles.
pub proof fn law_word_splits_into_its_nibbles(d1: u8, d2: u8, d3: u8, d4: u8)
    requires
        d1 < 16,
        d2 < 16,
        d3 < 16,
        d4 < 16,
    ensures
        nibble1(word(d1, d2, d3, d4)) == d1,
        nibble2(word(d1, d2, d3, d4)) == d2,
        nibble3(word(d1, d2, d3, d4)) == d3,
        nibble4(word(d1, d2, d3, d4)) == d4,
        low_byte(word(d1, d2, d3, d4)) == d3 * 0x10 + d4,
        low_address(word(d1, d2, d3, d4)) == d2 * 0x100 + d3 * 0x10 + d4,
        word_with_byte(d1, d2, (d3 * 0x10 + d4) as u8) == word(d1, d2, d3, d4),
{
    let w = word(d1, d2, d3, d4) as int;
    lemma_fundamental_div_mod_converse(w, 0x1000, d1 as int, d2 * 0x100 + d3 * 0x10 + d4);
    lemma_fundamental_div_mod_converse(w, 0x100, d1 * 0x10 + d2, d3 * 0x10 + d4);
    lemma_fundamental_div_mod_converse(w, 0x10, d1 * 0x100 + d2 * 0x10 + d3, d4 as int);
    lemma_fundamental_div_mod_converse(d1 * 0x10 + d2, 0x10, d1 as int, d2 as int);
    lemma_fundamental_div_mod_converse(d1 * 0x100 + d2 * 0x10 + d3, 0x10, d1 * 0x10 + d2, d3 as int);
}

/// A word put together from two nibbles and a byte splits into the same
/// parts.
pub proof fn law_word_with_byte_splits(d1: u8, x: u8, nn: u8)
    requires
        d1 < 16,
        x < 16,
    ensures
        nibble1(word_with_byte(d1, x, nn)) == d1,
        nibble2(word_with_byte(d1, x, nn)) == x,
        low_byte(word_with_byte(d1, x, nn)) == nn,
        word_with_byte(d1, x, nn) == word(d1, x, nn / 0x10, nn % 0x10),
{
    law_word_splits_into_its_nibbles(d1, x, nn / 0x10, nn % 0x10);
}

/// Setting a register to `nn` and then adding zero to it leaves `nn` in it.
pub proof fn law_set_then_add_zero(m: Machine, x: u8, nn: u8, rnd: u8)
    requires
        m.wf(),
        x < 16,
    ensures
        m.word_result(word_with_byte(2, x, nn), rnd) is Ok,
        m.after_word(word_with_byte(2, x, nn), rnd).word_result(word_with_byte(3, x, 0), rnd) is Ok,
        m.after_word(word_with_byte(2, x, nn), rnd).after_word(word_with_byte(3, x, 0), rnd).reg(x)
            == nn,
{
    law_word_with_byte_splits(2, x, nn);
    law_word_with_byte_splits(3, x, 0);
}

/// Adding or subtracting an immediate works modulo 256 and touches no other
/// register.
pub proof fn law_immediate_arithmetic_is_modular(m: Machine, x: u8, nn: u8, rnd: u8)
    requires
        m.wf(),
        x < 16,
    ensures
        m.word_result(word_with_byte(3, x, nn), rnd) is Ok,
        m.after_word(word_with_byte(3, x, nn), rnd) == m.with_reg(
            x,
            ((m.reg(x) + nn) % 256) as u8,
        ),
        m.word_result(word_with_byte(4, x, nn), rnd) is Ok,
        m.after_word(word_with_byte(4, x, nn), rnd) == m.with_reg(
            x,
            ((m.reg(x) - nn) % 256) as u8,
        ),
{
    law_word_with_byte_splits(3, x, nn);
    law_word_with_byte_splits(4, x, nn);
}

/// Adding, subtracting or multiplying two registers works modulo 256 and
/// touches no register but the first.
pub proof fn law_register_arithmetic_is_modular(m: Machine, y: u8, z: u8, rnd: u8)
    requires
        m.wf(),
        y < 16,
        z < 16,
    ensures
        m.word_result(word(5, 1, y, z), rnd) is Ok,
        m.after_word(word(5, 1, y, z), rnd) == m.with_reg(y, ((m.reg(y) + m.reg(z)) % 256) as u8),
        m.word_result(word(5, 2, y, z), rnd) is Ok,
        m.after_word(word(5, 2, y, z), rnd) == m.with_reg(y, ((m.reg(y) - m.reg(z)) % 256) as u8),
        m.word_result(word(5, 3, y, z), rnd) is Ok,
        m.after_word(word(5, 3, y, z), rnd) == m.with_reg(y, ((m.reg(y) * m.reg(z)) % 256) as u8),
{
    law_word_splits_into_its_nibbles(5, 1, y, z);
    law_word_splits_into_its_nibbles(5, 2, y, z);
    law_word_splits_into_its_nibbles(5, 3, y, z);
}

/// Dividing by a register that holds zero is an arithmetic fault and changes
/// nothing; with any other divisor the quotient is stored.
pub proof fn law_division_checks_its_divisor(m: Machine, y: u8, z: u8, rnd: u8)
    requires
        m.wf(),
        y < 16,
        z < 16,
    ensures
        m.reg(z) == 0 ==> m.word_result(word(5, 4, y, z), rnd) == Err::<(), Fault>(
            Fault { kind: FaultKind::Arithmetic, opcode: Some(word(5, 4, y, z)), pc: m.pc },
        ) && m.after_word(word(5, 4, y, z), rnd) == m,
        m.reg(z) != 0 ==> m.word_result(word(5, 4, y, z), rnd) is Ok && m.after_word(
            word(5, 4, y, z),
            rnd,
        ) == m.with_reg(y, (m.reg(y) as int / m.reg(z) as int) as u8),
{
    law_word_splits_into_its_nibbles(5, 4, y, z);
}

/// A jump sets the program counter to the low twelve bits of its word and
/// changes nothing else.
pub proof fn law_jump_takes_low_twelve_bits(m: Machine, op: u16, rnd: u8)
    requires
        m.wf(),
        nibble1(op) == 1,
    ensures
        m.word_result(op, rnd) is Ok,
        m.after_word(op, rnd) == m.with_pc((op - 0x1000) as u16),
        m.after_word(op, rnd).pc < 0x1000,
{
}

/// Clearing the screen leaves every pixel at colour 0, whatever was there
/// before, and changes nothing else.
pub proof fn law_clear_zeroes_every_pixel(m: Machine, rnd: u8)
    requires
        m.wf(),
    ensures
        m.word_result(0x000C, rnd) is Ok,
        m.after_word(0x000C, rnd) == m.with_screen(blank_screen()),
        forall|c: int, r: int|
            0 <= c < SCREEN_WIDTH && 0 <= r < SCREEN_HEIGHT ==> #[trigger] m.after_word(
                0x000C,
                rnd,
            ).screen[c][r] == 0,
{
}

/// A skip-on-key instruction whose register names no key is an
/// invalid-key-index fault and changes nothing: no key state is read.
pub proof fn law_key_index_is_checked(m: Machine, n: u8, rnd: u8)
    requires
        m.wf(),
        n < 16,
        m.reg(n) >= KEY_COUNT,
    ensures
        m.word_result(word(9, 0, 0, n), rnd) == Err::<(), Fault>(
            Fault { kind: FaultKind::InvalidKeyIndex, opcode: Some(word(9, 0, 0, n)), pc: m.pc },
        ),
        m.after_word(word(9, 0, 0, n), rnd) == m,
        m.word_result(word(9, 1, 0, n), rnd) == Err::<(), Fault>(
            Fault { kind: FaultKind::InvalidKeyIndex, opcode: Some(word(9, 1, 0, n)), pc: m.pc },
        ),
        m.after_word(word(9, 1, 0, n), rnd) == m,
{
    law_word_splits_into_its_nibbles(9, 0, 0, n);
    law_word_splits_into_its_nibbles(9, 1, 0, n);
}

/// A blit places each glyph byte on the torus: byte `i` of glyph row `j`
/// gives its high nibble to column `x + 2i` and its low nibble to column
/// `x + 2i + 1`, both in row `y + j`, all modulo 64. No coordinate leaves the
/// framebuffer.
pub proof fn law_blit_wraps_around(
    screen: Seq<Seq<u8>>,
    ram: Seq<u8>,
    rule: BlitRule,
    color: u8,
    base: int,
    x: u8,
    y: u8,
    i: int,
    j: int,
)
    requires
        0 <= i < 4,
        0 <= j < 8,
    ensures
        ({
            let after = blit(screen, ram, rule, color, base, x, y);
            let left = (x + 2 * i) % 64;
            let right = (x + 2 * i + 1) % 64;
            let row = (y + j) % 64;
            let byte = ram[base + i + 4 * j];
            &&& 0 <= left < SCREEN_WIDTH
            &&& 0 <= right < SCREEN_WIDTH
            &&& 0 <= row < SCREEN_HEIGHT
            &&& after[left][row] == blended(rule, byte / 16, color, screen[left][row])
            &&& after[right][row] == blended(rule, byte % 16, color, screen[right][row])
        }),
{
    let left = (x + 2 * i) % 64;
    let right = (x + 2 * i + 1) % 64;
    let row = (y + j) % 64;
    assert(column_offset(x, left) == 2 * i);
    assert(column_offset(x, right) == 2 * i + 1);
    assert(row_offset(y, row) == j);
    assert(base + 4 * j + (2 * i) / 2 == base + i + 4 * j);
    assert(base + 4 * j + (2 * i + 1) / 2 == base + i + 4 * j);
}

/// A blit touches nothing but the 8x8 pixels under the glyph.
pub proof fn law_blit_leaves_the_rest(
    screen: Seq<Seq<u8>>,
    ram: Seq<u8>,
    rule: BlitRule,
    color: u8,
    base: int,
    x: u8,
    y: u8,
    c: int,
    r: int,
)
    requires
        0 <= c < SCREEN_WIDTH,
        0 <= r < SCREEN_HEIGHT,
        !under_glyph(x, y, c, r),
    ensures
        blit(screen, ram, rule, color, base, x, y)[c][r] == screen[c][r],
{
}

/// The sprite rule: a zero nibble leaves the pixel as it was, any other
/// nibble becomes the pixel's colour.
pub proof fn law_sprite_rule_is_opaque_nonzero(nibble: u8, color: u8, below: u8)
    ensures
        blended(BlitRule::OpaqueNonzero, 0, color, below) == below,
        nibble != 0 ==> blended(BlitRule::OpaqueNonzero, nibble, color, below) == nibble,
{
}

/// The font rule: a nibble of `0xF` writes the font colour, any other nibble
/// leaves the pixel as it was.
pub proof fn law_font_rule_is_keyed(nibble: u8, color: u8, below: u8)
    ensures
        blended(BlitRule::KeyedStencil, 0xF, color, below) == color,
        nibble != 0xF ==> blended(BlitRule::KeyedStencil, nibble, color, below) == below,
{
}

/// The draw instructions blit from the ROM of their kind: a sprite by the
/// sprite rule from the sprite ROM, a digit by the font rule from the font
/// ROM with the font colour, each at the position that two registers hold.
pub proof fn law_draw_instructions_blit(m: Machine, x: u8, y: u8, z: u8, rnd: u8)
    requires
        m.wf(),
        x < 16,
        y < 16,
        z < 16,
    ensures
        m.word_result(word(0xD, x, y, z), rnd) is Ok,
        m.after_word(word(0xD, x, y, z), rnd) == m.with_screen(
            blit(
                m.screen,
                m.ram,
                BlitRule::OpaqueNonzero,
                m.f_reg,
                SPRITE_ROM_START + x * GLYPH_BYTES,
                m.reg(y),
                m.reg(z),
            ),
        ),
        m.word_result(word(0xF, x, y, z), rnd) is Ok <==> FONT_ROM_START + m.reg(x) * GLYPH_BYTES
            + GLYPH_BYTES <= RAM_SIZE,
        m.word_result(word(0xF, x, y, z), rnd) is Ok ==> m.after_word(word(0xF, x, y, z), rnd)
            == m.with_screen(
            blit(
                m.screen,
                m.ram,
                BlitRule::KeyedStencil,
                m.f_reg,
                FONT_ROM_START + m.reg(x) * GLYPH_BYTES,
                m.reg(y),
                m.reg(z),
            ),
        ),
        m.word_result(word(0xE, x, y, z), rnd) is Ok,
        m.after_word(word(0xE, x, y, z), rnd) == m.with_screen(
            blit_digits(
                m.screen,
                m.ram,
                m.f_reg,
                decimal_digits(m.reg(x)),
                m.reg(y),
                m.reg(z),
            ),
        ),
{
    law_word_splits_into_its_nibbles(0xD, x, y, z);
    law_word_splits_into_its_nibbles(0xE, x, y, z);
    law_word_splits_into_its_nibbles(0xF, x, y, z);
}

/// A blit with a colour index as font colour keeps the framebuffer's shape
/// and every pixel a colour index.
pub proof fn law_blit_keeps_colors_in_range(
    screen: Seq<Seq<u8>>,
    ram: Seq<u8>,
    rule: BlitRule,
    color: u8,
    base: int,
    x: u8,
    y: u8,
)
    requires
        screen_wf(screen),
        color < 16,
    ensures
        screen_wf(blit(screen, ram, rule, color, base, x, y)),
{
    let after = blit(screen, ram, rule, color, base, x, y);
    assert forall|c: int, r: int|
        0 <= c < SCREEN_WIDTH && 0 <= r < SCREEN_HEIGHT implies #[trigger] after[c][r] < 16 by {
        assert(screen[c][r] < 16);
    }
}

/// Drawing digits keeps the framebuffer's shape and every pixel a colour
/// index.
pub proof fn law_digits_keep_colors_in_range(
    screen: Seq<Seq<u8>>,
    ram: Seq<u8>,
    color: u8,
    digits: Seq<u8>,
    x: u8,
    y: u8,
)
    requires
        screen_wf(screen),
        color < 16,
    ensures
        screen_wf(blit_digits(screen, ram, color, digits, x, y)),
    decreases digits.len(),
{
    if digits.len() > 0 {
        let k = digits.len() - 1;
        law_digits_keep_colors_in_range(screen, ram, color, digits.drop_last(), x, y);
        law_blit_keeps_colors_in_range(
            blit_digits(screen, ram, color, digits.drop_last(), x, y),
            ram,
            BlitRule::KeyedStencil,
            color,
            glyph_address(FONT_ROM_START as int, digits[k] as int),
            ((x + 8 * k) % 0x100) as u8,
            y,
        );
    }
}

/// Whatever word is executed, and whether or not it faults, the state keeps
/// its shape: the framebuffer stays 64x64 with every pixel a colour index,
/// and the font colour stays a colour index.
pub proof fn law_execution_keeps_the_state_well_formed(m: Machine, op: u16, rnd: u8)
    requires
        m.wf(),
    ensures
        m.after_word(op, rnd).wf(),
{
    match spec_decode(op) {
        Some(Instruction::DrawSprite { sprite, y, z }) => {
            law_blit_keeps_colors_in_range(
                m.screen,
                m.ram,
                BlitRule::OpaqueNonzero,
                m.f_reg,
                glyph_address(SPRITE_ROM_START as int, sprite as int),
                m.reg(y),
                m.reg(z),
            );
        },
        Some(Instruction::DrawDigit { x, y, z }) => {
            law_blit_keeps_colors_in_range(
                m.screen,
                m.ram,
                BlitRule::KeyedStencil,
                m.f_reg,
                glyph_address(FONT_ROM_START as int, m.reg(x) as int),
                m.reg(y),
                m.reg(z),
            );
        },
        Some(Instruction::DrawNumber { x, y, z }) => {
            law_digits_keep_colors_in_range(
                m.screen,
                m.ram,
                m.f_reg,
                decimal_digits(m.reg(x)),
                m.reg(y),
                m.reg(z),
            );
        },
        _ => {},
    }
}

/// A whole step keeps the state well formed, too.
pub proof fn law_step_keeps_the_state_well_formed(m: Machine, rnd: u8)
    requires
        m.wf(),
    ensures
        m.step_state(rnd).wf(),
{
    match m.fetch() {
        Some(op) => {
            law_execution_keeps_the_state_well_formed(m.advanced(), op, rnd);
        },
        None => {},
    }
}

/// Execution never writes memory, the key latch or the delay timer.
pub proof fn law_execution_only_reads_memory_keys_and_timer(m: Machine, op: u16, rnd: u8)
    ensures
        m.after_word(op, rnd).ram == m.ram,
        m.after_word(op, rnd).keys == m.keys,
        m.after_word(op, rnd).dt == m.dt,
{
}

/// Only the random instruction depends on the value drawn: every other word
/// leaves the same state and returns the same result for any two draws, and
/// the random instruction stores the draw in the register it names and never
/// faults.
pub proof fn law_only_the_random_instruction_uses_the_draw(m: Machine, op: u16, r1: u8, r2: u8)
    ensures
        !is_random(op) ==> m.after_word(op, r1) == m.after_word(op, r2) && m.word_result(op, r1)
            == m.word_result(op, r2),
        is_random(op) ==> m.after_word(op, r1) == m.with_reg(nibble4(op), r1) && m.word_result(
            op,
            r1,
        ) is Ok,
{
}

/// Every instruction that decoding yields names registers that exist, and a
/// jump target of at most twelve bits.
pub proof fn law_decoded_operands_are_in_range(op: u16)
    ensures
        spec_decode(op) matches Some(ins) ==> ins.operands_in_range(),
{
}

/// The all-zero word does nothing, and a word outside the instruction table
/// is an unimplemented-opcode fault that changes nothing.
pub proof fn law_nop_and_unlisted_words(m: Machine, op: u16, rnd: u8)
    ensures
        m.word_result(0x0000, rnd) is Ok,
        m.after_word(0x0000, rnd) == m,
        spec_decode(op) is None ==> m.word_result(op, rnd) == Err::<(), Fault>(
            Fault { kind: FaultKind::UnimplementedOpcode, opcode: Some(op), pc: m.pc },
        ) && m.after_word(op, rnd) == m,
{
}

/// An even program counter stays even: every instruction moves it by an even
/// amount or not at all, but for a jump, which sets it to its target.
pub proof fn law_program_counter_stays_even(m: Machine, rnd: u8)
    requires
        m.pc % 2 == 0,
        m.fetch() matches Some(op) ==> (nibble1(op) == 1 ==> low_address(op) % 2 == 0),
    ensures
        m.step_state(rnd).pc % 2 == 0,
{
}

/// Each of the sixteen sprites lies inside the sprite ROM, and the glyph of
/// each of the ten digits lies inside the font ROM.
pub proof fn law_glyphs_lie_inside_their_rom(index: int)
    ensures
        0 <= index < 16 ==> SPRITE_ROM_START <= glyph_address(SPRITE_ROM_START as int, index)
            && glyph_address(SPRITE_ROM_START as int, index) + GLYPH_BYTES <= FONT_ROM_START,
        0 <= index < 10 ==> FONT_ROM_START <= glyph_address(FONT_ROM_START as int, index)
            && glyph_address(FONT_ROM_START as int, index) + GLYPH_BYTES <= RAM_SIZE,
{
}

/// The number that a sequence of decimal digits spells.
pub open spec fn decimal_value(digits: Seq<u8>) -> int
    decreases digits.len(),
{
    if digits.len() == 0 {
        0
    } else {
        10 * decimal_value(digits.drop_last()) + digits.last()
    }
}

/// The digits drawn for a value spell that value: one to three digits, each
/// below ten, the first not zero unless it is the only one.
pub proof fn law_decimal_digits_spell_the_value(v: u8)
    ensures
        1 <= decimal_digits(v).len() <= 3,
        forall|k: int| 0 <= k < decimal_digits(v).len() ==> #[trigger] decimal_digits(v)[k] < 10,
        decimal_digits(v).len() > 1 ==> decimal_digits(v)[0] != 0,
        decimal_value(decimal_digits(v)) == v,
{
    let digits = decimal_digits(v);
    reveal_with_fuel(decimal_value, 4);
    if v >= 100 {
        assert(digits.drop_last() =~= seq![v / 100, (v / 10) % 10]);
        assert(digits.drop_last().drop_last() =~= seq![v / 100]);
        assert(digits.drop_last().drop_last().drop_last() =~= Seq::<u8>::empty());
    } else if v >= 10 {
        assert(digits.drop_last() =~= seq![v / 10]);
        assert(digits.drop_last().drop_last() =~= Seq::<u8>::empty());
    } else {
        assert(digits.drop_last() =~= Seq::<u8>::empty());
    }
}

} // verus!
