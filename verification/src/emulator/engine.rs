//! The decode/execute engine: one instruction word, or one whole step.

use super::Emulator;
use crate::arith::{overlaps_after, overlaps_before};
use crate::blit::blank_screen;
use crate::entropy::random_below;
use crate::fault::{Fault, FaultKind};
use crate::instruction::{decode, spec_decode, Instruction};
use crate::layout::{
    FONT_ROM_START, GLYPH_BYTES, KEY_COUNT, RAM_SIZE, REGISTER_COUNT, SCREEN_HEIGHT,
    SCREEN_WIDTH, SPRITE_ROM_START,
};
use crate::machine::is_random;
use vstd::prelude::*;

verus! {

/// The value that `decoded` stores if it is the random instruction, drawn
/// below 16; zero for every other instruction, which ignores it.
fn draw_for(decoded: Option<Instruction>) -> (rnd: u8)
    ensures
        rnd < 16,
        !(decoded matches Some(Instruction::Random { .. })) ==> rnd == 0,
{
    match decoded {
        Some(Instruction::Random { .. }) => random_below(16),
        _ => 0,
    }
}

impl Emulator {
    /// Moves the program counter past the next instruction if `taken` holds.
    fn skip_if(&mut self, taken: bool)
        ensures
            final(self)@ == old(self)@.skip_if(taken),
    {
        proof {
            use_type_invariant(&*self);
        }
        if taken {
            self.pc = self.pc.wrapping_add(2);
        }
    }

    /// The value of register `i`.
    fn reg(&self, i: u8) -> (value: u8)
        requires
            i < REGISTER_COUNT,
        ensures
            value == self@.reg(i),
    {
        self.s_regs[i as usize]
    }

    /// Sets register `i` to `value`.
    fn set_reg(&mut self, i: u8, value: u8)
        requires
            i < REGISTER_COUNT,
        ensures
            final(self)@ == old(self)@.with_reg(i, value),
    {
        proof {
            use_type_invariant(&*self);
        }
        self.s_regs[i as usize] = value;
    }

    /// Executes one decoded instruction. `rnd` is the value that the random
    /// instruction stores. A fault changes nothing.
    fn apply(&mut self, ins: Instruction, rnd: u8) -> (res: Result<(), FaultKind>)
        requires
            ins.operands_in_range(),
        ensures
            match old(self)@.execute(ins, rnd) {
                Ok(next) => res is Ok && final(self)@ == next,
                Err(kind) => res == Err::<(), FaultKind>(kind) && final(self)@ == old(self)@,
            },
            final(self)@.wf(),
    {
        proof {
            use_type_invariant(&*self);
        }
        match ins {
            Instruction::Nop => {},
            Instruction::ClearScreen => {
                self.screen = [[0;SCREEN_HEIGHT];SCREEN_WIDTH];
                proof {
                    assert(self@.screen =~~= blank_screen());
                }
            },
            Instruction::Jump { addr } => {
                self.pc = addr;
            },
            Instruction::SetImm { x, nn } => {
                self.set_reg(x, nn);
            },
            Instruction::AddImm { x, nn } => {
                let sum = self.reg(x).wrapping_add(nn);
                self.set_reg(x, sum);
            },
            Instruction::SubImm { x, nn } => {
                let difference = self.reg(x).wrapping_sub(nn);
                self.set_reg(x, difference);
            },
            Instruction::Move { y, z } => {
                let value = self.reg(z);
                self.set_reg(y, value);
            },
            Instruction::AddReg { y, z } => {
                let sum = self.reg(y).wrapping_add(self.reg(z));
                self.set_reg(y, sum);
            },
            Instruction::SubReg { y, z } => {
                let difference = self.reg(y).wrapping_sub(self.reg(z));
                self.set_reg(y, difference);
            },
            Instruction::MulReg { y, z } => {
                let product = self.reg(y).wrapping_mul(self.reg(z));
                self.set_reg(y, product);
            },
            Instruction::DivReg { y, z } => {
                let divisor = self.reg(z);
                if divisor == 0 {
                    return Err(FaultKind::Arithmetic);
                }
                let quotient = self.reg(y) / divisor;
                self.set_reg(y, quotient);
            },
            Instruction::SkipEq { y, z } => {
                let taken = self.reg(y) == self.reg(z);
                self.skip_if(taken);
            },
            Instruction::SkipNe { y, z } => {
                let taken = self.reg(y) != self.reg(z);
                self.skip_if(taken);
            },
            Instruction::SkipGt { y, z } => {
                let taken = self.reg(y) > self.reg(z);
                self.skip_if(taken);
            },
            Instruction::SkipOverlapBefore { y, z } => {
                let taken = overlaps_before(self.reg(y), self.reg(z));
                self.skip_if(taken);
            },
            Instruction::SkipOverlapAfter { y, z } => {
                let taken = overlaps_after(self.reg(y), self.reg(z));
                self.skip_if(taken);
            },
            Instruction::SkipCollide { y, z } => {
                let a = self.reg(y);
                let b = self.reg(z);
                let taken = overlaps_before(a, b) || overlaps_after(a, b) || a == b;
                self.skip_if(taken);
            },
            Instruction::SetColor { n } => {
                self.f_reg = n;
            },
            Instruction::SetColorFromReg { n } => {
                self.f_reg = self.reg(n) % 16;
            },
            Instruction::Random { n } => {
                self.set_reg(n, rnd);
            },
            Instruction::SetLoopFromReg { n } => {
                self.loop_point = (self.reg(n) % 16) as u16;
            },
            Instruction::SetLoop { n } => {
                self.loop_point = n as u16;
            },
            Instruction::SkipKey { n } => {
                let key = self.reg(n) as usize;
                if key >= KEY_COUNT {
                    return Err(FaultKind::InvalidKeyIndex);
                }
                let taken = self.keys[key];
                self.skip_if(taken);
            },
            Instruction::SkipNotKey { n } => {
                let key = self.reg(n) as usize;
                if key >= KEY_COUNT {
                    return Err(FaultKind::InvalidKeyIndex);
                }
                let taken = !self.keys[key];
                self.skip_if(taken);
            },
            Instruction::SkipRel { count, y, z } => {
                if self.reg(y) != self.reg(z) {
                    self.pc = self.pc.wrapping_add(count as u16 * 2);
                }
            },
            Instruction::DrawSprite { sprite, y, z } => {
                let a = (sprite as usize * GLYPH_BYTES) + SPRITE_ROM_START;
                let x = self.reg(y);
                let y = self.reg(z);
                self.draw_sprite(x, y, a);
            },
            Instruction::DrawNumber { x, y, z } => {
                let v = self.reg(x);
                let x = self.reg(y);
                let y = self.reg(z);
                self.draw_number(v, x, y);
            },
            Instruction::DrawDigit { x, y, z } => {
                let z_addr = (self.reg(x) as usize * GLYPH_BYTES) + FONT_ROM_START;
                if z_addr + GLYPH_BYTES > RAM_SIZE {
                    return Err(FaultKind::Addressing);
                }
                let x = self.reg(y);
                let y = self.reg(z);
                self.draw_font(x, y, z_addr);
            },
        }
        proof {
            use_type_invariant(&*self);
        }
        Ok(())
    }

    /// Executes the instruction word `op`, already decoded as `decoded`.
    fn execute_decoded(&mut self, op: u16, decoded: Option<Instruction>, rnd: u8) -> (res: Result<
        (),
        Fault,
    >)
        requires
            decoded == spec_decode(op),
            decoded matches Some(ins) ==> ins.operands_in_range(),
        ensures
            final(self)@ == old(self)@.after_word(op, rnd),
            res == old(self)@.word_result(op, rnd),
            final(self)@.wf(),
    {
        proof {
            use_type_invariant(&*self);
        }
        match decoded {
            Some(ins) => match self.apply(ins, rnd) {
                Ok(()) => Ok(()),
                Err(kind) => Err(Fault { kind, opcode: Some(op), pc: self.pc }),
            },
            None => Err(
                Fault { kind: FaultKind::UnimplementedOpcode, opcode: Some(op), pc: self.pc },
            ),
        }
    }

    /// Executes the instruction word `op`, with `rnd` as the value that the
    /// random instruction stores. A fault changes nothing and carries `op`
    /// and the program counter.
    pub fn execute_with(&mut self, op: u16, rnd: u8) -> (res: Result<(), Fault>)
        requires
            rnd < 16,
        ensures
            final(self)@ == old(self)@.after_word(op, rnd),
            res == old(self)@.word_result(op, rnd),
            final(self)@.wf(),
    {
        let decoded = decode(op);
        self.execute_decoded(op, decoded, rnd)
    }

    /// Executes the instruction word `op`. The random instruction stores a
    /// freshly drawn value below 16; every other instruction is
    /// deterministic. A fault changes nothing and carries `op` and the
    /// program counter.
    pub fn execute(&mut self, op: u16) -> (res: Result<(), Fault>)
        ensures
            exists|rnd: u8|
                rnd < 16 && final(self)@ == #[trigger] old(self)@.after_word(op, rnd) && res == old(
                    self,
                )@.word_result(op, rnd),
            !is_random(op) ==> final(self)@ == old(self)@.after_word(op, 0) && res == old(
                self,
            )@.word_result(op, 0),
            final(self)@.wf(),
    {
        let decoded = decode(op);
        let rnd = draw_for(decoded);
        self.execute_decoded(op, decoded, rnd)
    }

    /// Moves the program counter past the instruction word `op`, which was
    /// fetched at it, and executes the word.
    fn finish_step(&mut self, op: u16, decoded: Option<Instruction>, rnd: u8) -> (res: Result<
        u16,
        Fault,
    >)
        requires
            old(self)@.fetch() == Some(op),
            decoded == spec_decode(op),
            decoded matches Some(ins) ==> ins.operands_in_range(),
        ensures
            final(self)@ == old(self)@.step_state(rnd),
            res == old(self)@.step_result(rnd),
            final(self)@.wf(),
    {
        proof {
            use_type_invariant(&*self);
        }
        self.pc += 2;
        match self.execute_decoded(op, decoded, rnd) {
            Ok(()) => Ok(self.pc),
            Err(fault) => Err(fault),
        }
    }

    /// One step with `rnd` as the value that the random instruction stores:
    /// fetch the instruction word at the program counter, advance the
    /// counter by two, execute. Returns the resulting program counter.
    pub fn tick_with(&mut self, rnd: u8) -> (res: Result<u16, Fault>)
        requires
            rnd < 16,
        ensures
            final(self)@ == old(self)@.step_state(rnd),
            res == old(self)@.step_result(rnd),
            final(self)@.wf(),
    {
        proof {
            use_type_invariant(&*self);
        }
        match self.fetch_op() {
            Ok(op) => {
                let decoded = decode(op);
                self.finish_step(op, decoded, rnd)
            },
            Err(fault) => Err(fault),
        }
    }

    /// One step: fetch the instruction word at the program counter, advance
    /// the counter by two, execute. Returns the resulting program counter.
    /// The random instruction stores a freshly drawn value below 16; every
    /// other step is deterministic.
    pub fn tick(&mut self) -> (res: Result<u16, Fault>)
        ensures
            exists|rnd: u8|
                rnd < 16 && final(self)@ == #[trigger] old(self)@.step_state(rnd) && res == old(
                    self,
                )@.step_result(rnd),
            !old(self)@.draws_random() ==> final(self)@ == old(self)@.step_state(0) && res == old(
                self,
            )@.step_result(0),
            final(self)@.wf(),
    {
        proof {
            use_type_invariant(&*self);
        }
        match self.fetch_op() {
            Ok(op) => {
                let decoded = decode(op);
                let rnd = draw_for(decoded);
                self.finish_step(op, decoded, rnd)
            },
            Err(fault) => {
                proof {
                    assert(self@ == old(self)@.step_state(0u8));
                }
                Err(fault)
            },
        }
    }
}

} // verus!
