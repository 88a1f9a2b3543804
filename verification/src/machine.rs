//! The machine as mathematical values, and what each instruction does to it.
//!
//! Everything here is ghost code: the executable emulator states its
//! contracts over [`Machine`], and the laws of the instruction set are proved
//! about it.

use crate::arith::{collide, overlap_after, overlap_before, wrap16, wrap8};
use crate::blit::{
    blank_screen, blit, blit_digits, decimal_digits, glyph_address, screen_wf, BlitRule,
};
use crate::fault::{Fault, FaultKind};
use crate::instruction::{spec_decode, Instruction};
use crate::layout::{
    DEFAULT_FONT_COLOR, FONT_ROM_START, GLYPH_BYTES, KEY_COUNT, RAM_SIZE, REGISTER_COUNT,
    SPRITE_ROM_START,
};
use vstd::prelude::*;

verus! {

/// The complete state of the machine.
#[verifier::ext_equal]
pub struct Machine {
    /// The flat memory.
    pub ram: Seq<u8>,
    /// The general registers `S[0..16)`.
    pub regs: Seq<u8>,
    /// The program counter.
    pub pc: u16,
    /// The delay timer.
    pub dt: u16,
    /// The loop point register.
    pub loop_point: u16,
    /// The font colour register.
    pub f_reg: u8,
    /// The framebuffer, indexed `screen[column][row]`.
    pub screen: Seq<Seq<u8>>,
    /// The key latch.
    pub keys: Seq<bool>,
}

/// The instruction word `op` selects the random instruction.
pub open spec fn is_random(op: u16) -> bool {
    spec_decode(op) matches Some(Instruction::Random { .. })
}

impl Machine {
    /// The state has the machine's shape: memory, registers, keys and
    /// framebuffer have their fixed sizes, and the font colour and every pixel
    /// are colour indices.
    pub open spec fn wf(self) -> bool {
        &&& self.ram.len() == RAM_SIZE
        &&& self.regs.len() == REGISTER_COUNT
        &&& self.keys.len() == KEY_COUNT
        &&& self.f_reg < 16
        &&& screen_wf(self.screen)
    }

    /// The state after construction: everything zero, no key pressed, and the
    /// font colour at its default.
    pub open spec fn initial() -> Machine {
        Machine {
            ram: Seq::new(RAM_SIZE as nat, |i: int| 0u8),
            regs: Seq::new(REGISTER_COUNT as nat, |i: int| 0u8),
            pc: 0,
            dt: 0,
            loop_point: 0,
            f_reg: DEFAULT_FONT_COLOR,
            screen: blank_screen(),
            keys: Seq::new(KEY_COUNT as nat, |i: int| false),
        }
    }

    /// The value of register `i`.
    pub open spec fn reg(self, i: u8) -> u8 {
        self.regs[i as int]
    }

    /// The state with register `i` set to `v`.
    pub open spec fn with_reg(self, i: u8, v: u8) -> Machine {
        Machine { regs: self.regs.update(i as int, v), ..self }
    }

    /// The state with the program counter set to `pc`.
    pub open spec fn with_pc(self, pc: u16) -> Machine {
        Machine { pc, ..self }
    }

    /// The state with the framebuffer replaced by `screen`.
    pub open spec fn with_screen(self, screen: Seq<Seq<u8>>) -> Machine {
        Machine { screen, ..self }
    }

    /// The state with key `k` pressed or released.
    pub open spec fn with_key(self, k: int, pressed: bool) -> Machine {
        Machine { keys: self.keys.update(k, pressed), ..self }
    }

    /// The state after the next instruction was skipped if `taken` holds.
    pub open spec fn skip_if(self, taken: bool) -> Machine {
        if taken {
            self.with_pc(wrap16(self.pc + 2))
        } else {
            self
        }
    }

    /// The range `[start, end)` lies inside memory and holds exactly `len`
    /// bytes.
    pub open spec fn load_fits(self, len: int, start: int, end: int) -> bool {
        0 <= start <= end <= self.ram.len() && end - start == len
    }

    /// The state after `data` was copied to memory from address `start` on.
    pub open spec fn load(self, data: Seq<u8>, start: int) -> Machine {
        Machine {
            ram: Seq::new(
                self.ram.len(),
                |i: int|
                    if start <= i < start + data.len() {
                        data[i - start]
                    } else {
                        self.ram[i]
                    },
            ),
            ..self
        }
    }

    /// The state after one tick of the delay timer.
    pub open spec fn tick_dt(self) -> Machine {
        Machine { dt: wrap16(self.dt + 1), ..self }
    }

    /// The instruction word at the program counter, big-endian, or `None`
    /// where its second byte would lie outside memory.
    pub open spec fn fetch(self) -> Option<u16> {
        if self.pc + 1 < self.ram.len() {
            Some((self.ram[self.pc as int] * 0x100 + self.ram[self.pc + 1]) as u16)
        } else {
            None
        }
    }

    /// The glyph for digit `digit` lies inside memory.
    pub open spec fn font_glyph_in_memory(self, digit: u8) -> bool {
        glyph_address(FONT_ROM_START as int, digit as int) + GLYPH_BYTES <= self.ram.len()
    }

    /// The state after `ins` was executed, or the class of the fault it
    /// raises. `rnd` is the value that a random instruction stores.
    pub open spec fn execute(self, ins: Instruction, rnd: u8) -> Result<Machine, FaultKind> {
        match ins {
            Instruction::Nop => Ok(self),
            Instruction::ClearScreen => Ok(self.with_screen(blank_screen())),
            Instruction::Jump { addr } => Ok(self.with_pc(addr)),
            Instruction::SetImm { x, nn } => Ok(self.with_reg(x, nn)),
            Instruction::AddImm { x, nn } => Ok(self.with_reg(x, wrap8(self.reg(x) + nn))),
            Instruction::SubImm { x, nn } => Ok(self.with_reg(x, wrap8(self.reg(x) - nn))),
            Instruction::Move { y, z } => Ok(self.with_reg(y, self.reg(z))),
            Instruction::AddReg { y, z } => Ok(
                self.with_reg(y, wrap8(self.reg(y) + self.reg(z))),
            ),
            Instruction::SubReg { y, z } => Ok(
                self.with_reg(y, wrap8(self.reg(y) - self.reg(z))),
            ),
            Instruction::MulReg { y, z } => Ok(
                self.with_reg(y, wrap8(self.reg(y) * self.reg(z))),
            ),
            Instruction::DivReg { y, z } => if self.reg(z) == 0 {
                Err(FaultKind::Arithmetic)
            } else {
                Ok(self.with_reg(y, (self.reg(y) as int / self.reg(z) as int) as u8))
            },
            Instruction::SkipEq { y, z } => Ok(self.skip_if(self.reg(y) == self.reg(z))),
            Instruction::SkipNe { y, z } => Ok(self.skip_if(self.reg(y) != self.reg(z))),
            Instruction::SkipGt { y, z } => Ok(self.skip_if(self.reg(y) > self.reg(z))),
            Instruction::SkipOverlapBefore { y, z } => Ok(
                self.skip_if(overlap_before(self.reg(y), self.reg(z))),
            ),
            Instruction::SkipOverlapAfter { y, z } => Ok(
                self.skip_if(overlap_after(self.reg(y), self.reg(z))),
            ),
            Instruction::SkipCollide { y, z } => Ok(
                self.skip_if(collide(self.reg(y), self.reg(z))),
            ),
            Instruction::SetColor { n } => Ok(Machine { f_reg: n, ..self }),
            Instruction::SetColorFromReg { n } => Ok(
                Machine { f_reg: (self.reg(n) % 16) as u8, ..self },
            ),
            Instruction::Random { n } => Ok(self.with_reg(n, rnd)),
            Instruction::SetLoopFromReg { n } => Ok(
                Machine { loop_point: (self.reg(n) % 16) as u16, ..self },
            ),
            Instruction::SetLoop { n } => Ok(Machine { loop_point: n as u16, ..self }),
            Instruction::SkipKey { n } => if self.reg(n) >= self.keys.len() {
                Err(FaultKind::InvalidKeyIndex)
            } else {
                Ok(self.skip_if(self.keys[self.reg(n) as int]))
            },
            Instruction::SkipNotKey { n } => if self.reg(n) >= self.keys.len() {
                Err(FaultKind::InvalidKeyIndex)
            } else {
                Ok(self.skip_if(!self.keys[self.reg(n) as int]))
            },
            Instruction::SkipRel { count, y, z } => if self.reg(y) != self.reg(z) {
                Ok(self.with_pc(wrap16(self.pc + 2 * count)))
            } else {
                Ok(self)
            },
            Instruction::DrawSprite { sprite, y, z } => Ok(
                self.with_screen(
                    blit(
                        self.screen,
                        self.ram,
                        BlitRule::OpaqueNonzero,
                        self.f_reg,
                        glyph_address(SPRITE_ROM_START as int, sprite as int),
                        self.reg(y),
                        self.reg(z),
                    ),
                ),
            ),
            Instruction::DrawNumber { x, y, z } => Ok(
                self.with_screen(
                    blit_digits(
                        self.screen,
                        self.ram,
                        self.f_reg,
                        decimal_digits(self.reg(x)),
                        self.reg(y),
                        self.reg(z),
                    ),
                ),
            ),
            Instruction::DrawDigit { x, y, z } => if !self.font_glyph_in_memory(self.reg(x)) {
                Err(FaultKind::Addressing)
            } else {
                Ok(
                    self.with_screen(
                        blit(
                            self.screen,
                            self.ram,
                            BlitRule::KeyedStencil,
                            self.f_reg,
                            glyph_address(FONT_ROM_START as int, self.reg(x) as int),
                            self.reg(y),
                            self.reg(z),
                        ),
                    ),
                )
            },
        }
    }

    /// The state after the instruction word `op` was executed, or the fault
    /// it raises, which carries `op` and the program counter.
    pub open spec fn execute_word(self, op: u16, rnd: u8) -> Result<Machine, Fault> {
        match spec_decode(op) {
            Some(ins) => match self.execute(ins, rnd) {
                Ok(next) => Ok(next),
                Err(kind) => Err(Fault { kind, opcode: Some(op), pc: self.pc }),
            },
            None => Err(
                Fault { kind: FaultKind::UnimplementedOpcode, opcode: Some(op), pc: self.pc },
            ),
        }
    }

    /// The state that executing the instruction word `op` leaves: a fault
    /// changes nothing.
    pub open spec fn after_word(self, op: u16, rnd: u8) -> Machine {
        match self.execute_word(op, rnd) {
            Ok(next) => next,
            Err(_) => self,
        }
    }

    /// What executing the instruction word `op` returns: nothing, or the
    /// fault.
    pub open spec fn word_result(self, op: u16, rnd: u8) -> Result<(), Fault> {
        match self.execute_word(op, rnd) {
            Ok(_) => Ok(()),
            Err(fault) => Err(fault),
        }
    }

    /// The state with the program counter moved past the instruction word it
    /// points at.
    pub open spec fn advanced(self) -> Machine {
        self.with_pc(wrap16(self.pc + 2))
    }

    /// The state after one step: fetch, advance the program counter by two,
    /// execute. A failed fetch leaves the state as it was; a fault during
    /// execution leaves it with the program counter advanced and nothing else
    /// changed.
    pub open spec fn step_state(self, rnd: u8) -> Machine {
        match self.fetch() {
            Some(op) => self.advanced().after_word(op, rnd),
            None => self,
        }
    }

    /// What one step returns: the resulting program counter, or the fault.
    pub open spec fn step_result(self, rnd: u8) -> Result<u16, Fault> {
        match self.fetch() {
            Some(op) => match self.advanced().execute_word(op, rnd) {
                Ok(next) => Ok(next.pc),
                Err(fault) => Err(fault),
            },
            None => Err(Fault { kind: FaultKind::Addressing, opcode: None, pc: self.pc }),
        }
    }

    /// The next step executes a random instruction, so its outcome depends
    /// on the value drawn.
    pub open spec fn draws_random(self) -> bool {
        self.fetch() matches Some(op) && is_random(op)
    }
}

} // verus!
