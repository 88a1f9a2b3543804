//! The executable machine: its state, how it is built, loaded and read.

mod draw;
mod engine;

use crate::blit::blank_screen;
use crate::fault::{Fault, FaultKind};
use crate::layout::{
    DEFAULT_FONT_COLOR, KEY_COUNT, RAM_SIZE, REGISTER_COUNT, SCREEN_HEIGHT, SCREEN_WIDTH,
};
use crate::machine::Machine;
use vstd::prelude::*;

verus! {

/// The machine: memory, registers, framebuffer and key latch, owned as one
/// value.
pub struct Emulator {
    ram: [u8; RAM_SIZE],
    s_regs: [u8; REGISTER_COUNT],
    pc: u16,
    dt: u16,
    loop_point: u16,
    f_reg: u8,
    screen: [[u8; SCREEN_HEIGHT]; SCREEN_WIDTH],
    keys: [bool; KEY_COUNT],
}

/// A framebuffer snapshot as a grid of values, indexed `[column][row]`.
pub open spec fn grid_view(grid: [[u8; SCREEN_HEIGHT]; SCREEN_WIDTH]) -> Seq<Seq<u8>> {
    Seq::new(SCREEN_WIDTH as nat, |c: int| grid@[c]@)
}

impl View for Emulator {
    type V = Machine;

    closed spec fn view(&self) -> Machine {
        Machine {
            ram: self.ram@,
            regs: self.s_regs@,
            pc: self.pc,
            dt: self.dt,
            loop_point: self.loop_point,
            f_reg: self.f_reg,
            screen: grid_view(self.screen),
            keys: self.keys@,
        }
    }
}

impl Clone for Emulator {
    /// A second machine in the same state.
    fn clone(&self) -> (copy: Self)
        ensures
            copy == *self,
    {
        proof {
            use_type_invariant(self);
        }
        Emulator {
            ram: self.ram,
            s_regs: self.s_regs,
            pc: self.pc,
            dt: self.dt,
            loop_point: self.loop_point,
            f_reg: self.f_reg,
            screen: self.screen,
            keys: self.keys,
        }
    }
}

impl Emulator {
    #[verifier::type_invariant]
    spec fn colors_in_range(self) -> bool {
        &&& self.f_reg < 16
        &&& forall|c: int, r: int|
            0 <= c < SCREEN_WIDTH && 0 <= r < SCREEN_HEIGHT ==> #[trigger] self.screen@[c]@[r]
                < 16
    }

    /// A machine with memory, registers, timers and framebuffer zeroed, no
    /// key pressed, and the font colour at 15.
    pub fn new() -> (emu: Self)
        ensures
            emu@ == Machine::initial(),
            emu@.wf(),
    {
        let emu = Emulator {
            ram: [0;RAM_SIZE],
            s_regs: [0;REGISTER_COUNT],
            pc: 0,
            dt: 0,
            loop_point: 0,
            f_reg: DEFAULT_FONT_COLOR,
            screen: [[0;SCREEN_HEIGHT];SCREEN_WIDTH],
            keys: [false;KEY_COUNT],
        };
        proof {
            assert(emu@.ram =~= Machine::initial().ram);
            assert(emu@.regs =~= Machine::initial().regs);
            assert(emu@.keys =~= Machine::initial().keys);
            assert(emu@.screen =~~= blank_screen());
        }
        emu
    }

    /// The loop point register.
    pub fn get_loop_point(&mut self) -> (value: u16)
        ensures
            value == old(self)@.loop_point,
            *final(self) == *old(self),
    {
        self.loop_point
    }

    /// The program counter.
    pub fn get_pc(&self) -> (value: u16)
        ensures
            value == self@.pc,
    {
        self.pc
    }

    /// The delay timer.
    pub fn get_dt(&self) -> (value: u16)
        ensures
            value == self@.dt,
    {
        self.dt
    }

    /// The font colour register; always a colour index.
    pub fn get_font_color(&self) -> (value: u8)
        ensures
            value == self@.f_reg,
            value < 16,
    {
        proof {
            use_type_invariant(self);
        }
        self.f_reg
    }

    /// The general register `index`.
    pub fn get_reg(&self, index: usize) -> (value: u8)
        requires
            index < REGISTER_COUNT,
        ensures
            value == self@.regs[index as int],
    {
        self.s_regs[index]
    }

    /// The byte of memory at `address`.
    pub fn get_ram(&self, address: usize) -> (value: u8)
        requires
            address < RAM_SIZE,
        ensures
            value == self@.ram[address as int],
    {
        self.ram[address]
    }

    /// Whether key `keycode` is pressed.
    pub fn is_key_down(&self, keycode: usize) -> (pressed: bool)
        requires
            keycode < KEY_COUNT,
        ensures
            pressed == self@.keys[keycode as int],
    {
        self.keys[keycode]
    }

    /// A snapshot of the framebuffer, indexed `[column][row]`.
    pub fn get_screen(&mut self) -> (grid: [[u8; SCREEN_HEIGHT]; SCREEN_WIDTH])
        ensures
            grid_view(grid) == old(self)@.screen,
            forall|c: int, r: int|
                0 <= c < SCREEN_WIDTH && 0 <= r < SCREEN_HEIGHT ==> #[trigger] grid@[c]@[r] == old(
                    self,
                )@.screen[c][r] && grid@[c]@[r] < 16,
            *final(self) == *old(self),
    {
        proof {
            use_type_invariant(&*self);
        }
        self.screen
    }

    /// Forces the program counter to `num`.
    pub fn set_pc(&mut self, num: u16)
        ensures
            final(self)@ == old(self)@.with_pc(num),
            final(self)@.wf(),
    {
        proof {
            use_type_invariant(&*self);
        }
        self.pc = num;
    }

    /// Advances the delay timer by one, wrapping at 2^16.
    pub fn tick_dt(&mut self)
        ensures
            final(self)@ == old(self)@.tick_dt(),
            final(self)@.wf(),
    {
        proof {
            use_type_invariant(&*self);
        }
        self.dt = self.dt.wrapping_add(1);
    }

    /// Marks key `keycode` as pressed.
    pub fn key_down(&mut self, keycode: usize)
        requires
            keycode < KEY_COUNT,
        ensures
            final(self)@ == old(self)@.with_key(keycode as int, true),
            final(self)@.wf(),
    {
        proof {
            use_type_invariant(&*self);
        }
        self.keys[keycode] = true;
    }

    /// Marks key `keycode` as released.
    pub fn key_up(&mut self, keycode: usize)
        requires
            keycode < KEY_COUNT,
        ensures
            final(self)@ == old(self)@.with_key(keycode as int, false),
            final(self)@.wf(),
    {
        proof {
            use_type_invariant(&*self);
        }
        self.keys[keycode] = false;
    }

    /// Copies `data` into memory at `[start, end)`. The range must lie inside
    /// memory and be exactly as long as `data`; otherwise nothing is copied
    /// and an addressing fault is returned.
    pub fn load(&mut self, data: &[u8], start: usize, end: usize) -> (res: Result<(), Fault>)
        ensures
            old(self)@.load_fits(data@.len() as int, start as int, end as int) ==> res is Ok
                && final(self)@ == old(self)@.load(data@, start as int),
            !old(self)@.load_fits(data@.len() as int, start as int, end as int) ==> res == Err::<
                (),
                Fault,
            >(Fault { kind: FaultKind::Addressing, opcode: None, pc: old(self)@.pc })
                && final(self)@ == old(self)@,
            final(self)@.wf(),
    {
        proof {
            use_type_invariant(&*self);
        }
        if start > end || end > RAM_SIZE || end - start != data.len() {
            return Err(Fault { kind: FaultKind::Addressing, opcode: None, pc: self.pc });
        }
        let mut i: usize = 0;
        while i < data.len()
            invariant
                start <= end <= RAM_SIZE,
                end - start == data@.len(),
                i <= data@.len(),
                self.s_regs == old(self).s_regs,
                self.pc == old(self).pc,
                self.dt == old(self).dt,
                self.loop_point == old(self).loop_point,
                self.f_reg == old(self).f_reg,
                self.screen == old(self).screen,
                self.keys == old(self).keys,
                forall|k: int|
                    0 <= k < RAM_SIZE ==> self.ram@[k] == if start <= k < start + i {
                        data@[k - start]
                    } else {
                        old(self).ram@[k]
                    },
            decreases data@.len() - i,
        {
            proof {
                use_type_invariant(&*self);
            }
            self.ram[start + i] = data[i];
            i += 1;
        }
        proof {
            assert(self@.ram =~= old(self)@.load(data@, start as int).ram);
        }
        Ok(())
    }

    /// Reads the instruction word at the program counter, big-endian. Where
    /// its second byte would lie outside memory, an addressing fault is
    /// returned.
    pub fn fetch_op(&mut self) -> (res: Result<u16, Fault>)
        ensures
            *final(self) == *old(self),
            match old(self)@.fetch() {
                Some(op) => res == Ok::<u16, Fault>(op),
                None => res == Err::<u16, Fault>(
                    Fault { kind: FaultKind::Addressing, opcode: None, pc: old(self)@.pc },
                ),
            },
    {
        let at = self.pc as usize;
        if at + 1 >= RAM_SIZE {
            return Err(Fault { kind: FaultKind::Addressing, opcode: None, pc: self.pc });
        }
        let higher_byte = self.ram[at] as u16;
        let lower_byte = self.ram[at + 1] as u16;
        let op = (higher_byte << 8) | lower_byte;
        proof {
            assert((higher_byte << 8) | lower_byte == higher_byte * 0x100 + lower_byte) by (bit_vector)
                requires
                    higher_byte < 0x100,
                    lower_byte < 0x100,
            ;
        }
        Ok(op)
    }
}

} // verus!
