//! Decode/execute core of a small 8-bit virtual machine: a flat memory with a
//! program region and two glyph ROMs, sixteen general registers, a 64x64
//! indexed-colour framebuffer and a six-key input latch.
//!
//! Every executable function carries a contract over the mathematical model
//! in [`machine`], and the algebraic laws of the instruction set are proved
//! in [`laws`].

pub mod arith;
pub mod blit;
pub mod emulator;
mod entropy;
pub mod fault;
pub mod instruction;
pub mod laws;
pub mod layout;
pub mod machine;

pub use blit::BlitRule;
pub use emulator::Emulator;
pub use fault::{Fault, FaultKind};
pub use instruction::{decode, Instruction};
pub use layout::{SCREEN_HEIGHT, SCREEN_WIDTH};
pub use machine::Machine;
