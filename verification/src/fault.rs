//! The fatal conditions of the machine, reported as values.

use vstd::prelude::*;

verus! {

/// The four classes of fatal condition.
#[derive(Clone, Copy, Debug, PartialEq, Eq, Structural)]
pub enum FaultKind {
    /// A fetch, a load or a glyph read reaches outside memory.
    Addressing,
    /// The instruction word matches no pattern of the instruction table.
    UnimplementedOpcode,
    /// A skip-on-key instruction names a key that does not exist.
    InvalidKeyIndex,
    /// A register division has a zero divisor.
    Arithmetic,
}

/// A fatal condition together with where it arose.
#[derive(Clone, Copy, Debug, PartialEq, Eq, Structural)]
pub struct Fault {
    /// The class of the condition.
    pub kind: FaultKind,
    /// The instruction word that was being executed; `None` when the fault
    /// arose before any word was available (a fetch or a load).
    pub opcode: Option<u16>,
    /// The program counter at the moment the fault was raised.
    pub pc: u16,
}

} // verus!
