//! The fatal error kinds the core can surface: execution reached an opcode,
//! system register, bus region or interrupt that is not modeled yet. None of
//! them is recovered; the shell terminates the run.

use vstd::prelude::*;

use crate::instruction::Instruction;

verus! {

#[derive(Clone, Copy, Debug, PartialEq, Eq, Structural)]
pub enum EmuError {
    /// A read reached a bus region that is not modeled yet.
    UnimplementedRead { addr: u32 },
    /// A write reached a bus region that is not modeled yet, or the ROM,
    /// which does not accept writes.
    UnimplementedWrite { addr: u32 },
    /// Execution reached an instruction whose semantics are not modeled
    /// yet, or an illegal encoding.
    UnimplementedInstruction { pc: u32, instruction: Instruction },
    /// Interrupt delivery is not modeled yet.
    UnimplementedInterrupt { code: u16 },
}

} // verus!
