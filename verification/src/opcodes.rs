use crate::alu::{AluOp, ShiftOp};
use crate::instructions::{decode, Instruction};
use crate::registers::{Condition, Reg16, Reg8};
use vstd::prelude::*;

verus! {

/// An 8-bit place that an instruction reads and writes: a register, or the
/// memory cell that HL points at.
#[derive(Clone, Copy, Debug, PartialEq, Eq, Structural)]
pub enum Target {
    Reg8(Reg8),
    MemHL,
}

/// An 8-bit value that an instruction reads: a register, the memory cell that
/// HL points at, or the byte that follows the opcode.
#[derive(Clone, Copy, Debug, PartialEq, Eq, Structural)]
pub enum Source {
    Reg8(Reg8),
    MemHL,
    Imm8,
}

/// Where a load or store of the accumulator finds its memory cell.
#[derive(Clone, Copy, Debug, PartialEq, Eq, Structural)]
pub enum Address {
    /// The cell that BC points at.
    BC,
    /// The cell that DE points at.
    DE,
    /// The cell that HL points at; HL is incremented afterwards.
    HLInc,
    /// The cell that HL points at; HL is decremented afterwards.
    HLDec,
    /// The cell at the word that follows the opcode.
    Imm16,
    /// The cell at 0xFF00 plus the byte that follows the opcode.
    HighImm8,
    /// The cell at 0xFF00 plus register C.
    HighC,
}

/// An operation of the processor with the shape of its operands. Immediate
/// operands are not part of it: they follow the opcode in memory.
#[derive(Clone, Copy, Debug, PartialEq, Eq, Structural)]
pub enum OP {
    // 8-bit arithmetic and logic
    /// ADD, ADC, SUB, SBC, AND, XOR, OR, CP: A and the flags from A and the
    /// operand.
    Alu(AluOp, Source),
    /// INC on an 8-bit place.
    Inc(Target),
    /// DEC on an 8-bit place.
    Dec(Target),
    /// DAA: the decimal adjustment of A.
    Daa,
    /// CPL: the complement of A.
    Cpl,
    /// SCF: sets the carry.
    Scf,
    /// CCF: inverts the carry.
    Ccf,
    // 16-bit arithmetic
    /// ADD HL,rr.
    AddHLR16(Reg16),
    /// INC rr.
    IncR16(Reg16),
    /// DEC rr.
    DecR16(Reg16),
    /// ADD SP,e: the stack pointer plus the signed byte that follows.
    AddSPImm,
    // rotates of the accumulator
    /// RLCA.
    RlcA,
    /// RRCA.
    RrcA,
    /// RLA.
    RlA,
    /// RRA.
    RrA,
    // the prefixed table
    /// RLC, RRC, RL, RR, SLA, SRA, SWAP, SRL on an 8-bit place.
    Shift(ShiftOp, Target),
    /// BIT b: tests bit `b`, 0 to 7, of an 8-bit place.
    BitB(u8, Target),
    /// RES b: clears bit `b`, 0 to 7, of an 8-bit place.
    ResB(u8, Target),
    /// SET b: sets bit `b`, 0 to 7, of an 8-bit place.
    SetB(u8, Target),
    // loads
    /// LD between 8-bit places, or of the byte that follows.
    Ld(Target, Source),
    /// LD A,(..): A from a memory cell.
    LdA(Address),
    /// LD (..),A: A to a memory cell.
    StA(Address),
    /// LD rr,nn: the word that follows, to a register pair.
    LdR16Imm(Reg16),
    /// LD (nn),SP: the stack pointer to the two cells at the word that follows.
    LdImmSP,
    /// LD SP,HL.
    LdSPHL,
    /// LD HL,SP+e: the stack pointer plus the signed byte that follows, to HL.
    LdHLSPImm,
    /// PUSH rr.
    PushR16(Reg16),
    /// POP rr.
    PopR16(Reg16),
    // jumps and subroutines
    /// JP nn: to the word that follows.
    JpImm,
    /// JP cc,nn.
    JpCond(Condition),
    /// JP HL.
    JpHL,
    /// JR e: by the signed byte that follows, from the next instruction.
    Jr,
    /// JR cc,e.
    JrCond(Condition),
    /// CALL nn.
    Call,
    /// CALL cc,nn.
    CallCond(Condition),
    /// RET.
    Ret,
    /// RET cc.
    RetCond(Condition),
    /// RETI: returns and sets the interrupt master enable.
    Reti,
    /// RST: a call to the fixed address given.
    Rst(u16),
    // control
    /// NOP.
    Nop,
    /// HALT.
    Halt,
    /// STOP.
    Stop,
    /// DI: clears the interrupt master enable, and an enable that EI has armed.
    Di,
    /// EI: sets the interrupt master enable after the next instruction.
    Ei,
}

impl Target {
    /// The same place as a value to read.
    pub open spec fn source(self) -> Source {
        match self {
            Target::Reg8(reg) => Source::Reg8(reg),
            Target::MemHL => Source::MemHL,
        }
    }

    /// The same place as a value to read.
    pub fn as_source(self) -> (source: Source)
        ensures
            source == self.source(),
    {
        match self {
            Target::Reg8(reg) => Source::Reg8(reg),
            Target::MemHL => Source::MemHL,
        }
    }
}

impl OP {
    /// Whether the operation is one that this processor has: a bit index is
    /// below 8.
    pub open spec fn wf(self) -> bool {
        match self {
            OP::BitB(index, _) | OP::ResB(index, _) | OP::SetB(index, _) => index < 8,
            _ => true,
        }
    }
}

impl OP {
    /// Decodes the instruction at the start of `bytes`, to its operation, its
    /// length in bytes and its base cost in cycles.
    pub fn from_bytes(bytes: &[u8]) -> (decoded: Option<(OP, usize, usize)>)
        ensures
            decoded == match decode(bytes@) {
                Some(instruction) => Some(
                    (instruction.opcode, instruction.size as usize, instruction.duration as usize),
                ),
                None => None,
            },
    {
        match Instruction::decode(bytes) {
            Some(instruction) => Some(
                (instruction.opcode, instruction.size as usize, instruction.duration as usize),
            ),
            None => None,
        }
    }
}

} // verus!
