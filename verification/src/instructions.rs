use crate::alu::{AluOp, ShiftOp};
use crate::opcodes::{Address, Source, Target, OP};
use crate::registers::{Condition, Reg16, Reg8};
use vstd::prelude::*;

verus! {

/// An entry of the opcode catalog: the operation, the length of the
/// instruction in bytes, and its cost in cycles. A conditional branch has
/// two costs: `duration` when the condition fails, `branch_duration` when it
/// holds and the branch is taken.
#[derive(Clone, Copy, Debug, PartialEq, Eq)]
pub struct Instruction {
    pub opcode: OP,
    pub size: u8,
    pub duration: u8,
    pub branch_duration: Option<u8>,
}

/// The entry of an instruction with a single cost.
pub open spec fn plain(opcode: OP, size: u8, duration: u8) -> Instruction {
    Instruction { opcode, size, duration, branch_duration: None }
}

/// The entry of a conditional branch.
pub open spec fn branch(opcode: OP, size: u8, duration: u8, taken: u8) -> Instruction {
    Instruction { opcode, size, duration, branch_duration: Some(taken) }
}

/// The operand slot that a three-bit field of an opcode selects.
pub open spec fn target_of(field: int) -> Target {
    if field == 0 {
        Target::Reg8(Reg8::B)
    } else if field == 1 {
        Target::Reg8(Reg8::C)
    } else if field == 2 {
        Target::Reg8(Reg8::D)
    } else if field == 3 {
        Target::Reg8(Reg8::E)
    } else if field == 4 {
        Target::Reg8(Reg8::H)
    } else if field == 5 {
        Target::Reg8(Reg8::L)
    } else if field == 6 {
        Target::MemHL
    } else {
        Target::Reg8(Reg8::A)
    }
}

/// The register pair that a two-bit field selects in arithmetic and loads.
pub open spec fn pair_of(field: int) -> Reg16 {
    if field == 0 {
        Reg16::BC
    } else if field == 1 {
        Reg16::DE
    } else if field == 2 {
        Reg16::HL
    } else {
        Reg16::SP
    }
}

/// The register pair that a two-bit field selects in PUSH and POP.
pub open spec fn stack_pair_of(field: int) -> Reg16 {
    if field == 0 {
        Reg16::BC
    } else if field == 1 {
        Reg16::DE
    } else if field == 2 {
        Reg16::HL
    } else {
        Reg16::AF
    }
}

/// The cell that a two-bit field selects in the one-byte loads of A.
pub open spec fn address_of(field: int) -> Address {
    if field == 0 {
        Address::BC
    } else if field == 1 {
        Address::DE
    } else if field == 2 {
        Address::HLInc
    } else {
        Address::HLDec
    }
}

/// The condition that a two-bit field selects.
pub open spec fn condition_of(field: int) -> Condition {
    if field == 0 {
        Condition::NZ
    } else if field == 1 {
        Condition::Z
    } else if field == 2 {
        Condition::NC
    } else {
        Condition::C
    }
}

/// The accumulator operation that a three-bit field selects.
pub open spec fn alu_op_of(field: int) -> AluOp {
    if field == 0 {
        AluOp::Add
    } else if field == 1 {
        AluOp::Adc
    } else if field == 2 {
        AluOp::Sub
    } else if field == 3 {
        AluOp::Sbc
    } else if field == 4 {
        AluOp::And
    } else if field == 5 {
        AluOp::Xor
    } else if field == 6 {
        AluOp::Or
    } else {
        AluOp::Cp
    }
}

/// The rotate or shift that a three-bit field selects.
pub open spec fn shift_op_of(field: int) -> ShiftOp {
    if field == 0 {
        ShiftOp::Rlc
    } else if field == 1 {
        ShiftOp::Rrc
    } else if field == 2 {
        ShiftOp::Rl
    } else if field == 3 {
        ShiftOp::Rr
    } else if field == 4 {
        ShiftOp::Sla
    } else if field == 5 {
        ShiftOp::Sra
    } else if field == 6 {
        ShiftOp::Swap
    } else {
        ShiftOp::Srl
    }
}

/// The first quarter of the base table, 0x00 to 0x3F, by the fields of the
/// opcode: `y` is bits 5 to 3 and `z` bits 2 to 0.
pub open spec fn quarter_zero(y: int, z: int) -> Instruction {
    if z == 0 {
        if y == 0 {
            plain(OP::Nop, 1, 4)
        } else if y == 1 {
            plain(OP::LdImmSP, 3, 20)
        } else if y == 2 {
            plain(OP::Stop, 2, 4)
        } else if y == 3 {
            plain(OP::Jr, 2, 12)
        } else {
            branch(OP::JrCond(condition_of(y - 4)), 2, 8, 12)
        }
    } else if z == 1 {
        if y % 2 == 0 {
            plain(OP::LdR16Imm(pair_of(y / 2)), 3, 12)
        } else {
            plain(OP::AddHLR16(pair_of(y / 2)), 1, 8)
        }
    } else if z == 2 {
        if y % 2 == 0 {
            plain(OP::StA(address_of(y / 2)), 1, 8)
        } else {
            plain(OP::LdA(address_of(y / 2)), 1, 8)
        }
    } else if z == 3 {
        if y % 2 == 0 {
            plain(OP::IncR16(pair_of(y / 2)), 1, 8)
        } else {
            plain(OP::DecR16(pair_of(y / 2)), 1, 8)
        }
    } else if z == 4 {
        plain(OP::Inc(target_of(y)), 1, if y == 6 { 12 } else { 4 })
    } else if z == 5 {
        plain(OP::Dec(target_of(y)), 1, if y == 6 { 12 } else { 4 })
    } else if z == 6 {
        plain(OP::Ld(target_of(y), Source::Imm8), 2, if y == 6 { 12 } else { 8 })
    } else {
        plain(
            if y == 0 {
                OP::RlcA
            } else if y == 1 {
                OP::RrcA
            } else if y == 2 {
                OP::RlA
            } else if y == 3 {
                OP::RrA
            } else if y == 4 {
                OP::Daa
            } else if y == 5 {
                OP::Cpl
            } else if y == 6 {
                OP::Scf
            } else {
                OP::Ccf
            },
            1,
            4,
        )
    }
}

/// The last quarter of the base table, 0xC0 to 0xFF, by the fields of the
/// opcode. Eleven of its bytes have no instruction, and 0xCB is the prefix.
pub open spec fn quarter_three(y: int, z: int) -> Option<Instruction> {
    if z == 0 {
        if y < 4 {
            Some(branch(OP::RetCond(condition_of(y)), 1, 8, 20))
        } else if y == 4 {
            Some(plain(OP::StA(Address::HighImm8), 2, 12))
        } else if y == 5 {
            Some(plain(OP::AddSPImm, 2, 16))
        } else if y == 6 {
            Some(plain(OP::LdA(Address::HighImm8), 2, 12))
        } else {
            Some(plain(OP::LdHLSPImm, 2, 12))
        }
    } else if z == 1 {
        if y % 2 == 0 {
            Some(plain(OP::PopR16(stack_pair_of(y / 2)), 1, 12))
        } else if y == 1 {
            Some(plain(OP::Ret, 1, 16))
        } else if y == 3 {
            Some(plain(OP::Reti, 1, 16))
        } else if y == 5 {
            Some(plain(OP::JpHL, 1, 4))
        } else {
            Some(plain(OP::LdSPHL, 1, 8))
        }
    } else if z == 2 {
        if y < 4 {
            Some(branch(OP::JpCond(condition_of(y)), 3, 12, 16))
        } else if y == 4 {
            Some(plain(OP::StA(Address::HighC), 1, 8))
        } else if y == 5 {
            Some(plain(OP::StA(Address::Imm16), 3, 16))
        } else if y == 6 {
            Some(plain(OP::LdA(Address::HighC), 1, 8))
        } else {
            Some(plain(OP::LdA(Address::Imm16), 3, 16))
        }
    } else if z == 3 {
        if y == 0 {
            Some(plain(OP::JpImm, 3, 16))
        } else if y == 6 {
            Some(plain(OP::Di, 1, 4))
        } else if y == 7 {
            Some(plain(OP::Ei, 1, 4))
        } else {
            None
        }
    } else if z == 4 {
        if y < 4 {
            Some(branch(OP::CallCond(condition_of(y)), 3, 12, 24))
        } else {
            None
        }
    } else if z == 5 {
        if y % 2 == 0 {
            Some(plain(OP::PushR16(stack_pair_of(y / 2)), 1, 16))
        } else if y == 1 {
            Some(plain(OP::Call, 3, 24))
        } else {
            None
        }
    } else if z == 6 {
        Some(plain(OP::Alu(alu_op_of(y), Source::Imm8), 2, 8))
    } else {
        Some(plain(OP::Rst((y * 8) as u16), 1, 16))
    }
}

/// The base table: the entry of a one-byte opcode, by its fields. The top
/// two bits choose the quarter; 0x40 to 0x7F are the register loads, with
/// HALT in the place of a load from (HL) to (HL), and 0x80 to 0xBF the
/// accumulator operations.
pub open spec fn base_entry(byte: u8) -> Option<Instruction> {
    let x = byte as int / 64;
    let y = (byte as int / 8) % 8;
    let z = byte as int % 8;
    if x == 0 {
        Some(quarter_zero(y, z))
    } else if x == 1 {
        if y == 6 && z == 6 {
            Some(plain(OP::Halt, 1, 4))
        } else {
            Some(
                plain(
                    OP::Ld(target_of(y), target_of(z).source()),
                    1,
                    if y == 6 || z == 6 { 8 } else { 4 },
                ),
            )
        }
    } else if x == 2 {
        Some(plain(OP::Alu(alu_op_of(y), target_of(z).source()), 1, if z == 6 { 8 } else { 4 }))
    } else {
        quarter_three(y, z)
    }
}

/// The prefixed table: the entry that the byte after 0xCB selects. Every
/// byte has one, two bytes long with the prefix.
pub open spec fn prefixed_entry(byte: u8) -> Instruction {
    let x = byte as int / 64;
    let y = (byte as int / 8) % 8;
    let z = byte as int % 8;
    let target = target_of(z);
    if x == 0 {
        plain(OP::Shift(shift_op_of(y), target), 2, if z == 6 { 16 } else { 8 })
    } else if x == 1 {
        plain(OP::BitB(y as u8, target), 2, if z == 6 { 12 } else { 8 })
    } else if x == 2 {
        plain(OP::ResB(y as u8, target), 2, if z == 6 { 16 } else { 8 })
    } else {
        plain(OP::SetB(y as u8, target), 2, if z == 6 { 16 } else { 8 })
    }
}

/// The instruction that a byte stream starts with. After the prefix 0xCB the
/// second byte chooses in the prefixed table; any other first byte chooses in
/// the base table. There is none where the stream is empty, where the first
/// byte has no entry, or where the stream holds fewer bytes than the
/// instruction is long.
pub open spec fn decode(bytes: Seq<u8>) -> Option<Instruction> {
    if bytes.len() == 0 {
        None
    } else if bytes[0] == 0xCB {
        if bytes.len() >= 2 {
            Some(prefixed_entry(bytes[1]))
        } else {
            None
        }
    } else {
        match base_entry(bytes[0]) {
            Some(instruction) => if bytes.len() >= instruction.size {
                Some(instruction)
            } else {
                None
            },
            None => None,
        }
    }
}

/// The eleven bytes that stand for no instruction.
pub open spec fn is_illegal(byte: u8) -> bool {
    byte == 0xD3 || byte == 0xDB || byte == 0xDD || byte == 0xE3 || byte == 0xE4 || byte == 0xEB
        || byte == 0xEC || byte == 0xED || byte == 0xF4 || byte == 0xFC || byte == 0xFD
}

/// The length in bytes of the instruction that starts with `byte`; 1 for an
/// illegal byte, which starts none.
pub open spec fn instruction_length(byte: u8) -> int {
    match byte {
        0x01 | 0x11 | 0x21 | 0x31 => 3,
        0x08 => 3,
        0xC2 | 0xCA | 0xD2 | 0xDA => 3,
        0xC4 | 0xCC | 0xD4 | 0xDC => 3,
        0xC3 | 0xCD | 0xEA | 0xFA => 3,
        0x06 | 0x0E | 0x16 | 0x1E | 0x26 | 0x2E | 0x36 | 0x3E => 2,
        0xC6 | 0xCE | 0xD6 | 0xDE | 0xE6 | 0xEE | 0xF6 | 0xFE => 2,
        0x18 | 0x20 | 0x28 | 0x30 | 0x38 => 2,
        0xE0 | 0xF0 | 0xE8 | 0xF8 => 2,
        0x10 | 0xCB => 2,
        _ => 1,
    }
}

impl Instruction {
    /// Whether the entry is one that the catalog can hold: it is one to three
    /// bytes long and its operation is well formed.
    pub open spec fn wf(self) -> bool {
        1 <= self.size <= 3 && self.opcode.wf()
    }

    /// The cost in cycles, by whether a branch was taken.
    pub open spec fn cost(self, taken: bool) -> u8 {
        match self.branch_duration {
            Some(cycles) if taken => cycles,
            _ => self.duration,
        }
    }

    /// The entry of an instruction with a single cost.
    pub fn new(opcode: OP, size: u8, duration: u8) -> (instruction: Instruction)
        ensures
            instruction == plain(opcode, size, duration),
    {
        Instruction { opcode, size, duration, branch_duration: None }
    }

    /// The entry of a conditional branch, with its two costs.
    pub fn branching(opcode: OP, size: u8, duration: u8, taken: u8) -> (instruction: Instruction)
        ensures
            instruction == branch(opcode, size, duration, taken),
    {
        Instruction { opcode, size, duration, branch_duration: Some(taken) }
    }

    /// The cost in cycles, by whether a branch was taken.
    pub fn cycles(&self, taken: bool) -> (cycles: u8)
        ensures
            cycles == self.cost(taken),
    {
        match self.branch_duration {
            Some(cycles) => if taken {
                cycles
            } else {
                self.duration
            },
            None => self.duration,
        }
    }

    /// Looks an opcode up in the prefixed table or in the base table.
    pub fn from_byte(byte: u8, prefixed: bool) -> (entry: Option<Instruction>)
        ensures
            entry == (if prefixed {
                Some(prefixed_entry(byte))
            } else {
                base_entry(byte)
            }),
    {
        if prefixed {
            Instruction::from_byte_prefixed(byte)
        } else {
            Instruction::from_byte_unprefixed(byte)
        }
    }

    /// Decodes the instruction at the start of `bytes`.
    pub fn decode(bytes: &[u8]) -> (entry: Option<Instruction>)
        ensures
            entry == decode(bytes@),
    {
        if bytes.len() == 0 {
            None
        } else if bytes[0] == 0xCB {
            if bytes.len() >= 2 {
                Instruction::from_byte_prefixed(bytes[1])
            } else {
                None
            }
        } else {
            match Instruction::from_byte_unprefixed(bytes[0]) {
                Some(instruction) => {
                    if bytes.len() >= instruction.size as usize {
                        Some(instruction)
                    } else {
                        None
                    }
                },
                None => None,
            }
        }
    }

    /// Looks a byte up in the prefixed table.
    pub fn from_byte_prefixed(byte: u8) -> (entry: Option<Instruction>)
        ensures
            entry == Some(prefixed_entry(byte)),
    {
        let x = byte >> 6;
        let y = (byte >> 3) & 0x07;
        let z = byte & 0x07;
        assert(byte >> 6 == byte / 64 && (byte >> 3) & 0x07 == (byte / 8) % 8 && byte & 0x07
            == byte % 8) by (bit_vector);
        let target = match z {
            0 => Target::Reg8(Reg8::B),
            1 => Target::Reg8(Reg8::C),
            2 => Target::Reg8(Reg8::D),
            3 => Target::Reg8(Reg8::E),
            4 => Target::Reg8(Reg8::H),
            5 => Target::Reg8(Reg8::L),
            6 => Target::MemHL,
            _ => Target::Reg8(Reg8::A),
        };
        let memory = z == 6;
        let entry = match x {
            0 => {
                let op = match y {
                    0 => ShiftOp::Rlc,
                    1 => ShiftOp::Rrc,
                    2 => ShiftOp::Rl,
                    3 => ShiftOp::Rr,
                    4 => ShiftOp::Sla,
                    5 => ShiftOp::Sra,
                    6 => ShiftOp::Swap,
                    _ => ShiftOp::Srl,
                };
                Instruction::new(OP::Shift(op, target), 2, if memory { 16 } else { 8 })
            },
            1 => Instruction::new(OP::BitB(y, target), 2, if memory { 12 } else { 8 }),
            2 => Instruction::new(OP::ResB(y, target), 2, if memory { 16 } else { 8 }),
            _ => Instruction::new(OP::SetB(y, target), 2, if memory { 16 } else { 8 }),
        };
        Some(entry)
    }

    /// Looks a byte up in the base table. The eleven illegal bytes have no
    /// entry, nor has the prefix 0xCB, which stands for no instruction alone.
    pub fn from_byte_unprefixed(byte: u8) -> (entry: Option<Instruction>)
        ensures
            entry == base_entry(byte),
    {
        if byte < 0x40 {
            Instruction::base_00_3f(byte)
        } else if byte < 0x80 {
            Instruction::base_40_7f(byte)
        } else if byte < 0xC0 {
            Instruction::base_80_bf(byte)
        } else {
            Instruction::base_c0_ff(byte)
        }
    }

    /// Rows 0x00 to 0x3F of the base table: loads of immediates, 16-bit
    /// arithmetic, increments and decrements, relative jumps.
    fn base_00_3f(byte: u8) -> (entry: Option<Instruction>)
        requires
            0x00 <= byte <= 0x3F,
        ensures
            entry == base_entry(byte),
    {
        match byte {
            0x00 => Some(Instruction::new(OP::Nop, 1, 4)),
            0x01 => Some(Instruction::new(OP::LdR16Imm(Reg16::BC), 3, 12)),
            0x02 => Some(Instruction::new(OP::StA(Address::BC), 1, 8)),
            0x03 => Some(Instruction::new(OP::IncR16(Reg16::BC), 1, 8)),
            0x04 => Some(Instruction::new(OP::Inc(Target::Reg8(Reg8::B)), 1, 4)),
            0x05 => Some(Instruction::new(OP::Dec(Target::Reg8(Reg8::B)), 1, 4)),
            0x06 => Some(Instruction::new(OP::Ld(Target::Reg8(Reg8::B), Source::Imm8), 2, 8)),
            0x07 => Some(Instruction::new(OP::RlcA, 1, 4)),
            0x08 => Some(Instruction::new(OP::LdImmSP, 3, 20)),
            0x09 => Some(Instruction::new(OP::AddHLR16(Reg16::BC), 1, 8)),
            0x0A => Some(Instruction::new(OP::LdA(Address::BC), 1, 8)),
            0x0B => Some(Instruction::new(OP::DecR16(Reg16::BC), 1, 8)),
            0x0C => Some(Instruction::new(OP::Inc(Target::Reg8(Reg8::C)), 1, 4)),
            0x0D => Some(Instruction::new(OP::Dec(Target::Reg8(Reg8::C)), 1, 4)),
            0x0E => Some(Instruction::new(OP::Ld(Target::Reg8(Reg8::C), Source::Imm8), 2, 8)),
            0x0F => Some(Instruction::new(OP::RrcA, 1, 4)),

            0x10 => Some(Instruction::new(OP::Stop, 2, 4)),
            0x11 => Some(Instruction::new(OP::LdR16Imm(Reg16::DE), 3, 12)),
            0x12 => Some(Instruction::new(OP::StA(Address::DE), 1, 8)),
            0x13 => Some(Instruction::new(OP::IncR16(Reg16::DE), 1, 8)),
            0x14 => Some(Instruction::new(OP::Inc(Target::Reg8(Reg8::D)), 1, 4)),
            0x15 => Some(Instruction::new(OP::Dec(Target::Reg8(Reg8::D)), 1, 4)),
            0x16 => Some(Instruction::new(OP::Ld(Target::Reg8(Reg8::D), Source::Imm8), 2, 8)),
            0x17 => Some(Instruction::new(OP::RlA, 1, 4)),
            0x18 => Some(Instruction::new(OP::Jr, 2, 12)),
            0x19 => Some(Instruction::new(OP::AddHLR16(Reg16::DE), 1, 8)),
            0x1A => Some(Instruction::new(OP::LdA(Address::DE), 1, 8)),
            0x1B => Some(Instruction::new(OP::DecR16(Reg16::DE), 1, 8)),
            0x1C => Some(Instruction::new(OP::Inc(Target::Reg8(Reg8::E)), 1, 4)),
            0x1D => Some(Instruction::new(OP::Dec(Target::Reg8(Reg8::E)), 1, 4)),
            0x1E => Some(Instruction::new(OP::Ld(Target::Reg8(Reg8::E), Source::Imm8), 2, 8)),
            0x1F => Some(Instruction::new(OP::RrA, 1, 4)),

            0x20 => Some(Instruction::branching(OP::JrCond(Condition::NZ), 2, 8, 12)),
            0x21 => Some(Instruction::new(OP::LdR16Imm(Reg16::HL), 3, 12)),
            0x22 => Some(Instruction::new(OP::StA(Address::HLInc), 1, 8)),
            0x23 => Some(Instruction::new(OP::IncR16(Reg16::HL), 1, 8)),
            0x24 => Some(Instruction::new(OP::Inc(Target::Reg8(Reg8::H)), 1, 4)),
            0x25 => Some(Instruction::new(OP::Dec(Target::Reg8(Reg8::H)), 1, 4)),
            0x26 => Some(Instruction::new(OP::Ld(Target::Reg8(Reg8::H), Source::Imm8), 2, 8)),
            0x27 => Some(Instruction::new(OP::Daa, 1, 4)),
            0x28 => Some(Instruction::branching(OP::JrCond(Condition::Z), 2, 8, 12)),
            0x29 => Some(Instruction::new(OP::AddHLR16(Reg16::HL), 1, 8)),
            0x2A => Some(Instruction::new(OP::LdA(Address::HLInc), 1, 8)),
            0x2B => Some(Instruction::new(OP::DecR16(Reg16::HL), 1, 8)),
            0x2C => Some(Instruction::new(OP::Inc(Target::Reg8(Reg8::L)), 1, 4)),
            0x2D => Some(Instruction::new(OP::Dec(Target::Reg8(Reg8::L)), 1, 4)),
            0x2E => Some(Instruction::new(OP::Ld(Target::Reg8(Reg8::L), Source::Imm8), 2, 8)),
            0x2F => Some(Instruction::new(OP::Cpl, 1, 4)),

            0x30 => Some(Instruction::branching(OP::JrCond(Condition::NC), 2, 8, 12)),
            0x31 => Some(Instruction::new(OP::LdR16Imm(Reg16::SP), 3, 12)),
            0x32 => Some(Instruction::new(OP::StA(Address::HLDec), 1, 8)),
            0x33 => Some(Instruction::new(OP::IncR16(Reg16::SP), 1, 8)),
            0x34 => Some(Instruction::new(OP::Inc(Target::MemHL), 1, 12)),
            0x35 => Some(Instruction::new(OP::Dec(Target::MemHL), 1, 12)),
            0x36 => Some(Instruction::new(OP::Ld(Target::MemHL, Source::Imm8), 2, 12)),
            0x37 => Some(Instruction::new(OP::Scf, 1, 4)),
            0x38 => Some(Instruction::branching(OP::JrCond(Condition::C), 2, 8, 12)),
            0x39 => Some(Instruction::new(OP::AddHLR16(Reg16::SP), 1, 8)),
            0x3A => Some(Instruction::new(OP::LdA(Address::HLDec), 1, 8)),
            0x3B => Some(Instruction::new(OP::DecR16(Reg16::SP), 1, 8)),
            0x3C => Some(Instruction::new(OP::Inc(Target::Reg8(Reg8::A)), 1, 4)),
            0x3D => Some(Instruction::new(OP::Dec(Target::Reg8(Reg8::A)), 1, 4)),
            0x3E => Some(Instruction::new(OP::Ld(Target::Reg8(Reg8::A), Source::Imm8), 2, 8)),
            0x3F => Some(Instruction::new(OP::Ccf, 1, 4)),
            _ => None,
        }
    }

    /// Rows 0x40 to 0x7F of the base table: the loads between registers, and
    /// HALT.
    fn base_40_7f(byte: u8) -> (entry: Option<Instruction>)
        requires
            0x40 <= byte <= 0x7F,
        ensures
            entry == base_entry(byte),
    {
        match byte {
            0x40 => Some(Instruction::new(OP::Ld(Target::Reg8(Reg8::B), Source::Reg8(Reg8::B)), 1, 4)),
            0x41 => Some(Instruction::new(OP::Ld(Target::Reg8(Reg8::B), Source::Reg8(Reg8::C)), 1, 4)),
            0x42 => Some(Instruction::new(OP::Ld(Target::Reg8(Reg8::B), Source::Reg8(Reg8::D)), 1, 4)),
            0x43 => Some(Instruction::new(OP::Ld(Target::Reg8(Reg8::B), Source::Reg8(Reg8::E)), 1, 4)),
            0x44 => Some(Instruction::new(OP::Ld(Target::Reg8(Reg8::B), Source::Reg8(Reg8::H)), 1, 4)),
            0x45 => Some(Instruction::new(OP::Ld(Target::Reg8(Reg8::B), Source::Reg8(Reg8::L)), 1, 4)),
            0x46 => Some(Instruction::new(OP::Ld(Target::Reg8(Reg8::B), Source::MemHL), 1, 8)),
            0x47 => Some(Instruction::new(OP::Ld(Target::Reg8(Reg8::B), Source::Reg8(Reg8::A)), 1, 4)),
            0x48 => Some(Instruction::new(OP::Ld(Target::Reg8(Reg8::C), Source::Reg8(Reg8::B)), 1, 4)),
            0x49 => Some(Instruction::new(OP::Ld(Target::Reg8(Reg8::C), Source::Reg8(Reg8::C)), 1, 4)),
            0x4A => Some(Instruction::new(OP::Ld(Target::Reg8(Reg8::C), Source::Reg8(Reg8::D)), 1, 4)),
            0x4B => Some(Instruction::new(OP::Ld(Target::Reg8(Reg8::C), Source::Reg8(Reg8::E)), 1, 4)),
            0x4C => Some(Instruction::new(OP::Ld(Target::Reg8(Reg8::C), Source::Reg8(Reg8::H)), 1, 4)),
            0x4D => Some(Instruction::new(OP::Ld(Target::Reg8(Reg8::C), Source::Reg8(Reg8::L)), 1, 4)),
            0x4E => Some(Instruction::new(OP::Ld(Target::Reg8(Reg8::C), Source::MemHL), 1, 8)),
            0x4F => Some(Instruction::new(OP::Ld(Target::Reg8(Reg8::C), Source::Reg8(Reg8::A)), 1, 4)),

            0x50 => Some(Instruction::new(OP::Ld(Target::Reg8(Reg8::D), Source::Reg8(Reg8::B)), 1, 4)),
            0x51 => Some(Instruction::new(OP::Ld(Target::Reg8(Reg8::D), Source::Reg8(Reg8::C)), 1, 4)),
            0x52 => Some(Instruction::new(OP::Ld(Target::Reg8(Reg8::D), Source::Reg8(Reg8::D)), 1, 4)),
            0x53 => Some(Instruction::new(OP::Ld(Target::Reg8(Reg8::D), Source::Reg8(Reg8::E)), 1, 4)),
            0x54 => Some(Instruction::new(OP::Ld(Target::Reg8(Reg8::D), Source::Reg8(Reg8::H)), 1, 4)),
            0x55 => Some(Instruction::new(OP::Ld(Target::Reg8(Reg8::D), Source::Reg8(Reg8::L)), 1, 4)),
            0x56 => Some(Instruction::new(OP::Ld(Target::Reg8(Reg8::D), Source::MemHL), 1, 8)),
            0x57 => Some(Instruction::new(OP::Ld(Target::Reg8(Reg8::D), Source::Reg8(Reg8::A)), 1, 4)),
            0x58 => Some(Instruction::new(OP::Ld(Target::Reg8(Reg8::E), Source::Reg8(Reg8::B)), 1, 4)),
            0x59 => Some(Instruction::new(OP::Ld(Target::Reg8(Reg8::E), Source::Reg8(Reg8::C)), 1, 4)),
            0x5A => Some(Instruction::new(OP::Ld(Target::Reg8(Reg8::E), Source::Reg8(Reg8::D)), 1, 4)),
            0x5B => Some(Instruction::new(OP::Ld(Target::Reg8(Reg8::E), Source::Reg8(Reg8::E)), 1, 4)),
            0x5C => Some(Instruction::new(OP::Ld(Target::Reg8(Reg8::E), Source::Reg8(Reg8::H)), 1, 4)),
            0x5D => Some(Instruction::new(OP::Ld(Target::Reg8(Reg8::E), Source::Reg8(Reg8::L)), 1, 4)),
            0x5E => Some(Instruction::new(OP::Ld(Target::Reg8(Reg8::E), Source::MemHL), 1, 8)),
            0x5F => Some(Instruction::new(OP::Ld(Target::Reg8(Reg8::E), Source::Reg8(Reg8::A)), 1, 4)),

            0x60 => Some(Instruction::new(OP::Ld(Target::Reg8(Reg8::H), Source::Reg8(Reg8::B)), 1, 4)),
            0x61 => Some(Instruction::new(OP::Ld(Target::Reg8(Reg8::H), Source::Reg8(Reg8::C)), 1, 4)),
            0x62 => Some(Instruction::new(OP::Ld(Target::Reg8(Reg8::H), Source::Reg8(Reg8::D)), 1, 4)),
            0x63 => Some(Instruction::new(OP::Ld(Target::Reg8(Reg8::H), Source::Reg8(Reg8::E)), 1, 4)),
            0x64 => Some(Instruction::new(OP::Ld(Target::Reg8(Reg8::H), Source::Reg8(Reg8::H)), 1, 4)),
            0x65 => Some(Instruction::new(OP::Ld(Target::Reg8(Reg8::H), Source::Reg8(Reg8::L)), 1, 4)),
            0x66 => Some(Instruction::new(OP::Ld(Target::Reg8(Reg8::H), Source::MemHL), 1, 8)),
            0x67 => Some(Instruction::new(OP::Ld(Target::Reg8(Reg8::H), Source::Reg8(Reg8::A)), 1, 4)),
            0x68 => Some(Instruction::new(OP::Ld(Target::Reg8(Reg8::L), Source::Reg8(Reg8::B)), 1, 4)),
            0x69 => Some(Instruction::new(OP::Ld(Target::Reg8(Reg8::L), Source::Reg8(Reg8::C)), 1, 4)),
            0x6A => Some(Instruction::new(OP::Ld(Target::Reg8(Reg8::L), Source::Reg8(Reg8::D)), 1, 4)),
            0x6B => Some(Instruction::new(OP::Ld(Target::Reg8(Reg8::L), Source::Reg8(Reg8::E)), 1, 4)),
            0x6C => Some(Instruction::new(OP::Ld(Target::Reg8(Reg8::L), Source::Reg8(Reg8::H)), 1, 4)),
            0x6D => Some(Instruction::new(OP::Ld(Target::Reg8(Reg8::L), Source::Reg8(Reg8::L)), 1, 4)),
            0x6E => Some(Instruction::new(OP::Ld(Target::Reg8(Reg8::L), Source::MemHL), 1, 8)),
            0x6F => Some(Instruction::new(OP::Ld(Target::Reg8(Reg8::L), Source::Reg8(Reg8::A)), 1, 4)),

            0x70 => Some(Instruction::new(OP::Ld(Target::MemHL, Source::Reg8(Reg8::B)), 1, 8)),
            0x71 => Some(Instruction::new(OP::Ld(Target::MemHL, Source::Reg8(Reg8::C)), 1, 8)),
            0x72 => Some(Instruction::new(OP::Ld(Target::MemHL, Source::Reg8(Reg8::D)), 1, 8)),
            0x73 => Some(Instruction::new(OP::Ld(Target::MemHL, Source::Reg8(Reg8::E)), 1, 8)),
            0x74 => Some(Instruction::new(OP::Ld(Target::MemHL, Source::Reg8(Reg8::H)), 1, 8)),
            0x75 => Some(Instruction::new(OP::Ld(Target::MemHL, Source::Reg8(Reg8::L)), 1, 8)),
            0x76 => Some(Instruction::new(OP::Halt, 1, 4)),
            0x77 => Some(Instruction::new(OP::Ld(Target::MemHL, Source::Reg8(Reg8::A)), 1, 8)),
            0x78 => Some(Instruction::new(OP::Ld(Target::Reg8(Reg8::A), Source::Reg8(Reg8::B)), 1, 4)),
            0x79 => Some(Instruction::new(OP::Ld(Target::Reg8(Reg8::A), Source::Reg8(Reg8::C)), 1, 4)),
            0x7A => Some(Instruction::new(OP::Ld(Target::Reg8(Reg8::A), Source::Reg8(Reg8::D)), 1, 4)),
            0x7B => Some(Instruction::new(OP::Ld(Target::Reg8(Reg8::A), Source::Reg8(Reg8::E)), 1, 4)),
            0x7C => Some(Instruction::new(OP::Ld(Target::Reg8(Reg8::A), Source::Reg8(Reg8::H)), 1, 4)),
            0x7D => Some(Instruction::new(OP::Ld(Target::Reg8(Reg8::A), Source::Reg8(Reg8::L)), 1, 4)),
            0x7E => Some(Instruction::new(OP::Ld(Target::Reg8(Reg8::A), Source::MemHL), 1, 8)),
            0x7F => Some(Instruction::new(OP::Ld(Target::Reg8(Reg8::A), Source::Reg8(Reg8::A)), 1, 4)),
            _ => None,
        }
    }

    /// Rows 0x80 to 0xBF of the base table: the accumulator operations on a
    /// register or on the cell at HL.
    fn base_80_bf(byte: u8) -> (entry: Option<Instruction>)
        requires
            0x80 <= byte <= 0xBF,
        ensures
            entry == base_entry(byte),
    {
        match byte {
            0x80 => Some(Instruction::new(OP::Alu(AluOp::Add, Source::Reg8(Reg8::B)), 1, 4)),
            0x81 => Some(Instruction::new(OP::Alu(AluOp::Add, Source::Reg8(Reg8::C)), 1, 4)),
            0x82 => Some(Instruction::new(OP::Alu(AluOp::Add, Source::Reg8(Reg8::D)), 1, 4)),
            0x83 => Some(Instruction::new(OP::Alu(AluOp::Add, Source::Reg8(Reg8::E)), 1, 4)),
            0x84 => Some(Instruction::new(OP::Alu(AluOp::Add, Source::Reg8(Reg8::H)), 1, 4)),
            0x85 => Some(Instruction::new(OP::Alu(AluOp::Add, Source::Reg8(Reg8::L)), 1, 4)),
            0x86 => Some(Instruction::new(OP::Alu(AluOp::Add, Source::MemHL), 1, 8)),
            0x87 => Some(Instruction::new(OP::Alu(AluOp::Add, Source::Reg8(Reg8::A)), 1, 4)),
            0x88 => Some(Instruction::new(OP::Alu(AluOp::Adc, Source::Reg8(Reg8::B)), 1, 4)),
            0x89 => Some(Instruction::new(OP::Alu(AluOp::Adc, Source::Reg8(Reg8::C)), 1, 4)),
            0x8A => Some(Instruction::new(OP::Alu(AluOp::Adc, Source::Reg8(Reg8::D)), 1, 4)),
            0x8B => Some(Instruction::new(OP::Alu(AluOp::Adc, Source::Reg8(Reg8::E)), 1, 4)),
            0x8C => Some(Instruction::new(OP::Alu(AluOp::Adc, Source::Reg8(Reg8::H)), 1, 4)),
            0x8D => Some(Instruction::new(OP::Alu(AluOp::Adc, Source::Reg8(Reg8::L)), 1, 4)),
            0x8E => Some(Instruction::new(OP::Alu(AluOp::Adc, Source::MemHL), 1, 8)),
            0x8F => Some(Instruction::new(OP::Alu(AluOp::Adc, Source::Reg8(Reg8::A)), 1, 4)),

            0x90 => Some(Instruction::new(OP::Alu(AluOp::Sub, Source::Reg8(Reg8::B)), 1, 4)),
            0x91 => Some(Instruction::new(OP::Alu(AluOp::Sub, Source::Reg8(Reg8::C)), 1, 4)),
            0x92 => Some(Instruction::new(OP::Alu(AluOp::Sub, Source::Reg8(Reg8::D)), 1, 4)),
            0x93 => Some(Instruction::new(OP::Alu(AluOp::Sub, Source::Reg8(Reg8::E)), 1, 4)),
            0x94 => Some(Instruction::new(OP::Alu(AluOp::Sub, Source::Reg8(Reg8::H)), 1, 4)),
            0x95 => Some(Instruction::new(OP::Alu(AluOp::Sub, Source::Reg8(Reg8::L)), 1, 4)),
            0x96 => Some(Instruction::new(OP::Alu(AluOp::Sub, Source::MemHL), 1, 8)),
            0x97 => Some(Instruction::new(OP::Alu(AluOp::Sub, Source::Reg8(Reg8::A)), 1, 4)),
            0x98 => Some(Instruction::new(OP::Alu(AluOp::Sbc, Source::Reg8(Reg8::B)), 1, 4)),
            0x99 => Some(Instruction::new(OP::Alu(AluOp::Sbc, Source::Reg8(Reg8::C)), 1, 4)),
            0x9A => Some(Instruction::new(OP::Alu(AluOp::Sbc, Source::Reg8(Reg8::D)), 1, 4)),
            0x9B => Some(Instruction::new(OP::Alu(AluOp::Sbc, Source::Reg8(Reg8::E)), 1, 4)),
            0x9C => Some(Instruction::new(OP::Alu(AluOp::Sbc, Source::Reg8(Reg8::H)), 1, 4)),
            0x9D => Some(Instruction::new(OP::Alu(AluOp::Sbc, Source::Reg8(Reg8::L)), 1, 4)),
            0x9E => Some(Instruction::new(OP::Alu(AluOp::Sbc, Source::MemHL), 1, 8)),
            0x9F => Some(Instruction::new(OP::Alu(AluOp::Sbc, Source::Reg8(Reg8::A)), 1, 4)),

            0xA0 => Some(Instruction::new(OP::Alu(AluOp::And, Source::Reg8(Reg8::B)), 1, 4)),
            0xA1 => Some(Instruction::new(OP::Alu(AluOp::And, Source::Reg8(Reg8::C)), 1, 4)),
            0xA2 => Some(Instruction::new(OP::Alu(AluOp::And, Source::Reg8(Reg8::D)), 1, 4)),
            0xA3 => Some(Instruction::new(OP::Alu(AluOp::And, Source::Reg8(Reg8::E)), 1, 4)),
            0xA4 => Some(Instruction::new(OP::Alu(AluOp::And, Source::Reg8(Reg8::H)), 1, 4)),
            0xA5 => Some(Instruction::new(OP::Alu(AluOp::And, Source::Reg8(Reg8::L)), 1, 4)),
            0xA6 => Some(Instruction::new(OP::Alu(AluOp::And, Source::MemHL), 1, 8)),
            0xA7 => Some(Instruction::new(OP::Alu(AluOp::And, Source::Reg8(Reg8::A)), 1, 4)),
            0xA8 => Some(Instruction::new(OP::Alu(AluOp::Xor, Source::Reg8(Reg8::B)), 1, 4)),
            0xA9 => Some(Instruction::new(OP::Alu(AluOp::Xor, Source::Reg8(Reg8::C)), 1, 4)),
            0xAA => Some(Instruction::new(OP::Alu(AluOp::Xor, Source::Reg8(Reg8::D)), 1, 4)),
            0xAB => Some(Instruction::new(OP::Alu(AluOp::Xor, Source::Reg8(Reg8::E)), 1, 4)),
            0xAC => Some(Instruction::new(OP::Alu(AluOp::Xor, Source::Reg8(Reg8::H)), 1, 4)),
            0xAD => Some(Instruction::new(OP::Alu(AluOp::Xor, Source::Reg8(Reg8::L)), 1, 4)),
            0xAE => Some(Instruction::new(OP::Alu(AluOp::Xor, Source::MemHL), 1, 8)),
            0xAF => Some(Instruction::new(OP::Alu(AluOp::Xor, Source::Reg8(Reg8::A)), 1, 4)),

            0xB0 => Some(Instruction::new(OP::Alu(AluOp::Or, Source::Reg8(Reg8::B)), 1, 4)),
            0xB1 => Some(Instruction::new(OP::Alu(AluOp::Or, Source::Reg8(Reg8::C)), 1, 4)),
            0xB2 => Some(Instruction::new(OP::Alu(AluOp::Or, Source::Reg8(Reg8::D)), 1, 4)),
            0xB3 => Some(Instruction::new(OP::Alu(AluOp::Or, Source::Reg8(Reg8::E)), 1, 4)),
            0xB4 => Some(Instruction::new(OP::Alu(AluOp::Or, Source::Reg8(Reg8::H)), 1, 4)),
            0xB5 => Some(Instruction::new(OP::Alu(AluOp::Or, Source::Reg8(Reg8::L)), 1, 4)),
            0xB6 => Some(Instruction::new(OP::Alu(AluOp::Or, Source::MemHL), 1, 8)),
            0xB7 => Some(Instruction::new(OP::Alu(AluOp::Or, Source::Reg8(Reg8::A)), 1, 4)),
            0xB8 => Some(Instruction::new(OP::Alu(AluOp::Cp, Source::Reg8(Reg8::B)), 1, 4)),
            0xB9 => Some(Instruction::new(OP::Alu(AluOp::Cp, Source::Reg8(Reg8::C)), 1, 4)),
            0xBA => Some(Instruction::new(OP::Alu(AluOp::Cp, Source::Reg8(Reg8::D)), 1, 4)),
            0xBB => Some(Instruction::new(OP::Alu(AluOp::Cp, Source::Reg8(Reg8::E)), 1, 4)),
            0xBC => Some(Instruction::new(OP::Alu(AluOp::Cp, Source::Reg8(Reg8::H)), 1, 4)),
            0xBD => Some(Instruction::new(OP::Alu(AluOp::Cp, Source::Reg8(Reg8::L)), 1, 4)),
            0xBE => Some(Instruction::new(OP::Alu(AluOp::Cp, Source::MemHL), 1, 8)),
            0xBF => Some(Instruction::new(OP::Alu(AluOp::Cp, Source::Reg8(Reg8::A)), 1, 4)),
            _ => None,
        }
    }

    /// Rows 0xC0 to 0xFF of the base table: returns, jumps, calls, the stack,
    /// the accumulator operations on an immediate byte.
    fn base_c0_ff(byte: u8) -> (entry: Option<Instruction>)
        requires
            0xC0 <= byte <= 0xFF,
        ensures
            entry == base_entry(byte),
    {
        match byte {
            0xC0 => Some(Instruction::branching(OP::RetCond(Condition::NZ), 1, 8, 20)),
            0xC1 => Some(Instruction::new(OP::PopR16(Reg16::BC), 1, 12)),
            0xC2 => Some(Instruction::branching(OP::JpCond(Condition::NZ), 3, 12, 16)),
            0xC3 => Some(Instruction::new(OP::JpImm, 3, 16)),
            0xC4 => Some(Instruction::branching(OP::CallCond(Condition::NZ), 3, 12, 24)),
            0xC5 => Some(Instruction::new(OP::PushR16(Reg16::BC), 1, 16)),
            0xC6 => Some(Instruction::new(OP::Alu(AluOp::Add, Source::Imm8), 2, 8)),
            0xC7 => Some(Instruction::new(OP::Rst(0x00), 1, 16)),
            0xC8 => Some(Instruction::branching(OP::RetCond(Condition::Z), 1, 8, 20)),
            0xC9 => Some(Instruction::new(OP::Ret, 1, 16)),
            0xCA => Some(Instruction::branching(OP::JpCond(Condition::Z), 3, 12, 16)),
            0xCB => None,
            0xCC => Some(Instruction::branching(OP::CallCond(Condition::Z), 3, 12, 24)),
            0xCD => Some(Instruction::new(OP::Call, 3, 24)),
            0xCE => Some(Instruction::new(OP::Alu(AluOp::Adc, Source::Imm8), 2, 8)),
            0xCF => Some(Instruction::new(OP::Rst(0x08), 1, 16)),

            0xD0 => Some(Instruction::branching(OP::RetCond(Condition::NC), 1, 8, 20)),
            0xD1 => Some(Instruction::new(OP::PopR16(Reg16::DE), 1, 12)),
            0xD2 => Some(Instruction::branching(OP::JpCond(Condition::NC), 3, 12, 16)),
            0xD3 => None,
            0xD4 => Some(Instruction::branching(OP::CallCond(Condition::NC), 3, 12, 24)),
            0xD5 => Some(Instruction::new(OP::PushR16(Reg16::DE), 1, 16)),
            0xD6 => Some(Instruction::new(OP::Alu(AluOp::Sub, Source::Imm8), 2, 8)),
            0xD7 => Some(Instruction::new(OP::Rst(0x10), 1, 16)),
            0xD8 => Some(Instruction::branching(OP::RetCond(Condition::C), 1, 8, 20)),
            0xD9 => Some(Instruction::new(OP::Reti, 1, 16)),
            0xDA => Some(Instruction::branching(OP::JpCond(Condition::C), 3, 12, 16)),
            0xDB => None,
            0xDC => Some(Instruction::branching(OP::CallCond(Condition::C), 3, 12, 24)),
            0xDD => None,
            0xDE => Some(Instruction::new(OP::Alu(AluOp::Sbc, Source::Imm8), 2, 8)),
            0xDF => Some(Instruction::new(OP::Rst(0x18), 1, 16)),

            0xE0 => Some(Instruction::new(OP::StA(Address::HighImm8), 2, 12)),
            0xE1 => Some(Instruction::new(OP::PopR16(Reg16::HL), 1, 12)),
            0xE2 => Some(Instruction::new(OP::StA(Address::HighC), 1, 8)),
            0xE3 => None,
            0xE4 => None,
            0xE5 => Some(Instruction::new(OP::PushR16(Reg16::HL), 1, 16)),
            0xE6 => Some(Instruction::new(OP::Alu(AluOp::And, Source::Imm8), 2, 8)),
            0xE7 => Some(Instruction::new(OP::Rst(0x20), 1, 16)),
            0xE8 => Some(Instruction::new(OP::AddSPImm, 2, 16)),
            0xE9 => Some(Instruction::new(OP::JpHL, 1, 4)),
            0xEA => Some(Instruction::new(OP::StA(Address::Imm16), 3, 16)),
            0xEB => None,
            0xEC => None,
            0xED => None,
            0xEE => Some(Instruction::new(OP::Alu(AluOp::Xor, Source::Imm8), 2, 8)),
            0xEF => Some(Instruction::new(OP::Rst(0x28), 1, 16)),

            0xF0 => Some(Instruction::new(OP::LdA(Address::HighImm8), 2, 12)),
            0xF1 => Some(Instruction::new(OP::PopR16(Reg16::AF), 1, 12)),
            0xF2 => Some(Instruction::new(OP::LdA(Address::HighC), 1, 8)),
            0xF3 => Some(Instruction::new(OP::Di, 1, 4)),
            0xF4 => None,
            0xF5 => Some(Instruction::new(OP::PushR16(Reg16::AF), 1, 16)),
            0xF6 => Some(Instruction::new(OP::Alu(AluOp::Or, Source::Imm8), 2, 8)),
            0xF7 => Some(Instruction::new(OP::Rst(0x30), 1, 16)),
            0xF8 => Some(Instruction::new(OP::LdHLSPImm, 2, 12)),
            0xF9 => Some(Instruction::new(OP::LdSPHL, 1, 8)),
            0xFA => Some(Instruction::new(OP::LdA(Address::Imm16), 3, 16)),
            0xFB => Some(Instruction::new(OP::Ei, 1, 4)),
            0xFC => None,
            0xFD => None,
            0xFE => Some(Instruction::new(OP::Alu(AluOp::Cp, Source::Imm8), 2, 8)),
            0xFF => Some(Instruction::new(OP::Rst(0x38), 1, 16)),
            _ => None,
        }
    }
}

/// The bytes without an entry in the base table are the eleven illegal ones
/// and the prefix.
pub proof fn lemma_base_entry_defined(byte: u8)
    ensures
        base_entry(byte) is None <==> is_illegal(byte) || byte == 0xCB,
{
}

/// Every entry of the two tables is well formed: one to three bytes long,
/// with bit indices below 8.
pub proof fn lemma_entries_well_formed(byte: u8)
    ensures
        prefixed_entry(byte).wf(),
        base_entry(byte) matches Some(instruction) ==> instruction.wf(),
{
}

/// Every entry of the base table has the length that the length table gives
/// for its byte, and every entry of the prefixed table the length that it
/// gives for the prefix.
pub proof fn lemma_length_matches_table(byte: u8)
    ensures
        base_entry(byte) matches Some(instruction) ==> instruction.size == instruction_length(byte),
        prefixed_entry(byte).size == instruction_length(0xCB),
{
}

/// A stream is decoded unless it is empty, starts with an illegal byte, or is
/// shorter than the instruction that its first byte announces.
pub proof fn lemma_decode_fails(bytes: Seq<u8>)
    ensures
        decode(bytes) is None <==> bytes.len() == 0 || is_illegal(bytes[0]) || bytes.len()
            < instruction_length(bytes[0]),
{
    if bytes.len() > 0 {
        lemma_base_entry_defined(bytes[0]);
        lemma_length_matches_table(bytes[0]);
    }
}

/// For every first byte but the illegal ones, a stream of three bytes or
/// more is decoded, to an instruction whose length is the one that the
/// length table gives for that byte, between 1 and 3, and whose operation is
/// well formed.
pub proof fn lemma_decode_length(bytes: Seq<u8>)
    requires
        bytes.len() >= 3,
        !is_illegal(bytes[0]),
    ensures
        decode(bytes) matches Some(instruction) && instruction.size == instruction_length(bytes[0])
            && 1 <= instruction.size <= 3 && instruction.opcode.wf(),
{
    lemma_decode_fails(bytes);
    lemma_length_matches_table(bytes[0]);
    lemma_length_matches_table(bytes[1]);
    lemma_entries_well_formed(bytes[0]);
    lemma_entries_well_formed(bytes[1]);
}

/// Every instruction of the prefixed table is two bytes long, and every byte
/// after the prefix selects one.
pub proof fn lemma_prefixed_length(bytes: Seq<u8>)
    requires
        bytes.len() >= 2,
        bytes[0] == 0xCB,
    ensures
        decode(bytes) matches Some(instruction) && instruction.size == 2,
{
}

/// Decoding looks at no more than the first two bytes of a stream that is
/// long enough.
pub proof fn lemma_decode_prefix(bytes: Seq<u8>, other: Seq<u8>)
    requires
        bytes.len() >= 3,
        other.len() >= 3,
        bytes[0] == other[0],
        bytes[1] == other[1],
    ensures
        decode(bytes) == decode(other),
{
    lemma_entries_well_formed(bytes[0]);
}

/// The pair AF stands in the catalog only as the operand of PUSH and POP.
pub proof fn lemma_af_only_on_the_stack(byte: u8)
    ensures
        base_entry(byte) matches Some(instruction) ==> match instruction.opcode {
            OP::LdR16Imm(pair) | OP::AddHLR16(pair) | OP::IncR16(pair) | OP::DecR16(pair) => pair
                != Reg16::AF,
            OP::PushR16(pair) | OP::PopR16(pair) => pair != Reg16::SP,
            _ => true,
        },
{
}

} // verus!
