use sm83_core::alu::{AluOp, ShiftOp};
use sm83_core::instructions::Instruction;
use sm83_core::opcodes::{Address, Source, Target, OP};
use sm83_core::registers::{Condition, Reg16, Reg8};

/// The length of every instruction by its first byte; 0 marks a byte that
/// stands for no instruction.
const LENGTHS: [usize; 256] = [
    1, 3, 1, 1, 1, 1, 2, 1, 3, 1, 1, 1, 1, 1, 2, 1, // 0x00
    2, 3, 1, 1, 1, 1, 2, 1, 2, 1, 1, 1, 1, 1, 2, 1, // 0x10
    2, 3, 1, 1, 1, 1, 2, 1, 2, 1, 1, 1, 1, 1, 2, 1, // 0x20
    2, 3, 1, 1, 1, 1, 2, 1, 2, 1, 1, 1, 1, 1, 2, 1, // 0x30
    1, 1, 1, 1, 1, 1, 1, 1, 1, 1, 1, 1, 1, 1, 1, 1, // 0x40
    1, 1, 1, 1, 1, 1, 1, 1, 1, 1, 1, 1, 1, 1, 1, 1, // 0x50
    1, 1, 1, 1, 1, 1, 1, 1, 1, 1, 1, 1, 1, 1, 1, 1, // 0x60
    1, 1, 1, 1, 1, 1, 1, 1, 1, 1, 1, 1, 1, 1, 1, 1, // 0x70
    1, 1, 1, 1, 1, 1, 1, 1, 1, 1, 1, 1, 1, 1, 1, 1, // 0x80
    1, 1, 1, 1, 1, 1, 1, 1, 1, 1, 1, 1, 1, 1, 1, 1, // 0x90
    1, 1, 1, 1, 1, 1, 1, 1, 1, 1, 1, 1, 1, 1, 1, 1, // 0xA0
    1, 1, 1, 1, 1, 1, 1, 1, 1, 1, 1, 1, 1, 1, 1, 1, // 0xB0
    1, 1, 3, 3, 3, 1, 2, 1, 1, 1, 3, 2, 3, 3, 2, 1, // 0xC0
    1, 1, 3, 0, 3, 1, 2, 1, 1, 1, 3, 0, 3, 0, 2, 1, // 0xD0
    2, 1, 1, 0, 0, 1, 2, 1, 2, 1, 3, 0, 0, 0, 2, 1, // 0xE0
    2, 1, 1, 1, 0, 1, 2, 1, 2, 1, 3, 1, 0, 0, 2, 1, // 0xF0
];

const ILLEGAL: [u8; 11] = [0xD3, 0xDB, 0xDD, 0xE3, 0xE4, 0xEB, 0xEC, 0xED, 0xF4, 0xFC, 0xFD];

#[test]
fn every_legal_byte_decodes_with_its_table_length() {
    let mut byte: usize = 0;
    while byte < 256 {
        let decoded = OP::from_bytes(&[byte as u8, 0x00, 0x00]);
        if LENGTHS[byte] == 0 {
            assert!(decoded.is_none(), "byte {:#04x}", byte);
        } else {
            let (_, length, _) = decoded.expect("a legal byte decodes");
            assert_eq!(length, LENGTHS[byte], "byte {:#04x}", byte);
            assert!(length >= 1 && length <= 3);
        }
        byte += 1;
    }
}

#[test]
fn illegal_bytes_do_not_decode() {
    for byte in ILLEGAL {
        assert_eq!(OP::from_bytes(&[byte, 0x00, 0x00]), None);
        assert_eq!(Instruction::from_byte(byte, false), None);
        assert_eq!(Instruction::from_byte_unprefixed(byte), None);
        assert_eq!(Instruction::decode(&[byte, 0x00, 0x00]), None);
    }
}

#[test]
fn byte_d3_does_not_decode() {
    assert_eq!(OP::from_bytes(&[0xD3]), None);
    assert_eq!(OP::from_bytes(&[0xD3, 0x12, 0x34]), None);
}

#[test]
fn exactly_eleven_bytes_are_illegal() {
    let mut count: usize = 0;
    let mut byte: usize = 0;
    while byte < 256 {
        if OP::from_bytes(&[byte as u8, 0x00, 0x00]).is_none() {
            assert!(ILLEGAL.contains(&(byte as u8)));
            count += 1;
        }
        byte += 1;
    }
    assert_eq!(count, 11);
}

#[test]
fn empty_stream_does_not_decode() {
    assert_eq!(OP::from_bytes(&[]), None);
}

#[test]
fn short_stream_does_not_decode() {
    // LD BC,nn needs three bytes.
    assert_eq!(OP::from_bytes(&[0x01]), None);
    assert_eq!(OP::from_bytes(&[0x01, 0x34]), None);
    assert_eq!(OP::from_bytes(&[0x01, 0x34, 0x12]), Some((OP::LdR16Imm(Reg16::BC), 3, 12)));
    // LD B,n needs two.
    assert_eq!(OP::from_bytes(&[0x06]), None);
    assert_eq!(
        OP::from_bytes(&[0x06, 0x42]),
        Some((OP::Ld(Target::Reg8(Reg8::B), Source::Imm8), 2, 8))
    );
    // The prefix alone is no instruction.
    assert_eq!(OP::from_bytes(&[0xCB]), None);
}

#[test]
fn one_byte_stream_decodes_one_byte_instructions() {
    assert_eq!(OP::from_bytes(&[0x00]), Some((OP::Nop, 1, 4)));
    assert_eq!(OP::from_bytes(&[0x76]), Some((OP::Halt, 1, 4)));
    assert_eq!(OP::from_bytes(&[0xC9]), Some((OP::Ret, 1, 16)));
}

#[test]
fn longer_stream_decodes_its_first_instruction() {
    assert_eq!(OP::from_bytes(&[0x00, 0xD3, 0xD3, 0xD3, 0xD3]), Some((OP::Nop, 1, 4)));
}

#[test]
fn prefixed_instructions_are_two_bytes_long() {
    let mut byte: usize = 0;
    while byte < 256 {
        let (_, length, _) = OP::from_bytes(&[0xCB, byte as u8]).expect("every prefixed byte decodes");
        assert_eq!(length, 2);
        let entry = Instruction::from_byte_prefixed(byte as u8).expect("every prefixed byte has an entry");
        assert_eq!(entry.size, 2);
        assert_eq!(entry.branch_duration, None);
        assert_eq!(Instruction::from_byte(byte as u8, true), Some(entry));
        assert_eq!(Instruction::decode(&[0xCB, byte as u8]), Some(entry));
        byte += 1;
    }
}

#[test]
fn prefixed_table_by_rows() {
    assert_eq!(
        OP::from_bytes(&[0xCB, 0x00]),
        Some((OP::Shift(ShiftOp::Rlc, Target::Reg8(Reg8::B)), 2, 8))
    );
    assert_eq!(
        OP::from_bytes(&[0xCB, 0x0E]),
        Some((OP::Shift(ShiftOp::Rrc, Target::MemHL), 2, 16))
    );
    assert_eq!(
        OP::from_bytes(&[0xCB, 0x17]),
        Some((OP::Shift(ShiftOp::Rl, Target::Reg8(Reg8::A)), 2, 8))
    );
    assert_eq!(
        OP::from_bytes(&[0xCB, 0x19]),
        Some((OP::Shift(ShiftOp::Rr, Target::Reg8(Reg8::C)), 2, 8))
    );
    assert_eq!(
        OP::from_bytes(&[0xCB, 0x22]),
        Some((OP::Shift(ShiftOp::Sla, Target::Reg8(Reg8::D)), 2, 8))
    );
    assert_eq!(
        OP::from_bytes(&[0xCB, 0x2B]),
        Some((OP::Shift(ShiftOp::Sra, Target::Reg8(Reg8::E)), 2, 8))
    );
    assert_eq!(
        OP::from_bytes(&[0xCB, 0x34]),
        Some((OP::Shift(ShiftOp::Swap, Target::Reg8(Reg8::H)), 2, 8))
    );
    assert_eq!(
        OP::from_bytes(&[0xCB, 0x3D]),
        Some((OP::Shift(ShiftOp::Srl, Target::Reg8(Reg8::L)), 2, 8))
    );
    assert_eq!(OP::from_bytes(&[0xCB, 0x46]), Some((OP::BitB(0, Target::MemHL), 2, 12)));
    assert_eq!(OP::from_bytes(&[0xCB, 0x7F]), Some((OP::BitB(7, Target::Reg8(Reg8::A)), 2, 8)));
    assert_eq!(OP::from_bytes(&[0xCB, 0x86]), Some((OP::ResB(0, Target::MemHL), 2, 16)));
    assert_eq!(OP::from_bytes(&[0xCB, 0xA9]), Some((OP::ResB(5, Target::Reg8(Reg8::C)), 2, 8)));
    assert_eq!(OP::from_bytes(&[0xCB, 0xFE]), Some((OP::SetB(7, Target::MemHL), 2, 16)));
    assert_eq!(OP::from_bytes(&[0xCB, 0xD8]), Some((OP::SetB(3, Target::Reg8(Reg8::B)), 2, 8)));
}

#[test]
fn the_prefix_has_no_entry_of_its_own() {
    assert_eq!(Instruction::from_byte_unprefixed(0xCB), None);
    assert_eq!(Instruction::from_byte(0xCB, false), None);
}

#[test]
fn conditional_branches_have_two_costs() {
    let jr = Instruction::from_byte_unprefixed(0x20).expect("JR NZ");
    assert_eq!(jr, Instruction { opcode: OP::JrCond(Condition::NZ), size: 2, duration: 8, branch_duration: Some(12) });
    assert_eq!(jr.cycles(false), 8);
    assert_eq!(jr.cycles(true), 12);
    let jp = Instruction::from_byte_unprefixed(0xCA).expect("JP Z");
    assert_eq!(jp, Instruction { opcode: OP::JpCond(Condition::Z), size: 3, duration: 12, branch_duration: Some(16) });
    let call = Instruction::from_byte_unprefixed(0xD4).expect("CALL NC");
    assert_eq!(call, Instruction { opcode: OP::CallCond(Condition::NC), size: 3, duration: 12, branch_duration: Some(24) });
    let ret = Instruction::from_byte_unprefixed(0xD8).expect("RET C");
    assert_eq!(ret, Instruction { opcode: OP::RetCond(Condition::C), size: 1, duration: 8, branch_duration: Some(20) });
    assert_eq!(ret.cycles(false), 8);
    assert_eq!(ret.cycles(true), 20);
}

#[test]
fn unconditional_instructions_have_one_cost() {
    let call = Instruction::from_byte_unprefixed(0xCD).expect("CALL");
    assert_eq!(call, Instruction::new(OP::Call, 3, 24));
    assert_eq!(call.branch_duration, None);
    assert_eq!(call.cycles(true), 24);
    assert_eq!(call.cycles(false), 24);
    assert_eq!(Instruction::branching(OP::JrCond(Condition::Z), 2, 8, 12).branch_duration, Some(12));
}

#[test]
fn base_table_samples() {
    assert_eq!(OP::from_bytes(&[0x08, 0, 0]), Some((OP::LdImmSP, 3, 20)));
    assert_eq!(OP::from_bytes(&[0x10, 0, 0]), Some((OP::Stop, 2, 4)));
    assert_eq!(OP::from_bytes(&[0x18, 0, 0]), Some((OP::Jr, 2, 12)));
    assert_eq!(OP::from_bytes(&[0x09, 0, 0]), Some((OP::AddHLR16(Reg16::BC), 1, 8)));
    assert_eq!(OP::from_bytes(&[0x39, 0, 0]), Some((OP::AddHLR16(Reg16::SP), 1, 8)));
    assert_eq!(OP::from_bytes(&[0x02, 0, 0]), Some((OP::StA(Address::BC), 1, 8)));
    assert_eq!(OP::from_bytes(&[0x1A, 0, 0]), Some((OP::LdA(Address::DE), 1, 8)));
    assert_eq!(OP::from_bytes(&[0x22, 0, 0]), Some((OP::StA(Address::HLInc), 1, 8)));
    assert_eq!(OP::from_bytes(&[0x3A, 0, 0]), Some((OP::LdA(Address::HLDec), 1, 8)));
    assert_eq!(OP::from_bytes(&[0x23, 0, 0]), Some((OP::IncR16(Reg16::HL), 1, 8)));
    assert_eq!(OP::from_bytes(&[0x1B, 0, 0]), Some((OP::DecR16(Reg16::DE), 1, 8)));
    assert_eq!(OP::from_bytes(&[0x34, 0, 0]), Some((OP::Inc(Target::MemHL), 1, 12)));
    assert_eq!(OP::from_bytes(&[0x3D, 0, 0]), Some((OP::Dec(Target::Reg8(Reg8::A)), 1, 4)));
    assert_eq!(OP::from_bytes(&[0x36, 0, 0]), Some((OP::Ld(Target::MemHL, Source::Imm8), 2, 12)));
    assert_eq!(OP::from_bytes(&[0x07, 0, 0]), Some((OP::RlcA, 1, 4)));
    assert_eq!(OP::from_bytes(&[0x0F, 0, 0]), Some((OP::RrcA, 1, 4)));
    assert_eq!(OP::from_bytes(&[0x17, 0, 0]), Some((OP::RlA, 1, 4)));
    assert_eq!(OP::from_bytes(&[0x1F, 0, 0]), Some((OP::RrA, 1, 4)));
    assert_eq!(OP::from_bytes(&[0x27, 0, 0]), Some((OP::Daa, 1, 4)));
    assert_eq!(OP::from_bytes(&[0x2F, 0, 0]), Some((OP::Cpl, 1, 4)));
    assert_eq!(OP::from_bytes(&[0x37, 0, 0]), Some((OP::Scf, 1, 4)));
    assert_eq!(OP::from_bytes(&[0x3F, 0, 0]), Some((OP::Ccf, 1, 4)));
    assert_eq!(
        OP::from_bytes(&[0x41, 0, 0]),
        Some((OP::Ld(Target::Reg8(Reg8::B), Source::Reg8(Reg8::C)), 1, 4))
    );
    assert_eq!(
        OP::from_bytes(&[0x7E, 0, 0]),
        Some((OP::Ld(Target::Reg8(Reg8::A), Source::MemHL), 1, 8))
    );
    assert_eq!(
        OP::from_bytes(&[0x70, 0, 0]),
        Some((OP::Ld(Target::MemHL, Source::Reg8(Reg8::B)), 1, 8))
    );
    assert_eq!(
        OP::from_bytes(&[0x80, 0, 0]),
        Some((OP::Alu(AluOp::Add, Source::Reg8(Reg8::B)), 1, 4))
    );
    assert_eq!(OP::from_bytes(&[0x8E, 0, 0]), Some((OP::Alu(AluOp::Adc, Source::MemHL), 1, 8)));
    assert_eq!(
        OP::from_bytes(&[0x97, 0, 0]),
        Some((OP::Alu(AluOp::Sub, Source::Reg8(Reg8::A)), 1, 4))
    );
    assert_eq!(
        OP::from_bytes(&[0x99, 0, 0]),
        Some((OP::Alu(AluOp::Sbc, Source::Reg8(Reg8::C)), 1, 4))
    );
    assert_eq!(
        OP::from_bytes(&[0xA2, 0, 0]),
        Some((OP::Alu(AluOp::And, Source::Reg8(Reg8::D)), 1, 4))
    );
    assert_eq!(
        OP::from_bytes(&[0xAB, 0, 0]),
        Some((OP::Alu(AluOp::Xor, Source::Reg8(Reg8::E)), 1, 4))
    );
    assert_eq!(
        OP::from_bytes(&[0xB4, 0, 0]),
        Some((OP::Alu(AluOp::Or, Source::Reg8(Reg8::H)), 1, 4))
    );
    assert_eq!(
        OP::from_bytes(&[0xBD, 0, 0]),
        Some((OP::Alu(AluOp::Cp, Source::Reg8(Reg8::L)), 1, 4))
    );
    assert_eq!(OP::from_bytes(&[0xFE, 0, 0]), Some((OP::Alu(AluOp::Cp, Source::Imm8), 2, 8)));
    assert_eq!(OP::from_bytes(&[0xC1, 0, 0]), Some((OP::PopR16(Reg16::BC), 1, 12)));
    assert_eq!(OP::from_bytes(&[0xF1, 0, 0]), Some((OP::PopR16(Reg16::AF), 1, 12)));
    assert_eq!(OP::from_bytes(&[0xF5, 0, 0]), Some((OP::PushR16(Reg16::AF), 1, 16)));
    assert_eq!(OP::from_bytes(&[0xC3, 0, 0]), Some((OP::JpImm, 3, 16)));
    assert_eq!(OP::from_bytes(&[0xE9, 0, 0]), Some((OP::JpHL, 1, 4)));
    assert_eq!(OP::from_bytes(&[0xD9, 0, 0]), Some((OP::Reti, 1, 16)));
    assert_eq!(OP::from_bytes(&[0xC7, 0, 0]), Some((OP::Rst(0x00), 1, 16)));
    assert_eq!(OP::from_bytes(&[0xEF, 0, 0]), Some((OP::Rst(0x28), 1, 16)));
    assert_eq!(OP::from_bytes(&[0xFF, 0, 0]), Some((OP::Rst(0x38), 1, 16)));
    assert_eq!(OP::from_bytes(&[0xE0, 0, 0]), Some((OP::StA(Address::HighImm8), 2, 12)));
    assert_eq!(OP::from_bytes(&[0xF0, 0, 0]), Some((OP::LdA(Address::HighImm8), 2, 12)));
    assert_eq!(OP::from_bytes(&[0xE2, 0, 0]), Some((OP::StA(Address::HighC), 1, 8)));
    assert_eq!(OP::from_bytes(&[0xF2, 0, 0]), Some((OP::LdA(Address::HighC), 1, 8)));
    assert_eq!(OP::from_bytes(&[0xEA, 0, 0]), Some((OP::StA(Address::Imm16), 3, 16)));
    assert_eq!(OP::from_bytes(&[0xFA, 0, 0]), Some((OP::LdA(Address::Imm16), 3, 16)));
    assert_eq!(OP::from_bytes(&[0xE8, 0, 0]), Some((OP::AddSPImm, 2, 16)));
    assert_eq!(OP::from_bytes(&[0xF8, 0, 0]), Some((OP::LdHLSPImm, 2, 12)));
    assert_eq!(OP::from_bytes(&[0xF9, 0, 0]), Some((OP::LdSPHL, 1, 8)));
    assert_eq!(OP::from_bytes(&[0xF3, 0, 0]), Some((OP::Di, 1, 4)));
    assert_eq!(OP::from_bytes(&[0xFB, 0, 0]), Some((OP::Ei, 1, 4)));
}

#[test]
fn target_reads_as_source() {
    assert_eq!(Target::Reg8(Reg8::E).as_source(), Source::Reg8(Reg8::E));
    assert_eq!(Target::MemHL.as_source(), Source::MemHL);
}
