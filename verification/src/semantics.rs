use crate::alu::{
    signed_offset, spec_add16, spec_add_offset, spec_alu, spec_bit, spec_ccf, spec_cpl, spec_daa,
    spec_dec8, spec_inc8, spec_reset_bit, spec_rotate_a, spec_scf, spec_set_bit, spec_shift, ShiftOp,
};
use crate::instructions::{
    branch, decode, is_illegal, lemma_decode_fails, plain, Instruction,
};
use crate::memory::{store_word, word_at};
use crate::opcodes::{Address, Source, Target, OP};
use crate::registers::{
    high_byte, low_byte, wrap16, Condition, Flags, Reg16, Reg8, Registers,
};
use vstd::prelude::*;

verus! {

/// What the engine is doing between two steps.
#[derive(Clone, Copy, Debug, PartialEq, Eq, Structural)]
pub enum Mode {
    /// Instructions are fetched and executed.
    Running,
    /// HALT was executed; nothing is fetched until the engine is resumed.
    Halted,
    /// STOP was executed; nothing is fetched until the engine is resumed.
    Stopped,
}

/// The one failure of a step.
#[derive(Clone, Copy, Debug, PartialEq, Eq, Structural)]
pub enum Fault {
    /// The byte at the program counter stands for no instruction.
    UnknownOpcode { byte: u8, address: u16 },
}

/// The cost in cycles of a step that fetches nothing.
pub const IDLE_CYCLES: u8 = 4;

/// The state of the machine: registers, memory and the interrupt and run
/// state of the engine.
pub struct State {
    pub regs: Registers,
    pub memory: Seq<u8>,
    pub mode: Mode,
    /// The interrupt master enable.
    pub ime: bool,
    /// Set by EI: the master enable is to be set when the instruction that
    /// follows has completed.
    pub ime_pending: bool,
}

impl State {
    /// The memory has its 65536 cells.
    pub open spec fn wf(self) -> bool {
        self.memory.len() == 65536
    }

    /// The state with the register file replaced.
    pub open spec fn with_regs(self, regs: Registers) -> State {
        State { regs, ..self }
    }

    /// The state with the flags replaced.
    pub open spec fn with_flags(self, flags: Flags) -> State {
        self.with_regs(Registers { f: flags, ..self.regs })
    }

    /// A and the flags replaced, as an accumulator operation leaves them.
    pub open spec fn with_accumulator(self, result: (u8, Flags)) -> State {
        self.with_regs(Registers { a: result.0, f: result.1, ..self.regs })
    }

    /// The byte in a memory cell.
    pub open spec fn read(self, address: u16) -> u8 {
        self.memory[address as int]
    }

    /// The state with a byte stored in a memory cell.
    pub open spec fn write(self, address: u16, value: u8) -> State {
        State { memory: self.memory.update(address as int, value), ..self }
    }

    /// The little-endian word at an address.
    pub open spec fn read_word(self, address: u16) -> u16 {
        word_at(self.memory, address)
    }

    /// The state with a little-endian word stored at an address.
    pub open spec fn write_word(self, address: u16, word: u16) -> State {
        State { memory: store_word(self.memory, address, word), ..self }
    }

    /// The byte that follows the opcode.
    pub open spec fn imm8(self) -> u8 {
        self.read(wrap16(self.regs.pc + 1))
    }

    /// The little-endian word that follows the opcode.
    pub open spec fn imm16(self) -> u16 {
        self.read_word(wrap16(self.regs.pc + 1))
    }

    /// The value of the pair HL.
    pub open spec fn hl(self) -> u16 {
        self.regs.reg16(Reg16::HL)
    }

    /// The value of an 8-bit operand.
    pub open spec fn source(self, source: Source) -> u8 {
        match source {
            Source::Reg8(reg) => self.regs.reg8(reg),
            Source::MemHL => self.read(self.hl()),
            Source::Imm8 => self.imm8(),
        }
    }

    /// The value in an 8-bit place.
    pub open spec fn target(self, target: Target) -> u8 {
        self.source(target.source())
    }

    /// The state with a value stored in an 8-bit place.
    pub open spec fn with_target(self, target: Target, value: u8) -> State {
        match target {
            Target::Reg8(reg) => self.with_regs(self.regs.with_reg8(reg, value)),
            Target::MemHL => self.write(self.hl(), value),
        }
    }

    /// The address of the cell that a load or store of A uses.
    pub open spec fn address(self, address: Address) -> u16 {
        match address {
            Address::BC => self.regs.reg16(Reg16::BC),
            Address::DE => self.regs.reg16(Reg16::DE),
            Address::HLInc | Address::HLDec => self.hl(),
            Address::Imm16 => self.imm16(),
            Address::HighImm8 => (0xFF00 + self.imm8()) as u16,
            Address::HighC => (0xFF00 + self.regs.reg8(Reg8::C)) as u16,
        }
    }

    /// The state after the cell was used: HL one up or one down where the
    /// addressing says so.
    pub open spec fn after_address(self, address: Address) -> State {
        match address {
            Address::HLInc => self.with_regs(
                self.regs.with_reg16(Reg16::HL, wrap16(self.hl() + 1)),
            ),
            Address::HLDec => self.with_regs(
                self.regs.with_reg16(Reg16::HL, wrap16(self.hl() - 1)),
            ),
            _ => self,
        }
    }

    /// The state after a word is pushed: the stack pointer goes down by one
    /// and the high byte is stored there, then down by one again and the low
    /// byte is stored there.
    pub open spec fn push(self, word: u16) -> State {
        let high_at = wrap16(self.regs.sp - 1);
        let low_at = wrap16(self.regs.sp - 2);
        self.write(high_at, high_byte(word)).write(low_at, low_byte(word)).with_regs(
            Registers { sp: low_at, ..self.regs },
        )
    }

    /// The word on top of the stack: low byte at the stack pointer, high byte
    /// in the next cell.
    pub open spec fn top(self) -> u16 {
        self.read_word(self.regs.sp)
    }

    /// The state after a word is popped: the stack pointer is two up.
    pub open spec fn pop(self) -> State {
        self.with_regs(Registers { sp: wrap16(self.regs.sp + 2), ..self.regs })
    }

    /// The state with the program counter set.
    pub open spec fn at(self, pc: u16) -> State {
        self.with_regs(Registers { pc, ..self.regs })
    }

    /// What an operation on the accumulator does: the eight arithmetic and
    /// logic operations, the decimal adjustment, the complement, the two
    /// operations on the carry, and the four one-byte rotates.
    ///
    /// The function is opaque: a proof that computes with it reveals it.
    #[verifier::opaque]
    pub open spec fn accumulator(self, op: OP) -> State {
        let regs = self.regs;
        match op {
            OP::Alu(alu_op, source) => self.with_accumulator(
                spec_alu(alu_op, regs.a, self.source(source), regs.f),
            ),
            OP::Daa => self.with_accumulator(spec_daa(regs.a, regs.f)),
            OP::Cpl => self.with_accumulator(spec_cpl(regs.a, regs.f)),
            OP::Scf => self.with_flags(spec_scf(regs.f)),
            OP::Ccf => self.with_flags(spec_ccf(regs.f)),
            OP::RlcA => self.with_accumulator(spec_rotate_a(ShiftOp::Rlc, regs.a, regs.f)),
            OP::RrcA => self.with_accumulator(spec_rotate_a(ShiftOp::Rrc, regs.a, regs.f)),
            OP::RlA => self.with_accumulator(spec_rotate_a(ShiftOp::Rl, regs.a, regs.f)),
            OP::RrA => self.with_accumulator(spec_rotate_a(ShiftOp::Rr, regs.a, regs.f)),
            _ => self,
        }
    }

    /// What an increment or decrement of an 8-bit place, and what the 16-bit
    /// arithmetic, does. The increment and decrement of a register pair
    /// leave the flags alone.
    ///
    /// The function is opaque: a proof that computes with it reveals it.
    #[verifier::opaque]
    pub open spec fn arithmetic(self, op: OP) -> State {
        let regs = self.regs;
        match op {
            OP::Inc(target) => {
                let (value, flags) = spec_inc8(self.target(target), regs.f);
                self.with_flags(flags).with_target(target, value)
            },
            OP::Dec(target) => {
                let (value, flags) = spec_dec8(self.target(target), regs.f);
                self.with_flags(flags).with_target(target, value)
            },
            OP::AddHLR16(pair) => {
                let (sum, flags) = spec_add16(self.hl(), regs.reg16(pair), regs.f);
                self.with_regs(Registers { f: flags, ..regs }.with_reg16(Reg16::HL, sum))
            },
            OP::IncR16(pair) => self.with_regs(
                regs.with_reg16(pair, wrap16(regs.reg16(pair) + 1)),
            ),
            OP::DecR16(pair) => self.with_regs(
                regs.with_reg16(pair, wrap16(regs.reg16(pair) - 1)),
            ),
            OP::AddSPImm => {
                let (sum, flags) = spec_add_offset(regs.sp, self.imm8());
                self.with_regs(Registers { sp: sum, f: flags, ..regs })
            },
            _ => self,
        }
    }

    /// What an operation of the prefixed table does to the registers and the
    /// memory.
    ///
    /// The function is opaque: a proof that computes with it reveals it.
    #[verifier::opaque]
    pub open spec fn prefixed(self, op: OP) -> State {
        match op {
            OP::Shift(shift_op, target) => {
                let (value, flags) = spec_shift(shift_op, self.target(target), self.regs.f);
                self.with_flags(flags).with_target(target, value)
            },
            OP::BitB(index, target) => self.with_flags(
                spec_bit(index, self.target(target), self.regs.f),
            ),
            OP::ResB(index, target) => self.with_target(
                target,
                spec_reset_bit(index, self.target(target)),
            ),
            OP::SetB(index, target) => self.with_target(
                target,
                spec_set_bit(index, self.target(target)),
            ),
            _ => self,
        }
    }

    /// What a load, a store, a push or a pop does to the registers and the
    /// memory.
    ///
    /// The function is opaque: a proof that computes with it reveals it.
    #[verifier::opaque]
    pub open spec fn transfer(self, op: OP) -> State {
        let regs = self.regs;
        match op {
            OP::Ld(target, source) => self.with_target(target, self.source(source)),
            OP::LdA(address) => self.with_regs(
                regs.with_reg8(Reg8::A, self.read(self.address(address))),
            ).after_address(address),
            OP::StA(address) => self.write(self.address(address), regs.a).after_address(address),
            OP::LdR16Imm(pair) => self.with_regs(regs.with_reg16(pair, self.imm16())),
            OP::LdImmSP => self.write_word(self.imm16(), regs.sp),
            OP::LdSPHL => self.with_regs(Registers { sp: self.hl(), ..regs }),
            OP::LdHLSPImm => {
                let (sum, flags) = spec_add_offset(regs.sp, self.imm8());
                self.with_regs(Registers { f: flags, ..regs }.with_reg16(Reg16::HL, sum))
            },
            OP::PushR16(pair) => self.push(regs.reg16(pair)),
            OP::PopR16(pair) => self.pop().with_regs(
                self.pop().regs.with_reg16(pair, self.top()),
            ),
            _ => self,
        }
    }

    /// What a jump, a call or a return does to the stack and the master
    /// enable, and where it sends the program counter. `next` is the address
    /// of the instruction that follows: a call pushes it, and a relative jump
    /// counts from it. A conditional branch whose condition fails does
    /// nothing and sends the program counter nowhere.
    ///
    /// The function is opaque: a proof that computes with it reveals it.
    #[verifier::opaque]
    pub open spec fn branch(self, op: OP, next: u16) -> (State, Option<u16>) {
        let flags = self.regs.f;
        match op {
            OP::JpImm => (self, Some(self.imm16())),
            OP::JpCond(condition) => (
                self,
                if flags.holds(condition) {
                    Some(self.imm16())
                } else {
                    None
                },
            ),
            OP::JpHL => (self, Some(self.hl())),
            OP::Jr => (self, Some(wrap16(next + signed_offset(self.imm8())))),
            OP::JrCond(condition) => (
                self,
                if flags.holds(condition) {
                    Some(wrap16(next + signed_offset(self.imm8())))
                } else {
                    None
                },
            ),
            OP::Call => (self.push(next), Some(self.imm16())),
            OP::CallCond(condition) => if flags.holds(condition) {
                (self.push(next), Some(self.imm16()))
            } else {
                (self, None)
            },
            OP::Ret => (self.pop(), Some(self.top())),
            OP::RetCond(condition) => if flags.holds(condition) {
                (self.pop(), Some(self.top()))
            } else {
                (self, None)
            },
            OP::Reti => (State { ime: true, ..self.pop() }, Some(self.top())),
            OP::Rst(vector) => (self.push(next), Some(vector)),
            _ => (self, None),
        }
    }

    /// What NOP, HALT, STOP, DI and EI do to the state of the engine. DI
    /// clears the master enable at once, and with it an enable that EI had
    /// armed; EI arms the delayed enable and leaves the master enable as it
    /// is.
    ///
    /// The function is opaque: a proof that computes with it reveals it.
    #[verifier::opaque]
    pub open spec fn control(self, op: OP) -> State {
        match op {
            OP::Halt => State { mode: Mode::Halted, ..self },
            OP::Stop => State { mode: Mode::Stopped, ..self },
            OP::Di => State { ime: false, ime_pending: false, ..self },
            OP::Ei => State { ime_pending: true, ..self },
            _ => self,
        }
    }

    /// What an operation does to everything but the program counter, and
    /// where it sends the program counter if it redirects it. `next` is the
    /// address of the instruction that follows.
    ///
    /// The function is opaque: a proof that computes with it reveals it.
    #[verifier::opaque]
    pub open spec fn perform(self, op: OP, next: u16) -> (State, Option<u16>) {
        match op {
            OP::Alu(_, _)
            | OP::Daa
            | OP::Cpl
            | OP::Scf
            | OP::Ccf
            | OP::RlcA
            | OP::RrcA
            | OP::RlA
            | OP::RrA => (self.accumulator(op), None),
            OP::Inc(_)
            | OP::Dec(_)
            | OP::AddHLR16(_)
            | OP::IncR16(_)
            | OP::DecR16(_)
            | OP::AddSPImm => (self.arithmetic(op), None),
            OP::Shift(_, _) | OP::BitB(_, _) | OP::ResB(_, _) | OP::SetB(_, _) => (
                self.prefixed(op),
                None,
            ),
            OP::Ld(_, _)
            | OP::LdA(_)
            | OP::StA(_)
            | OP::LdR16Imm(_)
            | OP::LdImmSP
            | OP::LdSPHL
            | OP::LdHLSPImm
            | OP::PushR16(_)
            | OP::PopR16(_) => (self.transfer(op), None),
            OP::JpImm
            | OP::JpCond(_)
            | OP::JpHL
            | OP::Jr
            | OP::JrCond(_)
            | OP::Call
            | OP::CallCond(_)
            | OP::Ret
            | OP::RetCond(_)
            | OP::Reti
            | OP::Rst(_) => self.branch(op, next),
            OP::Nop | OP::Halt | OP::Stop | OP::Di | OP::Ei => (self.control(op), None),
        }
    }

    /// The state after an instruction, and its cost. The operation is
    /// performed; then the program counter goes where the operation sent it,
    /// or else past the instruction. A branch that was taken costs its
    /// branch-taken cycles, every other instruction its base cycles.
    pub open spec fn execute(self, instruction: Instruction) -> (State, u8) {
        let next = wrap16(self.regs.pc + instruction.size);
        let (after, target) = self.perform(instruction.opcode, next);
        match target {
            Some(pc) => (after.at(pc), instruction.cost(true)),
            None => (after.at(next), instruction.cost(false)),
        }
    }

    /// The instruction at the program counter: what the three bytes from there
    /// on decode to.
    pub open spec fn fetch(self) -> Option<Instruction> {
        decode(
            seq![
                self.read(self.regs.pc),
                self.read(wrap16(self.regs.pc + 1)),
                self.read(wrap16(self.regs.pc + 2)),
            ],
        )
    }

    /// One step of the engine, with what it returns. While the engine is
    /// halted or stopped nothing changes and the idle cost is returned. Where
    /// the byte at the program counter stands for no instruction, nothing
    /// changes and the fault names the byte and its address. Otherwise the
    /// instruction is executed; and if EI had armed the delayed enable before
    /// this instruction, the enable is used up and the master enable is set
    /// once the instruction has completed, unless the instruction was DI.
    pub open spec fn step(self) -> (State, Result<u8, Fault>) {
        if self.mode != Mode::Running {
            (self, Ok(IDLE_CYCLES))
        } else {
            match self.fetch() {
                None => (
                    self,
                    Err(Fault::UnknownOpcode { byte: self.read(self.regs.pc), address: self.regs.pc }),
                ),
                Some(instruction) => {
                    let (after, cycles) = State { ime_pending: false, ..self }.execute(instruction);
                    if self.ime_pending && instruction.opcode != OP::Di {
                        (State { ime: true, ..after }, Ok(cycles))
                    } else {
                        (after, Ok(cycles))
                    }
                },
            }
        }
    }

    /// The state of a new engine: every register, flag and memory cell zero,
    /// interrupts disabled, the engine running.
    pub open spec fn initial() -> State {
        State {
            regs: Registers::zeroed(),
            memory: Seq::new(65536, |address: int| 0u8),
            mode: Mode::Running,
            ime: false,
            ime_pending: false,
        }
    }

    /// The state after a reset: every register and flag zero but the program
    /// counter and the stack pointer, which are as given; interrupts
    /// disabled; the engine running. The memory is kept.
    pub open spec fn reset(self, pc: u16, sp: u16) -> State {
        State {
            regs: Registers { pc, sp, ..Registers::zeroed() },
            memory: self.memory,
            mode: Mode::Running,
            ime: false,
            ime_pending: false,
        }
    }

    /// The state after the engine is told that an interrupt is pending: it
    /// runs again.
    pub open spec fn resume(self) -> State {
        State { mode: Mode::Running, ..self }
    }
}

/// An operation on the accumulator changes A and the flags and nothing else.
pub proof fn lemma_accumulator_frame(state: State, op: OP)
    ensures
        state.accumulator(op) == state.with_accumulator(
            (state.accumulator(op).regs.a, state.accumulator(op).regs.f),
        ),
{
    reveal(State::accumulator);
}

/// Increments, decrements and the 16-bit arithmetic leave the program
/// counter, the size of the memory and the state of the engine as they are.
pub proof fn lemma_arithmetic_frame(state: State, op: OP)
    requires
        state.wf(),
    ensures
        ({
            let after = state.arithmetic(op);
            &&& after.memory.len() == state.memory.len()
            &&& after.regs.pc == state.regs.pc
            &&& after.mode == state.mode
            &&& after.ime == state.ime
            &&& after.ime_pending == state.ime_pending
        }),
{
    reveal(State::arithmetic);
}

/// The operations of the prefixed table leave the program counter, the stack
/// pointer, the size of the memory and the state of the engine as they are.
pub proof fn lemma_prefixed_frame(state: State, op: OP)
    requires
        state.wf(),
    ensures
        ({
            let after = state.prefixed(op);
            &&& after.memory.len() == state.memory.len()
            &&& after.regs.pc == state.regs.pc
            &&& after.regs.sp == state.regs.sp
            &&& after.mode == state.mode
            &&& after.ime == state.ime
            &&& after.ime_pending == state.ime_pending
        }),
{
    reveal(State::prefixed);
}

/// Loads, stores, pushes and pops leave the program counter, the size of the
/// memory and the state of the engine as they are.
pub proof fn lemma_transfer_frame(state: State, op: OP)
    requires
        state.wf(),
    ensures
        ({
            let after = state.transfer(op);
            &&& after.memory.len() == state.memory.len()
            &&& after.regs.pc == state.regs.pc
            &&& after.mode == state.mode
            &&& after.ime == state.ime
            &&& after.ime_pending == state.ime_pending
        }),
{
    reveal(State::transfer);
}

/// Jumps, calls and returns change only the stack pointer and the cells
/// that a call writes; RETI also sets the master enable. The program counter
/// is not moved by the operation itself.
pub proof fn lemma_branch_frame(state: State, op: OP, next: u16)
    requires
        state.wf(),
    ensures
        ({
            let after = state.branch(op, next).0;
            &&& after.memory.len() == state.memory.len()
            &&& after.regs == Registers { sp: after.regs.sp, ..state.regs }
            &&& after.mode == state.mode
            &&& after.ime == (op == OP::Reti || state.ime)
            &&& after.ime_pending == state.ime_pending
        }),
{
    reveal(State::branch);
}

/// The control operations leave the registers and the memory as they are.
/// HALT and STOP set the run state; DI clears the master enable and the
/// delayed enable; EI sets the delayed enable.
pub proof fn lemma_control_frame(state: State, op: OP)
    ensures
        ({
            let after = state.control(op);
            &&& after.memory == state.memory
            &&& after.regs == state.regs
            &&& after.mode == match op {
                OP::Halt => Mode::Halted,
                OP::Stop => Mode::Stopped,
                _ => state.mode,
            }
            &&& after.ime == (op != OP::Di && state.ime)
            &&& after.ime_pending == (op == OP::Ei || (op != OP::Di && state.ime_pending))
        }),
{
    reveal(State::control);
}

/// What every operation leaves alone: the memory keeps its size; only HALT
/// and STOP change the run state; only DI and RETI change the master enable;
/// only DI and EI change the delayed enable; and no operation by itself moves
/// the program counter.
pub proof fn lemma_perform_frame(state: State, op: OP, next: u16)
    requires
        state.wf(),
    ensures
        ({
            let after = state.perform(op, next).0;
            &&& after.memory.len() == state.memory.len()
            &&& after.regs.pc == state.regs.pc
            &&& after.mode == match op {
                OP::Halt => Mode::Halted,
                OP::Stop => Mode::Stopped,
                _ => state.mode,
            }
            &&& after.ime == match op {
                OP::Di => false,
                OP::Reti => true,
                _ => state.ime,
            }
            &&& after.ime_pending == (op == OP::Ei || (op != OP::Di && state.ime_pending))
        }),
{
    reveal(State::perform);
    lemma_accumulator_frame(state, op);
    lemma_arithmetic_frame(state, op);
    lemma_prefixed_frame(state, op);
    lemma_transfer_frame(state, op);
    lemma_branch_frame(state, op, next);
    lemma_control_frame(state, op);
}

/// A step keeps the memory at its 65536 cells.
pub proof fn lemma_step_keeps_memory_size(state: State)
    requires
        state.wf(),
    ensures
        state.step().0.wf(),
{
    if state.mode == Mode::Running && state.fetch() is Some {
        let instruction = state.fetch()->Some_0;
        lemma_perform_frame(
            State { ime_pending: false, ..state },
            instruction.opcode,
            wrap16(state.regs.pc + instruction.size),
        );
    }
}

/// A word that was pushed is the word that is popped, and the pop leaves
/// every register, the stack pointer too, as it was before the push.
pub proof fn lemma_push_then_pop(state: State, word: u16)
    requires
        state.wf(),
    ensures
        state.push(word).top() == word,
        state.push(word).pop().regs == state.regs,
        state.push(word).regs.sp == wrap16(state.regs.sp - 2),
        forall|address: u16|
            address != wrap16(state.regs.sp - 1) && address != wrap16(state.regs.sp - 2)
                ==> state.push(word).read(address) == state.read(address),
{
}

/// While the engine is halted or stopped, a step changes nothing and costs
/// the idle cycles.
pub proof fn lemma_idle_step(state: State)
    requires
        state.mode != Mode::Running,
    ensures
        state.step() == (state, Ok::<u8, Fault>(IDLE_CYCLES)),
{
}

/// A step fails exactly when the engine runs and the byte at the program
/// counter is one of the illegal ones. The fault then names that byte and
/// its address, and the state is what it was.
pub proof fn lemma_step_faults(state: State)
    ensures
        state.step().1 is Err <==> state.mode == Mode::Running && is_illegal(
            state.read(state.regs.pc),
        ),
        state.step().1 is Err ==> state.step() == (
            state,
            Err::<u8, Fault>(
                Fault::UnknownOpcode { byte: state.read(state.regs.pc), address: state.regs.pc },
            ),
        ),
{
    lemma_decode_fails(
        seq![
            state.read(state.regs.pc),
            state.read(wrap16(state.regs.pc + 1)),
            state.read(wrap16(state.regs.pc + 2)),
        ],
    );
}

/// An instruction that is no jump, call or return leaves the program counter
/// past itself and costs its base cycles.
pub proof fn lemma_sequential_execution(state: State, instruction: Instruction)
    requires
        state.wf(),
        match instruction.opcode {
            OP::JpImm
            | OP::JpCond(_)
            | OP::JpHL
            | OP::Jr
            | OP::JrCond(_)
            | OP::Call
            | OP::CallCond(_)
            | OP::Ret
            | OP::RetCond(_)
            | OP::Reti
            | OP::Rst(_) => false,
            _ => true,
        },
    ensures
        state.execute(instruction).0.regs.pc == wrap16(state.regs.pc + instruction.size),
        state.execute(instruction).1 == instruction.cost(false),
{
    reveal(State::perform);
    lemma_perform_frame(state, instruction.opcode, wrap16(state.regs.pc + instruction.size));
}

/// A conditional jump, call or return whose condition fails changes nothing
/// but the program counter, which goes past the instruction, and costs the
/// base cycles. One whose condition holds costs the branch-taken cycles.
pub proof fn lemma_conditional_branch(state: State, instruction: Instruction, condition: Condition)
    requires
        instruction.opcode == OP::JpCond(condition) || instruction.opcode == OP::JrCond(condition)
            || instruction.opcode == OP::CallCond(condition) || instruction.opcode == OP::RetCond(
            condition,
        ),
    ensures
        !state.regs.f.holds(condition) ==> state.execute(instruction) == (
            state.at(wrap16(state.regs.pc + instruction.size)),
            instruction.duration,
        ),
        state.regs.f.holds(condition) ==> state.execute(instruction).1 == instruction.cost(true),
{
    reveal(State::perform);
    reveal(State::branch);
}

/// The opcode of the relative jump on a condition.
pub open spec fn relative_jump_opcode(condition: Condition) -> u8 {
    match condition {
        Condition::NZ => 0x20,
        Condition::Z => 0x28,
        Condition::NC => 0x30,
        Condition::C => 0x38,
    }
}

/// A conditional relative jump at the program counter: where the condition
/// fails, the step costs 8 cycles and the program counter goes 2 up, past
/// the instruction; where it holds, the step costs 12 cycles and the program
/// counter goes to the address after the instruction plus the signed offset.
/// No other register and no memory cell changes.
pub proof fn lemma_relative_jump(state: State, condition: Condition)
    requires
        state.mode == Mode::Running,
        state.read(state.regs.pc) == relative_jump_opcode(condition),
    ensures
        !state.regs.f.holds(condition) ==> {
            &&& state.step().1 == Ok::<u8, Fault>(8)
            &&& state.step().0.regs == Registers { pc: wrap16(state.regs.pc + 2), ..state.regs }
        },
        state.regs.f.holds(condition) ==> {
            &&& state.step().1 == Ok::<u8, Fault>(12)
            &&& state.step().0.regs == Registers {
                pc: wrap16(state.regs.pc + 2 + signed_offset(state.imm8())),
                ..state.regs
            }
        },
        state.step().0.memory == state.memory,
{
    reveal(State::perform);
    reveal(State::branch);
    assert(state.fetch() == Some(branch(OP::JrCond(condition), 2, 8, 12)));
}

/// A call at the program counter sets the program counter to its target and
/// pushes the address of the instruction after it. A return executed next
/// sets the program counter to that address and leaves the stack pointer
/// where it was before the call.
pub proof fn lemma_call_then_return(state: State)
    requires
        state.wf(),
        state.mode == Mode::Running,
        state.read(state.regs.pc) == 0xCD,
        state.step().0.read(state.step().0.regs.pc) == 0xC9,
    ensures
        state.step().1 == Ok::<u8, Fault>(24),
        state.step().0.regs.pc == state.imm16(),
        state.step().0.regs.sp == wrap16(state.regs.sp - 2),
        state.step().0.top() == wrap16(state.regs.pc + 3),
        state.step().0.step().1 == Ok::<u8, Fault>(16),
        state.step().0.step().0.regs.pc == wrap16(state.regs.pc + 3),
        state.step().0.step().0.regs.sp == state.regs.sp,
{
    reveal(State::perform);
    reveal(State::branch);
    assert(state.fetch() == Some(plain(OP::Call, 3, 24)));
    assert(state.step().0.fetch() == Some(plain(OP::Ret, 1, 16)));
    lemma_push_then_pop(State { ime_pending: false, ..state }, wrap16(state.regs.pc + 3));
}

/// EI leaves the master enable as it is and arms the delayed enable. The
/// master enable is set when the instruction after EI has completed, and
/// not before; the delayed enable is then used up, unless that instruction
/// was EI again. DI clears the master enable at once, also where it follows
/// EI, and RETI sets it at once.
pub proof fn lemma_enable_is_delayed(state: State)
    requires
        state.wf(),
        state.mode == Mode::Running,
        state.fetch() is Some,
    ensures
        ({
            let op = state.fetch()->Some_0.opcode;
            let after = state.step().0;
            &&& op == OP::Ei && !state.ime_pending ==> after.ime == state.ime && after.ime_pending
            &&& state.ime_pending && op != OP::Di ==> after.ime
            &&& after.ime_pending == (op == OP::Ei)
            &&& op == OP::Di ==> !after.ime
            &&& op == OP::Reti ==> after.ime
            &&& !state.ime_pending && op != OP::Di && op != OP::Reti ==> after.ime == state.ime
        }),
{
    let instruction = state.fetch()->Some_0;
    lemma_perform_frame(
        State { ime_pending: false, ..state },
        instruction.opcode,
        wrap16(state.regs.pc + instruction.size),
    );
}

/// HALT and STOP end the running state; a resume restores it and changes
/// nothing else.
pub proof fn lemma_halt_stop_resume(state: State)
    requires
        state.wf(),
        state.mode == Mode::Running,
        state.fetch() is Some,
    ensures
        state.fetch()->Some_0.opcode == OP::Halt ==> state.step().0.mode == Mode::Halted,
        state.fetch()->Some_0.opcode == OP::Stop ==> state.step().0.mode == Mode::Stopped,
        state.fetch()->Some_0.opcode != OP::Halt && state.fetch()->Some_0.opcode != OP::Stop
            ==> state.step().0.mode == Mode::Running,
        state.step().0.resume().mode == Mode::Running,
        state.step().0.resume() == (State { mode: Mode::Running, ..state.step().0 }),
{
    let instruction = state.fetch()->Some_0;
    lemma_perform_frame(
        State { ime_pending: false, ..state },
        instruction.opcode,
        wrap16(state.regs.pc + instruction.size),
    );
}

/// The flags change only through arithmetic, logic, rotates, shifts and bit
/// tests, through POP AF, and through the two additions of an offset to the
/// stack pointer: every other load, every store, push, jump, call and return,
/// the increment and decrement of a register pair other than AF, and the
/// control operations leave them as they are.
pub proof fn lemma_flags_kept(state: State, op: OP, next: u16)
    requires
        match op {
            OP::Ld(_, _)
            | OP::LdA(_)
            | OP::StA(_)
            | OP::LdImmSP
            | OP::LdSPHL
            | OP::PushR16(_)
            | OP::ResB(_, _)
            | OP::SetB(_, _)
            | OP::JpImm
            | OP::JpCond(_)
            | OP::JpHL
            | OP::Jr
            | OP::JrCond(_)
            | OP::Call
            | OP::CallCond(_)
            | OP::Ret
            | OP::RetCond(_)
            | OP::Reti
            | OP::Rst(_)
            | OP::Nop
            | OP::Halt
            | OP::Stop
            | OP::Di
            | OP::Ei => true,
            OP::LdR16Imm(pair) | OP::PopR16(pair) | OP::IncR16(pair) | OP::DecR16(pair) => pair
                != Reg16::AF,
            _ => false,
        },
    ensures
        state.perform(op, next).0.regs.f == state.regs.f,
{
    reveal(State::perform);
    reveal(State::arithmetic);
    reveal(State::prefixed);
    reveal(State::transfer);
    reveal(State::branch);
    reveal(State::control);
}

/// The increment and the decrement of an 8-bit place keep the carry, and the
/// addition to HL keeps the zero flag.
pub proof fn lemma_flags_partly_kept(state: State, op: OP, next: u16)
    ensures
        op is Inc || op is Dec ==> state.perform(op, next).0.regs.f.carry == state.regs.f.carry,
        op is AddHLR16 ==> state.perform(op, next).0.regs.f.zero == state.regs.f.zero,
        op is BitB ==> state.perform(op, next).0.regs.f.carry == state.regs.f.carry,
{
    reveal(State::perform);
    reveal(State::arithmetic);
    reveal(State::prefixed);
}

} // verus!
