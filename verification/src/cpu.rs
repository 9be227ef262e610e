use crate::alu::{
    add16, add_offset, alu, bit, ccf, cpl, daa, dec16, dec8, inc16, inc8, offset_word, reset_bit,
    rotate_a, scf, set_bit, shift, ShiftOp,
};
use crate::instructions::{lemma_entries_well_formed, Instruction};
use crate::memory::{loaded, MemoryBus};
use crate::opcodes::{Address, Source, Target, OP};
use crate::registers::{make_word, split_word, Flag, Flags, Reg16, Reg8, Registers};
use crate::semantics::{Fault, Mode, State, IDLE_CYCLES};
use vstd::prelude::*;

verus! {

/// The execution engine: the register file, the memory, and the run and
/// interrupt state.
pub struct Cpu {
    regs: Registers,
    memory: MemoryBus,
    mode: Mode,
    ime: bool,
    ime_pending: bool,
}

impl View for Cpu {
    type V = State;

    closed spec fn view(&self) -> State {
        State {
            regs: self.regs,
            memory: self.memory@,
            mode: self.mode,
            ime: self.ime,
            ime_pending: self.ime_pending,
        }
    }
}

impl Cpu {
    /// The memory of an engine always has its 65536 cells.
    pub proof fn lemma_wf(&self)
        ensures
            self@.wf(),
    {
    }

    /// An engine with every register, flag and memory cell zero.
    pub fn new() -> (cpu: Cpu)
        ensures
            cpu@ == State::initial(),
    {
        let cpu = Cpu {
            regs: Registers::new(),
            memory: MemoryBus::new(),
            mode: Mode::Running,
            ime: false,
            ime_pending: false,
        };
        assert(cpu@.memory =~= State::initial().memory);
        cpu
    }

    /// Zeroes the registers and flags and sets the program counter and the
    /// stack pointer; the engine runs, with interrupts disabled.
    pub fn reset(&mut self, pc: u16, sp: u16)
        ensures
            final(self)@ == old(self)@.reset(pc, sp),
    {
        self.regs = Registers::new();
        self.regs.pc = pc;
        self.regs.sp = sp;
        self.mode = Mode::Running;
        self.ime = false;
        self.ime_pending = false;
    }

    /// Copies `bytes` into memory from `offset` on, wrapping at the top.
    pub fn load_bytes(&mut self, offset: u16, bytes: &[u8])
        ensures
            final(self)@ == (State {
                memory: loaded(old(self)@.memory, offset, bytes@),
                ..old(self)@
            }),
    {
        self.memory.load(offset, bytes);
    }

    /// Ends a halted or stopped state.
    pub fn resume(&mut self)
        ensures
            final(self)@ == old(self)@.resume(),
    {
        self.mode = Mode::Running;
    }

    /// Reads a memory cell, between steps.
    pub fn read_memory(&self, address: u16) -> (value: u8)
        ensures
            value == self@.read(address),
    {
        self.memory.read_byte(address)
    }

    /// Writes a memory cell, between steps.
    pub fn write_memory(&mut self, address: u16, value: u8)
        ensures
            final(self)@ == old(self)@.write(address, value),
    {
        self.memory.write_byte(address, value);
    }

    /// A copy of the register file.
    pub fn registers(&self) -> (regs: Registers)
        ensures
            regs == self@.regs,
    {
        self.regs
    }

    /// Reads an 8-bit register.
    pub fn get_reg8(&self, reg: Reg8) -> (value: u8)
        ensures
            value == self@.regs.reg8(reg),
    {
        self.regs.get8(reg)
    }

    /// Writes an 8-bit register.
    pub fn set_reg8(&mut self, reg: Reg8, value: u8)
        ensures
            final(self)@ == old(self)@.with_regs(old(self)@.regs.with_reg8(reg, value)),
    {
        self.regs.set8(reg, value);
    }

    /// Reads a register pair or the stack pointer. The low byte of AF is the
    /// flag byte, whose low four bits are zero.
    pub fn get_reg16(&self, reg: Reg16) -> (value: u16)
        ensures
            value == self@.regs.reg16(reg),
    {
        self.regs.get16(reg)
    }

    /// Writes a register pair or the stack pointer. Of a value written to AF
    /// the low four bits are dropped.
    pub fn set_reg16(&mut self, reg: Reg16, value: u16)
        ensures
            final(self)@ == old(self)@.with_regs(old(self)@.regs.with_reg16(reg, value)),
    {
        self.regs.set16(reg, value);
    }

    /// Reads one flag.
    pub fn get_flag(&self, flag: Flag) -> (value: bool)
        ensures
            value == self@.regs.f.flag(flag),
    {
        self.regs.f.get(flag)
    }

    /// Writes one flag.
    pub fn set_flag(&mut self, flag: Flag, value: bool)
        ensures
            final(self)@ == old(self)@.with_flags(old(self)@.regs.f.with_flag(flag, value)),
    {
        self.regs.f.set(flag, value);
    }

    /// Writes the four flags.
    pub fn set_all_flags(&mut self, z: bool, n: bool, h: bool, c: bool)
        ensures
            final(self)@ == old(self)@.with_flags(
                Flags { zero: z, subtract: n, half_carry: h, carry: c },
            ),
    {
        self.set_flag(Flag::Z, z);
        self.set_flag(Flag::N, n);
        self.set_flag(Flag::H, h);
        self.set_flag(Flag::C, c);
    }

    /// Whether the engine runs, is halted or is stopped.
    pub fn mode(&self) -> (mode: Mode)
        ensures
            mode == self@.mode,
    {
        self.mode
    }

    /// Whether HALT has put the engine to rest.
    pub fn is_halted(&self) -> (halted: bool)
        ensures
            halted == (self@.mode == Mode::Halted),
    {
        self.mode == Mode::Halted
    }

    /// Whether STOP has put the engine to rest.
    pub fn is_stopped(&self) -> (stopped: bool)
        ensures
            stopped == (self@.mode == Mode::Stopped),
    {
        self.mode == Mode::Stopped
    }

    /// The interrupt master enable.
    pub fn ime(&self) -> (ime: bool)
        ensures
            ime == self@.ime,
    {
        self.ime
    }

    /// Whether EI has armed the delayed enable.
    pub fn ime_pending(&self) -> (pending: bool)
        ensures
            pending == self@.ime_pending,
    {
        self.ime_pending
    }

    /// The byte that follows the opcode at the program counter.
    pub fn read_imm8(&self) -> (value: u8)
        ensures
            value == self@.imm8(),
    {
        self.memory.read_byte(self.regs.pc.wrapping_add(1))
    }

    /// The word that follows the opcode at the program counter.
    pub fn read_imm16(&self) -> (value: u16)
        ensures
            value == self@.imm16(),
    {
        self.memory.read_word(self.regs.pc.wrapping_add(1))
    }

    /// Pushes a word: high byte first, the stack pointer going down.
    pub fn push_stack(&mut self, value: u16)
        ensures
            final(self)@ == old(self)@.push(value),
    {
        let (high, low) = split_word(value);
        self.regs.sp = self.regs.sp.wrapping_sub(1);
        self.memory.write_byte(self.regs.sp, high);
        self.regs.sp = self.regs.sp.wrapping_sub(1);
        self.memory.write_byte(self.regs.sp, low);
    }

    /// Pops a word: low byte first, the stack pointer going up.
    pub fn pop_stack(&mut self) -> (value: u16)
        ensures
            value == old(self)@.top(),
            final(self)@ == old(self)@.pop(),
    {
        let low = self.memory.read_byte(self.regs.sp);
        self.regs.sp = self.regs.sp.wrapping_add(1);
        let high = self.memory.read_byte(self.regs.sp);
        self.regs.sp = self.regs.sp.wrapping_add(1);
        make_word(high, low)
    }

    /// Reads an 8-bit operand.
    fn source(&self, source: Source) -> (value: u8)
        ensures
            value == self@.source(source),
    {
        match source {
            Source::Reg8(reg) => self.regs.get8(reg),
            Source::MemHL => self.memory.read_byte(self.regs.get_hl()),
            Source::Imm8 => self.read_imm8(),
        }
    }

    /// Reads an 8-bit place.
    fn target(&self, target: Target) -> (value: u8)
        ensures
            value == self@.target(target),
    {
        self.source(target.as_source())
    }

    /// Writes an 8-bit place.
    fn set_target(&mut self, target: Target, value: u8)
        ensures
            final(self)@ == old(self)@.with_target(target, value),
    {
        match target {
            Target::Reg8(reg) => self.regs.set8(reg, value),
            Target::MemHL => {
                let address = self.regs.get_hl();
                self.memory.write_byte(address, value);
            },
        }
    }

    /// The address of the cell that a load or store of A uses.
    fn address(&self, address: Address) -> (cell: u16)
        ensures
            cell == self@.address(address),
    {
        match address {
            Address::BC => self.regs.get_bc(),
            Address::DE => self.regs.get_de(),
            Address::HLInc | Address::HLDec => self.regs.get_hl(),
            Address::Imm16 => self.read_imm16(),
            Address::HighImm8 => 0xFF00 + self.read_imm8() as u16,
            Address::HighC => 0xFF00 + self.regs.bc.low as u16,
        }
    }

    /// Moves HL one up or one down after a load or store through it, where the
    /// addressing says so.
    fn step_address(&mut self, address: Address)
        ensures
            final(self)@ == old(self)@.after_address(address),
    {
        match address {
            Address::HLInc => {
                let hl = self.regs.get_hl();
                self.regs.set_hl(inc16(hl));
            },
            Address::HLDec => {
                let hl = self.regs.get_hl();
                self.regs.set_hl(dec16(hl));
            },
            _ => {},
        }
    }

    /// Writes A and the flags.
    fn set_accumulator(&mut self, result: (u8, Flags))
        ensures
            final(self)@ == old(self)@.with_accumulator(result),
    {
        self.regs.a = result.0;
        self.regs.f = result.1;
    }

    /// Executes an operation on the accumulator.
    fn accumulator(&mut self, op: OP)
        ensures
            final(self)@ == old(self)@.accumulator(op),
    {
        reveal(State::accumulator);
        match op {
            OP::Alu(alu_op, source) => {
                let result = alu(alu_op, self.regs.a, self.source(source), self.regs.f);
                self.set_accumulator(result);
            },
            OP::Daa => {
                self.set_accumulator(daa(self.regs.a, self.regs.f));
            },
            OP::Cpl => {
                self.set_accumulator(cpl(self.regs.a, self.regs.f));
            },
            OP::Scf => {
                self.regs.f = scf(self.regs.f);
            },
            OP::Ccf => {
                self.regs.f = ccf(self.regs.f);
            },
            OP::RlcA => {
                self.set_accumulator(rotate_a(ShiftOp::Rlc, self.regs.a, self.regs.f));
            },
            OP::RrcA => {
                self.set_accumulator(rotate_a(ShiftOp::Rrc, self.regs.a, self.regs.f));
            },
            OP::RlA => {
                self.set_accumulator(rotate_a(ShiftOp::Rl, self.regs.a, self.regs.f));
            },
            OP::RrA => {
                self.set_accumulator(rotate_a(ShiftOp::Rr, self.regs.a, self.regs.f));
            },
            _ => {},
        }
    }

    /// Executes an increment or decrement of an 8-bit place, or a 16-bit
    /// arithmetic operation.
    fn arithmetic(&mut self, op: OP)
        ensures
            final(self)@ == old(self)@.arithmetic(op),
    {
        reveal(State::arithmetic);
        match op {
            OP::Inc(target) => {
                let (value, flags) = inc8(self.target(target), self.regs.f);
                self.regs.f = flags;
                self.set_target(target, value);
            },
            OP::Dec(target) => {
                let (value, flags) = dec8(self.target(target), self.regs.f);
                self.regs.f = flags;
                self.set_target(target, value);
            },
            OP::AddHLR16(pair) => {
                let (sum, flags) = add16(self.regs.get_hl(), self.regs.get16(pair), self.regs.f);
                self.regs.f = flags;
                self.regs.set_hl(sum);
            },
            OP::IncR16(pair) => {
                let value = self.regs.get16(pair);
                self.regs.set16(pair, inc16(value));
            },
            OP::DecR16(pair) => {
                let value = self.regs.get16(pair);
                self.regs.set16(pair, dec16(value));
            },
            OP::AddSPImm => {
                let (sum, flags) = add_offset(self.regs.sp, self.read_imm8());
                self.regs.sp = sum;
                self.regs.f = flags;
            },
            _ => {},
        }
    }

    /// Executes an operation of the prefixed table: a rotate or shift, or a
    /// test, reset or set of one bit.
    fn execute_cb(&mut self, op: OP)
        requires
            op.wf(),
        ensures
            final(self)@ == old(self)@.prefixed(op),
    {
        reveal(State::prefixed);
        match op {
            OP::Shift(shift_op, target) => {
                let (value, flags) = shift(shift_op, self.target(target), self.regs.f);
                self.regs.f = flags;
                self.set_target(target, value);
            },
            OP::BitB(index, target) => {
                self.regs.f = bit(index, self.target(target), self.regs.f);
            },
            OP::ResB(index, target) => {
                let value = reset_bit(index, self.target(target));
                self.set_target(target, value);
            },
            OP::SetB(index, target) => {
                let value = set_bit(index, self.target(target));
                self.set_target(target, value);
            },
            _ => {},
        }
    }

    /// Executes a load, a store, a push or a pop.
    fn transfer(&mut self, op: OP)
        ensures
            final(self)@ == old(self)@.transfer(op),
    {
        reveal(State::transfer);
        match op {
            OP::Ld(target, source) => {
                let value = self.source(source);
                self.set_target(target, value);
            },
            OP::LdA(address) => {
                let cell = self.address(address);
                self.regs.a = self.memory.read_byte(cell);
                self.step_address(address);
            },
            OP::StA(address) => {
                let cell = self.address(address);
                self.memory.write_byte(cell, self.regs.a);
                self.step_address(address);
            },
            OP::LdR16Imm(pair) => {
                let value = self.read_imm16();
                self.regs.set16(pair, value);
            },
            OP::LdImmSP => {
                let cell = self.read_imm16();
                self.memory.write_word(cell, self.regs.sp);
            },
            OP::LdSPHL => {
                self.regs.sp = self.regs.get_hl();
            },
            OP::LdHLSPImm => {
                let (sum, flags) = add_offset(self.regs.sp, self.read_imm8());
                self.regs.f = flags;
                self.regs.set_hl(sum);
            },
            OP::PushR16(pair) => {
                let value = self.regs.get16(pair);
                self.push_stack(value);
            },
            OP::PopR16(pair) => {
                let value = self.pop_stack();
                self.regs.set16(pair, value);
            },
            _ => {},
        }
    }

    /// Executes a jump, a call or a return, and returns where the program
    /// counter is to go if the branch is taken. `next` is the address of the
    /// instruction that follows.
    fn branch(&mut self, op: OP, next: u16) -> (target: Option<u16>)
        ensures
            final(self)@ == old(self)@.branch(op, next).0,
            target == old(self)@.branch(op, next).1,
    {
        reveal(State::branch);
        match op {
            OP::JpImm => Some(self.read_imm16()),
            OP::JpCond(condition) => {
                if self.regs.f.test(condition) {
                    Some(self.read_imm16())
                } else {
                    None
                }
            },
            OP::JpHL => Some(self.regs.get_hl()),
            OP::Jr => Some(offset_word(next, self.read_imm8())),
            OP::JrCond(condition) => {
                if self.regs.f.test(condition) {
                    Some(offset_word(next, self.read_imm8()))
                } else {
                    None
                }
            },
            OP::Call => {
                let target = self.read_imm16();
                self.push_stack(next);
                Some(target)
            },
            OP::CallCond(condition) => {
                if self.regs.f.test(condition) {
                    let target = self.read_imm16();
                    self.push_stack(next);
                    Some(target)
                } else {
                    None
                }
            },
            OP::Ret => Some(self.pop_stack()),
            OP::RetCond(condition) => {
                if self.regs.f.test(condition) {
                    Some(self.pop_stack())
                } else {
                    None
                }
            },
            OP::Reti => {
                let target = self.pop_stack();
                self.ime = true;
                Some(target)
            },
            OP::Rst(vector) => {
                self.push_stack(next);
                Some(vector)
            },
            _ => None,
        }
    }

    /// Executes NOP, HALT, STOP, DI or EI.
    fn control(&mut self, op: OP)
        ensures
            final(self)@ == old(self)@.control(op),
    {
        reveal(State::control);
        match op {
            OP::Halt => {
                self.mode = Mode::Halted;
            },
            OP::Stop => {
                self.mode = Mode::Stopped;
            },
            OP::Di => {
                self.ime = false;
                self.ime_pending = false;
            },
            OP::Ei => {
                self.ime_pending = true;
            },
            _ => {},
        }
    }

    /// Performs an operation on everything but the program counter, and
    /// returns where the program counter is to go if the operation redirects
    /// it. `next` is the address of the instruction that follows.
    fn perform(&mut self, op: OP, next: u16) -> (target: Option<u16>)
        requires
            op.wf(),
        ensures
            final(self)@ == old(self)@.perform(op, next).0,
            target == old(self)@.perform(op, next).1,
    {
        reveal(State::perform);
        match op {
            OP::Alu(_, _)
            | OP::Daa
            | OP::Cpl
            | OP::Scf
            | OP::Ccf
            | OP::RlcA
            | OP::RrcA
            | OP::RlA
            | OP::RrA => {
                self.accumulator(op);
                None
            },
            OP::Inc(_)
            | OP::Dec(_)
            | OP::AddHLR16(_)
            | OP::IncR16(_)
            | OP::DecR16(_)
            | OP::AddSPImm => {
                self.arithmetic(op);
                None
            },
            OP::Shift(_, _) | OP::BitB(_, _) | OP::ResB(_, _) | OP::SetB(_, _) => {
                self.execute_cb(op);
                None
            },
            OP::Ld(_, _)
            | OP::LdA(_)
            | OP::StA(_)
            | OP::LdR16Imm(_)
            | OP::LdImmSP
            | OP::LdSPHL
            | OP::LdHLSPImm
            | OP::PushR16(_)
            | OP::PopR16(_) => {
                self.transfer(op);
                None
            },
            OP::JpImm
            | OP::JpCond(_)
            | OP::JpHL
            | OP::Jr
            | OP::JrCond(_)
            | OP::Call
            | OP::CallCond(_)
            | OP::Ret
            | OP::RetCond(_)
            | OP::Reti
            | OP::Rst(_) => self.branch(op, next),
            OP::Nop | OP::Halt | OP::Stop | OP::Di | OP::Ei => {
                self.control(op);
                None
            },
        }
    }

    /// Executes one decoded instruction, whatever the run state: performs
    /// its operation, moves the program counter to the branch target or past
    /// the instruction, and returns the cycles it cost.
    pub fn execute(&mut self, instruction: Instruction) -> (cycles: u8)
        requires
            instruction.opcode.wf(),
        ensures
            final(self)@ == old(self)@.execute(instruction).0,
            cycles == old(self)@.execute(instruction).1,
    {
        let next = self.regs.pc.wrapping_add(instruction.size as u16);
        match self.perform(instruction.opcode, next) {
            Some(pc) => {
                self.regs.pc = pc;
                instruction.cycles(true)
            },
            None => {
                self.regs.pc = next;
                instruction.cycles(false)
            },
        }
    }

    /// Runs the engine for one step: idles while halted or stopped, otherwise
    /// fetches, decodes and executes the instruction at the program counter.
    /// A byte that stands for no instruction is reported as a fault, and the
    /// engine is left as it was.
    pub fn step(&mut self) -> (result: Result<u8, Fault>)
        ensures
            final(self)@ == old(self)@.step().0,
            result == old(self)@.step().1,
            result is Err ==> final(self)@ == old(self)@,
    {
        match self.mode {
            Mode::Running => {},
            _ => {
                return Ok(IDLE_CYCLES);
            },
        }
        let pc = self.regs.pc;
        let bytes = [
            self.memory.read_byte(pc),
            self.memory.read_byte(pc.wrapping_add(1)),
            self.memory.read_byte(pc.wrapping_add(2)),
        ];
        assert(bytes@ =~= seq![bytes[0], bytes[1], bytes[2]]);
        match Instruction::decode(&bytes) {
            None => Err(Fault::UnknownOpcode { byte: bytes[0], address: pc }),
            Some(instruction) => {
                proof {
                    lemma_entries_well_formed(bytes[0]);
                    lemma_entries_well_formed(bytes[1]);
                }
                let armed = self.ime_pending;
                self.ime_pending = false;
                let cycles = self.execute(instruction);
                let disabled = match instruction.opcode {
                    OP::Di => true,
                    _ => false,
                };
                if armed && !disabled {
                    self.ime = true;
                }
                Ok(cycles)
            },
        }
    }
}

} // verus!
