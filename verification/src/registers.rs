use vstd::prelude::*;

verus! {

/// The seven general 8-bit registers.
#[derive(Clone, Copy, Debug, PartialEq, Eq, Structural)]
pub enum Reg8 {
    A,
    B,
    C,
    D,
    E,
    H,
    L,
}

/// The 16-bit views of the register file: the four pairs and the stack pointer.
#[derive(Clone, Copy, Debug, PartialEq, Eq, Structural)]
pub enum Reg16 {
    AF,
    BC,
    DE,
    HL,
    SP,
}

/// One of the four condition flags.
#[derive(Clone, Copy, Debug, PartialEq, Eq, Structural)]
pub enum Flag {
    Z,
    N,
    H,
    C,
}

/// A branch condition: a test of the zero or the carry flag.
#[derive(Clone, Copy, Debug, PartialEq, Eq, Structural)]
pub enum Condition {
    NZ,
    Z,
    NC,
    C,
}

/// The word whose high byte is `high` and whose low byte is `low`.
pub open spec fn word_of(high: u8, low: u8) -> u16 {
    (high as int * 256 + low as int) as u16
}

/// The high byte of a word.
pub open spec fn high_byte(word: u16) -> u8 {
    (word as int / 256) as u8
}

/// The low byte of a word.
pub open spec fn low_byte(word: u16) -> u8 {
    (word as int % 256) as u8
}

/// An address or a word one step further, modulo 65536.
pub open spec fn wrap16(value: int) -> u16 {
    (value % 65536) as u16
}

/// A byte value modulo 256.
pub open spec fn wrap8(value: int) -> u8 {
    (value % 256) as u8
}

/// Makes a word of its high and its low byte.
pub fn make_word(high: u8, low: u8) -> (word: u16)
    ensures
        word == word_of(high, low),
        high_byte(word) == high,
        low_byte(word) == low,
{
    let word = ((high as u16) << 8) | (low as u16);
    assert(((high as u16) << 8) | (low as u16) == (high as u16) * 256 + (low as u16))
        by (bit_vector);
    word
}

/// Splits a word into its high and its low byte.
pub fn split_word(word: u16) -> (bytes: (u8, u8))
    ensures
        bytes.0 == high_byte(word),
        bytes.1 == low_byte(word),
        word_of(bytes.0, bytes.1) == word,
{
    let high = (word >> 8) as u8;
    let low = (word & 0x00ff) as u8;
    assert(word >> 8 == word / 256 && word & 0x00ff == word % 256) by (bit_vector);
    (high, low)
}

/// A register pair, high byte first.
#[derive(Clone, Copy, Debug, PartialEq, Eq, Structural)]
pub struct Register {
    pub high: u8,
    pub low: u8,
}

impl Register {
    /// The 16-bit value of the pair.
    pub open spec fn word(self) -> u16 {
        word_of(self.high, self.low)
    }

    /// The pair that holds `word`.
    pub open spec fn of_word(word: u16) -> Register {
        Register { high: high_byte(word), low: low_byte(word) }
    }

    /// The 16-bit value of the pair.
    pub fn get(&self) -> (word: u16)
        ensures
            word == self.word(),
    {
        make_word(self.high, self.low)
    }

    /// Stores a 16-bit value in the pair.
    pub fn set(&mut self, word: u16)
        ensures
            *final(self) == Register::of_word(word),
            final(self).word() == word,
    {
        let (high, low) = split_word(word);
        self.high = high;
        self.low = low;
    }
}

/// The four condition flags.
#[derive(Clone, Copy, Debug, PartialEq, Eq, Structural)]
pub struct Flags {
    pub zero: bool,
    pub subtract: bool,
    pub half_carry: bool,
    pub carry: bool,
}

impl Flags {
    /// The flags as the low byte of AF: Z in bit 7, N in bit 6, H in bit 5,
    /// C in bit 4, and the low four bits clear.
    pub open spec fn byte(self) -> u8 {
        ((if self.zero { 128int } else { 0 })
            + (if self.subtract { 64int } else { 0 })
            + (if self.half_carry { 32int } else { 0 })
            + (if self.carry { 16int } else { 0 })) as u8
    }

    /// The flags that a byte written to the low half of AF sets: bits 7 to 4,
    /// the low four bits being dropped.
    pub open spec fn of_byte(value: u8) -> Flags {
        Flags {
            zero: (value as int / 128) % 2 == 1,
            subtract: (value as int / 64) % 2 == 1,
            half_carry: (value as int / 32) % 2 == 1,
            carry: (value as int / 16) % 2 == 1,
        }
    }

    /// The value of one flag.
    pub open spec fn flag(self, flag: Flag) -> bool {
        match flag {
            Flag::Z => self.zero,
            Flag::N => self.subtract,
            Flag::H => self.half_carry,
            Flag::C => self.carry,
        }
    }

    /// These flags with one of them replaced.
    pub open spec fn with_flag(self, flag: Flag, value: bool) -> Flags {
        match flag {
            Flag::Z => Flags { zero: value, ..self },
            Flag::N => Flags { subtract: value, ..self },
            Flag::H => Flags { half_carry: value, ..self },
            Flag::C => Flags { carry: value, ..self },
        }
    }

    /// Whether a branch condition holds of these flags.
    pub open spec fn holds(self, condition: Condition) -> bool {
        match condition {
            Condition::NZ => !self.zero,
            Condition::Z => self.zero,
            Condition::NC => !self.carry,
            Condition::C => self.carry,
        }
    }

    /// The four flags, all clear.
    pub fn new() -> (flags: Flags)
        ensures
            flags == (Flags { zero: false, subtract: false, half_carry: false, carry: false }),
    {
        Flags { zero: false, subtract: false, half_carry: false, carry: false }
    }

    /// Reads one flag.
    pub fn get(&self, flag: Flag) -> (value: bool)
        ensures
            value == self.flag(flag),
    {
        match flag {
            Flag::Z => self.zero,
            Flag::N => self.subtract,
            Flag::H => self.half_carry,
            Flag::C => self.carry,
        }
    }

    /// Writes one flag.
    pub fn set(&mut self, flag: Flag, value: bool)
        ensures
            *final(self) == old(self).with_flag(flag, value),
    {
        match flag {
            Flag::Z => self.zero = value,
            Flag::N => self.subtract = value,
            Flag::H => self.half_carry = value,
            Flag::C => self.carry = value,
        }
    }

    /// Tests a branch condition.
    pub fn test(&self, condition: Condition) -> (value: bool)
        ensures
            value == self.holds(condition),
    {
        match condition {
            Condition::NZ => !self.zero,
            Condition::Z => self.zero,
            Condition::NC => !self.carry,
            Condition::C => self.carry,
        }
    }

    /// Packs the flags into the low byte of AF.
    pub fn to_byte(&self) -> (value: u8)
        ensures
            value == self.byte(),
            value % 16 == 0,
    {
        let mut value: u8 = 0x00;
        if self.zero {
            value += 0x80;
        }
        if self.subtract {
            value += 0x40;
        }
        if self.half_carry {
            value += 0x20;
        }
        if self.carry {
            value += 0x10;
        }
        value
    }

    /// Takes the flags from bits 7 to 4 of a byte.
    pub fn from_byte(value: u8) -> (flags: Flags)
        ensures
            flags == Flags::of_byte(value),
    {
        assert((value & 0x80 == 0x80) == ((value / 128) % 2 == 1) && (value & 0x40 == 0x40) == ((
        value / 64) % 2 == 1) && (value & 0x20 == 0x20) == ((value / 32) % 2 == 1) && (value & 0x10
            == 0x10) == ((value / 16) % 2 == 1)) by (bit_vector);
        Flags {
            zero: value & 0x80 == 0x80,
            subtract: value & 0x40 == 0x40,
            half_carry: value & 0x20 == 0x20,
            carry: value & 0x10 == 0x10,
        }
    }
}

/// The register file: the accumulator and the flags, the three general
/// pairs, the stack pointer and the program counter.
#[derive(Clone, Copy, Debug, PartialEq, Eq, Structural)]
pub struct Registers {
    pub a: u8,
    pub f: Flags,
    pub bc: Register,
    pub de: Register,
    pub hl: Register,
    pub sp: u16,
    pub pc: u16,
}

impl Registers {
    /// The value of an 8-bit register.
    pub open spec fn reg8(self, reg: Reg8) -> u8 {
        match reg {
            Reg8::A => self.a,
            Reg8::B => self.bc.high,
            Reg8::C => self.bc.low,
            Reg8::D => self.de.high,
            Reg8::E => self.de.low,
            Reg8::H => self.hl.high,
            Reg8::L => self.hl.low,
        }
    }

    /// This register file with one 8-bit register replaced.
    pub open spec fn with_reg8(self, reg: Reg8, value: u8) -> Registers {
        match reg {
            Reg8::A => Registers { a: value, ..self },
            Reg8::B => Registers { bc: Register { high: value, ..self.bc }, ..self },
            Reg8::C => Registers { bc: Register { low: value, ..self.bc }, ..self },
            Reg8::D => Registers { de: Register { high: value, ..self.de }, ..self },
            Reg8::E => Registers { de: Register { low: value, ..self.de }, ..self },
            Reg8::H => Registers { hl: Register { high: value, ..self.hl }, ..self },
            Reg8::L => Registers { hl: Register { low: value, ..self.hl }, ..self },
        }
    }

    /// The value of a 16-bit view. The low byte of AF is the flag byte.
    pub open spec fn reg16(self, reg: Reg16) -> u16 {
        match reg {
            Reg16::AF => word_of(self.a, self.f.byte()),
            Reg16::BC => self.bc.word(),
            Reg16::DE => self.de.word(),
            Reg16::HL => self.hl.word(),
            Reg16::SP => self.sp,
        }
    }

    /// This register file with one 16-bit view replaced. Of a value written
    /// to AF the low four bits are dropped.
    pub open spec fn with_reg16(self, reg: Reg16, value: u16) -> Registers {
        match reg {
            Reg16::AF => Registers {
                a: high_byte(value),
                f: Flags::of_byte(low_byte(value)),
                ..self
            },
            Reg16::BC => Registers { bc: Register::of_word(value), ..self },
            Reg16::DE => Registers { de: Register::of_word(value), ..self },
            Reg16::HL => Registers { hl: Register::of_word(value), ..self },
            Reg16::SP => Registers { sp: value, ..self },
        }
    }

    /// The register file with every register and flag zero.
    pub open spec fn zeroed() -> Registers {
        Registers {
            a: 0,
            f: Flags { zero: false, subtract: false, half_carry: false, carry: false },
            bc: Register { high: 0, low: 0 },
            de: Register { high: 0, low: 0 },
            hl: Register { high: 0, low: 0 },
            sp: 0,
            pc: 0,
        }
    }

    /// A register file with every register and flag zero.
    pub fn new() -> (regs: Registers)
        ensures
            regs == Registers::zeroed(),
    {
        Registers {
            a: 0x00,
            f: Flags::new(),
            bc: Register { high: 0x00, low: 0x00 },
            de: Register { high: 0x00, low: 0x00 },
            hl: Register { high: 0x00, low: 0x00 },
            sp: 0x0000,
            pc: 0x0000,
        }
    }

    /// Reads an 8-bit register.
    pub fn get8(&self, reg: Reg8) -> (value: u8)
        ensures
            value == self.reg8(reg),
    {
        match reg {
            Reg8::A => self.a,
            Reg8::B => self.bc.high,
            Reg8::C => self.bc.low,
            Reg8::D => self.de.high,
            Reg8::E => self.de.low,
            Reg8::H => self.hl.high,
            Reg8::L => self.hl.low,
        }
    }

    /// Writes an 8-bit register.
    pub fn set8(&mut self, reg: Reg8, value: u8)
        ensures
            *final(self) == old(self).with_reg8(reg, value),
    {
        match reg {
            Reg8::A => self.a = value,
            Reg8::B => self.bc.high = value,
            Reg8::C => self.bc.low = value,
            Reg8::D => self.de.high = value,
            Reg8::E => self.de.low = value,
            Reg8::H => self.hl.high = value,
            Reg8::L => self.hl.low = value,
        }
    }

    /// Reads a register pair or the stack pointer.
    pub fn get16(&self, reg: Reg16) -> (value: u16)
        ensures
            value == self.reg16(reg),
    {
        match reg {
            Reg16::AF => self.get_af(),
            Reg16::BC => self.get_bc(),
            Reg16::DE => self.get_de(),
            Reg16::HL => self.get_hl(),
            Reg16::SP => self.sp,
        }
    }

    /// Writes a register pair or the stack pointer. Of a value written to AF
    /// the low four bits are dropped.
    pub fn set16(&mut self, reg: Reg16, value: u16)
        ensures
            *final(self) == old(self).with_reg16(reg, value),
    {
        match reg {
            Reg16::AF => self.set_af(value),
            Reg16::BC => self.set_bc(value),
            Reg16::DE => self.set_de(value),
            Reg16::HL => self.set_hl(value),
            Reg16::SP => self.sp = value,
        }
    }

    /// A in the high byte and the flag byte in the low one.
    pub fn get_af(&self) -> (value: u16)
        ensures
            value == self.reg16(Reg16::AF),
            value % 16 == 0,
    {
        let value = make_word(self.a, self.get_flag());
        assert(low_byte(value) % 16 == 0);
        value
    }

    /// Writes A from the high byte and the flags from bits 7 to 4 of the low
    /// one; its low four bits are dropped.
    pub fn set_af(&mut self, value: u16)
        ensures
            *final(self) == old(self).with_reg16(Reg16::AF, value),
    {
        let (high, low) = split_word(value);
        self.a = high;
        self.set_flag(low);
    }

    /// The pair BC, B being the high byte.
    pub fn get_bc(&self) -> (value: u16)
        ensures
            value == self.reg16(Reg16::BC),
    {
        self.bc.get()
    }

    /// Writes the pair BC.
    pub fn set_bc(&mut self, value: u16)
        ensures
            *final(self) == old(self).with_reg16(Reg16::BC, value),
    {
        self.bc.set(value);
    }

    /// The pair DE, D being the high byte.
    pub fn get_de(&self) -> (value: u16)
        ensures
            value == self.reg16(Reg16::DE),
    {
        self.de.get()
    }

    /// Writes the pair DE.
    pub fn set_de(&mut self, value: u16)
        ensures
            *final(self) == old(self).with_reg16(Reg16::DE, value),
    {
        self.de.set(value);
    }

    /// The pair HL, H being the high byte.
    pub fn get_hl(&self) -> (value: u16)
        ensures
            value == self.reg16(Reg16::HL),
    {
        self.hl.get()
    }

    /// Writes the pair HL.
    pub fn set_hl(&mut self, value: u16)
        ensures
            *final(self) == old(self).with_reg16(Reg16::HL, value),
    {
        self.hl.set(value);
    }

    /// The flag byte, as the low half of AF reads.
    pub fn get_flag(&self) -> (value: u8)
        ensures
            value == self.f.byte(),
            value % 16 == 0,
    {
        self.f.to_byte()
    }

    /// Sets the four flags from bits 7 to 4 of `value`.
    pub fn set_flag(&mut self, value: u8)
        ensures
            *final(self) == (Registers { f: Flags::of_byte(value), ..*old(self) }),
    {
        self.f = Flags::from_byte(value);
    }
}

/// The low four bits of the flag byte read zero, whatever the flags.
pub proof fn lemma_flag_byte_low_nibble_clear(flags: Flags)
    ensures
        flags.byte() % 16 == 0,
        flags.byte() as int == (if flags.zero { 128int } else { 0 }) + (if flags.subtract {
            64int
        } else {
            0
        }) + (if flags.half_carry { 32int } else { 0 }) + (if flags.carry { 16int } else { 0 }),
{
}

/// Writing the flag byte back gives the same flags.
pub proof fn lemma_flags_byte_round_trip(flags: Flags)
    ensures
        Flags::of_byte(flags.byte()) == flags,
{
}

/// A byte written to the flags reads back with its low four bits cleared.
pub proof fn lemma_flags_of_byte_masks(value: u8)
    ensures
        Flags::of_byte(value).byte() == value - value % 16,
{
    assert(value - value % 16 == (if (value / 128) % 2 == 1 { 128u8 } else { 0u8 }) + (if (value
        / 64) % 2 == 1 { 64u8 } else { 0u8 }) + (if (value / 32) % 2 == 1 { 32u8 } else { 0u8 })
        + (if (value / 16) % 2 == 1 { 16u8 } else { 0u8 })) by (bit_vector);
}

/// A word splits into its two bytes and is made of them again.
pub proof fn lemma_word_bytes(word: u16, high: u8, low: u8)
    ensures
        word_of(high_byte(word), low_byte(word)) == word,
        high_byte(word_of(high, low)) == high,
        low_byte(word_of(high, low)) == low,
{
}

/// An 8-bit register reads back what was written to it, and the others keep
/// their values.
pub proof fn lemma_reg8_read_after_write(regs: Registers, reg: Reg8, value: u8, other: Reg8)
    ensures
        regs.with_reg8(reg, value).reg8(reg) == value,
        other != reg ==> regs.with_reg8(reg, value).reg8(other) == regs.reg8(other),
        regs.with_reg8(reg, value).f == regs.f,
        regs.with_reg8(reg, value).sp == regs.sp,
        regs.with_reg8(reg, value).pc == regs.pc,
{
}

/// A 16-bit view reads back what was written to it; AF reads it back with
/// the low four bits cleared.
pub proof fn lemma_reg16_read_after_write(regs: Registers, reg: Reg16, value: u16)
    ensures
        reg != Reg16::AF ==> regs.with_reg16(reg, value).reg16(reg) == value,
        regs.with_reg16(Reg16::AF, value).reg16(Reg16::AF) == value - value % 16,
        regs.with_reg16(reg, value).reg16(Reg16::AF) % 16 == 0,
{
    lemma_word_bytes(value, 0, 0);
    lemma_flags_of_byte_masks(low_byte(value));
    lemma_flag_byte_low_nibble_clear(regs.f);
}

} // verus!
