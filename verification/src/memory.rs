use crate::registers::{high_byte, low_byte, make_word, split_word, word_of, wrap16};
use vstd::prelude::*;

verus! {

/// The flat address space of 65536 byte cells. Every 16-bit address names a
/// cell; an address one past the top is the bottom.
pub struct MemoryBus {
    pub memory: [u8; 65536],
}

impl View for MemoryBus {
    type V = Seq<u8>;

    open spec fn view(&self) -> Seq<u8> {
        self.memory@
    }
}

/// The word stored at an address: low byte there, high byte in the next cell.
pub open spec fn word_at(cells: Seq<u8>, address: u16) -> u16 {
    word_of(cells[wrap16(address + 1) as int], cells[address as int])
}

/// The cells after a word is stored at an address: low byte there, high byte
/// in the next cell.
pub open spec fn store_word(cells: Seq<u8>, address: u16, word: u16) -> Seq<u8> {
    cells.update(address as int, low_byte(word)).update(
        wrap16(address + 1) as int,
        high_byte(word),
    )
}

/// The cells after `bytes` are stored one after the other from `offset` on,
/// each address taken modulo 65536. A later byte replaces an earlier one that
/// fell on the same cell.
pub open spec fn loaded(cells: Seq<u8>, offset: u16, bytes: Seq<u8>) -> Seq<u8>
    decreases bytes.len(),
{
    if bytes.len() == 0 {
        cells
    } else {
        loaded(cells, offset, bytes.drop_last()).update(
            wrap16(offset + bytes.len() - 1) as int,
            bytes.last(),
        )
    }
}

impl MemoryBus {
    /// A memory with every cell zero.
    pub fn new() -> (bus: MemoryBus)
        ensures
            bus@.len() == 65536,
            forall|address: int| 0 <= address < 65536 ==> bus@[address] == 0u8,
    {
        MemoryBus { memory: [0u8; 65536] }
    }

    /// Reads the cell at `address`.
    pub fn read_byte(&self, address: u16) -> (value: u8)
        ensures
            value == self@[address as int],
    {
        self.memory[address as usize]
    }

    /// Reads the byte at `address` and moves the address one cell on.
    pub fn read_next_byte(&self, address: &mut u16) -> (value: u8)
        ensures
            value == self@[*old(address) as int],
            *final(address) == wrap16(*old(address) + 1),
    {
        let value = self.read_byte(*address);
        *address = address.wrapping_add(1);
        value
    }

    /// Writes the cell at `address`.
    pub fn write_byte(&mut self, address: u16, value: u8)
        ensures
            final(self)@ == old(self)@.update(address as int, value),
    {
        self.memory[address as usize] = value;
    }

    /// Reads a little-endian word.
    pub fn read_word(&self, address: u16) -> (word: u16)
        ensures
            word == word_at(self@, address),
    {
        let low = self.read_byte(address);
        let high = self.read_byte(address.wrapping_add(1));
        make_word(high, low)
    }

    /// Writes a little-endian word.
    pub fn write_word(&mut self, address: u16, word: u16)
        ensures
            final(self)@ == store_word(old(self)@, address, word),
    {
        let (high, low) = split_word(word);
        self.write_byte(address, low);
        self.write_byte(address.wrapping_add(1), high);
    }

    /// Copies `bytes` into the cells from `offset` on.
    pub fn load(&mut self, offset: u16, bytes: &[u8])
        ensures
            final(self)@ == loaded(old(self)@, offset, bytes@),
    {
        let mut address = offset;
        let mut i: usize = 0;
        while i < bytes.len()
            invariant
                i <= bytes.len(),
                address == wrap16(offset + i),
                self@ == loaded(old(self)@, offset, bytes@.take(i as int)),
            decreases bytes.len() - i,
        {
            proof {
                assert(bytes@.take(i + 1).drop_last() == bytes@.take(i as int));
            }
            self.write_byte(address, bytes[i]);
            address = address.wrapping_add(1);
            i += 1;
        }
        proof {
            assert(bytes@.take(i as int) == bytes@);
        }
    }
}

/// A word reads back from where it was stored.
pub proof fn lemma_word_round_trip(cells: Seq<u8>, address: u16, word: u16)
    requires
        cells.len() == 65536,
    ensures
        word_at(store_word(cells, address, word), address) == word,
        store_word(cells, address, word).len() == 65536,
{
}

/// Loading keeps the size of the memory.
pub proof fn lemma_loaded_len(cells: Seq<u8>, offset: u16, bytes: Seq<u8>)
    requires
        cells.len() == 65536,
    ensures
        loaded(cells, offset, bytes).len() == 65536,
    decreases bytes.len(),
{
    if bytes.len() > 0 {
        lemma_loaded_len(cells, offset, bytes.drop_last());
    }
}

/// Where no more bytes are loaded than the memory has cells, each byte is in
/// its own cell afterwards, and the cells outside the loaded range keep their
/// values.
pub proof fn lemma_loaded_cells(cells: Seq<u8>, offset: u16, bytes: Seq<u8>, address: u16)
    requires
        cells.len() == 65536,
        bytes.len() <= 65536,
    ensures
        ({
            let index = (address - offset) % 65536;
            loaded(cells, offset, bytes)[address as int] == if index < bytes.len() {
                bytes[index]
            } else {
                cells[address as int]
            }
        }),
    decreases bytes.len(),
{
    if bytes.len() > 0 {
        lemma_loaded_len(cells, offset, bytes.drop_last());
        lemma_loaded_cells(cells, offset, bytes.drop_last(), address);
    }
}

} // verus!
