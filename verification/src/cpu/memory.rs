//! The memory: a flat array of 65536 bytes, read and written byte by byte or as
//! little-endian words.

use super::Address;
use vstd::prelude::*;

verus! {

/// The number of bytes that the processor can address.
pub const MEMORY_SIZE: usize = 65536;

/// An access that would have reached past the last byte of memory.
#[derive(Debug, Clone, Copy, PartialEq, Eq, Hash, Structural)]
pub struct MemoryBoundsError {
    /// The address at which the refused access began.
    pub address: usize,
}

/// The 16-bit word whose low byte is `lo` and whose high byte is `hi`.
pub open spec fn word_of_bytes(lo: u8, hi: u8) -> u16 {
    (hi * 256 + lo) as u16
}

/// The low byte of a word.
pub open spec fn low_byte(word: u16) -> u8 {
    (word % 256) as u8
}

/// The high byte of a word.
pub open spec fn high_byte(word: u16) -> u8 {
    (word / 256) as u8
}

/// The address `by` bytes after `address` (before it, where `by` is negative), counted
/// modulo 65536.
pub open spec fn offset_address(address: Address, by: int) -> Address {
    ((address + by) % 65536) as u16
}

/// The word stored at `address`: its low byte there, its high byte at the next address,
/// which after 0xFFFF is 0.
pub open spec fn word_at(memory: Seq<u8>, address: Address) -> u16 {
    word_of_bytes(memory[address as int], memory[offset_address(address, 1) as int])
}

/// The memory after `word` is stored at `address`: its low byte there, its high byte at
/// the next address, which after 0xFFFF is 0.
pub open spec fn with_word_at(memory: Seq<u8>, address: Address, word: u16) -> Seq<u8> {
    memory.update(address as int, low_byte(word)).update(
        offset_address(address, 1) as int,
        high_byte(word),
    )
}

/// A word is made of its two bytes.
pub proof fn lemma_word_bytes(word: u16)
    ensures
        word_of_bytes(low_byte(word), high_byte(word)) == word,
{
}

/// The bytes of a word made of two bytes are those two.
pub proof fn lemma_bytes_of_word(lo: u8, hi: u8)
    ensures
        low_byte(word_of_bytes(lo, hi)) == lo,
        high_byte(word_of_bytes(lo, hi)) == hi,
{
}

/// A word stored in a full memory is the word read back from the same address.
pub proof fn lemma_word_read_back(memory: Seq<u8>, address: Address, word: u16)
    requires
        memory.len() == 65536,
    ensures
        word_at(with_word_at(memory, address, word), address) == word,
        with_word_at(memory, address, word).len() == 65536,
{
}

/// Splits a word into its low and its high byte.
pub fn split_word(word: u16) -> (bytes: (u8, u8))
    ensures
        bytes.0 == low_byte(word),
        bytes.1 == high_byte(word),
{
    let lo: u16 = word & 0xff;
    let hi: u16 = word >> 8;
    assert(lo == word % 256 && hi == word / 256 && hi < 256) by (bit_vector)
        requires
            lo == word & 0xff,
            hi == word >> 8,
    ;
    (lo as u8, hi as u8)
}

/// Joins a low and a high byte into a word.
pub fn join_word(lo: u8, hi: u8) -> (word: u16)
    ensures
        word == word_of_bytes(lo, hi),
{
    let shifted: u16 = (hi as u16) << 8;
    assert(shifted == hi * 256) by (bit_vector)
        requires
            shifted == (hi as u16) << 8,
    ;
    shifted + lo as u16
}

/// The processor's memory.
#[derive(Clone)]
pub struct Memory {
    bytes: [u8; 65536],
}

impl View for Memory {
    type V = Seq<u8>;

    /// The bytes of the memory, indexed by address.
    closed spec fn view(&self) -> Seq<u8> {
        self.bytes@
    }
}

/// A memory always holds 65536 bytes.
pub broadcast proof fn lemma_memory_size(memory: Memory)
    ensures
        #[trigger] memory@.len() == 65536,
{
}

impl Memory {
    /// A memory filled with zeros.
    pub fn new() -> (memory: Memory)
        ensures
            memory@ == Seq::new(65536, |i: int| 0u8),
    {
        Memory { bytes: [0u8; 65536] }
    }

    /// Reads the byte at `address`, which must lie inside the memory.
    pub fn read_byte(&self, address: usize) -> (result: Result<u8, MemoryBoundsError>)
        ensures
            address < 65536 ==> result == Ok::<u8, MemoryBoundsError>(self@[address as int]),
            address >= 65536 ==> result == Err::<u8, MemoryBoundsError>(
                MemoryBoundsError { address },
            ),
    {
        if address < MEMORY_SIZE {
            Ok(self.bytes[address])
        } else {
            Err(MemoryBoundsError { address })
        }
    }

    /// Reads the little-endian word whose low byte is at `address`. Both bytes must lie
    /// inside the memory: the read does not wrap round.
    pub fn read_word(&self, address: usize) -> (result: Result<u16, MemoryBoundsError>)
        ensures
            address + 1 < 65536 ==> result == Ok::<u16, MemoryBoundsError>(
                word_of_bytes(self@[address as int], self@[address + 1]),
            ),
            address + 1 >= 65536 ==> result == Err::<u16, MemoryBoundsError>(
                MemoryBoundsError { address },
            ),
    {
        if address < MEMORY_SIZE - 1 {
            Ok(join_word(self.bytes[address], self.bytes[address + 1]))
        } else {
            Err(MemoryBoundsError { address })
        }
    }

    /// Writes `value` at `address`, which must lie inside the memory. A refused write
    /// changes nothing.
    pub fn write_byte(&mut self, address: usize, value: u8) -> (result: Result<
        (),
        MemoryBoundsError,
    >)
        ensures
            address < 65536 ==> result == Ok::<(), MemoryBoundsError>(()),
            address < 65536 ==> final(self)@ == old(self)@.update(address as int, value),
            address >= 65536 ==> result == Err::<(), MemoryBoundsError>(
                MemoryBoundsError { address },
            ) && final(self)@ == old(self)@,
    {
        if address < MEMORY_SIZE {
            self.bytes[address] = value;
            Ok(())
        } else {
            Err(MemoryBoundsError { address })
        }
    }

    /// Writes `value` as a little-endian word with its low byte at `address`. Both
    /// bytes must lie inside the memory: the write does not wrap round, and a refused
    /// write changes nothing.
    pub fn write_word(&mut self, address: usize, value: u16) -> (result: Result<
        (),
        MemoryBoundsError,
    >)
        ensures
            address + 1 < 65536 ==> result == Ok::<(), MemoryBoundsError>(()) && final(self)@
                == old(self)@.update(address as int, low_byte(value)).update(
                address + 1,
                high_byte(value),
            ),
            address + 1 >= 65536 ==> result == Err::<(), MemoryBoundsError>(
                MemoryBoundsError { address },
            ) && final(self)@ == old(self)@,
    {
        if address < MEMORY_SIZE - 1 {
            let (lo, hi) = split_word(value);
            self.bytes[address] = lo;
            self.bytes[address + 1] = hi;
            Ok(())
        } else {
            Err(MemoryBoundsError { address })
        }
    }

    /// The byte at a 16-bit address. Every such address lies inside the memory.
    pub fn load(&self, address: Address) -> (value: u8)
        ensures
            value == self@[address as int],
    {
        self.bytes[address as usize]
    }

    /// Stores a byte at a 16-bit address.
    pub fn store(&mut self, address: Address, value: u8)
        ensures
            final(self)@ == old(self)@.update(address as int, value),
    {
        self.bytes[address as usize] = value;
    }

    /// The little-endian word at a 16-bit address. After 0xFFFF the high byte is taken
    /// from address 0.
    pub fn load_word(&self, address: Address) -> (value: u16)
        ensures
            value == word_at(self@, address),
    {
        let lo = self.bytes[address as usize];
        let hi = self.bytes[address.wrapping_add(1) as usize];
        join_word(lo, hi)
    }

    /// Stores a little-endian word at a 16-bit address. After 0xFFFF the high byte goes
    /// to address 0.
    pub fn store_word(&mut self, address: Address, value: u16)
        ensures
            final(self)@ == with_word_at(old(self)@, address, value),
    {
        let (lo, hi) = split_word(value);
        self.bytes[address as usize] = lo;
        self.bytes[address.wrapping_add(1) as usize] = hi;
    }
}

} // verus!
