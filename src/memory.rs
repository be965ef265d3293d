use vstd::prelude::*;

use crate::registers::{high, low, pair};

verus! {

/// The number of addressable bytes.
pub const MEMORY_SIZE: usize = 0x10000;

/// The little-endian word at address `i`: low byte at `i`, high byte at `i + 1`,
/// that address taken modulo the size of the address space.
pub open spec fn word_at(mem: Seq<u8>, i: int) -> u16 {
    pair(mem[(i + 1) % 0x10000], mem[i])
}

/// `mem` with the little-endian word `v` stored at address `i`.
pub open spec fn write_word(mem: Seq<u8>, i: int, v: u16) -> Seq<u8> {
    mem.update(i, low(v)).update((i + 1) % 0x10000, high(v))
}

/// A byte-addressable store of 64 KiB, with little-endian word accessors.
pub trait Memory {
    /// The bytes held, indexed by address.
    spec fn bytes(&self) -> Seq<u8>;

    fn read(&self, i: usize) -> (r: u8)
        requires
            i < MEMORY_SIZE,
        ensures
            r == self.bytes()[i as int],
    ;

    fn write(&mut self, i: usize, data: u8)
        requires
            i < MEMORY_SIZE,
        ensures
            final(self).bytes() == old(self).bytes().update(i as int, data),
    ;

    fn read16(&self, i: usize) -> (r: u16)
        requires
            i < MEMORY_SIZE,
            self.bytes().len() == MEMORY_SIZE,
        ensures
            r == word_at(self.bytes(), i as int),
    ;

    fn write16(&mut self, i: usize, data: u16)
        requires
            i < MEMORY_SIZE,
            old(self).bytes().len() == MEMORY_SIZE,
        ensures
            final(self).bytes() == write_word(old(self).bytes(), i as int, data),
    ;
}

/// Flat memory: every address from 0x0000 to 0xFFFF reads and writes.
pub struct Memory8080 {
    pub memory: [u8; 0x10000],
}

impl Memory for Memory8080 {
    open spec fn bytes(&self) -> Seq<u8> {
        self.memory@
    }

    fn read(&self, i: usize) -> (r: u8) {
        self.memory[i]
    }

    fn write(&mut self, i: usize, data: u8) {
        self.memory[i] = data;
    }

    fn read16(&self, i: usize) -> (r: u16) {
        let lo = self.read(i);
        let hi = self.read((i + 1) % MEMORY_SIZE);
        (hi as u16) * 256 + (lo as u16)
    }

    fn write16(&mut self, i: usize, data: u16) {
        let hi = (data / 256) as u8;
        let lo = (data % 256) as u8;
        self.write(i, lo);
        self.write((i + 1) % MEMORY_SIZE, hi);
    }
}

impl Memory8080 {
    /// Memory holding zero at every address.
    pub fn new_empty() -> (m: Self)
        ensures
            m.bytes().len() == MEMORY_SIZE,
            forall|i: int| 0 <= i < MEMORY_SIZE ==> m.bytes()[i] == 0,
    {
        Memory8080 { memory: [0u8; 0x10000] }
    }

    /// Memory holding the image `memory`.
    pub fn new(memory: [u8; 0x10000]) -> (m: Self)
        ensures
            m.bytes() == memory@,
    {
        Memory8080 { memory }
    }
}

/// Writing a byte and then reading the same address yields that byte.
pub proof fn lemma_write_then_read(mem: Seq<u8>, a: int, v: u8)
    requires
        mem.len() == MEMORY_SIZE,
        0 <= a < MEMORY_SIZE,
    ensures
        mem.update(a, v)[a] == v,
        forall|b: int| 0 <= b < MEMORY_SIZE && b != a ==> mem.update(a, v)[b] == mem[b],
{
}

/// The word at `a` is the byte at `a` or'ed with the byte at `a + 1` shifted left by eight.
pub proof fn lemma_word_at_bytes(mem: Seq<u8>, a: int)
    requires
        mem.len() == MEMORY_SIZE,
        0 <= a < MEMORY_SIZE,
    ensures
        word_at(mem, a) == (mem[a] as u16) | ((mem[(a + 1) % 0x10000] as u16) << 8),
{
    let lo = mem[a];
    let hi = mem[(a + 1) % 0x10000];
    assert((hi as u16) * 256 + (lo as u16) == (lo as u16) | ((hi as u16) << 8)) by (bit_vector);
}

/// A word is made of its high and low bytes.
pub proof fn lemma_pair_high_low(v: u16)
    ensures
        pair(high(v), low(v)) == v,
        high(pair(v as u8, 0)) == v as u8,
{
}

/// Writing a word and then reading it at the same address yields that word.
pub proof fn lemma_write_word_then_read(mem: Seq<u8>, a: int, v: u16)
    requires
        mem.len() == MEMORY_SIZE,
        0 <= a < MEMORY_SIZE,
    ensures
        word_at(write_word(mem, a, v), a) == v,
        write_word(mem, a, v).len() == MEMORY_SIZE,
{
    assert(pair(high(v), low(v)) == v);
}

} // verus!
