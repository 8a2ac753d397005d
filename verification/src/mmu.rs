//! The memory behind the processor: one byte for each 16-bit address.
use vstd::prelude::*;

verus! {

/// Number of addressable bytes: the whole 16-bit address space.
pub const MEMORY_SIZE: usize = 0x10000;

/// The flat, byte-addressable memory the processor is attached to.
pub struct Mmu {
    memory: [u8; MEMORY_SIZE],
}

impl View for Mmu {
    type V = Seq<u8>;

    closed spec fn view(&self) -> Seq<u8> {
        self.memory@
    }
}

impl Mmu {
    /// A memory with every byte zero.
    pub fn new() -> (mmu: Mmu)
        ensures
            mmu@.len() == MEMORY_SIZE,
            forall|address: int| 0 <= address < MEMORY_SIZE ==> mmu@[address] == 0,
    {
        Mmu { memory: [0; MEMORY_SIZE] }
    }

    /// Every address has a byte behind it.
    pub proof fn lemma_len(&self)
        ensures
            self@.len() == MEMORY_SIZE,
    {
    }

    /// The byte stored at `address`.
    pub fn read_byte(&self, address: u16) -> (value: u8)
        ensures
            value == self@[address as int],
    {
        self.memory[address as usize]
    }

    /// Stores `value` at `address` and leaves every other byte as it was.
    pub fn write_byte(&mut self, address: u16, value: u8)
        ensures
            final(self)@ == old(self)@.update(address as int, value),
    {
        self.memory[address as usize] = value;
    }
}

} // verus!
