//! The memory surface: a flat, zero-filled byte store that the core only
//! reads. It holds 65535 bytes, so address 0xFFFF is not backed.
use vstd::prelude::*;

verus! {

/// Number of bytes in the memory surface.
pub const MEMORY_SIZE: usize = 0xFFFF;

pub struct MemoryBus {
    memory: [u8; MEMORY_SIZE],
}

impl View for MemoryBus {
    type V = Seq<u8>;

    closed spec fn view(&self) -> Seq<u8> {
        self.memory@
    }
}

impl MemoryBus {
    /// A memory surface of `MEMORY_SIZE` bytes, all zero.
    pub fn new() -> (r: MemoryBus)
        ensures
            r@.len() == MEMORY_SIZE,
            forall|i: int| 0 <= i < MEMORY_SIZE ==> r@[i] == 0,
    {
        MemoryBus { memory: [0u8; MEMORY_SIZE] }
    }

    /// The byte at `address`, which must lie inside the surface (below
    /// `MEMORY_SIZE`).
    pub fn read_byte(&self, address: u16) -> (r: u8)
        requires
            address < MEMORY_SIZE,
        ensures
            r == self@[address as int],
    {
        proof {
            assert(self.memory@.len() == MEMORY_SIZE);
        }
        self.memory[address as usize]
    }
}

} // verus!
