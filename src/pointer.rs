use vstd::prelude::*;

verus! {

/// Size of the processor's flat address space, in bytes.
pub const MEMORY_SIZE: usize = 65536;

/// A 16-bit address into the processor's memory.
#[derive(Debug, Default, Clone, Copy, PartialEq, Eq, Structural)]
pub struct Pointer(pub u16);

/// The address that follows `addr`, wrapping from 0xFFFF to 0.
pub open spec fn next_address(addr: u16) -> u16 {
    ((addr as int + 1) % 0x10000) as u16
}

impl Pointer {
    /// The address held, as an index into memory.
    pub open spec fn addr(self) -> int {
        self.0 as int
    }

    /// Reads the byte at this address.
    pub fn load(&self, mem: &[u8]) -> (r: u8)
        requires
            self.addr() < mem@.len(),
        ensures
            r == mem@[self.addr()],
    {
        mem[self.0 as usize]
    }

    /// Writes `byte` at this address; every other byte is left as it was.
    pub fn store(&self, mem: &mut [u8], byte: u8)
        requires
            self.addr() < old(mem)@.len(),
        ensures
            final(mem)@ == old(mem)@.update(self.addr(), byte),
    {
        mem[self.0 as usize] = byte;
    }

    /// Moves to the next address, wrapping from 0xFFFF to 0.
    pub fn inc(&mut self)
        ensures
            final(self).0 == next_address(old(self).0),
    {
        self.0 = self.0.wrapping_add(1);
    }
}

/// Storing a byte through a pointer and loading it back through the same
/// pointer gives the byte stored, at every address of the memory.
pub proof fn lemma_store_then_load(p: Pointer, mem: Seq<u8>, byte: u8)
    requires
        mem.len() == MEMORY_SIZE,
    ensures
        p.addr() < mem.len(),
        mem.update(p.addr(), byte)[p.addr()] == byte,
        mem.update(p.addr(), byte).len() == mem.len(),
{
}

} // verus!
