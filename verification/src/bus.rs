//! A flat memory of 0xFFFF bytes, addressed from 0 to 0xFFFE.
use vstd::prelude::*;

verus! {

pub const BUS_SIZE: usize = 0xFFFF;

pub struct MemoryBus {
    pub memory: Vec<u8>,
}

impl MemoryBus {
    pub open spec fn wf(&self) -> bool {
        self.memory@.len() == BUS_SIZE
    }

    /// A memory of zeros.
    pub fn new() -> (r: MemoryBus)
        ensures
            r.wf(),
            r.memory@ == Seq::new(BUS_SIZE as nat, |i: int| 0u8),
    {
        MemoryBus { memory: vec![0u8; BUS_SIZE] }
    }

    pub fn read_byte(&self, address: u16) -> (r: u8)
        requires
            self.wf(),
            address < BUS_SIZE,
        ensures
            r == self.memory@[address as int],
    {
        self.memory[address as usize]
    }

    pub fn write_byte(&mut self, address: u16, byte: u8)
        requires
            old(self).wf(),
            address < BUS_SIZE,
        ensures
            final(self).wf(),
            final(self).memory@ == old(self).memory@.update(address as int, byte),
    {
        self.memory.set(address as usize, byte);
    }
}

/// A read gives back the last byte written at its address, and a write
/// leaves every other address as it was.
pub proof fn lemma_read_after_write(memory: Seq<u8>, a: u16, v: u8, b: u16)
    requires
        memory.len() == BUS_SIZE,
        a < BUS_SIZE,
        b < BUS_SIZE,
    ensures
        memory.update(a as int, v)[b as int] == if a == b { v } else { memory[b as int] },
{
}

} // verus!
