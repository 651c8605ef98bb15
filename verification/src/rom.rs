//! The boot ROM mapped over the first 256 bytes of the address space.
use vstd::prelude::*;

verus! {

pub const BOOT_BEGIN: u16 = 0x0000;
pub const BOOT_END: u16 = 0x00FF;
pub const BOOT_SIZE: usize = 256;

/// A 256-byte boot ROM.
pub struct ROM {
    pub data: Vec<u8>,
}

impl ROM {
    pub open spec fn wf(&self) -> bool {
        self.data@.len() == BOOT_SIZE
    }

    /// A boot ROM of zeros.
    pub fn empty() -> (r: ROM)
        ensures
            r.wf(),
            r.data@ == Seq::new(BOOT_SIZE as nat, |i: int| 0u8),
    {
        ROM { data: vec![0u8; BOOT_SIZE] }
    }

    /// The first 256 bytes of `buffer`, padded with zeros when it is shorter.
    pub fn new(buffer: Vec<u8>) -> (r: ROM)
        ensures
            r.wf(),
            forall|i: int|
                0 <= i < BOOT_SIZE ==> r.data@[i] == if i < buffer@.len() {
                    buffer@[i]
                } else {
                    0u8
                },
    {
        let mut d: Vec<u8> = Vec::new();
        let mut addr: usize = 0;
        while addr < BOOT_SIZE
            invariant
                addr <= BOOT_SIZE,
                d@.len() == addr,
                forall|i: int|
                    0 <= i < addr ==> d@[i] == if i < buffer@.len() {
                        buffer@[i]
                    } else {
                        0u8
                    },
            decreases BOOT_SIZE - addr,
        {
            if addr < buffer.len() {
                d.push(buffer[addr]);
            } else {
                d.push(0x0);
            }
            addr = addr + 1;
        }
        ROM { data: d }
    }

    /// The DMG boot ROM, from its image.
    pub fn dmg(image: Vec<u8>) -> (r: ROM)
        ensures
            r.wf(),
            forall|i: int|
                0 <= i < BOOT_SIZE ==> r.data@[i] == if i < image@.len() {
                    image@[i]
                } else {
                    0u8
                },
    {
        ROM::new(image)
    }

    pub fn size(&self) -> (r: u16)
        requires
            self.wf(),
        ensures
            r == BOOT_SIZE,
    {
        self.data.len() as u16
    }

    pub fn write_byte(&mut self, address: u16, value: u8)
        requires
            old(self).wf(),
            address < BOOT_SIZE,
        ensures
            final(self).wf(),
            final(self).data@ == old(self).data@.update(address as int, value),
    {
        self.data.set(address as usize, value);
    }

    pub fn read_byte(&self, address: u16) -> (r: u8)
        requires
            self.wf(),
            address < BOOT_SIZE,
        ensures
            r == self.data@[address as int],
    {
        self.data[address as usize]
    }
}

} // verus!
