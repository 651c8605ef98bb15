//! The memory map: which component answers a read or a write at each
//! address.
use vstd::prelude::*;
use crate::gameboy::{GameBoy, Machine};
use crate::io::{BOOT_SWITCH_ADDRESS, IO_BEGIN, IO_END};
use crate::ppu::{OAM_BEGIN, OAM_END, VRAM_BEGIN, VRAM_END};
use crate::rom::{ROM, BOOT_END};

verus! {

pub const GAMEROM_0_BEGIN: u16 = 0x0000;
pub const GAMEROM_0_END: u16 = 0x3FFF;
pub const GAMEROM_N_BEGIN: u16 = 0x4000;
pub const GAMEROM_N_END: u16 = 0x7FFF;
pub const EXTRAM_BEGIN: u16 = 0xA000;
pub const EXTRAM_END: u16 = 0xBFFF;
pub const EXTRAM_SIZE: usize = 0x2000;
pub const WRAM_BEGIN: u16 = 0xC000;
pub const WRAM_END: u16 = 0xDFFF;
pub const WRAM_SIZE: usize = 0x2000;
pub const ERAM_BEGIN: u16 = 0xE000;
pub const ERAM_END: u16 = 0xFDFF;
pub const NOTUSABLE_BEGIN: u16 = 0xFEA0;
pub const NOTUSABLE_END: u16 = 0xFEFF;
pub const HRAM_BEGIN: u16 = 0xFF80;
pub const HRAM_END: u16 = 0xFFFE;
pub const HRAM_SIZE: usize = 0x7F;
pub const INTERRUPT_ENABLE_ADDRESS: u16 = 0xFFFF;

pub struct MMU {
    pub is_boot_rom_mapped: bool,
    pub bootrom: ROM,
    pub eram: Vec<u8>,
    pub wram: Vec<u8>,
    pub hram: Vec<u8>,
}

impl MMU {
    /// The boot ROM mapped and all RAM cleared.
    pub fn new(bootrom: ROM) -> (r: MMU)
        requires
            bootrom.wf(),
        ensures
            r.is_boot_rom_mapped,
            r.bootrom.data@ == bootrom.data@,
            r.eram@ == Seq::new(EXTRAM_SIZE as nat, |i: int| 0u8),
            r.wram@ == Seq::new(WRAM_SIZE as nat, |i: int| 0u8),
            r.hram@ == Seq::new(HRAM_SIZE as nat, |i: int| 0u8),
    {
        MMU {
            is_boot_rom_mapped: true,
            bootrom,
            eram: vec![0u8; EXTRAM_SIZE],
            wram: vec![0u8; WRAM_SIZE],
            hram: vec![0u8; HRAM_SIZE],
        }
    }

    /// Whether a read at `address` is answered: echo RAM and the unusable
    /// area are not, nor cartridge addresses past the end of its image.
    pub fn readable(gb: &GameBoy, address: u16) -> (r: bool)
        requires
            gb.wf(),
        ensures
            r == gb@.read(address).is_some(),
    {
        reveal(Machine::read);
        reveal(Machine::write);
        if address <= GAMEROM_N_END {
            (address <= BOOT_END && gb.mmu.is_boot_rom_mapped) || (address as usize)
                < gb.cartridge.data.len()
        } else {
            !(ERAM_BEGIN <= address && address <= ERAM_END) && !(NOTUSABLE_BEGIN <= address
                && address <= NOTUSABLE_END)
        }
    }

    /// Whether a write at `address` is taken: all but echo RAM and the
    /// unusable area (writes to ROM are ignored).
    pub fn writable(address: u16) -> (r: bool)
        ensures
            r == writable_spec(address),
    {
        !(ERAM_BEGIN <= address && address <= ERAM_END) && !(NOTUSABLE_BEGIN <= address && address
            <= NOTUSABLE_END)
    }

    pub fn read_byte(gb: &GameBoy, address: u16) -> (r: u8)
        requires
            gb.wf(),
            gb@.read(address).is_some(),
        ensures
            gb@.read(address) == Some(r),
    {
        reveal(Machine::read);
        reveal(Machine::write);
        if address <= GAMEROM_0_END {
            if address <= BOOT_END && gb.mmu.is_boot_rom_mapped {
                gb.mmu.bootrom.read_byte(address)
            } else {
                gb.cartridge.read_byte(address)
            }
        } else if address <= GAMEROM_N_END {
            gb.cartridge.read_byte(address)
        } else if address <= VRAM_END {
            gb.ppu.read_vram(address)
        } else if address <= EXTRAM_END {
            gb.mmu.eram[(address - EXTRAM_BEGIN) as usize]
        } else if address <= WRAM_END {
            gb.mmu.wram[(address - WRAM_BEGIN) as usize]
        } else if address <= OAM_END {
            gb.ppu.read_oam(address)
        } else if address <= IO_END {
            gb.io.read_byte(address)
        } else if address <= HRAM_END {
            gb.mmu.hram[(address - HRAM_BEGIN) as usize]
        } else {
            gb.io.interrupts.read_enable()
        }
    }

    /// The byte at `address`, or `None` where a read is not answered.
    pub fn read_checked(gb: &GameBoy, address: u16) -> (r: Option<u8>)
        requires
            gb.wf(),
        ensures
            r == gb@.read(address),
    {
        if MMU::readable(gb, address) {
            Some(MMU::read_byte(gb, address))
        } else {
            None
        }
    }

    pub fn write_byte(gb: &mut GameBoy, address: u16, value: u8)
        requires
            old(gb).wf(),
            writable_spec(address),
        ensures
            final(gb).wf(),
            old(gb)@.write(address, value) == Some(final(gb)@),
            final(gb).cpu == old(gb).cpu,
    {
        reveal(Machine::read);
        reveal(Machine::write);
        if address <= GAMEROM_N_END {
            // Writing in ROM is ignored, but for the boot ROM while it is
            // mapped
            if address <= BOOT_END && gb.mmu.is_boot_rom_mapped {
                gb.mmu.bootrom.write_byte(address, value);
            }
        } else if address <= VRAM_END {
            gb.ppu.write_vram(address, value);
        } else if address <= EXTRAM_END {
            gb.mmu.eram.set((address - EXTRAM_BEGIN) as usize, value);
        } else if address <= WRAM_END {
            gb.mmu.wram.set((address - WRAM_BEGIN) as usize, value);
        } else if address <= OAM_END {
            gb.ppu.write_oam(address, value);
        } else if address <= IO_END {
            gb.io.write_byte(address, value);
            if address == BOOT_SWITCH_ADDRESS {
                MMU::set_boot_mapping(gb, value);
            }
        } else if address <= HRAM_END {
            gb.mmu.hram.set((address - HRAM_BEGIN) as usize, value);
        } else {
            gb.io.interrupts.write_enable(value);
        }
        proof {
            assert(final(gb)@ =~= old(gb)@.write(address, value)->0);
        }
    }

    /// Writing zero to the boot switch keeps the boot ROM mapped; any other
    /// value unmaps it.
    pub fn set_boot_mapping(gb: &mut GameBoy, value: u8)
        ensures
            final(gb).mmu.is_boot_rom_mapped == (value == 0),
            final(gb).cpu == old(gb).cpu,
            final(gb).mmu.bootrom == old(gb).mmu.bootrom,
            final(gb).mmu.eram == old(gb).mmu.eram,
            final(gb).mmu.wram == old(gb).mmu.wram,
            final(gb).mmu.hram == old(gb).mmu.hram,
            final(gb).ppu == old(gb).ppu,
            final(gb).io == old(gb).io,
            final(gb).cartridge == old(gb).cartridge,
    {
        gb.mmu.is_boot_rom_mapped = value == 0;
    }
}

pub open spec fn writable_spec(address: u16) -> bool {
    !(ERAM_BEGIN <= address <= ERAM_END) && !(NOTUSABLE_BEGIN <= address <= NOTUSABLE_END)
}

} // verus!
