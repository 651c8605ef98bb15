//! A Game Boy (DMG) emulator core: registers, ALU, instruction decoding,
//! memory map, timers, LCD timing, joypad and the CPU step, with contracts.

pub mod registers;
pub mod alu;
pub mod decode;
pub mod rom;
pub mod interrupts;
pub mod joypad;
pub mod lcd;
pub mod ppu;
pub mod io;
pub mod timers;
pub mod cpu;
pub mod cartridge;
pub mod mmu;
pub mod gameboy;
pub mod semantics;
pub mod instructions;
pub mod frame;
pub mod emulation;
pub mod bus;
pub mod serial;
pub mod clock;
pub mod laws;
