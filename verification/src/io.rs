//! The I/O registers (0xFF00..0xFF7F): joypad, serial, timers, interrupt
//! requests, LCD and the boot ROM switch.
use vstd::prelude::*;
use crate::interrupts::{Interrupts, Interruption, request};
use crate::joypad::{Joypad, joypad_read_spec};
use crate::lcd::LCD;
use crate::timers::Timers;

verus! {

pub const IO_BEGIN: u16 = 0xFF00;
pub const IO_END: u16 = 0xFF7F;
pub const IO_SIZE: usize = 0x80;

pub const JOYPAD_INPUT_ADDRESS: u16 = 0xFF00;
pub const SERIAL_DATA_ADDRESS: u16 = 0xFF01;
pub const SERIAL_CONTROL_ADDRESS: u16 = 0xFF02;
pub const DIV_ADDRESS: u16 = 0xFF04;
pub const TIMA_ADDRESS: u16 = 0xFF05;
pub const TMA_ADDRESS: u16 = 0xFF06;
pub const TAC_ADDRESS: u16 = 0xFF07;
pub const INTERRUPT_FLAG_ADDRESS: u16 = 0xFF0F;
pub const LCD_BEGIN: u16 = 0xFF40;
pub const LCD_END: u16 = 0xFF4B;
pub const BOOT_SWITCH_ADDRESS: u16 = 0xFF50;

/// The I/O state as the contracts see it.
#[verifier::ext_equal]
pub ghost struct IOModel {
    pub data: Seq<u8>,
    pub interrupts: Interrupts,
    pub lcd: LCD,
    pub timers: Timers,
    pub joypad: Joypad,
}

pub struct IO {
    pub interrupts: Interrupts,
    pub lcd: LCD,
    pub timers: Timers,
    pub joypad: Joypad,
    /// The registers that are plain bytes, indexed from 0xFF00.
    pub data: Vec<u8>,
}

/// A read of an I/O register: the joypad, the LCD registers and the
/// interrupt flags have their own reads; the others read the stored byte.
pub open spec fn io_read_spec(io: IOModel, address: u16) -> u8 {
    if address == JOYPAD_INPUT_ADDRESS {
        joypad_read_spec(io.joypad)
    } else if LCD_BEGIN <= address <= LCD_END {
        if address == crate::lcd::LCD_LY_ADDRESS { io.lcd.scanline } else { 0 }
    } else if address == INTERRUPT_FLAG_ADDRESS {
        io.interrupts.flag
    } else {
        io.data[address - IO_BEGIN]
    }
}

/// A write to an I/O register: writing DIV resets it, the joypad keeps the
/// selector, the LCD and the interrupt flags take their own writes, and the
/// others store the byte (the boot switch too).
pub open spec fn io_write_spec(io: IOModel, address: u16, value: u8) -> IOModel {
    if address == JOYPAD_INPUT_ADDRESS {
        IOModel { joypad: Joypad { register: 0b1100_1111u8 | (value & 0x30), ..io.joypad }, ..io }
    } else if address == DIV_ADDRESS {
        IOModel { data: io.data.update(DIV_ADDRESS - IO_BEGIN, 0), ..io }
    } else if LCD_BEGIN <= address <= LCD_END {
        IOModel {
            lcd: if address == crate::lcd::LCD_LY_ADDRESS {
                LCD { scanline: value, ..io.lcd }
            } else if address == crate::lcd::LCD_CONTROL_ADDRESS {
                LCD { control: value, ..io.lcd }
            } else {
                io.lcd
            },
            ..io
        }
    } else if address == INTERRUPT_FLAG_ADDRESS {
        IOModel { interrupts: Interrupts { flag: value, ..io.interrupts }, ..io }
    } else {
        IOModel { data: io.data.update(address - IO_BEGIN, value), ..io }
    }
}

impl IO {
    pub open spec fn view(&self) -> IOModel {
        IOModel {
            data: self.data@,
            interrupts: self.interrupts,
            lcd: self.lcd,
            timers: self.timers,
            joypad: self.joypad,
        }
    }

    pub open spec fn wf(&self) -> bool {
        self.data@.len() == IO_SIZE
    }

    pub fn new() -> (r: IO)
        ensures
            r.wf(),
            r.data@ == Seq::new(IO_SIZE as nat, |i: int| 0u8),
            r.interrupts == Interrupts::new_spec(),
            r.lcd == LCD::new_spec(),
            r.timers == Timers::new_spec(),
            r.joypad == Joypad::new_spec(),
    {
        IO {
            interrupts: Interrupts::new(),
            lcd: LCD::new(),
            timers: Timers::new(),
            joypad: Joypad::new(),
            data: vec![0u8; IO_SIZE],
        }
    }

    /// A title line with the address range of the I/O registers, then the
    /// hex dump of the plain registers.
    pub fn data_dump(&self) -> (r: String)
        ensures
            r@ == "IO ff00-ff7f\n"@ + crate::ppu::hex_dump_text(self.data@),
    {
        let dump = crate::ppu::hex_dump(&self.data);
        String::from_str("IO ff00-ff7f\n").concat(dump.as_str())
    }

    pub fn read_byte(&self, address: u16) -> (r: u8)
        requires
            self.wf(),
            IO_BEGIN <= address <= IO_END,
        ensures
            r == io_read_spec(self@, address),
    {
        if address == JOYPAD_INPUT_ADDRESS {
            self.joypad.read()
        } else if LCD_BEGIN <= address && address <= LCD_END {
            self.lcd.read_byte(address)
        } else if address == INTERRUPT_FLAG_ADDRESS {
            self.interrupts.read_flag()
        } else if address == DIV_ADDRESS {
            // DIV value is 8 upper bits
            self.get_div_register()
        } else {
            self.data[(address - IO_BEGIN) as usize]
        }
    }

    pub fn write_byte(&mut self, address: u16, value: u8)
        requires
            old(self).wf(),
            IO_BEGIN <= address <= IO_END,
        ensures
            final(self).wf(),
            final(self)@ == io_write_spec(old(self)@, address, value),
    {
        if address == JOYPAD_INPUT_ADDRESS {
            self.joypad.write(value);
        } else if address == DIV_ADDRESS {
            // Writing DIV resets it
            self.data.set((DIV_ADDRESS - IO_BEGIN) as usize, 0);
        } else if LCD_BEGIN <= address && address <= LCD_END {
            self.lcd.write_byte(address, value);
        } else if address == INTERRUPT_FLAG_ADDRESS {
            self.interrupts.write_flag(value);
        } else {
            self.data.set((address - IO_BEGIN) as usize, value);
        }
    }

    /// Clears bit 7 of the serial control register.
    pub fn serial_control_clear(&mut self)
        requires
            old(self).wf(),
        ensures
            final(self).wf(),
            final(self)@ == (IOModel {
                data: old(self).data@.update(
                    SERIAL_CONTROL_ADDRESS - IO_BEGIN,
                    old(self).data@[SERIAL_CONTROL_ADDRESS - IO_BEGIN] & 0b01111111,
                ),
                ..old(self)@
            }),
    {
        let i: usize = (SERIAL_CONTROL_ADDRESS - IO_BEGIN) as usize;
        let v = self.data[i] & 0b01111111;
        self.data.set(i, v);
    }

    pub fn get_tac_register(&self) -> (r: u8)
        requires
            self.wf(),
        ensures
            r == self.data@[TAC_ADDRESS - IO_BEGIN],
    {
        self.data[(TAC_ADDRESS - IO_BEGIN) as usize]
    }

    pub fn get_div_register(&self) -> (r: u8)
        requires
            self.wf(),
        ensures
            r == self.data@[DIV_ADDRESS - IO_BEGIN],
    {
        self.data[(DIV_ADDRESS - IO_BEGIN) as usize]
    }

    pub fn get_tma_register(&self) -> (r: u8)
        requires
            self.wf(),
        ensures
            r == self.data@[TMA_ADDRESS - IO_BEGIN],
    {
        self.data[(TMA_ADDRESS - IO_BEGIN) as usize]
    }

    /// DIV plus one, wrapping.
    pub fn inc_div(&mut self)
        requires
            old(self).wf(),
        ensures
            final(self).wf(),
            final(self)@ == (IOModel {
                data: old(self).data@.update(
                    DIV_ADDRESS - IO_BEGIN,
                    ((old(self).data@[DIV_ADDRESS - IO_BEGIN] + 1) % 256) as u8,
                ),
                ..old(self)@
            }),
    {
        let i: usize = (DIV_ADDRESS - IO_BEGIN) as usize;
        let div = self.data[i];
        self.data.set(i, div.wrapping_add(1));
    }

    /// TIMA plus one, wrapping; tells whether it overflowed.
    pub fn inc_tima(&mut self) -> (r: bool)
        requires
            old(self).wf(),
        ensures
            final(self).wf(),
            r == (old(self).data@[TIMA_ADDRESS - IO_BEGIN] == 255),
            final(self)@ == (IOModel {
                data: old(self).data@.update(
                    TIMA_ADDRESS - IO_BEGIN,
                    ((old(self).data@[TIMA_ADDRESS - IO_BEGIN] + 1) % 256) as u8,
                ),
                ..old(self)@
            }),
    {
        let i: usize = (TIMA_ADDRESS - IO_BEGIN) as usize;
        let tima = self.data[i];
        self.data.set(i, tima.wrapping_add(1));
        tima == 255
    }

    /// TIMA takes the value of TMA.
    pub fn reset_tima(&mut self)
        requires
            old(self).wf(),
        ensures
            final(self).wf(),
            final(self)@ == (IOModel {
                data: old(self).data@.update(
                    TIMA_ADDRESS - IO_BEGIN,
                    old(self).data@[TMA_ADDRESS - IO_BEGIN],
                ),
                ..old(self)@
            }),
    {
        let tma: u8 = self.get_tma_register();
        self.data.set((TIMA_ADDRESS - IO_BEGIN) as usize, tma);
    }

    /// After a byte went out on the serial port: request the serial
    /// interrupt and clear the transfer bit.
    pub fn ack_sent_serial(&mut self)
        requires
            old(self).wf(),
        ensures
            final(self).wf(),
            final(self)@ == (IOModel {
                data: old(self).data@.update(
                    SERIAL_CONTROL_ADDRESS - IO_BEGIN,
                    old(self).data@[SERIAL_CONTROL_ADDRESS - IO_BEGIN] & 0b01111111,
                ),
                interrupts: request(old(self).interrupts, Interruption::Serial),
                ..old(self)@
            }),
    {
        self.interrupts.turnon(Interruption::Serial);
        self.serial_control_clear();
    }
}

#[derive(Clone, Copy, Debug, PartialEq, Eq, Structural)]
pub enum SerialTransferMode {
    NoTransfer,
    TransferExternalClock,
    TransferInternalClock,
}

impl SerialTransferMode {
    /// 0x81 starts a transfer on the internal clock, 0x80 on the external
    /// one; any other value starts none.
    pub fn parse_from_byte(byte: u8) -> (r: SerialTransferMode)
        ensures
            r == if byte == 0x81 {
                SerialTransferMode::TransferInternalClock
            } else if byte == 0x80 {
                SerialTransferMode::TransferExternalClock
            } else {
                SerialTransferMode::NoTransfer
            },
    {
        if byte == 0x81 {
            SerialTransferMode::TransferInternalClock
        } else if byte == 0x80 {
            SerialTransferMode::TransferExternalClock
        } else {
            SerialTransferMode::NoTransfer
        }
    }
}

} // verus!
