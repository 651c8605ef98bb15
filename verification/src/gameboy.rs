//! The whole machine: its state as the contracts see it, and the memory
//! reads and writes over that state.
use vstd::prelude::*;
use crate::cartridge::{Cartridge, CARTRIDGE_SIZE};
use crate::cpu::{CPU, step_spec, step_error_state, interrupt_spec, fetch_spec, serial_pending, lemma_step_keeps_cart};
use crate::interrupts::{Interruption, request};
use crate::serial::Serializable;
use crate::frame::{GameBoyFrame, frame_is, background_pixel, tiledata_pixel, SCREEN_WIDTH, SCREEN_HEIGHT, BACKGROUND_WIDTH, BACKGROUND_HEIGHT, TILEDATA_WIDTH, TILEDATA_HEIGHT};
use crate::semantics::lemma_exec_takes_time;
use crate::instructions::EmulationError;
use crate::joypad::Joypad;
use crate::lcd::{LCD, lcd_tick_spec};
use crate::registers::Registers;
use crate::rom::ROM;
use crate::timers::Timers;
use crate::io::{IO, IOModel, io_read_spec, io_write_spec, IO_BEGIN, IO_END, IO_SIZE, BOOT_SWITCH_ADDRESS, SERIAL_CONTROL_ADDRESS};
use crate::mmu::{MMU, GAMEROM_N_END, EXTRAM_BEGIN, EXTRAM_END, EXTRAM_SIZE, WRAM_BEGIN, WRAM_END, WRAM_SIZE, ERAM_END, NOTUSABLE_END, HRAM_BEGIN, HRAM_END, HRAM_SIZE};
use crate::ppu::{PPU, tiles_of, VRAM_BEGIN, VRAM_END, VRAM_SIZE, OAM_BEGIN, OAM_END, OAM_SIZE};
use crate::rom::{BOOT_END, BOOT_SIZE};
use crate::interrupts::Interrupts;

verus! {

/// The machine state: CPU, memories and I/O.
#[verifier::ext_equal]
pub ghost struct Machine {
    pub cpu: CPU,
    pub boot_mapped: bool,
    pub bootrom: Seq<u8>,
    pub cart: Seq<u8>,
    pub title: Seq<char>,
    pub eram: Seq<u8>,
    pub wram: Seq<u8>,
    pub hram: Seq<u8>,
    pub vram: Seq<u8>,
    pub oam: Seq<u8>,
    pub io: IOModel,
}

impl Machine {
    pub open spec fn wf(self) -> bool {
        &&& self.bootrom.len() == BOOT_SIZE
        &&& self.eram.len() == EXTRAM_SIZE
        &&& self.wram.len() == WRAM_SIZE
        &&& self.hram.len() == HRAM_SIZE
        &&& self.vram.len() == VRAM_SIZE
        &&& self.oam.len() == OAM_SIZE
        &&& self.io.data.len() == IO_SIZE
    }

    /// The byte a read at `address` gives, `None` where the read is not
    /// answered: the boot ROM while it is mapped, the cartridge, VRAM,
    /// external RAM, work RAM, echo RAM (not answered), OAM (which reads VRAM
    /// at the same offset), the unusable area (not answered), I/O, high RAM
    /// and the interrupt enable register.
    #[verifier::opaque]
    pub open spec fn read(self, a: u16) -> Option<u8> {
        if a <= GAMEROM_N_END {
            if a <= BOOT_END && self.boot_mapped {
                Some(self.bootrom[a as int])
            } else if a < self.cart.len() {
                Some(self.cart[a as int])
            } else {
                None
            }
        } else if a <= VRAM_END {
            Some(self.vram[a - VRAM_BEGIN])
        } else if a <= EXTRAM_END {
            Some(self.eram[a - EXTRAM_BEGIN])
        } else if a <= WRAM_END {
            Some(self.wram[a - WRAM_BEGIN])
        } else if a <= ERAM_END {
            None
        } else if a <= OAM_END {
            Some(self.vram[a - OAM_BEGIN])
        } else if a <= NOTUSABLE_END {
            None
        } else if a <= IO_END {
            Some(io_read_spec(self.io, a))
        } else if a <= HRAM_END {
            Some(self.hram[a - HRAM_BEGIN])
        } else {
            Some(self.io.interrupts.enable)
        }
    }

    /// The machine after a write of `v` at `a`, `None` where the write is not
    /// taken. Writes to the boot ROM, while it is mapped, are stored in it;
    /// other writes to ROM are ignored. A write to the boot switch maps the
    /// boot ROM when it is zero and unmaps it otherwise.
    #[verifier::opaque]
    pub open spec fn write(self, a: u16, v: u8) -> Option<Machine> {
        if a <= GAMEROM_N_END {
            if a <= BOOT_END && self.boot_mapped {
                Some(Machine { bootrom: self.bootrom.update(a as int, v), ..self })
            } else {
                Some(self)
            }
        } else if a <= VRAM_END {
            Some(Machine { vram: self.vram.update(a - VRAM_BEGIN, v), ..self })
        } else if a <= EXTRAM_END {
            Some(Machine { eram: self.eram.update(a - EXTRAM_BEGIN, v), ..self })
        } else if a <= WRAM_END {
            Some(Machine { wram: self.wram.update(a - WRAM_BEGIN, v), ..self })
        } else if a <= ERAM_END {
            None
        } else if a <= OAM_END {
            Some(Machine { oam: self.oam.update(a - OAM_BEGIN, v), ..self })
        } else if a <= NOTUSABLE_END {
            None
        } else if a <= IO_END {
            Some(
                Machine {
                    io: io_write_spec(self.io, a, v),
                    boot_mapped: if a == BOOT_SWITCH_ADDRESS { v == 0 } else { self.boot_mapped },
                    ..self
                },
            )
        } else if a <= HRAM_END {
            Some(Machine { hram: self.hram.update(a - HRAM_BEGIN, v), ..self })
        } else {
            Some(Machine { io: IOModel { interrupts: Interrupts { enable: v, ..self.io.interrupts }, ..self.io }, ..self })
        }
    }
}

pub struct GameBoy {
    pub cpu: CPU,
    pub mmu: MMU,
    pub ppu: PPU,
    pub io: IO,
    pub cartridge: Cartridge,
}

impl GameBoy {
    pub open spec fn view(&self) -> Machine {
        Machine {
            cpu: self.cpu,
            boot_mapped: self.mmu.is_boot_rom_mapped,
            bootrom: self.mmu.bootrom.data@,
            cart: self.cartridge.data@,
            title: self.cartridge.title@,
            eram: self.mmu.eram@,
            wram: self.mmu.wram@,
            hram: self.mmu.hram@,
            vram: self.ppu.vram@,
            oam: self.ppu.oam@,
            io: self.io@,
        }
    }

    /// The memories have their sizes and the tile set agrees with VRAM.
    pub open spec fn wf(&self) -> bool {
        &&& self@.wf()
        &&& self.ppu.tile_set@ == tiles_of(self.ppu.vram@)
    }
}

/// The machine at power on: the CPU reset, the boot ROM mapped, the given
/// cartridge image and title, and every RAM, VRAM, OAM and I/O register
/// cleared.
pub open spec fn power_on(bootrom: Seq<u8>, cart: Seq<u8>, title: Seq<char>) -> Machine {
    Machine {
        cpu: CPU { regs: Registers::new_spec(), sp: 0, pc: 0, is_halted: false, ime: true },
        boot_mapped: true,
        bootrom,
        cart,
        title,
        eram: Seq::new(EXTRAM_SIZE as nat, |i: int| 0u8),
        wram: Seq::new(WRAM_SIZE as nat, |i: int| 0u8),
        hram: Seq::new(HRAM_SIZE as nat, |i: int| 0u8),
        vram: Seq::new(VRAM_SIZE as nat, |i: int| 0u8),
        oam: Seq::new(OAM_SIZE as nat, |i: int| 0u8),
        io: IOModel {
            data: Seq::new(IO_SIZE as nat, |i: int| 0u8),
            interrupts: Interrupts::new_spec(),
            lcd: LCD::new_spec(),
            timers: Timers::new_spec(),
            joypad: Joypad::new_spec(),
        },
    }
}

/// One tick of the machine: a CPU step, then the LCD advanced by the clock
/// cycles it took. The step's error where it fails, and `ScanlineOverflow`
/// where the scanline counter would pass 255.
#[verifier::opaque]
pub open spec fn tick_spec(m: Machine) -> Result<(Machine, u16), EmulationError> {
    match step_spec(m) {
        Ok((m1, c)) => match lcd_tick_spec(m1.io.lcd, m1.io.interrupts, c) {
            Some((l, i)) => Ok((Machine { io: IOModel { lcd: l, interrupts: i, ..m1.io }, ..m1 }, c)),
            None => Err(EmulationError::ScanlineOverflow),
        },
        Err(e) => Err(e),
    }
}

/// The machine that a failed tick leaves: the one after the CPU step when
/// that succeeded, else what the failed step left.
#[verifier::opaque]
pub open spec fn tick_error_state(m: Machine) -> Machine {
    match step_spec(m) {
        Ok((m1, _)) => m1,
        Err(_) => step_error_state(m),
    }
}

impl GameBoy {
    /// A machine at power on with the boot ROM and the cartridge (a
    /// header-sized image of zeros titled "empty" when there is none).
    pub fn new(cartridge: Option<Cartridge>, bootrom: ROM) -> (r: GameBoy)
        requires
            bootrom.wf(),
        ensures
            r.wf(),
            r@ == match cartridge {
                Some(c) => power_on(bootrom.data@, c.data@, c.title@),
                None => power_on(bootrom.data@, Seq::new(CARTRIDGE_SIZE as nat, |i: int| 0u8), "empty"@),
            },
    {
        let cartridge = match cartridge {
            Some(c) => c,
            None => Cartridge::empty(),
        };
        let gb = GameBoy { cpu: CPU::new(), mmu: MMU::new(bootrom), ppu: PPU::new(), io: IO::new(), cartridge };
        proof {
            assert(gb@.cpu =~= power_on(gb@.bootrom, gb@.cart, gb@.title).cpu);
            assert(gb@.io =~= power_on(gb@.bootrom, gb@.cart, gb@.title).io);
            assert(gb@ =~= power_on(gb@.bootrom, gb@.cart, gb@.title));
        }
        gb
    }

    /// One tick: a CPU step, then the LCD; `Ok` with the clock cycles.
    pub fn tick(&mut self) -> (r: Result<u16, EmulationError>)
        requires
            old(self).wf(),
        ensures
            final(self).wf(),
            match tick_spec(old(self)@) {
                Ok((m, c)) => r == Ok::<u16, EmulationError>(c) && final(self)@ == m,
                Err(e) => r == Err::<u16, EmulationError>(e) && final(self)@ == tick_error_state(old(self)@),
            },
    {
        proof {
            reveal(tick_spec);
            reveal(tick_error_state);
        }
        let cycles = CPU::step(self)?;
        if !self.io.lcd.can_tick(cycles) {
            return Err(EmulationError::ScanlineOverflow);
        }
        self.io.lcd.tick(&mut self.io.interrupts, cycles);
        Ok(cycles)
    }
}

impl GameBoy {
    /// The screen: the top-left 160 by 144 pixels of the background (the
    /// LCD does not keep the scroll registers).
    pub fn frame(&self) -> (r: GameBoyFrame)
        requires
            self.wf(),
        ensures
            frame_is(r, SCREEN_WIDTH, SCREEN_HEIGHT, |x: int, y: int| background_pixel(self@.vram, tiles_of(self@.vram), self@.io.lcd.control, x, y)),
    {
        self.ppu.background_area(self.io.lcd.control, SCREEN_WIDTH, SCREEN_HEIGHT)
    }

    /// The whole 256 by 256 background.
    pub fn background(&self) -> (r: GameBoyFrame)
        requires
            self.wf(),
        ensures
            frame_is(r, BACKGROUND_WIDTH, BACKGROUND_HEIGHT, |x: int, y: int| background_pixel(self@.vram, tiles_of(self@.vram), self@.io.lcd.control, x, y)),
    {
        self.ppu.background_area(self.io.lcd.control, BACKGROUND_WIDTH, BACKGROUND_HEIGHT)
    }

    /// The 384 tiles, 16 to a row.
    pub fn tiledata(&self) -> (r: GameBoyFrame)
        requires
            self.wf(),
        ensures
            frame_is(r, TILEDATA_WIDTH, TILEDATA_HEIGHT, |x: int, y: int| tiledata_pixel(tiles_of(self@.vram), x, y)),
    {
        self.ppu.tiledata()
    }
}

/// The machine after a byte went out on the serial port: the serial
/// interrupt requested and the transfer bit of the control register
/// cleared.
pub open spec fn serial_sent(m: Machine) -> Machine {
    Machine {
        io: IOModel {
            data: m.io.data.update(
                SERIAL_CONTROL_ADDRESS - IO_BEGIN,
                m.io.data[SERIAL_CONTROL_ADDRESS - IO_BEGIN] & 0b01111111,
            ),
            interrupts: request(m.io.interrupts, Interruption::Serial),
            ..m.io
        },
        ..m
    }
}

impl GameBoy {
    /// Sends the byte of a started serial transfer to `port` and
    /// acknowledges the transfer; `None`, with nothing changed, when no
    /// transfer was started.
    pub fn serial_out<S: Serializable>(&mut self, port: &mut S) -> (r: Option<u8>)
        requires
            old(self).wf(),
        ensures
            final(self).wf(),
            r == serial_pending(old(self)@),
            final(self)@ == if r.is_some() { serial_sent(old(self)@) } else { old(self)@ },
    {
        match CPU::send_serial(self) {
            Some(value) => {
                port.send(value);
                self.io.ack_sent_serial();
                Some(value)
            },
            None => None,
        }
    }
}

/// A tick, whether it succeeds or fails, never changes the cartridge.
pub proof fn lemma_tick_keeps_cart(m: Machine)
    ensures
        tick_spec(m) matches Ok((m1, _)) ==> same_cart(m1, m),
        same_cart(tick_error_state(m), m),
{
    reveal(tick_spec);
    reveal(tick_error_state);
    lemma_step_keeps_cart(m);
}

/// A tick takes between 4 and 24 clock cycles.
pub proof fn lemma_tick_takes_time(m: Machine)
    ensures
        tick_spec(m) matches Ok((_, c)) ==> 4 <= c <= 24,
{
    reveal(tick_spec);
    match interrupt_spec(m) {
        Ok(m1) => {
            match fetch_spec(m1) {
                Ok(inst) => {
                    lemma_exec_takes_time(m1, inst.op);
                },
                Err(_) => {},
            }
        },
        Err(_) => {},
    }
}

/// Whether `a` is plain RAM: video, external, work or high RAM.
pub open spec fn is_ram(a: u16) -> bool {
    ||| VRAM_BEGIN <= a <= VRAM_END
    ||| EXTRAM_BEGIN <= a <= EXTRAM_END
    ||| WRAM_BEGIN <= a <= WRAM_END
    ||| HRAM_BEGIN <= a <= HRAM_END
}

/// A write to RAM is taken and keeps the CPU state; a read at the same
/// address then gives back the byte written, and a read at any other
/// address outside OAM (which reads VRAM) gives what it gave before.
pub proof fn lemma_ram_read_after_write(m: Machine, a: u16, v: u8, b: u16)
    requires
        m.wf(),
        is_ram(a),
    ensures
        m.write(a, v).is_some(),
        m.write(a, v)->0.cpu == m.cpu,
        m.write(a, v)->0.io == m.io,
        m.write(a, v)->0.wf(),
        m.write(a, v)->0.read(a) == Some(v),
        b != a && !(OAM_BEGIN <= b <= OAM_END) ==> m.write(a, v)->0.read(b) == m.read(b),
{
    reveal(Machine::read);
    reveal(Machine::write);
}

/// Whether a write at `a` is stored where a read finds it: RAM, or the boot
/// ROM while it is mapped.
pub open spec fn stores(m: Machine, a: u16) -> bool {
    is_ram(a) || (m.boot_mapped && a <= BOOT_END)
}

/// A write where the machine stores it is taken and keeps the CPU state,
/// the I/O state and the boot ROM mapping; a read at the same address then
/// gives back the byte written, and a read at any other address outside
/// OAM (which reads VRAM) gives what it gave before.
pub proof fn lemma_stored_read_after_write(m: Machine, a: u16, v: u8, b: u16)
    requires
        m.wf(),
        stores(m, a),
    ensures
        m.write(a, v).is_some(),
        m.write(a, v)->0.cpu == m.cpu,
        m.write(a, v)->0.io == m.io,
        m.write(a, v)->0.boot_mapped == m.boot_mapped,
        m.write(a, v)->0.wf(),
        m.write(a, v)->0.read(a) == Some(v),
        b != a && !(OAM_BEGIN <= b <= OAM_END) ==> m.write(a, v)->0.read(b) == m.read(b),
{
    reveal(Machine::read);
    reveal(Machine::write);
}

/// A write of zero to the boot switch keeps the boot ROM over the first
/// 256 addresses; any other byte unmaps it, and those addresses then read
/// the cartridge.
pub proof fn lemma_boot_switch(m: Machine, v: u8, a: u16)
    requires
        m.wf(),
        a <= BOOT_END,
    ensures
        m.write(BOOT_SWITCH_ADDRESS, v) matches Some(m1) && m1.read(a) == if v == 0 {
            Some(m.bootrom[a as int])
        } else if a < m.cart.len() {
            Some(m.cart[a as int])
        } else {
            None
        },
{
    reveal(Machine::read);
    reveal(Machine::write);
}

/// Whether two machines hold the same cartridge: image and title.
pub open spec fn same_cart(m1: Machine, m2: Machine) -> bool {
    m1.cart == m2.cart && m1.title == m2.title
}

/// Writes never change the cartridge: its image or its title (writes to the
/// cartridge area are ignored).
pub broadcast proof fn lemma_write_keeps_cart(m: Machine, a: u16, v: u8)
    ensures
        #[trigger] m.write(a, v) matches Some(m1) ==> same_cart(m1, m),
{
    reveal(Machine::write);
}

/// Reads do not depend on the CPU state.
pub proof fn lemma_read_ignores_cpu(m: Machine, c: CPU, a: u16)
    ensures
        (Machine { cpu: c, ..m }).read(a) == m.read(a),
{
    reveal(Machine::read);
}

} // verus!
