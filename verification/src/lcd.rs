//! The LCD controller: its control register, its mode cycle and the current
//! scanline (LY).
use vstd::prelude::*;
use crate::alu::{bit_of, get_bit_val, set_bit_val};
use crate::interrupts::{Interrupts, Interruption, request};

verus! {

pub const LCD_CONTROL_ADDRESS: u16 = 0xFF40;
pub const LCD_STATUS_ADDRESS: u16 = 0xFF41;
pub const LCD_SCY_ADDRESS: u16 = 0xFF42;
pub const LCD_SCX_ADDRESS: u16 = 0xFF43;
pub const LCD_LY_ADDRESS: u16 = 0xFF44;
pub const LCD_LYC_ADDRESS: u16 = 0xFF45;
pub const LCD_WY_ADDRESS: u16 = 0xFF4A;
pub const LCD_WX_ADDRESS: u16 = 0xFF4B;

pub const CLOCKS_SEARCHING_OAM: u16 = 80;
pub const CLOCKS_TRANSFERING: u16 = 172;
pub const CLOCKS_HBLANK: u16 = 204;
pub const CLOCKS_VBLANK: u16 = 456;

#[derive(Clone, Copy, Debug, PartialEq, Eq, Structural)]
pub enum LCDMode {
    SearchingOAM,
    Transfering,
    HBlank,
    VBlank,
}

/// The flags of the LCD control register, from bit 7 down to bit 0.
#[derive(Clone, Copy, Debug, PartialEq, Eq, Structural)]
pub enum LCDControl {
    Power,
    WindowTileMap,
    WindowEnable,
    BGandWindowTileSet,
    BGTileMap,
    SpriteSize,
    SpritesEnabled,
    BGEnabled,
}

pub open spec fn control_bit(p: LCDControl) -> u8 {
    match p {
        LCDControl::Power => 7,
        LCDControl::WindowTileMap => 6,
        LCDControl::WindowEnable => 5,
        LCDControl::BGandWindowTileSet => 4,
        LCDControl::BGTileMap => 3,
        LCDControl::SpriteSize => 2,
        LCDControl::SpritesEnabled => 1,
        LCDControl::BGEnabled => 0,
    }
}

fn control_position(p: LCDControl) -> (r: usize)
    ensures
        r == control_bit(p),
{
    match p {
        LCDControl::Power => 7,
        LCDControl::WindowTileMap => 6,
        LCDControl::WindowEnable => 5,
        LCDControl::BGandWindowTileSet => 4,
        LCDControl::BGTileMap => 3,
        LCDControl::SpriteSize => 2,
        LCDControl::SpritesEnabled => 1,
        LCDControl::BGEnabled => 0,
    }
}

#[derive(Clone, Copy, Debug, PartialEq, Eq, Structural)]
pub struct LCD {
    pub control: u8,
    pub clock: u16,
    pub mode: LCDMode,
    pub scanline: u8,
}

/// One advance of the LCD by `cycles` clock cycles. Each mode lasts a fixed
/// number of cycles: OAM search, transfer, horizontal blank (after which the
/// next scanline starts, and from line 144 the vertical blank, with its
/// interrupt), and vertical blank lines until line 153, after which the frame
/// starts again at line 0. `None` where the scanline counter would pass 255.
pub open spec fn lcd_tick_spec(l: LCD, ints: Interrupts, cycles: u16) -> Option<(LCD, Interrupts)> {
    let clock = ((l.clock + cycles) % 65536) as u16;
    match l.mode {
        LCDMode::SearchingOAM => if clock >= CLOCKS_SEARCHING_OAM {
            Some((LCD { clock: 0, mode: LCDMode::Transfering, ..l }, ints))
        } else {
            Some((LCD { clock, ..l }, ints))
        },
        LCDMode::Transfering => if clock >= CLOCKS_TRANSFERING {
            Some((LCD { clock: 0, mode: LCDMode::HBlank, ..l }, ints))
        } else {
            Some((LCD { clock, ..l }, ints))
        },
        LCDMode::HBlank => if clock >= CLOCKS_HBLANK {
            if l.scanline == 255 {
                None
            } else if l.scanline + 1 == 144 {
                Some(
                    (
                        LCD { clock: 0, mode: LCDMode::VBlank, scanline: 144, ..l },
                        request(ints, Interruption::VBlank),
                    ),
                )
            } else {
                Some(
                    (
                        LCD {
                            clock: 0,
                            mode: LCDMode::SearchingOAM,
                            scanline: (l.scanline + 1) as u8,
                            ..l
                        },
                        ints,
                    ),
                )
            }
        } else {
            Some((LCD { clock, ..l }, ints))
        },
        LCDMode::VBlank => if clock >= CLOCKS_VBLANK {
            if l.scanline == 255 {
                None
            } else if l.scanline + 1 > 153 {
                Some((LCD { clock: 0, mode: LCDMode::SearchingOAM, scanline: 0, ..l }, ints))
            } else {
                Some((LCD { clock: 0, scanline: (l.scanline + 1) as u8, ..l }, ints))
            }
        } else {
            Some((LCD { clock, ..l }, ints))
        },
    }
}

impl LCD {
    pub open spec fn new_spec() -> LCD {
        LCD { control: 0, clock: 0, mode: LCDMode::SearchingOAM, scanline: 0 }
    }

    pub fn new() -> (r: LCD)
        ensures
            r == LCD::new_spec(),
    {
        LCD { control: 0, clock: 0, mode: LCDMode::SearchingOAM, scanline: 0 }
    }

    /// Whether an advance by `cycles` keeps the scanline counter in range.
    pub fn can_tick(&self, cycles: u16) -> (r: bool)
        ensures
            r == lcd_tick_spec(*self, Interrupts::new_spec(), cycles).is_some(),
            forall|i: Interrupts| #[trigger] lcd_tick_spec(*self, i, cycles).is_some() == r,
    {
        let clock = self.clock.wrapping_add(cycles);
        match self.mode {
            LCDMode::HBlank => !(clock >= CLOCKS_HBLANK && self.scanline == 255),
            LCDMode::VBlank => !(clock >= CLOCKS_VBLANK && self.scanline == 255),
            _ => true,
        }
    }

    /// Advances the mode cycle; https://gbdev.io/pandocs/STAT.html#stat-modes
    pub fn tick(&mut self, interrupts: &mut Interrupts, cycles: u16)
        requires
            lcd_tick_spec(*old(self), *old(interrupts), cycles).is_some(),
        ensures
            lcd_tick_spec(*old(self), *old(interrupts), cycles) == Some((*final(self), *final(interrupts))),
    {
        self.clock = self.clock.wrapping_add(cycles);
        match self.mode {
            LCDMode::SearchingOAM => {
                if self.clock >= CLOCKS_SEARCHING_OAM {
                    self.reset_clock();
                    self.start_mode(LCDMode::Transfering);
                }
            },
            LCDMode::Transfering => {
                if self.clock >= CLOCKS_TRANSFERING {
                    self.reset_clock();
                    self.start_mode(LCDMode::HBlank);
                }
            },
            LCDMode::HBlank => {
                if self.clock >= CLOCKS_HBLANK {
                    self.reset_clock();
                    self.next_scanline();
                    if self.read_scanline() == 144 {
                        interrupts.turnon(Interruption::VBlank);
                        self.start_mode(LCDMode::VBlank);
                    } else {
                        self.start_mode(LCDMode::SearchingOAM);
                    }
                }
            },
            LCDMode::VBlank => {
                if self.clock >= CLOCKS_VBLANK {
                    self.reset_clock();
                    self.next_scanline();
                    if self.read_scanline() > 153 {
                        self.start_mode(LCDMode::SearchingOAM);
                        self.reset_scanline();
                    }
                }
            },
        }
    }

    pub fn mode(&self) -> (r: LCDMode)
        ensures
            r == self.mode,
    {
        self.mode
    }

    pub fn clock(&self) -> (r: u16)
        ensures
            r == self.clock,
    {
        self.clock
    }

    pub fn reset_clock(&mut self)
        ensures
            *final(self) == (LCD { clock: 0, ..*old(self) }),
    {
        self.clock = 0;
    }

    pub fn start_mode(&mut self, mode: LCDMode)
        ensures
            *final(self) == (LCD { mode, ..*old(self) }),
    {
        self.mode = mode;
    }

    pub fn next_scanline(&mut self)
        requires
            old(self).scanline < 255,
        ensures
            *final(self) == (LCD { scanline: (old(self).scanline + 1) as u8, ..*old(self) }),
    {
        self.scanline += 1;
    }

    pub fn read_scanline(&self) -> (r: u8)
        ensures
            r == self.scanline,
    {
        self.scanline
    }

    pub fn reset_scanline(&mut self)
        ensures
            *final(self) == (LCD { scanline: 0, ..*old(self) }),
    {
        self.scanline = 0;
    }

    /// Whether a flag of the control register is set.
    pub fn read_control(&self, parameter: LCDControl) -> (r: bool)
        ensures
            r == bit_of(self.control, control_bit(parameter)),
    {
        get_bit_val(control_position(parameter), self.control)
    }

    /// Sets a flag of the control register, keeping the others.
    pub fn set_control(&mut self, parameter: LCDControl)
        ensures
            final(self).clock == old(self).clock && final(self).mode == old(self).mode
                && final(self).scanline == old(self).scanline,
            forall|q: u8|
                q < 8 ==> bit_of(final(self).control, q) == (q == control_bit(parameter) || bit_of(
                    old(self).control,
                    q,
                )),
    {
        self.control = set_bit_val(control_position(parameter), true, self.control);
    }

    /// LY reads the current scanline; the other LCD registers read 0.
    pub fn read_byte(&self, address: u16) -> (r: u8)
        ensures
            r == if address == LCD_LY_ADDRESS { self.scanline } else { 0 },
    {
        if address == LCD_LY_ADDRESS {
            self.scanline
        } else {
            0
        }
    }

    /// Writes to LY set the scanline and writes to LCDC the control
    /// register; writes to the other LCD registers are dropped.
    pub fn write_byte(&mut self, address: u16, value: u8)
        ensures
            *final(self) == if address == LCD_LY_ADDRESS {
                LCD { scanline: value, ..*old(self) }
            } else if address == LCD_CONTROL_ADDRESS {
                LCD { control: value, ..*old(self) }
            } else {
                *old(self)
            },
    {
        if address == LCD_LY_ADDRESS {
            self.scanline = value;
        } else if address == LCD_CONTROL_ADDRESS {
            self.control = value;
        }
    }
}

/// The mode that may follow a mode: OAM search, then transfer, then
/// horizontal blank, then OAM search of the next line or, at line 144,
/// vertical blank, which goes back to OAM search after line 153.
pub open spec fn mode_may_follow(from: LCDMode, to: LCDMode) -> bool {
    match from {
        LCDMode::SearchingOAM => to == LCDMode::SearchingOAM || to == LCDMode::Transfering,
        LCDMode::Transfering => to == LCDMode::Transfering || to == LCDMode::HBlank,
        LCDMode::HBlank => to == LCDMode::HBlank || to == LCDMode::SearchingOAM || to == LCDMode::VBlank,
        LCDMode::VBlank => to == LCDMode::VBlank || to == LCDMode::SearchingOAM,
    }
}

/// While the scanline counter is below 255 the LCD always advances; it
/// moves through the modes in their order, and the vertical blank interrupt
/// is requested exactly when it enters vertical blank (other requests are
/// kept).
pub proof fn lemma_lcd_tick_order(l: LCD, ints: Interrupts, cycles: u16)
    requires
        l.scanline < 255,
    ensures
        lcd_tick_spec(l, ints, cycles) matches Some((l1, i1)) && mode_may_follow(l.mode, l1.mode) && i1 == if l.mode
            != LCDMode::VBlank && l1.mode == LCDMode::VBlank {
            request(ints, Interruption::VBlank)
        } else {
            ints
        },
{
}

} // verus!
