//! The emulation: frames of CPU ticks, the pictures after each frame, and
//! the buttons.
use vstd::prelude::*;
use crate::cartridge::Cartridge;
use crate::frame::{GameBoyFrame, frame_is, background_pixel, tiledata_pixel, SCREEN_WIDTH, SCREEN_HEIGHT, BACKGROUND_WIDTH, BACKGROUND_HEIGHT, TILEDATA_WIDTH, TILEDATA_HEIGHT};
use crate::gameboy::{GameBoy, Machine, tick_spec, tick_error_state, lemma_tick_takes_time, lemma_tick_keeps_cart, power_on, same_cart};
use crate::instructions::EmulationError;
use crate::interrupts::{Interruption, request};
use crate::io::IOModel;
use crate::joypad::{Button, Joypad, with_button};
use crate::ppu::tiles_of;
use crate::rom::ROM;

verus! {

pub const CPU_CLOCK_HZ: usize = 4_194_304;
/// The clock cycles of one frame: the clock rate over 59.7 frames a second,
/// rounded down.
pub const CPU_CYCLES_PER_FRAME: usize = 70256;

/// What a frame of emulation hands out: the screen, the tile data and the
/// background.
pub struct EmulationStep {
    pub framebuffer: GameBoyFrame,
    pub tiledata: GameBoyFrame,
    pub background: GameBoyFrame,
}

pub struct Emulation {
    pub gameboy: GameBoy,
    pub running: bool,
    pub total_cycles: u64,
}

/// The clock cycles still to run in a frame after `done` of them.
pub open spec fn frame_remaining(done: nat) -> nat {
    if done >= CPU_CYCLES_PER_FRAME {
        0
    } else {
        (CPU_CYCLES_PER_FRAME - done) as nat
    }
}

/// Ticks from `m`, `done` clock cycles into the frame, until the frame's
/// cycles have run: the machine it ends with, the cycles run by then, and
/// `Ok` where every tick succeeded, else the error of the first that failed
/// (the ticks stop there).
#[verifier::opaque]
pub open spec fn run_frame(m: Machine, done: nat) -> (Machine, nat, Result<(), EmulationError>)
    decreases frame_remaining(done),
{
    if done >= CPU_CYCLES_PER_FRAME {
        (m, done, Ok(()))
    } else {
        match tick_spec(m) {
            Ok((m1, c)) => {
                proof {
                    lemma_tick_takes_time(m);
                }
                run_frame(m1, (done + c) as nat)
            },
            Err(e) => (tick_error_state(m), done, Err(e)),
        }
    }
}

/// One tick of a frame that has cycles left to run.
proof fn lemma_run_frame_unfold(m: Machine, done: nat)
    requires
        done < CPU_CYCLES_PER_FRAME,
    ensures
        run_frame(m, done) == match tick_spec(m) {
            Ok((m1, c)) => run_frame(m1, (done + c) as nat),
            Err(e) => (tick_error_state(m), done, Err::<(), EmulationError>(e)),
        },
{
    reveal(run_frame);
}

/// A frame whose cycles have run is over.
proof fn lemma_run_frame_done(m: Machine, done: nat)
    requires
        done >= CPU_CYCLES_PER_FRAME,
    ensures
        run_frame(m, done) == (m, done, Ok::<(), EmulationError>(())),
{
    reveal(run_frame);
}

/// A frame that runs to its end has run at least its clock cycles, and
/// less than one tick more.
pub proof fn lemma_frame_length(m: Machine, done: nat)
    requires
        done < CPU_CYCLES_PER_FRAME,
    ensures
        run_frame(m, done).2 is Ok ==> CPU_CYCLES_PER_FRAME <= run_frame(m, done).1 < CPU_CYCLES_PER_FRAME + 24,
        run_frame(m, done).1 >= done,
    decreases frame_remaining(done),
{
    lemma_run_frame_unfold(m, done);
    lemma_tick_takes_time(m);
    match tick_spec(m) {
        Ok((m1, c)) => {
            if done + c < CPU_CYCLES_PER_FRAME {
                lemma_frame_length(m1, (done + c) as nat);
            } else {
                lemma_run_frame_done(m1, (done + c) as nat);
            }
        },
        Err(_) => {},
    }
}

/// A frame, whether it runs to its end or stops at a failing tick, never
/// changes the cartridge.
pub proof fn lemma_frame_keeps_cart(m: Machine, done: nat)
    ensures
        same_cart(run_frame(m, done).0, m),
    decreases frame_remaining(done),
{
    if done >= CPU_CYCLES_PER_FRAME {
        lemma_run_frame_done(m, done);
    } else {
        lemma_run_frame_unfold(m, done);
        lemma_tick_takes_time(m);
        lemma_tick_keeps_cart(m);
        match tick_spec(m) {
            Ok((m1, c)) => {
                lemma_frame_keeps_cart(m1, (done + c) as nat);
            },
            Err(_) => {},
        }
    }
}

/// The pictures of a machine: the screen, the tile data and the background.
pub open spec fn pictures_of(s: EmulationStep, m: Machine) -> bool {
    &&& frame_is(s.framebuffer, SCREEN_WIDTH, SCREEN_HEIGHT, |x: int, y: int| background_pixel(m.vram, tiles_of(m.vram), m.io.lcd.control, x, y))
    &&& frame_is(s.tiledata, TILEDATA_WIDTH, TILEDATA_HEIGHT, |x: int, y: int| tiledata_pixel(tiles_of(m.vram), x, y))
    &&& frame_is(s.background, BACKGROUND_WIDTH, BACKGROUND_HEIGHT, |x: int, y: int| background_pixel(m.vram, tiles_of(m.vram), m.io.lcd.control, x, y))
}

impl Emulation {
    /// A stopped emulation of a machine at power on, with no cycles run.
    pub fn new(cartridge: Option<Cartridge>, bootrom: ROM) -> (r: Emulation)
        requires
            bootrom.wf(),
        ensures
            r.gameboy.wf(),
            r.gameboy@ == match cartridge {
                Some(c) => power_on(bootrom.data@, c.data@, c.title@),
                None => power_on(bootrom.data@, Seq::new(crate::cartridge::CARTRIDGE_SIZE as nat, |i: int| 0u8), "empty"@),
            },
            !r.running,
            r.total_cycles == 0,
    {
        let gameboy = GameBoy::new(cartridge, bootrom);
        Emulation { gameboy, running: false, total_cycles: 0 }
    }

    pub fn start(&mut self)
        ensures
            final(self).running,
            final(self).gameboy == old(self).gameboy,
            final(self).total_cycles == old(self).total_cycles,
    {
        self.running = true;
    }

    /// Runs one frame of clock cycles, tick by tick, and hands out the
    /// pictures; stops at the first tick that fails and returns its error.
    /// The cycles of every tick that ran are added to the total.
    pub fn step(&mut self) -> (r: Result<EmulationStep, EmulationError>)
        requires
            old(self).gameboy.wf(),
            old(self).total_cycles + CPU_CYCLES_PER_FRAME + 24 <= u64::MAX,
        ensures
            final(self).gameboy.wf(),
            final(self).running == old(self).running,
            ({
                let (m, n, outcome) = run_frame(old(self).gameboy@, 0);
                &&& final(self).gameboy@ == m
                &&& final(self).total_cycles == old(self).total_cycles + n
                &&& match outcome {
                    Ok(_) => r matches Ok(s) && pictures_of(s, m),
                    Err(e) => r matches Err(e1) && e1 == e,
                }
            }),
    {
        let ghost m0 = self.gameboy@;
        let ghost t0 = self.total_cycles;
        let mut frame_cycles: usize = 0;
        while frame_cycles < CPU_CYCLES_PER_FRAME
            invariant
                self.gameboy.wf(),
                self.running == old(self).running,
                m0 == old(self).gameboy@,
                t0 == old(self).total_cycles,
                frame_cycles <= CPU_CYCLES_PER_FRAME + 24,
                self.total_cycles == t0 + frame_cycles,
                t0 + CPU_CYCLES_PER_FRAME + 24 <= u64::MAX,
                run_frame(self.gameboy@, frame_cycles as nat) == run_frame(m0, 0),
            decreases frame_remaining(frame_cycles as nat),
        {
            let ghost before = self.gameboy@;
            proof {
                lemma_tick_takes_time(before);
                lemma_run_frame_unfold(before, frame_cycles as nat);
            }
            match self.gameboy.tick() {
                Ok(cycles) => {
                    frame_cycles = frame_cycles + cycles as usize;
                    self.total_cycles = self.total_cycles + cycles as u64;
                },
                Err(error) => {
                    return Err(error);
                },
            }
        }
        proof {
            lemma_run_frame_done(self.gameboy@, frame_cycles as nat);
        }
        let framebuffer = self.gameboy.frame();
        let tiledata = self.gameboy.tiledata();
        let background = self.gameboy.background();
        Ok(EmulationStep { framebuffer, tiledata, background })
    }

    /// Presses a button and requests the joypad interrupt.
    pub fn button_pressed(&mut self, b: Button)
        requires
            old(self).gameboy.wf(),
        ensures
            final(self).gameboy.wf(),
            final(self).gameboy@ == (Machine {
                io: IOModel {
                    joypad: Joypad { state: with_button(old(self).gameboy@.io.joypad.state, b, true), ..old(self).gameboy@.io.joypad },
                    interrupts: request(old(self).gameboy@.io.interrupts, Interruption::Joypad),
                    ..old(self).gameboy@.io
                },
                ..old(self).gameboy@
            }),
            final(self).running == old(self).running,
            final(self).total_cycles == old(self).total_cycles,
    {
        self.gameboy.io.joypad.button_pressed(b);
        self.gameboy.io.interrupts.turnon(Interruption::Joypad);
    }

    /// Releases a button.
    pub fn button_released(&mut self, b: Button)
        requires
            old(self).gameboy.wf(),
        ensures
            final(self).gameboy.wf(),
            final(self).gameboy@ == (Machine {
                io: IOModel {
                    joypad: Joypad { state: with_button(old(self).gameboy@.io.joypad.state, b, false), ..old(self).gameboy@.io.joypad },
                    ..old(self).gameboy@.io
                },
                ..old(self).gameboy@
            }),
            final(self).running == old(self).running,
            final(self).total_cycles == old(self).total_cycles,
    {
        self.gameboy.io.joypad.button_released(b);
    }
}

} // verus!
