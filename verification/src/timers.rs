//! The divider and the programmable timer (DIV, TIMA, TMA, TAC).
use vstd::prelude::*;
use crate::interrupts::{Interruption, request};
use crate::io::{IO, IOModel, DIV_ADDRESS, TIMA_ADDRESS, TMA_ADDRESS, TAC_ADDRESS, IO_BEGIN, IO_SIZE};

verus! {

/// The cycle counters behind DIV and TIMA.
#[derive(Clone, Copy, Debug, PartialEq, Eq, Structural)]
pub struct Timers {
    pub div_counter: u8,
    // Because the max frequency is 1024 => 10 bits
    pub tima_counter: u16,
}

/// Bit 2 of TAC enables the timer.
pub open spec fn timer_enabled_spec(tac: u8) -> bool {
    (tac / 4) % 2 == 1
}

/// The cycles per TIMA increment selected by the two low bits of TAC.
pub open spec fn timer_frequency_spec(tac: u8) -> u16 {
    let s = tac % 4;
    if s == 0 {
        1024
    } else if s == 1 {
        16
    } else if s == 2 {
        64
    } else {
        256
    }
}

/// One TIMA increment: on overflow TIMA takes TMA and the timer interrupt is
/// requested.
pub open spec fn tima_step(io: IOModel) -> IOModel {
    let tima = io.data[TIMA_ADDRESS - IO_BEGIN];
    if tima == 255 {
        IOModel {
            data: io.data.update(TIMA_ADDRESS - IO_BEGIN, io.data[TMA_ADDRESS - IO_BEGIN]),
            interrupts: request(io.interrupts, Interruption::Timer),
            ..io
        }
    } else {
        IOModel { data: io.data.update(TIMA_ADDRESS - IO_BEGIN, (tima + 1) as u8), ..io }
    }
}

/// As many TIMA increments as whole periods in the counter, each taking one
/// period off the counter.
pub open spec fn tima_loop(io: IOModel, freq: u16) -> IOModel
    decreases io.timers.tima_counter,
{
    if freq > 0 && io.timers.tima_counter >= freq {
        let next = tima_step(io);
        tima_loop(
            IOModel {
                timers: Timers { tima_counter: (io.timers.tima_counter - freq) as u16, ..io.timers },
                ..next
            },
            freq,
        )
    } else {
        io
    }
}

/// The timers after `cycles` clock cycles. DIV is the upper byte of a clock
/// cycle counter: the lower byte becomes (counter + cycles) mod 256 and DIV
/// goes up by (counter + cycles) / 256 (at most one, the cycles being a
/// byte), wrapping; when TAC
/// enables the timer, the cycles are added to the TIMA counter and TIMA goes
/// up once per period.
pub open spec fn timers_tick_spec(io: IOModel, cycles: u8) -> IOModel {
    let sum = io.timers.div_counter + cycles;
    let io1 = if sum > 255 {
        IOModel {
            timers: Timers { div_counter: (sum - 256) as u8, ..io.timers },
            data: io.data.update(
                DIV_ADDRESS - IO_BEGIN,
                ((io.data[DIV_ADDRESS - IO_BEGIN] + 1) % 256) as u8,
            ),
            ..io
        }
    } else {
        IOModel { timers: Timers { div_counter: sum as u8, ..io.timers }, ..io }
    };
    let tac = io1.data[TAC_ADDRESS - IO_BEGIN];
    if timer_enabled_spec(tac) {
        tima_loop(
            IOModel {
                timers: Timers {
                    tima_counter: ((io1.timers.tima_counter + cycles) % 65536) as u16,
                    ..io1.timers
                },
                ..io1
            },
            timer_frequency_spec(tac),
        )
    } else {
        io1
    }
}

impl Timers {
    pub open spec fn new_spec() -> Timers {
        Timers { div_counter: 0, tima_counter: 0 }
    }

    pub fn new() -> (r: Timers)
        ensures
            r == Timers::new_spec(),
    {
        Timers { div_counter: 0, tima_counter: 0 }
    }

    /// Advances the divider and the timer by `cycles` clock cycles.
    pub fn tick(io: &mut IO, cycles: u8)
        requires
            old(io).wf(),
        ensures
            final(io).wf(),
            final(io)@ == timers_tick_spec(old(io)@, cycles),
    {
        let sum: u16 = io.timers.div_counter as u16 + cycles as u16;
        if sum > 255 {
            io.timers.div_counter = (sum - 256) as u8;
            io.inc_div();
        } else {
            io.timers.div_counter = sum as u8;
        }
        if Timers::timer_enabled(io) {
            io.timers.tima_counter = io.timers.tima_counter.wrapping_add(cycles as u16);
            let freq = Timers::timer_frecuency(io);
            let ghost target = tima_loop(io@, freq);
            while io.timers.tima_counter >= freq
                invariant
                    io.wf(),
                    freq > 0,
                    tima_loop(io@, freq) == target,
                decreases io.timers.tima_counter,
            {
                let ghost io0 = io@;
                let tima_overflow = io.inc_tima();
                if tima_overflow {
                    io.interrupts.turnon(Interruption::Timer);
                    io.reset_tima();
                }
                io.timers.tima_counter = io.timers.tima_counter - freq;
                proof {
                    let next = tima_step(io0);
                    assert(io@.data =~= next.data);
                    assert(io@ =~= IOModel {
                        timers: Timers { tima_counter: (io0.timers.tima_counter - freq) as u16, ..io0.timers },
                        ..next
                    });
                }
            }
        }
    }

    /// If bit 2 of TAC is high, the timer is enabled.
    pub fn timer_enabled(io: &IO) -> (r: bool)
        requires
            io.wf(),
        ensures
            r == timer_enabled_spec(io.data@[TAC_ADDRESS - IO_BEGIN]),
    {
        let tac = io.get_tac_register();
        assert((tac & 0b00000100 > 0) == ((tac / 4) % 2 == 1) && tac & 3 == tac % 4) by (bit_vector);
        tac & 0b00000100 > 0
    }

    pub fn timer_frecuency(io: &IO) -> (r: u16)
        requires
            io.wf(),
        ensures
            r == timer_frequency_spec(io.data@[TAC_ADDRESS - IO_BEGIN]),
            r > 0,
    {
        let tac = io.get_tac_register();
        assert(tac & 3 == tac % 4) by (bit_vector);
        if tac & 0b00000011 == 0 {
            1024
        } else if tac & 0b00000011 == 1 {
            16
        } else if tac & 0b00000011 == 2 {
            64
        } else {
            256
        }
    }
}

/// With the timer off, a tick leaves TIMA and the interrupt requests as
/// they were.
pub proof fn lemma_timer_off(io: IOModel, cycles: u8)
    requires
        io.data.len() == IO_SIZE,
        !timer_enabled_spec(io.data[TAC_ADDRESS - IO_BEGIN]),
    ensures
        timers_tick_spec(io, cycles).interrupts == io.interrupts,
        timers_tick_spec(io, cycles).data[TIMA_ADDRESS - IO_BEGIN] == io.data[TIMA_ADDRESS - IO_BEGIN],
{
}

/// With the timer on and TIMA at 255, a tick that completes one period
/// (and not two) overflows TIMA: it takes the value of TMA and the timer
/// interrupt is requested.
pub proof fn lemma_timer_overflow(io: IOModel, cycles: u8)
    requires
        io.data.len() == IO_SIZE,
        timer_enabled_spec(io.data[TAC_ADDRESS - IO_BEGIN]),
        io.data[TIMA_ADDRESS - IO_BEGIN] == 255,
        timer_frequency_spec(io.data[TAC_ADDRESS - IO_BEGIN]) <= io.timers.tima_counter + cycles,
        io.timers.tima_counter + cycles < 2 * timer_frequency_spec(io.data[TAC_ADDRESS - IO_BEGIN]),
    ensures
        timers_tick_spec(io, cycles).data[TIMA_ADDRESS - IO_BEGIN] == io.data[TMA_ADDRESS - IO_BEGIN],
        timers_tick_spec(io, cycles).interrupts == request(io.interrupts, Interruption::Timer),
{
    reveal_with_fuel(tima_loop, 2);
}

} // verus!
