//! The rates of the programmable timer.
use vstd::prelude::*;
use crate::timers::{timer_frequency_spec, timers_tick_spec, tima_loop};
use crate::io::{IOModel, IO_BEGIN, IO_SIZE, TAC_ADDRESS, TIMA_ADDRESS};

verus! {

// ------------------------------------------------------------------ timers

/// The TIMA period that TAC's two low bits select, in clock cycles:
/// 00 every 1024 (4096 Hz), 01 every 16 (262144 Hz), 10 every 64
/// (65536 Hz), 11 every 256 (16384 Hz).
pub proof fn lemma_timer_periods(tac: u8)
    ensures
        tac & 3 == 0 ==> timer_frequency_spec(tac) == 1024,
        tac & 3 == 1 ==> timer_frequency_spec(tac) == 16,
        tac & 3 == 2 ==> timer_frequency_spec(tac) == 64,
        tac & 3 == 3 ==> timer_frequency_spec(tac) == 256,
        4194304int / timer_frequency_spec(tac) as int == if tac & 3 == 0 {
            4096int
        } else if tac & 3 == 1 {
            262144
        } else if tac & 3 == 2 {
            65536
        } else {
            16384
        },
{
    assert(tac & 3 == tac % 4) by (bit_vector);
    let p = timer_frequency_spec(tac) as int;
    if tac % 4 == 0 {
        assert(p == 1024 && 4194304int / p == 4096);
    } else if tac % 4 == 1 {
        assert(p == 16 && 4194304int / p == 262144);
    } else if tac % 4 == 2 {
        assert(p == 64 && 4194304int / p == 65536);
    } else {
        assert(p == 256 && 4194304int / p == 16384);
    }
}

/// With the timer on (TAC bit 2) and TIMA below 255, a tick moves TIMA up
/// by one exactly when the TIMA counter plus the cycles reaches the period
/// that TAC's two low bits select (1024, 16, 64 or 256 clock cycles), and
/// requests no interrupt; the counter stays below two periods here.
pub proof fn lemma_timer_counts_periods(io: IOModel, cycles: u8)
    requires
        io.data.len() == IO_SIZE,
        io.data[TAC_ADDRESS - IO_BEGIN] & 4 != 0,
        io.data[TIMA_ADDRESS - IO_BEGIN] < 255,
        io.timers.tima_counter + cycles < 2 * (if io.data[TAC_ADDRESS - IO_BEGIN] & 3 == 0 {
            1024int
        } else if io.data[TAC_ADDRESS - IO_BEGIN] & 3 == 1 {
            16
        } else if io.data[TAC_ADDRESS - IO_BEGIN] & 3 == 2 {
            64
        } else {
            256
        }),
    ensures
        ({
            let tac = io.data[TAC_ADDRESS - IO_BEGIN];
            let period = if tac & 3 == 0 {
                1024int
            } else if tac & 3 == 1 {
                16
            } else if tac & 3 == 2 {
                64
            } else {
                256
            };
            let after = timers_tick_spec(io, cycles);
            &&& after.data[TIMA_ADDRESS - IO_BEGIN] == io.data[TIMA_ADDRESS - IO_BEGIN] + if io.timers.tima_counter
                + cycles >= period {
                1int
            } else {
                0int
            }
            &&& after.interrupts == io.interrupts
        }),
{
    let tac = io.data[TAC_ADDRESS - IO_BEGIN];
    assert(tac & 3 == tac % 4 && (tac & 4 != 0) == ((tac / 4) % 2 == 1)) by (bit_vector);
    reveal_with_fuel(tima_loop, 3);
}

} // verus!
