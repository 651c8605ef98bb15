//! The CPU state and its step: interrupts, fetch and decode, execution.
use vstd::prelude::*;
use crate::decode::{Instruction, parse_spec};
use crate::gameboy::{GameBoy, Machine};
use crate::instructions::{EmulationError, read8, push_stack, lemma_push_some};
use crate::interrupts::{Interruption, pending, highest_pending, acknowledge, interruption_bit};
use crate::io::{IOModel, SerialTransferMode, io_read_spec, SERIAL_CONTROL_ADDRESS, SERIAL_DATA_ADDRESS};
use crate::mmu::{MMU, writable_spec};
use crate::registers::Registers;
use crate::decode::InstructionType;
use crate::gameboy::lemma_stored_read_after_write;
use crate::gameboy::{lemma_read_ignores_cpu, lemma_write_keeps_cart, same_cart};
use crate::semantics::{MachineCycles, read_r, exec_spec, push_spec, pop_spec, flow_spec, with_pc, with_sp, machine_cycles_count, wrap16, stack_stored, lemma_push_then_pop, lemma_exec_keeps_cart};
use crate::timers::{Timers, timers_tick_spec};

verus! {

/// Registers, stack pointer, program counter, the halt state and the
/// interrupt master enable.
#[derive(Clone, Copy, Debug, PartialEq, Eq, Structural)]
pub struct CPU {
    pub regs: Registers,
    pub sp: u16,
    pub pc: u16,
    pub is_halted: bool,
    pub ime: bool,
}

/// The interrupt check at the start of a step. With an enabled request and
/// the master enable on, the request of highest priority is acknowledged,
/// the CPU leaves the halt state, the master enable goes off, the program
/// counter is pushed and the handler of the interrupt is jumped to. With an
/// enabled request and the master enable off, the CPU only leaves the halt
/// state. The push's error where it is not taken.
pub open spec fn interrupt_spec(m: Machine) -> Result<Machine, EmulationError> {
    let ints = m.io.interrupts;
    if pending(ints) != 0 {
        if m.cpu.ime {
            let i = highest_pending(ints)->0;
            let m1 = Machine {
                cpu: CPU { is_halted: false, ime: false, ..m.cpu },
                io: IOModel { interrupts: acknowledge(ints, i), ..m.io },
                ..m
            };
            match push_spec(m1, m.cpu.pc) {
                Ok(m2) => Ok(with_pc(m2, (0x40 + 8 * interruption_bit(i)) as u16)),
                Err(e) => Err(e),
            }
        } else {
            Ok(Machine { cpu: CPU { is_halted: false, ..m.cpu }, ..m })
        }
    } else {
        Ok(m)
    }
}

/// The instruction at the program counter: the opcode and the two bytes
/// after it are read (all three, whatever the size, in that order), then
/// decoded. The error of the first read that is not answered,
/// `AddressOverflow` where the program counter is past 0xFFFD, and
/// `UnknownInstruction` with the opcode and the byte after it where the
/// opcode is unused.
pub open spec fn fetch_spec(m: Machine) -> Result<Instruction, EmulationError> {
    let pc = m.cpu.pc;
    if pc <= 0xFFFD {
        match read_r(m, pc) {
            Ok(b) => match read_r(m, (pc + 1) as u16) {
                Ok(b0) => match read_r(m, (pc + 2) as u16) {
                    Ok(b1) => match parse_spec(b, b0, b1) {
                        Some(inst) => Ok(inst),
                        None => Err(EmulationError::UnknownInstruction(b, b0)),
                    },
                    Err(e) => Err(e),
                },
                Err(e) => Err(e),
            },
            Err(e) => Err(e),
        }
    } else {
        Err(EmulationError::AddressOverflow)
    }
}

/// The machine with its timers advanced by `clocks` clock cycles.
pub open spec fn with_timers_tick(m: Machine, clocks: u8) -> Machine {
    Machine { io: timers_tick_spec(m.io, clocks), ..m }
}

/// The clock cycles of a number of machine cycles.
pub open spec fn clocks_of(c: MachineCycles) -> u8 {
    (4 * machine_cycles_count(c)) as u8
}

/// One CPU step: the interrupt check, then, unless the CPU is halted, the
/// fetch, decode and execution of one instruction; the timers then advance
/// by the clock cycles taken (four for a halted CPU). `Ok` of the machine
/// after the step and the clock cycles, or the error that stops it.
pub open spec fn step_spec(m: Machine) -> Result<(Machine, u16), EmulationError> {
    match interrupt_spec(m) {
        Ok(m1) => if m1.cpu.is_halted {
            Ok((with_timers_tick(m1, 4), 4))
        } else {
            match fetch_spec(m1) {
                Ok(inst) => match exec_spec(m1, inst.op) {
                    Ok((m2, c)) => Ok((with_timers_tick(m2, clocks_of(c)), clocks_of(c) as u16)),
                    Err(e) => Err(e),
                },
                Err(e) => Err(e),
            }
        },
        Err(e) => Err(e),
    }
}

/// The machine that a failed step leaves: the one after the interrupt
/// check when that succeeded, else the one it started with.
pub open spec fn step_error_state(m: Machine) -> Machine {
    match interrupt_spec(m) {
        Ok(m1) => m1,
        Err(_) => m,
    }
}

/// The byte the serial port sends: the data register, when the control
/// register starts a transfer (0x81 on the internal clock, 0x80 on the
/// external one).
pub open spec fn serial_pending(m: Machine) -> Option<u8> {
    let control = io_read_spec(m.io, SERIAL_CONTROL_ADDRESS);
    if control == 0x81 || control == 0x80 {
        Some(io_read_spec(m.io, SERIAL_DATA_ADDRESS))
    } else {
        None
    }
}

impl CPU {
    /// The byte the serial port has to send, if a transfer was started.
    pub fn send_serial(gb: &mut GameBoy) -> (r: Option<u8>)
        requires
            old(gb).wf(),
        ensures
            final(gb).wf(),
            final(gb)@ == old(gb)@,
            r == serial_pending(old(gb)@),
    {
        proof {
            reveal(Machine::read);
        }
        let serial_transfer = SerialTransferMode::parse_from_byte(MMU::read_byte(gb, SERIAL_CONTROL_ADDRESS));
        let serial_data = MMU::read_byte(gb, SERIAL_DATA_ADDRESS);
        match serial_transfer {
            SerialTransferMode::TransferInternalClock => Some(serial_data),
            SerialTransferMode::TransferExternalClock => Some(serial_data),
            _ => None,
        }
    }

    pub fn new() -> (r: CPU)
        ensures
            r == (CPU { regs: r.regs, sp: 0, pc: 0, is_halted: false, ime: true }),
            r.regs == Registers::new_spec(),
    {
        CPU { regs: Registers::new(), sp: 0x0, pc: 0x0, is_halted: false, ime: true }
    }

    /// The interrupt check at the start of a step.
    pub fn handle_interrupts(gb: &mut GameBoy) -> (r: Result<(), EmulationError>)
        requires
            old(gb).wf(),
        ensures
            final(gb).wf(),
            match interrupt_spec(old(gb)@) {
                Ok(m) => r is Ok && final(gb)@ == m,
                Err(e) => r == Err::<(), EmulationError>(e) && final(gb)@ == old(gb)@,
            },
    {
        if gb.io.interrupts.some_interrupt_enabled() {
            if gb.cpu.ime {
                let s1 = gb.cpu.sp.wrapping_sub(1);
                let s2 = s1.wrapping_sub(1);
                proof {
                    assert(s1 == wrap16(gb.cpu.sp - 1));
                    assert(s2 == wrap16(gb.cpu.sp - 2));
                }
                if !MMU::writable(s1) || !MMU::writable(s2) {
                    proof {
                        let m = old(gb)@;
                        let i = highest_pending(m.io.interrupts)->0;
                        lemma_push_some(Machine {
                            cpu: CPU { is_halted: false, ime: false, ..m.cpu },
                            io: IOModel { interrupts: acknowledge(m.io.interrupts, i), ..m.io },
                            ..m
                        }, m.cpu.pc);
                    }
                    return Err(EmulationError::ProhibitedWrite(if MMU::writable(s1) { s2 } else { s1 }));
                }
                let interrupt = gb.io.interrupts.interrupt_to_handle();
                match interrupt {
                    Some(i) => {
                        gb.cpu.is_halted = false;
                        gb.cpu.ime = false;
                        let pc = gb.cpu.pc;
                        proof {
                            lemma_push_some(gb@, pc);
                        }
                        push_stack(gb, pc)?;
                        gb.cpu.pc = i.handler();
                    },
                    None => {},
                }
            } else {
                gb.cpu.is_halted = false;
            }
        }
        Ok(())
    }

    /// Reads the opcode at the program counter and the two bytes after it
    /// and decodes them.
    pub fn fetch_decode(gb: &GameBoy) -> (r: Result<Instruction, EmulationError>)
        requires
            gb.wf(),
        ensures
            r == fetch_spec(gb@),
    {
        let pc = gb.cpu.pc;
        if pc > 0xFFFD {
            return Err(EmulationError::AddressOverflow);
        }
        let instruction_byte = read8(gb, pc)?;
        let byte0 = read8(gb, pc + 1)?;
        let byte1 = read8(gb, pc + 2)?;
        match Instruction::parse_instruction(instruction_byte, byte0, byte1) {
            Some(instruction) => Ok(instruction),
            None => Err(EmulationError::UnknownInstruction(instruction_byte, byte0)),
        }
    }

    /// One CPU step; `Ok` with the clock cycles it took.
    pub fn step(gb: &mut GameBoy) -> (r: Result<u16, EmulationError>)
        requires
            old(gb).wf(),
        ensures
            final(gb).wf(),
            match step_spec(old(gb)@) {
                Ok((m, c)) => r == Ok::<u16, EmulationError>(c) && final(gb)@ == m,
                Err(e) => r == Err::<u16, EmulationError>(e) && final(gb)@ == step_error_state(old(gb)@),
            },
    {
        CPU::handle_interrupts(gb)?;
        let mut mcycles = MachineCycles::One;
        if !gb.cpu.is_halted {
            let instruction = CPU::fetch_decode(gb)?;
            if instruction.op == InstructionType::STOP {
                return Err(EmulationError::Stop);
            }
            mcycles = instruction.execute(gb)?;
        }
        let clocks = mcycles.to_clock_cycles();
        Timers::tick(&mut gb.io, clocks);
        Ok(clocks as u16)
    }
}

/// An enabled request, with the master enable on and the stack where
/// writes are kept, is handled: the CPU leaves the halt state and jumps to the handler of the
/// request of highest priority (0x40 plus eight times its bit) with the
/// master enable off and that request cleared; the interrupted program
/// counter is on the stack, where a RETI finds it, restoring the stack
/// pointer and turning the master enable back on.
pub proof fn lemma_interrupt_then_reti(m: Machine)
    requires
        m.wf(),
        m.cpu.ime,
        pending(m.io.interrupts) != 0,
        stack_stored(m),
    ensures
        ({
            let i = highest_pending(m.io.interrupts)->0;
            &&& interrupt_spec(m) matches Ok(m1)
            &&& m1.cpu.pc == 0x40 + 8 * interruption_bit(i)
            &&& !m1.cpu.ime
            &&& !m1.cpu.is_halted
            &&& m1.io.interrupts == acknowledge(m.io.interrupts, i)
            &&& flow_spec(m1, InstructionType::RETI) matches Ok((m2, _))
            &&& m2.cpu.pc == m.cpu.pc
            &&& m2.cpu.ime
            &&& m2.cpu.sp == m.cpu.sp
        }),
{
    let i = highest_pending(m.io.interrupts)->0;
    let ma = Machine {
        cpu: CPU { is_halted: false, ime: false, ..m.cpu },
        io: IOModel { interrupts: acknowledge(m.io.interrupts, i), ..m.io },
        ..m
    };
    lemma_push_then_pop(ma, m.cpu.pc);
    let mp = push_spec(ma, m.cpu.pc)->Ok_0;
    let s1 = wrap16(m.cpu.sp - 1);
    let s2 = wrap16(m.cpu.sp - 2);
    lemma_stored_read_after_write(ma, s1, (m.cpu.pc / 256) as u8, s2);
    lemma_stored_read_after_write(ma.write(s1, (m.cpu.pc / 256) as u8)->0, s2, (m.cpu.pc % 256) as u8, s1);
    let m1 = with_pc(mp, (0x40 + 8 * interruption_bit(i)) as u16);
    lemma_read_ignores_cpu(mp, m1.cpu, mp.cpu.sp);
    lemma_read_ignores_cpu(mp, m1.cpu, wrap16(mp.cpu.sp + 1));
    assert(interrupt_spec(m) == Ok::<Machine, EmulationError>(m1));
    assert(pop_spec(m1) == Ok::<(Machine, u16), EmulationError>((with_sp(m1, m.cpu.sp), m.cpu.pc)));
}

/// An enabled request wakes a halted CPU even with the master enable off;
/// nothing else changes.
pub proof fn lemma_request_wakes(m: Machine)
    requires
        !m.cpu.ime,
        pending(m.io.interrupts) != 0,
    ensures
        interrupt_spec(m) == Ok::<Machine, EmulationError>(Machine { cpu: CPU { is_halted: false, ..m.cpu }, ..m }),
{
}

/// A halted CPU with no enabled request stays halted: a step leaves all but
/// the timers as they were and takes four clock cycles.
pub proof fn lemma_halted_idles(m: Machine)
    requires
        m.cpu.is_halted,
        pending(m.io.interrupts) == 0,
    ensures
        step_spec(m) == Ok::<(Machine, u16), EmulationError>((with_timers_tick(m, 4), 4u16)),
{
}

/// A CPU step, whether it succeeds or fails, never changes the cartridge.
pub proof fn lemma_step_keeps_cart(m: Machine)
    ensures
        step_spec(m) matches Ok((m1, _)) ==> same_cart(m1, m),
        same_cart(step_error_state(m), m),
{
    broadcast use lemma_write_keeps_cart;
    match interrupt_spec(m) {
        Ok(m1) => {
            match fetch_spec(m1) {
                Ok(inst) => lemma_exec_keeps_cart(m1, inst.op),
                Err(_) => {},
            }
        },
        Err(_) => {},
    }
}

} // verus!
