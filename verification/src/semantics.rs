//! What each instruction does to the machine: the reads and writes it makes,
//! the new registers and flags, and the machine cycles it takes, or the
//! error that stops it: a read or write that the memory map does not
//! answer, an operand past the address space, or the STOP instruction.
use vstd::prelude::*;
use crate::alu::{add8_spec, adc8_spec, sub8_spec, sbc8_spec, and8_spec, xor8_spec, or8_spec, inc8_spec, dec8_spec, add16_spec, add_sp_spec, signed, rotate_left_spec, rotate_right_spec, set_bit_spec, bit_of, bit_test_flags, daa_spec, swap_spec};
use crate::cpu::CPU;
use crate::decode::{InstructionType, RegistersIndirect, RegistersIndDir, WordRegister, StackTarget, JumpTest, BitTarget, BitType, ResSetType, LoadType, LoadIndirectSource, LoadFFType, size_spec, size_bytes_spec};
use crate::instructions::EmulationError;
use crate::gameboy::{Machine, stores, same_cart, lemma_stored_read_after_write, lemma_read_ignores_cpu, lemma_write_keeps_cart};
use crate::interrupts::pending;
use crate::registers::{FlagsRegister, Registers, pair, flags_of_byte};

verus! {

/// Machine cycles; a machine cycle is four clock cycles.
#[derive(Clone, Copy, Debug, PartialEq, Eq, Structural)]
pub enum MachineCycles {
    Zero,
    One,
    Two,
    Three,
    Four,
    Five,
    Six,
}

pub open spec fn machine_cycles_count(c: MachineCycles) -> u8 {
    match c {
        MachineCycles::Zero => 0,
        MachineCycles::One => 1,
        MachineCycles::Two => 2,
        MachineCycles::Three => 3,
        MachineCycles::Four => 4,
        MachineCycles::Five => 5,
        MachineCycles::Six => 6,
    }
}

impl MachineCycles {
    /// The clock cycles: four per machine cycle.
    pub fn to_clock_cycles(&self) -> (r: u8)
        ensures
            r == 4 * machine_cycles_count(*self),
    {
        let machine_cycles: u8 = match self {
            MachineCycles::Zero => 0,
            MachineCycles::One => 1,
            MachineCycles::Two => 2,
            MachineCycles::Three => 3,
            MachineCycles::Four => 4,
            MachineCycles::Five => 5,
            MachineCycles::Six => 6,
        };
        machine_cycles * 4
    }
}

// ------------------------------------------------------------ state helpers

/// A read: the byte, or the error that names the address.
pub open spec fn read_r(m: Machine, a: u16) -> Result<u8, EmulationError> {
    match m.read(a) {
        Some(v) => Ok(v),
        None => Err(EmulationError::ProhibitedRead(a)),
    }
}

/// A write: the machine after it, or the error that names the address.
pub open spec fn write_r(m: Machine, a: u16, v: u8) -> Result<Machine, EmulationError> {
    match m.write(a, v) {
        Some(m1) => Ok(m1),
        None => Err(EmulationError::ProhibitedWrite(a)),
    }
}

pub open spec fn with_cpu(m: Machine, cpu: CPU) -> Machine {
    Machine { cpu, ..m }
}

pub open spec fn with_regs(m: Machine, regs: Registers) -> Machine {
    Machine { cpu: CPU { regs, ..m.cpu }, ..m }
}

pub open spec fn with_flags(m: Machine, f: FlagsRegister) -> Machine {
    with_regs(m, Registers { flags: f, ..m.cpu.regs })
}

pub open spec fn with_pc(m: Machine, pc: u16) -> Machine {
    Machine { cpu: CPU { pc, ..m.cpu }, ..m }
}

pub open spec fn with_sp(m: Machine, sp: u16) -> Machine {
    Machine { cpu: CPU { sp, ..m.cpu }, ..m }
}

pub open spec fn wrap16(x: int) -> u16 {
    (x % 65536) as u16
}

/// The address of the next instruction: the program counter plus the size.
pub open spec fn next_pc(m: Machine, op: InstructionType) -> u16 {
    wrap16(m.cpu.pc + size_bytes_spec(size_spec(op)))
}

/// The byte after the opcode.
pub open spec fn next_byte(m: Machine) -> Result<u8, EmulationError> {
    if m.cpu.pc < 0xFFFF {
        read_r(m, (m.cpu.pc + 1) as u16)
    } else {
        Err(EmulationError::AddressOverflow)
    }
}

/// The two bytes after the opcode, little endian.
pub open spec fn next_word(m: Machine) -> Result<u16, EmulationError> {
    if m.cpu.pc < 0xFFFE {
        match read_r(m, (m.cpu.pc + 2) as u16) {
            Ok(hi) => match read_r(m, (m.cpu.pc + 1) as u16) {
                Ok(lo) => Ok(pair(hi, lo)),
                Err(e) => Err(e),
            },
            Err(e) => Err(e),
        }
    } else {
        Err(EmulationError::AddressOverflow)
    }
}

pub open spec fn reg8(m: Machine, r: RegistersIndirect) -> Result<u8, EmulationError> {
    let regs = m.cpu.regs;
    match r {
        RegistersIndirect::A => Ok(regs.a),
        RegistersIndirect::B => Ok(regs.b),
        RegistersIndirect::C => Ok(regs.c),
        RegistersIndirect::D => Ok(regs.d),
        RegistersIndirect::E => Ok(regs.e),
        RegistersIndirect::H => Ok(regs.h),
        RegistersIndirect::L => Ok(regs.l),
        RegistersIndirect::HLI => read_r(m, regs.hl()),
    }
}

pub open spec fn src8(m: Machine, s: RegistersIndDir) -> Result<u8, EmulationError> {
    let regs = m.cpu.regs;
    match s {
        RegistersIndDir::A => Ok(regs.a),
        RegistersIndDir::B => Ok(regs.b),
        RegistersIndDir::C => Ok(regs.c),
        RegistersIndDir::D => Ok(regs.d),
        RegistersIndDir::E => Ok(regs.e),
        RegistersIndDir::H => Ok(regs.h),
        RegistersIndDir::L => Ok(regs.l),
        RegistersIndDir::HLI => read_r(m, regs.hl()),
        RegistersIndDir::D8 => next_byte(m),
    }
}

pub open spec fn put8(m: Machine, r: RegistersIndirect, v: u8) -> Result<Machine, EmulationError> {
    let regs = m.cpu.regs;
    match r {
        RegistersIndirect::A => Ok(with_regs(m, Registers { a: v, ..regs })),
        RegistersIndirect::B => Ok(with_regs(m, Registers { b: v, ..regs })),
        RegistersIndirect::C => Ok(with_regs(m, Registers { c: v, ..regs })),
        RegistersIndirect::D => Ok(with_regs(m, Registers { d: v, ..regs })),
        RegistersIndirect::E => Ok(with_regs(m, Registers { e: v, ..regs })),
        RegistersIndirect::H => Ok(with_regs(m, Registers { h: v, ..regs })),
        RegistersIndirect::L => Ok(with_regs(m, Registers { l: v, ..regs })),
        RegistersIndirect::HLI => write_r(m, regs.hl(), v),
    }
}

pub open spec fn word_reg(m: Machine, w: WordRegister) -> u16 {
    match w {
        WordRegister::BC => m.cpu.regs.bc(),
        WordRegister::DE => m.cpu.regs.de(),
        WordRegister::HL => m.cpu.regs.hl(),
        WordRegister::SP => m.cpu.sp,
    }
}

pub open spec fn put_word(m: Machine, w: WordRegister, v: u16) -> Machine {
    match w {
        WordRegister::BC => with_regs(m, m.cpu.regs.with_bc(v)),
        WordRegister::DE => with_regs(m, m.cpu.regs.with_de(v)),
        WordRegister::HL => with_regs(m, m.cpu.regs.with_hl(v)),
        WordRegister::SP => with_sp(m, v),
    }
}

pub open spec fn stack_reg(m: Machine, t: StackTarget) -> u16 {
    match t {
        StackTarget::BC => m.cpu.regs.bc(),
        StackTarget::DE => m.cpu.regs.de(),
        StackTarget::HL => m.cpu.regs.hl(),
        StackTarget::AF => m.cpu.regs.af(),
    }
}

pub open spec fn put_stack_reg(m: Machine, t: StackTarget, v: u16) -> Machine {
    match t {
        StackTarget::BC => with_regs(m, m.cpu.regs.with_bc(v)),
        StackTarget::DE => with_regs(m, m.cpu.regs.with_de(v)),
        StackTarget::HL => with_regs(m, m.cpu.regs.with_hl(v)),
        StackTarget::AF => with_regs(m, m.cpu.regs.with_af(v)),
    }
}

/// Whether a jump condition holds on the flags.
pub open spec fn cond_holds(f: FlagsRegister, t: JumpTest) -> bool {
    match t {
        JumpTest::NotZero => !f.zero,
        JumpTest::NotCarry => !f.carry,
        JumpTest::Zero => f.zero,
        JumpTest::Carry => f.carry,
        JumpTest::Always => true,
    }
}

pub open spec fn bit_number(t: BitTarget) -> u8 {
    match t {
        BitTarget::Zero => 0,
        BitTarget::One => 1,
        BitTarget::Two => 2,
        BitTarget::Three => 3,
        BitTarget::Four => 4,
        BitTarget::Five => 5,
        BitTarget::Six => 6,
        BitTarget::Seven => 7,
    }
}

/// Pushes a word: the high byte at SP - 1, the low byte at SP - 2, and SP
/// takes SP - 2 (wrapping).
pub open spec fn push_spec(m: Machine, value: u16) -> Result<Machine, EmulationError> {
    let s1 = wrap16(m.cpu.sp - 1);
    let s2 = wrap16(m.cpu.sp - 2);
    match write_r(m, s1, (value / 256) as u8) {
        Ok(m1) => match write_r(m1, s2, (value % 256) as u8) {
            Ok(m2) => Ok(with_sp(m2, s2)),
            Err(e) => Err(e),
        },
        Err(e) => Err(e),
    }
}

/// Pops a word: the low byte at SP, the high byte at SP + 1, and SP takes
/// SP + 2 (wrapping).
pub open spec fn pop_spec(m: Machine) -> Result<(Machine, u16), EmulationError> {
    let s1 = wrap16(m.cpu.sp + 1);
    match read_r(m, m.cpu.sp) {
        Ok(lo) => match read_r(m, s1) {
            Ok(hi) => Ok((with_sp(m, wrap16(m.cpu.sp + 2)), pair(hi, lo))),
            Err(e) => Err(e),
        },
        Err(e) => Err(e),
    }
}

/// Two machine cycles for an operand in memory or immediate, one for a
/// register.
pub open spec fn operand_cycles(s: RegistersIndDir) -> MachineCycles {
    match s {
        RegistersIndDir::HLI => MachineCycles::Two,
        RegistersIndDir::D8 => MachineCycles::Two,
        _ => MachineCycles::One,
    }
}

/// The accumulator operations: the result goes to A (CP keeps A), with the
/// flags of the operation.
pub open spec fn alu_spec(m: Machine, op: InstructionType, s: RegistersIndDir) -> Result<(Machine, MachineCycles), EmulationError> {
    match src8(m, s) {
        Ok(v) => {
            let regs = m.cpu.regs;
            let a = regs.a;
            let c = regs.flags.carry;
            let (r, f) = match op {
                InstructionType::ADD(_) => add8_spec(a, v),
                InstructionType::ADC(_) => adc8_spec(a, v, c),
                InstructionType::SUB(_) => sub8_spec(a, v),
                InstructionType::SBC(_) => sbc8_spec(a, v, c),
                InstructionType::AND(_) => and8_spec(a, v),
                InstructionType::XOR(_) => xor8_spec(a, v),
                InstructionType::OR(_) => or8_spec(a, v),
                _ => (a, sub8_spec(a, v).1),
            };
            Ok((with_pc(with_regs(m, Registers { a: r, flags: f, ..regs }), next_pc(m, op)), operand_cycles(s)))
        },
        Err(e) => Err(e),
    }
}

/// INC and DEC of a register or of the byte at HL.
pub open spec fn incdec_spec(m: Machine, op: InstructionType, t: RegistersIndirect, inc: bool) -> Result<(Machine, MachineCycles), EmulationError> {
    match reg8(m, t) {
        Ok(v) => {
            let (r, f) = if inc { inc8_spec(v, m.cpu.regs.flags) } else { dec8_spec(v, m.cpu.regs.flags) };
            match put8(with_flags(m, f), t, r) {
                Ok(m1) => Ok((with_pc(m1, next_pc(m, op)), if t == RegistersIndirect::HLI {
                    MachineCycles::Three
                } else {
                    MachineCycles::One
                })),
                Err(e) => Err(e),
            }
        },
        Err(e) => Err(e),
    }
}

/// The zero flag set from the target after it was written (read again from
/// memory for (HL)).
pub open spec fn set_zero_spec(m: Machine, t: RegistersIndirect) -> Result<Machine, EmulationError> {
    match reg8(m, t) {
        Ok(v) => Ok(with_flags(m, FlagsRegister { zero: v == 0, ..m.cpu.regs.flags })),
        Err(e) => Err(e),
    }
}

/// A rotate of the target through (RL, RR) or around (RLC, RRC) the carry:
/// N and H clear, C the bit shifted out; the zero flag is left as it was.
pub open spec fn rotate_spec(m: Machine, t: RegistersIndirect, left: bool, is_rc: bool) -> Result<Machine, EmulationError> {
    match reg8(m, t) {
        Ok(v) => {
            let f = m.cpu.regs.flags;
            let (r, c) = if left { rotate_left_spec(v, f.carry, is_rc) } else { rotate_right_spec(v, f.carry, is_rc) };
            put8(with_flags(m, FlagsRegister { subtract: false, half_carry: false, carry: c, ..f }), t, r)
        },
        Err(e) => Err(e),
    }
}

/// Sets bit `p` of the target to `b` (RES, SET and the shifts).
pub open spec fn res_set_spec(m: Machine, t: RegistersIndirect, p: u8, b: bool) -> Result<Machine, EmulationError> {
    match reg8(m, t) {
        Ok(v) => put8(m, t, set_bit_spec(v, p, b)),
        Err(e) => Err(e),
    }
}

pub open spec fn prefix_cycles(t: RegistersIndirect) -> MachineCycles {
    if t == RegistersIndirect::HLI {
        MachineCycles::Four
    } else {
        MachineCycles::Two
    }
}

pub open spec fn then_zero(o: Result<Machine, EmulationError>, t: RegistersIndirect, pc: u16, c: MachineCycles) -> Result<(Machine, MachineCycles), EmulationError> {
    match o {
        Ok(m1) => match set_zero_spec(m1, t) {
            Ok(m2) => Ok((with_pc(m2, pc), c)),
            Err(e) => Err(e),
        },
        Err(e) => Err(e),
    }
}

/// RL, RLC, RR, RRC, SLA, SRA, SRL of a register or of the byte at HL.
pub open spec fn shift_spec(m: Machine, op: InstructionType) -> Result<(Machine, MachineCycles), EmulationError> {
    let pc = next_pc(m, op);
    match op {
        InstructionType::RL(t) => then_zero(rotate_spec(m, t, true, false), t, pc, prefix_cycles(t)),
        InstructionType::RLC(t) => then_zero(rotate_spec(m, t, true, true), t, pc, prefix_cycles(t)),
        InstructionType::RR(t) => then_zero(rotate_spec(m, t, false, false), t, pc, prefix_cycles(t)),
        InstructionType::RRC(t) => then_zero(rotate_spec(m, t, false, true), t, pc, prefix_cycles(t)),
        InstructionType::SLA(t) => match rotate_spec(m, t, true, true) {
            Ok(m1) => then_zero(res_set_spec(m1, t, 0, false), t, pc, prefix_cycles(t)),
            Err(e) => Err(e),
        },
        InstructionType::SRA(t) => match reg8(m, t) {
            Ok(v) => match rotate_spec(m, t, false, true) {
                Ok(m1) => then_zero(res_set_spec(m1, t, 7, bit_of(v, 7)), t, pc, prefix_cycles(t)),
                Err(e) => Err(e),
            },
            Err(e) => Err(e),
        },
        InstructionType::SRL(t) => match rotate_spec(m, t, false, true) {
            Ok(m1) => then_zero(res_set_spec(m1, t, 7, false), t, pc, prefix_cycles(t)),
            Err(e) => Err(e),
        },
        _ => Err(EmulationError::Stop),
    }
}

/// RLA, RLCA, RRA, RRCA: rotates of A that always clear the zero flag.
pub open spec fn rotate_a_spec(m: Machine, left: bool, is_rc: bool) -> Result<(Machine, MachineCycles), EmulationError> {
    match rotate_spec(m, RegistersIndirect::A, left, is_rc) {
        Ok(m1) => Ok((with_pc(with_flags(m1, FlagsRegister { zero: false, ..m1.cpu.regs.flags }), wrap16(m.cpu.pc + 1)), MachineCycles::One)),
        Err(e) => Err(e),
    }
}

/// The address of an indirect load: BC, DE or HL.
pub open spec fn indirect_addr(regs: Registers, s: LoadIndirectSource) -> u16 {
    match s {
        LoadIndirectSource::BC => regs.bc(),
        LoadIndirectSource::DE => regs.de(),
        _ => regs.hl(),
    }
}

/// The registers after an indirect load: HL goes up by one for (HL+) and
/// down by one for (HL-), wrapping.
pub open spec fn hl_step(regs: Registers, s: LoadIndirectSource) -> Registers {
    match s {
        LoadIndirectSource::HLInc => regs.with_hl(wrap16(regs.hl() + 1)),
        LoadIndirectSource::HLDec => regs.with_hl(wrap16(regs.hl() - 1)),
        _ => regs,
    }
}

/// The 8-bit loads.
pub open spec fn load_spec(m: Machine, lt: LoadType) -> Result<(Machine, MachineCycles), EmulationError> {
    let pc = next_pc(m, InstructionType::LD(lt));
    let regs = m.cpu.regs;
    match lt {
        LoadType::Byte(t, s) => match src8(m, s) {
            Ok(v) => match put8(m, t, v) {
                Ok(m1) => Ok((with_pc(m1, pc), if s == RegistersIndDir::HLI || t == RegistersIndirect::HLI {
                    MachineCycles::Two
                } else {
                    MachineCycles::One
                })),
                Err(e) => Err(e),
            },
            Err(e) => Err(e),
        },
        LoadType::Word(w) => match next_word(m) {
            Ok(v) => Ok((with_pc(put_word(m, w, v), pc), MachineCycles::Three)),
            Err(e) => Err(e),
        },
        LoadType::AFromIndirect(src) => match read_r(m, indirect_addr(regs, src)) {
            Ok(v) => Ok((with_pc(with_regs(m, hl_step(Registers { a: v, ..regs }, src)), pc), MachineCycles::Two)),
            Err(e) => Err(e),
        },
        LoadType::IndirectFromA(dst) => match write_r(m, indirect_addr(regs, dst), regs.a) {
            Ok(m1) => Ok((with_pc(with_regs(m1, hl_step(regs, dst)), pc), MachineCycles::Two)),
            Err(e) => Err(e),
        },
        LoadType::AFromDirect => match next_word(m) {
            Ok(addr) => match read_r(m, addr) {
                Ok(v) => Ok((with_pc(with_regs(m, Registers { a: v, ..regs }), pc), MachineCycles::Four)),
                Err(e) => Err(e),
            },
            Err(e) => Err(e),
        },
        LoadType::DirectFromA => match next_word(m) {
            Ok(addr) => match write_r(m, addr, regs.a) {
                Ok(m1) => Ok((with_pc(m1, pc), MachineCycles::Four)),
                Err(e) => Err(e),
            },
            Err(e) => Err(e),
        },
    }
}

/// The loads through the high page 0xFF00 + C or 0xFF00 + an immediate.
pub open spec fn ldff_spec(m: Machine, lt: LoadFFType) -> Result<(Machine, MachineCycles), EmulationError> {
    let pc = next_pc(m, InstructionType::LDFF(lt));
    let regs = m.cpu.regs;
    match lt {
        LoadFFType::AtoFFC => match write_r(m, (0xFF00 + regs.c) as u16, regs.a) {
            Ok(m1) => Ok((with_pc(m1, pc), MachineCycles::Two)),
            Err(e) => Err(e),
        },
        LoadFFType::FFCtoA => match read_r(m, (0xFF00 + regs.c) as u16) {
            Ok(v) => Ok((with_pc(with_regs(m, Registers { a: v, ..regs }), pc), MachineCycles::Two)),
            Err(e) => Err(e),
        },
        LoadFFType::AtoFFa8 => match next_byte(m) {
            Ok(n) => match write_r(m, (0xFF00 + n) as u16, regs.a) {
                Ok(m1) => Ok((with_pc(m1, pc), MachineCycles::Three)),
                Err(e) => Err(e),
            },
            Err(e) => Err(e),
        },
        LoadFFType::FFa8toA => match next_byte(m) {
            Ok(n) => match read_r(m, (0xFF00 + n) as u16) {
                Ok(v) => Ok((with_pc(with_regs(m, Registers { a: v, ..regs }), pc), MachineCycles::Three)),
                Err(e) => Err(e),
            },
            Err(e) => Err(e),
        },
    }
}

/// The relative jump target: the offset plus two, wrapped as a signed byte,
/// added to the program counter.
pub open spec fn jr_target(pc: u16, offset: u8) -> u16 {
    wrap16(pc + signed(((offset + 2) % 256) as u8))
}

/// The control flow instructions.
pub open spec fn flow_spec(m: Machine, op: InstructionType) -> Result<(Machine, MachineCycles), EmulationError> {
    let pc = next_pc(m, op);
    let f = m.cpu.regs.flags;
    match op {
        InstructionType::JP(t) => if cond_holds(f, t) {
            if m.cpu.pc < 0xFFFE {
                match read_r(m, (m.cpu.pc + 1) as u16) {
                    Ok(lo) => match read_r(m, (m.cpu.pc + 2) as u16) {
                        Ok(hi) => Ok((with_pc(m, pair(hi, lo)), MachineCycles::Four)),
                        Err(e) => Err(e),
                    },
                    Err(e) => Err(e),
                }
            } else {
                Err(EmulationError::AddressOverflow)
            }
        } else {
            Ok((with_pc(m, pc), MachineCycles::Three))
        },
        InstructionType::JR(t) => if cond_holds(f, t) {
            match next_byte(m) {
                Ok(o) => Ok((with_pc(m, jr_target(m.cpu.pc, o)), MachineCycles::Three)),
                Err(e) => Err(e),
            }
        } else {
            Ok((with_pc(m, pc), MachineCycles::Two))
        },
        InstructionType::JPHL => Ok((with_pc(m, m.cpu.regs.hl()), MachineCycles::One)),
        InstructionType::CALL(t) => if cond_holds(f, t) {
            match next_word(m) {
                Ok(addr) => match push_spec(m, pc) {
                    Ok(m1) => Ok((with_pc(m1, addr), MachineCycles::Six)),
                    Err(e) => Err(e),
                },
                Err(e) => Err(e),
            }
        } else {
            Ok((with_pc(m, pc), MachineCycles::Three))
        },
        InstructionType::RET(t) => if cond_holds(f, t) {
            match pop_spec(m) {
                Ok((m1, addr)) => Ok((with_pc(m1, addr), MachineCycles::Five)),
                Err(e) => Err(e),
            }
        } else {
            Ok((with_pc(m, pc), MachineCycles::Two))
        },
        InstructionType::RETI => match pop_spec(m) {
            Ok((m1, addr)) => Ok((with_cpu(m1, CPU { pc: addr, ime: true, ..m1.cpu }), MachineCycles::Four)),
            Err(e) => Err(e),
        },
        InstructionType::RST(t) => match push_spec(m, pc) {
            Ok(m1) => Ok((with_pc(m1, (8 * bit_number(t)) as u16), MachineCycles::Four)),
            Err(e) => Err(e),
        },
        _ => Err(EmulationError::Stop),
    }
}

/// NOP, HALT, SCF, CCF, CPL, DAA, EI, DI.
pub open spec fn misc_spec(m: Machine, op: InstructionType) -> Result<(Machine, MachineCycles), EmulationError> {
    let pc = next_pc(m, op);
    let regs = m.cpu.regs;
    let f = regs.flags;
    match op {
        InstructionType::NOP => Ok((with_pc(m, pc), MachineCycles::One)),
        InstructionType::HALT => Ok((
            if pending(m.io.interrupts) != 0 {
                if !m.cpu.ime { m } else { with_pc(m, pc) }
            } else {
                with_cpu(m, CPU { is_halted: true, pc, ..m.cpu })
            },
            MachineCycles::One,
        )),
        InstructionType::SCF => Ok((with_pc(with_flags(m, FlagsRegister { carry: true, subtract: false, half_carry: false, ..f }), pc), MachineCycles::One)),
        InstructionType::CCF => Ok((with_pc(with_flags(m, FlagsRegister { carry: !f.carry, subtract: false, half_carry: false, ..f }), pc), MachineCycles::One)),
        InstructionType::CPL => Ok((with_pc(with_regs(m, Registers { a: !regs.a, flags: FlagsRegister { subtract: true, half_carry: true, ..f }, ..regs }), pc), MachineCycles::One)),
        InstructionType::DAA => {
            let (r, f2) = daa_spec(regs.a, f);
            Ok((with_pc(with_regs(m, Registers { a: r, flags: f2, ..regs }), pc), MachineCycles::One))
        },
        InstructionType::EI => Ok((with_cpu(m, CPU { ime: true, pc, ..m.cpu }), MachineCycles::One)),
        InstructionType::DI => Ok((with_cpu(m, CPU { ime: false, pc, ..m.cpu }), MachineCycles::One)),
        _ => Err(EmulationError::Stop),
    }
}

/// The 16-bit arithmetic and the loads that involve SP.
pub open spec fn word_spec(m: Machine, op: InstructionType) -> Result<(Machine, MachineCycles), EmulationError> {
    let pc = next_pc(m, op);
    let regs = m.cpu.regs;
    let f = regs.flags;
    match op {
        InstructionType::ADD16(w) => {
            let (r, f2) = add16_spec(regs.hl(), word_reg(m, w), f);
            Ok((with_pc(with_regs(m, Registers { flags: f2, ..regs }.with_hl(r)), pc), MachineCycles::Two))
        },
        InstructionType::INC16(w) => Ok((with_pc(put_word(m, w, wrap16(word_reg(m, w) + 1)), pc), MachineCycles::Two)),
        InstructionType::DEC16(w) => Ok((with_pc(put_word(m, w, wrap16(word_reg(m, w) - 1)), pc), MachineCycles::Two)),
        InstructionType::ADDSPS8 => match next_byte(m) {
            Ok(d) => {
                let (r, f2) = add_sp_spec(m.cpu.sp, d);
                Ok((with_pc(with_sp(with_flags(m, f2), r), pc), MachineCycles::Four))
            },
            Err(e) => Err(e),
        },
        InstructionType::LDHLSPD8 => match next_byte(m) {
            Ok(d) => {
                let (r, f2) = add_sp_spec(m.cpu.sp, d);
                Ok((with_pc(with_regs(m, Registers { flags: f2, ..regs }.with_hl(r)), pc), MachineCycles::Three))
            },
            Err(e) => Err(e),
        },
        InstructionType::LDSPHL => Ok((with_pc(with_sp(m, regs.hl()), pc), MachineCycles::Two)),
        InstructionType::LDSPA16 => match next_word(m) {
            Ok(addr) => match write_r(m, addr, (m.cpu.sp % 256) as u8) {
                Ok(m1) => match write_r(m1, wrap16(addr + 1), (m.cpu.sp / 256) as u8) {
                    Ok(m2) => Ok((with_pc(m2, pc), MachineCycles::Five)),
                    Err(e) => Err(e),
                },
                Err(e) => Err(e),
            },
            Err(e) => Err(e),
        },
        _ => Err(EmulationError::Stop),
    }
}

/// PUSH and POP of a register pair.
pub open spec fn stack_spec(m: Machine, op: InstructionType) -> Result<(Machine, MachineCycles), EmulationError> {
    let pc = next_pc(m, op);
    match op {
        InstructionType::PUSH(t) => match push_spec(m, stack_reg(m, t)) {
            Ok(m1) => Ok((with_pc(m1, pc), MachineCycles::Four)),
            Err(e) => Err(e),
        },
        InstructionType::POP(t) => match pop_spec(m) {
            Ok((m1, v)) => Ok((with_pc(put_stack_reg(m1, t, v), pc), MachineCycles::Three)),
            Err(e) => Err(e),
        },
        _ => Err(EmulationError::Stop),
    }
}

/// BIT, RES, SET and SWAP.
pub open spec fn bits_spec(m: Machine, op: InstructionType) -> Result<(Machine, MachineCycles), EmulationError> {
    let pc = next_pc(m, op);
    let f = m.cpu.regs.flags;
    match op {
        InstructionType::BIT(BitType::Registers(bt, t)) => match reg8(m, t) {
            Ok(v) => Ok((with_pc(with_flags(m, bit_test_flags(v, bit_number(bt), f)), pc), if t == RegistersIndirect::HLI {
                MachineCycles::Three
            } else {
                MachineCycles::Two
            })),
            Err(e) => Err(e),
        },
        InstructionType::SWAP(t) => match reg8(m, t) {
            Ok(v) => match put8(m, t, swap_spec(v)) {
                Ok(m1) => then_zero(Ok(with_flags(m1, FlagsRegister { subtract: false, half_carry: false, carry: false, ..m1.cpu.regs.flags })), t, pc, MachineCycles::Two),
                Err(e) => Err(e),
            },
            Err(e) => Err(e),
        },
        InstructionType::RES(ResSetType::Registers(bt, t)) => match res_set_spec(m, t, bit_number(bt), false) {
            Ok(m1) => Ok((with_pc(m1, pc), prefix_cycles(t))),
            Err(e) => Err(e),
        },
        InstructionType::SET(ResSetType::Registers(bt, t)) => match res_set_spec(m, t, bit_number(bt), true) {
            Ok(m1) => Ok((with_pc(m1, pc), prefix_cycles(t))),
            Err(e) => Err(e),
        },
        _ => Err(EmulationError::Stop),
    }
}

/// What an instruction does: `Ok` of the machine after it and the machine
/// cycles it took, or the error that stops the emulation.
pub open spec fn exec_spec(m: Machine, op: InstructionType) -> Result<(Machine, MachineCycles), EmulationError> {
    match op {
        InstructionType::CALL(_) | InstructionType::RET(_) | InstructionType::JP(_) | InstructionType::JR(_)
        | InstructionType::JPHL | InstructionType::RETI | InstructionType::RST(_) => flow_spec(m, op),
        InstructionType::NOP | InstructionType::HALT | InstructionType::SCF | InstructionType::CCF
        | InstructionType::CPL | InstructionType::DAA | InstructionType::EI | InstructionType::DI => misc_spec(m, op),
        InstructionType::ADD(s) | InstructionType::ADC(s) | InstructionType::SUB(s) | InstructionType::SBC(s)
        | InstructionType::AND(s) | InstructionType::XOR(s) | InstructionType::OR(s) | InstructionType::CP(s) => alu_spec(m, op, s),
        InstructionType::INC(t) => incdec_spec(m, op, t, true),
        InstructionType::DEC(t) => incdec_spec(m, op, t, false),
        InstructionType::ADD16(_) | InstructionType::INC16(_) | InstructionType::DEC16(_) | InstructionType::ADDSPS8
        | InstructionType::LDHLSPD8 | InstructionType::LDSPHL | InstructionType::LDSPA16 => word_spec(m, op),
        InstructionType::LD(lt) => load_spec(m, lt),
        InstructionType::LDFF(lt) => ldff_spec(m, lt),
        InstructionType::PUSH(_) | InstructionType::POP(_) => stack_spec(m, op),
        InstructionType::BIT(_) | InstructionType::SWAP(_) | InstructionType::RES(_) | InstructionType::SET(_) => bits_spec(m, op),
        InstructionType::RL(_) | InstructionType::RLC(_) | InstructionType::RR(_) | InstructionType::RRC(_)
        | InstructionType::SLA(_) | InstructionType::SRA(_) | InstructionType::SRL(_) => shift_spec(m, op),
        InstructionType::RLA => rotate_a_spec(m, true, false),
        InstructionType::RLCA => rotate_a_spec(m, true, true),
        InstructionType::RRA => rotate_a_spec(m, false, false),
        InstructionType::RRCA => rotate_a_spec(m, false, true),
        InstructionType::STOP => Err(EmulationError::Stop),
    }
}

/// INC16 and DEC16 add one to or take one from a register pair, wrapping.
pub proof fn lemma_incdec16_spec(m: Machine, w: WordRegister)
    ensures
        word_spec(m, InstructionType::INC16(w)) == Ok::<(Machine, MachineCycles), EmulationError>((with_pc(put_word(m, w, wrap16(word_reg(m, w) + 1)), next_pc(m, InstructionType::INC16(w))), MachineCycles::Two)),
        word_spec(m, InstructionType::DEC16(w)) == Ok::<(Machine, MachineCycles), EmulationError>((with_pc(put_word(m, w, wrap16(word_reg(m, w) - 1)), next_pc(m, InstructionType::DEC16(w))), MachineCycles::Two)),
{
}

pub open spec fn takes_time(o: Result<(Machine, MachineCycles), EmulationError>) -> bool {
    o matches Ok((_, c)) ==> machine_cycles_count(c) >= 1
}

proof fn lemma_flow_takes_time(m: Machine, op: InstructionType)
    ensures
        takes_time(flow_spec(m, op)),
{
}

proof fn lemma_misc_takes_time(m: Machine, op: InstructionType)
    ensures
        takes_time(misc_spec(m, op)),
{
}

proof fn lemma_alu_takes_time(m: Machine, op: InstructionType, s: RegistersIndDir, t: RegistersIndirect, inc: bool)
    ensures
        takes_time(alu_spec(m, op, s)),
        takes_time(incdec_spec(m, op, t, inc)),
{
}

proof fn lemma_word_takes_time(m: Machine, op: InstructionType)
    ensures
        takes_time(word_spec(m, op)),
        takes_time(stack_spec(m, op)),
{
}

proof fn lemma_load_takes_time(m: Machine, lt: LoadType, lf: LoadFFType)
    ensures
        takes_time(load_spec(m, lt)),
        takes_time(ldff_spec(m, lf)),
{
}

proof fn lemma_bits_takes_time(m: Machine, op: InstructionType)
    ensures
        takes_time(bits_spec(m, op)),
{
}

proof fn lemma_shift_takes_time(m: Machine, op: InstructionType, left: bool, is_rc: bool)
    ensures
        takes_time(shift_spec(m, op)),
        takes_time(rotate_a_spec(m, left, is_rc)),
{
}

/// Every instruction that runs takes at least one machine cycle.
pub proof fn lemma_exec_takes_time(m: Machine, op: InstructionType)
    ensures
        takes_time(exec_spec(m, op)),
{
    lemma_flow_takes_time(m, op);
    lemma_misc_takes_time(m, op);
    lemma_word_takes_time(m, op);
    lemma_bits_takes_time(m, op);
    lemma_shift_takes_time(m, op, true, false);
    lemma_shift_takes_time(m, op, true, true);
    lemma_shift_takes_time(m, op, false, false);
    lemma_shift_takes_time(m, op, false, true);
    match op {
        InstructionType::ADD(s) | InstructionType::ADC(s) | InstructionType::SUB(s) | InstructionType::SBC(s)
        | InstructionType::AND(s) | InstructionType::XOR(s) | InstructionType::OR(s) | InstructionType::CP(s) => {
            lemma_alu_takes_time(m, op, s, RegistersIndirect::A, true);
        },
        InstructionType::INC(t) => lemma_alu_takes_time(m, op, RegistersIndDir::A, t, true),
        InstructionType::DEC(t) => lemma_alu_takes_time(m, op, RegistersIndDir::A, t, false),
        InstructionType::LD(lt) => lemma_load_takes_time(m, lt, LoadFFType::AtoFFC),
        InstructionType::LDFF(lf) => lemma_load_takes_time(m, LoadType::AFromDirect, lf),
        _ => {},
    }
}

/// Whether the two bytes below the stack pointer are stored where a read
/// finds them (RAM, or the boot ROM while it is mapped).
pub open spec fn stack_stored(m: Machine) -> bool {
    stores(m, wrap16(m.cpu.sp - 1)) && stores(m, wrap16(m.cpu.sp - 2))
}

/// With the stack where writes are kept, a push is taken, and a pop right after it gives
/// back the word pushed and the stack pointer as it was.
pub proof fn lemma_push_then_pop(m: Machine, v: u16)
    requires
        m.wf(),
        stack_stored(m),
    ensures
        push_spec(m, v) matches Ok(m1) && pop_spec(m1) == Ok::<(Machine, u16), EmulationError>((with_sp(m1, m.cpu.sp), v)),
{
    let s1 = wrap16(m.cpu.sp - 1);
    let s2 = wrap16(m.cpu.sp - 2);
    let hi = (v / 256) as u8;
    let lo = (v % 256) as u8;
    lemma_stored_read_after_write(m, s1, hi, s2);
    let m1 = write_r(m, s1, hi)->Ok_0;
    lemma_stored_read_after_write(m1, s2, lo, s1);
    let m2 = write_r(m1, s2, lo)->Ok_0;
    let m3 = with_sp(m2, s2);
    lemma_read_ignores_cpu(m2, m3.cpu, s2);
    lemma_read_ignores_cpu(m2, m3.cpu, s1);
    assert(wrap16(s2 + 1) == s1);
    assert(wrap16(s2 + 2) == m.cpu.sp);
    assert(pair(hi, lo) == v);
}

/// A CALL followed by a RET, with the stack where writes are kept, returns to the
/// instruction after the CALL with the stack pointer as it was.
pub proof fn lemma_call_then_ret(m: Machine, addr: u16)
    requires
        m.wf(),
        stack_stored(m),
        next_word(m) == Ok::<u16, EmulationError>(addr),
    ensures
        flow_spec(m, InstructionType::CALL(JumpTest::Always)) matches Ok((m1, _)) && flow_spec(
            m1,
            InstructionType::RET(JumpTest::Always),
        ) matches Ok((m2, _)) && m1.cpu.pc == addr && m2.cpu.pc == next_pc(m, InstructionType::CALL(JumpTest::Always))
            && m2.cpu.sp == m.cpu.sp,
{
    let pc = next_pc(m, InstructionType::CALL(JumpTest::Always));
    lemma_push_then_pop(m, pc);
    let m1 = push_spec(m, pc)->Ok_0;
    let m2 = with_pc(m1, addr);
    lemma_read_ignores_cpu(m1, m2.cpu, m1.cpu.sp);
    lemma_read_ignores_cpu(m1, m2.cpu, wrap16(m1.cpu.sp + 1));
    assert(pop_spec(m2) == Ok::<(Machine, u16), EmulationError>((with_sp(m2, m.cpu.sp), pc)));
}

pub open spec fn keeps_cart(m: Machine, o: Result<(Machine, MachineCycles), EmulationError>) -> bool {
    o matches Ok((m2, _)) ==> same_cart(m2, m)
}

proof fn lemma_flow_keeps_cart(m: Machine, op: InstructionType)
    ensures
        keeps_cart(m, flow_spec(m, op)),
{
    broadcast use lemma_write_keeps_cart;
}

proof fn lemma_misc_keeps_cart(m: Machine, op: InstructionType)
    ensures
        keeps_cart(m, misc_spec(m, op)),
{
}

proof fn lemma_alu_keeps_cart(m: Machine, op: InstructionType, s: RegistersIndDir, t: RegistersIndirect, inc: bool)
    ensures
        keeps_cart(m, alu_spec(m, op, s)),
        keeps_cart(m, incdec_spec(m, op, t, inc)),
{
    broadcast use lemma_write_keeps_cart;
}

proof fn lemma_word_keeps_cart(m: Machine, op: InstructionType)
    ensures
        keeps_cart(m, word_spec(m, op)),
        keeps_cart(m, stack_spec(m, op)),
{
    broadcast use lemma_write_keeps_cart;
}

proof fn lemma_load_keeps_cart(m: Machine, lt: LoadType, lf: LoadFFType)
    ensures
        keeps_cart(m, load_spec(m, lt)),
        keeps_cart(m, ldff_spec(m, lf)),
{
    broadcast use lemma_write_keeps_cart;
}

proof fn lemma_bits_keeps_cart(m: Machine, op: InstructionType)
    ensures
        keeps_cart(m, bits_spec(m, op)),
{
    broadcast use lemma_write_keeps_cart;
}

proof fn lemma_put8_keeps_cart(m: Machine, t: RegistersIndirect, v: u8)
    ensures
        put8(m, t, v) matches Ok(m1) ==> same_cart(m1, m),
{
    broadcast use lemma_write_keeps_cart;
}

proof fn lemma_rotate_keeps_cart(m: Machine, t: RegistersIndirect, left: bool, is_rc: bool, p: u8, b: bool)
    ensures
        rotate_spec(m, t, left, is_rc) matches Ok(m1) ==> same_cart(m1, m),
        res_set_spec(m, t, p, b) matches Ok(m1) ==> same_cart(m1, m),
{
    let v = reg8(m, t);
    if v.is_ok() {
        let f = m.cpu.regs.flags;
        let (r, c) = if left { rotate_left_spec(v->Ok_0, f.carry, is_rc) } else { rotate_right_spec(v->Ok_0, f.carry, is_rc) };
        lemma_put8_keeps_cart(with_flags(m, FlagsRegister { subtract: false, half_carry: false, carry: c, ..f }), t, r);
        lemma_put8_keeps_cart(m, t, set_bit_spec(v->Ok_0, p, b));
    }
}

proof fn lemma_then_zero_keeps_cart(m: Machine, o: Result<Machine, EmulationError>, t: RegistersIndirect, pc: u16, c: MachineCycles)
    requires
        o matches Ok(m1) ==> same_cart(m1, m),
    ensures
        keeps_cart(m, then_zero(o, t, pc, c)),
{
}

proof fn lemma_shift_op_keeps_cart(m: Machine, op: InstructionType, t: RegistersIndirect)
    requires
        op == InstructionType::RL(t) || op == InstructionType::RR(t) || op == InstructionType::RLC(t) || op
            == InstructionType::RRC(t),
    ensures
        keeps_cart(m, shift_spec(m, op)),
{
    let pc = next_pc(m, op);
    let left = op == InstructionType::RL(t) || op == InstructionType::RLC(t);
    let is_rc = op == InstructionType::RLC(t) || op == InstructionType::RRC(t);
    lemma_rotate_keeps_cart(m, t, left, is_rc, 0, false);
    lemma_then_zero_keeps_cart(m, rotate_spec(m, t, left, is_rc), t, pc, prefix_cycles(t));
}

proof fn lemma_shift_bit_keeps_cart(m: Machine, op: InstructionType, t: RegistersIndirect)
    requires
        op == InstructionType::SLA(t) || op == InstructionType::SRA(t) || op == InstructionType::SRL(t),
    ensures
        keeps_cart(m, shift_spec(m, op)),
{
    let pc = next_pc(m, op);
    let left = op == InstructionType::SLA(t);
    let p: u8 = if left { 0 } else { 7 };
    let b = op == InstructionType::SRA(t) && (reg8(m, t) matches Ok(v) && bit_of(v, 7));
    lemma_rotate_keeps_cart(m, t, left, true, 0, false);
    match rotate_spec(m, t, left, true) {
        Ok(m1) => {
            lemma_rotate_keeps_cart(m1, t, left, true, p, b);
            lemma_then_zero_keeps_cart(m, res_set_spec(m1, t, p, b), t, pc, prefix_cycles(t));
        },
        Err(_) => {},
    }
}

proof fn lemma_shift_keeps_cart(m: Machine, op: InstructionType, left: bool, is_rc: bool)
    ensures
        keeps_cart(m, shift_spec(m, op)),
        keeps_cart(m, rotate_a_spec(m, left, is_rc)),
{
    lemma_rotate_keeps_cart(m, RegistersIndirect::A, left, is_rc, 0, false);
    match op {
        InstructionType::RL(t) | InstructionType::RR(t) | InstructionType::RLC(t) | InstructionType::RRC(t) => {
            lemma_shift_op_keeps_cart(m, op, t);
        },
        InstructionType::SLA(t) | InstructionType::SRA(t) | InstructionType::SRL(t) => {
            lemma_shift_bit_keeps_cart(m, op, t);
        },
        _ => {},
    }
}

/// No instruction changes the cartridge.
pub proof fn lemma_exec_keeps_cart(m: Machine, op: InstructionType)
    ensures
        keeps_cart(m, exec_spec(m, op)),
{
    lemma_flow_keeps_cart(m, op);
    lemma_misc_keeps_cart(m, op);
    lemma_word_keeps_cart(m, op);
    lemma_bits_keeps_cart(m, op);
    lemma_shift_keeps_cart(m, op, true, false);
    lemma_shift_keeps_cart(m, op, true, true);
    lemma_shift_keeps_cart(m, op, false, false);
    lemma_shift_keeps_cart(m, op, false, true);
    match op {
        InstructionType::ADD(s) | InstructionType::ADC(s) | InstructionType::SUB(s) | InstructionType::SBC(s)
        | InstructionType::AND(s) | InstructionType::XOR(s) | InstructionType::OR(s) | InstructionType::CP(s) => {
            lemma_alu_keeps_cart(m, op, s, RegistersIndirect::A, true);
        },
        InstructionType::INC(t) => lemma_alu_keeps_cart(m, op, RegistersIndDir::A, t, true),
        InstructionType::DEC(t) => lemma_alu_keeps_cart(m, op, RegistersIndDir::A, t, false),
        InstructionType::LD(lt) => lemma_load_keeps_cart(m, lt, LoadFFType::AtoFFC),
        InstructionType::LDFF(lf) => lemma_load_keeps_cart(m, LoadType::AFromDirect, lf),
        _ => {},
    }
}

/// The instructions that set the program counter themselves: the jumps,
/// calls, returns and restarts, and HALT (which keeps it where the halt bug
/// strikes).
pub open spec fn sets_pc(op: InstructionType) -> bool {
    ||| op is JP
    ||| op is JR
    ||| op is JPHL
    ||| op is CALL
    ||| op is RET
    ||| op is RETI
    ||| op is RST
    ||| op is HALT
}

pub open spec fn advances(m: Machine, op: InstructionType, o: Result<(Machine, MachineCycles), EmulationError>) -> bool {
    o matches Ok((m2, _)) ==> m2.cpu.pc == next_pc(m, op)
}

proof fn lemma_misc_advances(m: Machine, op: InstructionType)
    requires
        op != InstructionType::HALT,
    ensures
        advances(m, op, misc_spec(m, op)),
{
}

proof fn lemma_alu_advances(m: Machine, op: InstructionType, s: RegistersIndDir, t: RegistersIndirect, inc: bool)
    ensures
        advances(m, op, alu_spec(m, op, s)),
        advances(m, op, incdec_spec(m, op, t, inc)),
{
}

proof fn lemma_word_advances(m: Machine, op: InstructionType)
    ensures
        advances(m, op, word_spec(m, op)),
        advances(m, op, stack_spec(m, op)),
{
}

proof fn lemma_load_advances(m: Machine, lt: LoadType, lf: LoadFFType)
    ensures
        advances(m, InstructionType::LD(lt), load_spec(m, lt)),
        advances(m, InstructionType::LDFF(lf), ldff_spec(m, lf)),
{
}

proof fn lemma_bits_advances(m: Machine, op: InstructionType)
    ensures
        advances(m, op, bits_spec(m, op)),
{
}

proof fn lemma_shift_advances(m: Machine, op: InstructionType)
    ensures
        advances(m, op, shift_spec(m, op)),
{
}

proof fn lemma_rotate_a_advances(m: Machine, op: InstructionType, left: bool, is_rc: bool)
    requires
        op == InstructionType::RLA || op == InstructionType::RLCA || op == InstructionType::RRA || op
            == InstructionType::RRCA,
    ensures
        advances(m, op, rotate_a_spec(m, left, is_rc)),
{
}

/// Every instruction that does not set the program counter itself, when it
/// runs, leaves it at the instruction that follows, by the decoded size.
pub proof fn lemma_exec_advances_pc(m: Machine, op: InstructionType)
    requires
        !sets_pc(op),
    ensures
        exec_spec(m, op) matches Ok((m2, _)) ==> m2.cpu.pc == next_pc(m, op),
{
    match op {
        InstructionType::NOP | InstructionType::SCF | InstructionType::CCF | InstructionType::CPL
        | InstructionType::DAA | InstructionType::EI | InstructionType::DI => lemma_misc_advances(m, op),
        InstructionType::ADD(s) | InstructionType::ADC(s) | InstructionType::SUB(s) | InstructionType::SBC(s)
        | InstructionType::AND(s) | InstructionType::XOR(s) | InstructionType::OR(s) | InstructionType::CP(s) => {
            lemma_alu_advances(m, op, s, RegistersIndirect::A, true);
        },
        InstructionType::INC(t) => lemma_alu_advances(m, op, RegistersIndDir::A, t, true),
        InstructionType::DEC(t) => lemma_alu_advances(m, op, RegistersIndDir::A, t, false),
        InstructionType::LD(lt) => lemma_load_advances(m, lt, LoadFFType::AtoFFC),
        InstructionType::LDFF(lf) => lemma_load_advances(m, LoadType::AFromDirect, lf),
        InstructionType::RLA => lemma_rotate_a_advances(m, op, true, false),
        InstructionType::RLCA => lemma_rotate_a_advances(m, op, true, true),
        InstructionType::RRA => lemma_rotate_a_advances(m, op, false, false),
        InstructionType::RRCA => lemma_rotate_a_advances(m, op, false, true),
        _ => {
            lemma_word_advances(m, op);
            lemma_bits_advances(m, op);
            lemma_shift_advances(m, op);
        },
    }
}

} // verus!
