//! Executing decoded instructions on the machine.
use vstd::prelude::*;
use crate::alu;
use crate::cpu::CPU;
use crate::decode::{
    Instruction, InstructionType, RegistersIndirect, RegistersIndDir, WordRegister, StackTarget,
    JumpTest, BitTarget, BitType, ResSetType, LoadType, LoadIndirectSource, LoadFFType, size_spec,
    size_bytes_spec,
};
use crate::gameboy::{GameBoy, Machine};
use crate::mmu::{MMU, writable_spec};
use crate::registers::{FlagsRegister, Registers, pair};
use crate::semantics::{
    read_r, write_r,
    MachineCycles, alu_spec, incdec_spec, misc_spec, word_spec, stack_spec, bits_spec, operand_cycles, exec_spec, flow_spec, load_spec, ldff_spec,
    shift_spec, rotate_a_spec, indirect_addr, hl_step, rotate_spec, res_set_spec, set_zero_spec, cond_holds, bit_number,
    word_reg, put_word, stack_reg, put_stack_reg, jr_target, then_zero, prefix_cycles, next_pc, next_byte, next_word, reg8, src8, put8, push_spec, pop_spec, wrap16,
    with_pc, with_sp, with_regs, with_flags, with_cpu,
};

verus! {

/// Why an emulation step stopped.
#[derive(Clone, Copy, Debug, PartialEq, Eq, Structural)]
pub enum EmulationError {
    /// An opcode that decodes to nothing, with the byte after it.
    UnknownInstruction(u8, u8),
    /// A read that the memory map does not answer.
    ProhibitedRead(u16),
    /// A write that the memory map does not take.
    ProhibitedWrite(u16),
    /// An operand address past 0xFFFF.
    AddressOverflow,
    /// The STOP instruction.
    Stop,
    /// The LCD scanline counter past 255.
    ScanlineOverflow,
}

/// A write's result and machine: the machine that the spec gives, or its
/// error with the machine left as it was.
pub open spec fn write_outcome(old: Machine, new: Machine, r: Result<(), EmulationError>, o: Result<Machine, EmulationError>) -> bool {
    match o {
        Ok(m) => r is Ok && new == m,
        Err(e) => r == Err::<(), EmulationError>(e) && new == old,
    }
}

/// An instruction's result and machine: the machine and cycles that the
/// spec gives, or its error with the machine left as it was.
pub open spec fn exec_outcome(
    old: Machine,
    new: Machine,
    r: Result<MachineCycles, EmulationError>,
    o: Result<(Machine, MachineCycles), EmulationError>,
) -> bool {
    match o {
        Ok((m, c)) => r == Ok::<MachineCycles, EmulationError>(c) && new == m,
        Err(e) => r == Err::<MachineCycles, EmulationError>(e) && new == old,
    }
}

/// The byte at `address`.
pub fn read8(gb: &GameBoy, address: u16) -> (r: Result<u8, EmulationError>)
    requires
        gb.wf(),
    ensures
        r == read_r(gb@, address),
{
    match MMU::read_checked(gb, address) {
        Some(v) => Ok(v),
        None => Err(EmulationError::ProhibitedRead(address)),
    }
}

/// Writes `value` at `address`.
pub fn write8(gb: &mut GameBoy, address: u16, value: u8) -> (r: Result<(), EmulationError>)
    requires
        old(gb).wf(),
    ensures
        final(gb).wf(),
        write_outcome(old(gb)@, final(gb)@, r, write_r(old(gb)@, address, value)),
        final(gb).cpu == old(gb).cpu,
{
    proof {
        lemma_write_none_iff(old(gb)@, address, value);
    }
    if MMU::writable(address) {
        MMU::write_byte(gb, address, value);
        Ok(())
    } else {
        Err(EmulationError::ProhibitedWrite(address))
    }
}

/// The byte after the opcode at `pc`.
pub fn read_next_byte(gb: &GameBoy, pc: u16) -> (r: Result<u8, EmulationError>)
    requires
        gb.wf(),
        pc == gb.cpu.pc,
    ensures
        r == next_byte(gb@),
{
    if pc < 0xFFFF {
        read8(gb, pc + 1)
    } else {
        Err(EmulationError::AddressOverflow)
    }
}

/// The two bytes after the opcode at `pc`, little endian.
pub fn read_next_word(gb: &GameBoy, pc: u16) -> (r: Result<u16, EmulationError>)
    requires
        gb.wf(),
        pc == gb.cpu.pc,
    ensures
        r == next_word(gb@),
{
    if pc < 0xFFFE {
        let hi = read8(gb, pc + 2)?;
        let lo = read8(gb, pc + 1)?;
        Ok(crate::registers::join(hi, lo))
    } else {
        Err(EmulationError::AddressOverflow)
    }
}

/// A register, or the byte at HL.
pub fn get_register_indirect_val(gb: &GameBoy, source: RegistersIndirect) -> (r: Result<u8, EmulationError>)
    requires
        gb.wf(),
    ensures
        r == reg8(gb@, source),
{
    match source {
        RegistersIndirect::A => Ok(gb.cpu.regs.a),
        RegistersIndirect::B => Ok(gb.cpu.regs.b),
        RegistersIndirect::C => Ok(gb.cpu.regs.c),
        RegistersIndirect::D => Ok(gb.cpu.regs.d),
        RegistersIndirect::E => Ok(gb.cpu.regs.e),
        RegistersIndirect::H => Ok(gb.cpu.regs.h),
        RegistersIndirect::L => Ok(gb.cpu.regs.l),
        RegistersIndirect::HLI => read8(gb, gb.cpu.regs.get_hl()),
    }
}

/// A register, the byte at HL, or the byte after the opcode.
pub fn get_arithmetic_target_val(gb: &GameBoy, target: RegistersIndDir) -> (r: Result<u8, EmulationError>)
    requires
        gb.wf(),
    ensures
        r == src8(gb@, target),
{
    match target {
        RegistersIndDir::A => Ok(gb.cpu.regs.a),
        RegistersIndDir::B => Ok(gb.cpu.regs.b),
        RegistersIndDir::C => Ok(gb.cpu.regs.c),
        RegistersIndDir::D => Ok(gb.cpu.regs.d),
        RegistersIndDir::E => Ok(gb.cpu.regs.e),
        RegistersIndDir::H => Ok(gb.cpu.regs.h),
        RegistersIndDir::L => Ok(gb.cpu.regs.l),
        RegistersIndDir::HLI => read8(gb, gb.cpu.regs.get_hl()),
        RegistersIndDir::D8 => read_next_byte(gb, gb.cpu.pc),
    }
}

/// Stores into a register, or at HL.
pub fn set_register_indirect_val(gb: &mut GameBoy, target: RegistersIndirect, value: u8) -> (r: Result<(), EmulationError>)
    requires
        old(gb).wf(),
    ensures
        final(gb).wf(),
        write_outcome(old(gb)@, final(gb)@, r, put8(old(gb)@, target, value)),
        target == RegistersIndirect::HLI ==> final(gb).cpu == old(gb).cpu,
{
    match target {
        RegistersIndirect::A => { gb.cpu.regs.a = value; Ok(()) },
        RegistersIndirect::B => { gb.cpu.regs.b = value; Ok(()) },
        RegistersIndirect::C => { gb.cpu.regs.c = value; Ok(()) },
        RegistersIndirect::D => { gb.cpu.regs.d = value; Ok(()) },
        RegistersIndirect::E => { gb.cpu.regs.e = value; Ok(()) },
        RegistersIndirect::H => { gb.cpu.regs.h = value; Ok(()) },
        RegistersIndirect::L => { gb.cpu.regs.l = value; Ok(()) },
        RegistersIndirect::HLI => {
            let hl = gb.cpu.regs.get_hl();
            write8(gb, hl, value)
        },
    }
}

/// Pushes a word on the stack: high byte first, at SP - 1, then the low byte
/// at SP - 2.
pub fn push_stack(gb: &mut GameBoy, value: u16) -> (r: Result<(), EmulationError>)
    requires
        old(gb).wf(),
    ensures
        final(gb).wf(),
        final(gb).cpu == (CPU { sp: final(gb).cpu.sp, ..old(gb).cpu }),
        write_outcome(old(gb)@, final(gb)@, r, push_spec(old(gb)@, value)),
{
    let s1 = gb.cpu.sp.wrapping_sub(1);
    let s2 = s1.wrapping_sub(1);
    proof {
        assert(s1 == wrap16(old(gb)@.cpu.sp - 1));
        assert(s2 == wrap16(old(gb)@.cpu.sp - 2));
        lemma_write_none_iff(old(gb)@, s1, (value / 256) as u8);
    }
    if !MMU::writable(s1) {
        return Err(EmulationError::ProhibitedWrite(s1));
    }
    proof {
        lemma_write_none_iff(old(gb)@.write(s1, (value / 256) as u8)->0, s2, (value % 256) as u8);
    }
    if !MMU::writable(s2) {
        return Err(EmulationError::ProhibitedWrite(s2));
    }
    let (hi, lo) = crate::registers::split(value);
    MMU::write_byte(gb, s1, hi);
    MMU::write_byte(gb, s2, lo);
    let ghost m2 = gb@;
    gb.cpu.sp = s2;
    assert(gb@ == with_sp(m2, s2));
    proof {
        assert(s1 == wrap16(old(gb)@.cpu.sp - 1));
        assert(s2 == wrap16(old(gb)@.cpu.sp - 2));
    }
    Ok(())
}

/// Pops a word from the stack: the low byte at SP, then the high byte.
pub fn pop_stack(gb: &mut GameBoy) -> (r: Result<u16, EmulationError>)
    requires
        old(gb).wf(),
    ensures
        final(gb).wf(),
        match pop_spec(old(gb)@) {
            Ok((m, v)) => r == Ok::<u16, EmulationError>(v) && final(gb)@ == m,
            Err(e) => r == Err::<u16, EmulationError>(e) && final(gb)@ == old(gb)@,
        },
{
    let sp = gb.cpu.sp;
    let lsb = read8(gb, sp)?;
    let s1 = sp.wrapping_add(1);
    let msb = read8(gb, s1)?;
    gb.cpu.sp = s1.wrapping_add(1);
    Ok(crate::registers::join(msb, lsb))
}


/// Two machine cycles for an operand in memory or immediate, one for a
/// register.
pub fn arithmetic_cycles(target: RegistersIndDir) -> (r: MachineCycles)
    ensures
        r == operand_cycles(target),
{
    match target {
        RegistersIndDir::HLI => MachineCycles::Two,
        RegistersIndDir::D8 => MachineCycles::Two,
        _ => MachineCycles::One,
    }
}

impl Instruction {
    /// Moves the program counter past this instruction.
    pub fn advance_pc(&self, gb: &mut GameBoy)
        requires
            old(gb).wf(),
        ensures
            final(gb).wf(),
            final(gb)@ == with_pc(old(gb)@, next_pc(old(gb)@, self.op)),
    {
        gb.cpu.pc = gb.cpu.pc.wrapping_add(self.op.size().bytes());
    }

    pub fn add(&self, gb: &mut GameBoy, target: RegistersIndDir) -> (r: Result<MachineCycles, EmulationError>)
        requires
            old(gb).wf(),
            self.op == InstructionType::ADD(target),
        ensures
            final(gb).wf(),
            exec_outcome(old(gb)@, final(gb)@, r, alu_spec(old(gb)@, self.op, target)),
    {
        let value = get_arithmetic_target_val(gb, target)?;
        let a = gb.cpu.regs.a;
        let (new_value, flags) = alu::add8(a, value);
        gb.cpu.regs.a = new_value;
        gb.cpu.regs.flags = flags;
        self.advance_pc(gb);
        Ok(arithmetic_cycles(target))
    }

    pub fn adc(&self, gb: &mut GameBoy, target: RegistersIndDir) -> (r: Result<MachineCycles, EmulationError>)
        requires
            old(gb).wf(),
            self.op == InstructionType::ADC(target),
        ensures
            final(gb).wf(),
            exec_outcome(old(gb)@, final(gb)@, r, alu_spec(old(gb)@, self.op, target)),
    {
        let value = get_arithmetic_target_val(gb, target)?;
        let a = gb.cpu.regs.a;
        let c = gb.cpu.regs.flags.carry;
        let (new_value, flags) = alu::adc8(a, value, c);
        gb.cpu.regs.a = new_value;
        gb.cpu.regs.flags = flags;
        self.advance_pc(gb);
        Ok(arithmetic_cycles(target))
    }

    pub fn sub(&self, gb: &mut GameBoy, target: RegistersIndDir) -> (r: Result<MachineCycles, EmulationError>)
        requires
            old(gb).wf(),
            self.op == InstructionType::SUB(target),
        ensures
            final(gb).wf(),
            exec_outcome(old(gb)@, final(gb)@, r, alu_spec(old(gb)@, self.op, target)),
    {
        let value = get_arithmetic_target_val(gb, target)?;
        let a = gb.cpu.regs.a;
        let (new_value, flags) = alu::sub8(a, value);
        gb.cpu.regs.a = new_value;
        gb.cpu.regs.flags = flags;
        self.advance_pc(gb);
        Ok(arithmetic_cycles(target))
    }

    pub fn sbc(&self, gb: &mut GameBoy, target: RegistersIndDir) -> (r: Result<MachineCycles, EmulationError>)
        requires
            old(gb).wf(),
            self.op == InstructionType::SBC(target),
        ensures
            final(gb).wf(),
            exec_outcome(old(gb)@, final(gb)@, r, alu_spec(old(gb)@, self.op, target)),
    {
        let value = get_arithmetic_target_val(gb, target)?;
        let a = gb.cpu.regs.a;
        let c = gb.cpu.regs.flags.carry;
        let (new_value, flags) = alu::sbc8(a, value, c);
        gb.cpu.regs.a = new_value;
        gb.cpu.regs.flags = flags;
        self.advance_pc(gb);
        Ok(arithmetic_cycles(target))
    }

    pub fn and(&self, gb: &mut GameBoy, target: RegistersIndDir) -> (r: Result<MachineCycles, EmulationError>)
        requires
            old(gb).wf(),
            self.op == InstructionType::AND(target),
        ensures
            final(gb).wf(),
            exec_outcome(old(gb)@, final(gb)@, r, alu_spec(old(gb)@, self.op, target)),
    {
        let value = get_arithmetic_target_val(gb, target)?;
        let a = gb.cpu.regs.a;
        let (new_value, flags) = alu::and8(a, value);
        gb.cpu.regs.a = new_value;
        gb.cpu.regs.flags = flags;
        self.advance_pc(gb);
        Ok(arithmetic_cycles(target))
    }

    pub fn xor(&self, gb: &mut GameBoy, target: RegistersIndDir) -> (r: Result<MachineCycles, EmulationError>)
        requires
            old(gb).wf(),
            self.op == InstructionType::XOR(target),
        ensures
            final(gb).wf(),
            exec_outcome(old(gb)@, final(gb)@, r, alu_spec(old(gb)@, self.op, target)),
    {
        let value = get_arithmetic_target_val(gb, target)?;
        let a = gb.cpu.regs.a;
        let (new_value, flags) = alu::xor8(a, value);
        gb.cpu.regs.a = new_value;
        gb.cpu.regs.flags = flags;
        self.advance_pc(gb);
        Ok(arithmetic_cycles(target))
    }

    pub fn or(&self, gb: &mut GameBoy, target: RegistersIndDir) -> (r: Result<MachineCycles, EmulationError>)
        requires
            old(gb).wf(),
            self.op == InstructionType::OR(target),
        ensures
            final(gb).wf(),
            exec_outcome(old(gb)@, final(gb)@, r, alu_spec(old(gb)@, self.op, target)),
    {
        let value = get_arithmetic_target_val(gb, target)?;
        let a = gb.cpu.regs.a;
        let (new_value, flags) = alu::or8(a, value);
        gb.cpu.regs.a = new_value;
        gb.cpu.regs.flags = flags;
        self.advance_pc(gb);
        Ok(arithmetic_cycles(target))
    }

    /// CP: the flags of A minus the operand; A is kept.
    pub fn cp(&self, gb: &mut GameBoy, target: RegistersIndDir) -> (r: Result<MachineCycles, EmulationError>)
        requires
            old(gb).wf(),
            self.op == InstructionType::CP(target),
        ensures
            final(gb).wf(),
            exec_outcome(old(gb)@, final(gb)@, r, alu_spec(old(gb)@, self.op, target)),
    {
        let value = get_arithmetic_target_val(gb, target)?;
        gb.cpu.regs.flags = alu::cp8(gb.cpu.regs.a, value);
        self.advance_pc(gb);
        Ok(arithmetic_cycles(target))
    }

    pub fn inc(&self, gb: &mut GameBoy, target: RegistersIndirect) -> (r: Result<MachineCycles, EmulationError>)
        requires
            old(gb).wf(),
            self.op == InstructionType::INC(target),
        ensures
            final(gb).wf(),
            exec_outcome(old(gb)@, final(gb)@, r, incdec_spec(old(gb)@, self.op, target, true)),
    {
        let value = get_register_indirect_val(gb, target)?;
        let (new_value, flags) = alu::inc8(value, gb.cpu.regs.flags);
        let ghost m0 = gb@;
        let old_flags = gb.cpu.regs.flags;
        gb.cpu.regs.flags = flags;
        if let Err(error) = set_register_indirect_val(gb, target, new_value) {
            gb.cpu.regs.flags = old_flags;
            assert(gb@ == m0);
            return Err(error);
        }
        self.advance_pc(gb);
        match target {
            RegistersIndirect::HLI => Ok(MachineCycles::Three),
            _ => Ok(MachineCycles::One),
        }
    }

    pub fn dec(&self, gb: &mut GameBoy, target: RegistersIndirect) -> (r: Result<MachineCycles, EmulationError>)
        requires
            old(gb).wf(),
            self.op == InstructionType::DEC(target),
        ensures
            final(gb).wf(),
            exec_outcome(old(gb)@, final(gb)@, r, incdec_spec(old(gb)@, self.op, target, false)),
    {
        let value = get_register_indirect_val(gb, target)?;
        let (new_value, flags) = alu::dec8(value, gb.cpu.regs.flags);
        let ghost m0 = gb@;
        let old_flags = gb.cpu.regs.flags;
        gb.cpu.regs.flags = flags;
        if let Err(error) = set_register_indirect_val(gb, target, new_value) {
            gb.cpu.regs.flags = old_flags;
            assert(gb@ == m0);
            return Err(error);
        }
        self.advance_pc(gb);
        match target {
            RegistersIndirect::HLI => Ok(MachineCycles::Three),
            _ => Ok(MachineCycles::One),
        }
    }
}


impl Instruction {
    /// Runs the instruction on the machine: `Ok` with the machine cycles it
    /// took, or the reason it stopped (an unanswered read or untaken write,
    /// an operand past the address space), the machine then left as it was.
    /// STOP is not run here: the CPU step stops on it before.
    pub fn execute(&self, gb: &mut GameBoy) -> (r: Result<MachineCycles, EmulationError>)
        requires
            old(gb).wf(),
            self.op != InstructionType::STOP,
        ensures
            final(gb).wf(),
            exec_outcome(old(gb)@, final(gb)@, r, exec_spec(old(gb)@, self.op)),
    {
        match self.op {
            InstructionType::CALL(_) | InstructionType::RET(_) | InstructionType::JP(_) | InstructionType::JR(_) | InstructionType::JPHL | InstructionType::RETI | InstructionType::RST(_) => self.exec_flow(gb),
            InstructionType::NOP | InstructionType::HALT | InstructionType::SCF | InstructionType::CCF | InstructionType::CPL | InstructionType::DAA | InstructionType::EI | InstructionType::DI => self.exec_misc(gb),
            InstructionType::ADD(_) | InstructionType::ADC(_) | InstructionType::SUB(_) | InstructionType::SBC(_) | InstructionType::AND(_) | InstructionType::XOR(_) | InstructionType::OR(_) | InstructionType::CP(_) | InstructionType::INC(_) | InstructionType::DEC(_) => self.exec_alu(gb),
            InstructionType::ADD16(_) | InstructionType::INC16(_) | InstructionType::DEC16(_) | InstructionType::ADDSPS8 | InstructionType::LDHLSPD8 | InstructionType::LDSPHL | InstructionType::LDSPA16 | InstructionType::PUSH(_) | InstructionType::POP(_) => self.exec_word(gb),
            InstructionType::LD(_) | InstructionType::LDFF(_) => self.exec_load(gb),
            InstructionType::BIT(_) | InstructionType::SWAP(_) | InstructionType::RES(_) | InstructionType::SET(_) => self.exec_bits(gb),
            InstructionType::RL(_) | InstructionType::RLC(_) | InstructionType::RR(_) | InstructionType::RRC(_) => self.exec_rotate(gb),
            InstructionType::RLA | InstructionType::RLCA | InstructionType::RRA | InstructionType::RRCA => self.exec_rotate_a(gb),
            InstructionType::SRA(_) | InstructionType::SLA(_) | InstructionType::SRL(_) => self.exec_shift(gb),
            InstructionType::STOP => Err(EmulationError::Stop),
        }
    }

    /// The control flow instructions.
    #[verifier::rlimit(40)]
    fn exec_flow(&self, gb: &mut GameBoy) -> (r: Result<MachineCycles, EmulationError>)
        requires
            old(gb).wf(),
            self.op is CALL || self.op is RET || self.op is JP || self.op is JR || self.op is JPHL || self.op is RETI || self.op is RST,
        ensures
            final(gb).wf(),
            exec_outcome(old(gb)@, final(gb)@, r, exec_spec(old(gb)@, self.op)),
    {
        match self.op {
            InstructionType::CALL(test) => self.call(gb, test),
            InstructionType::RET(test) => self.ret(gb, test),
            InstructionType::JP(test) => self.jump(gb, test),
            InstructionType::JR(test) => self.jump_relative(gb, test),
            InstructionType::JPHL => self.jump_hl(gb),
            InstructionType::RETI => self.reti(gb),
            InstructionType::RST(target) => self.rst(gb, target),
            _ => Err(EmulationError::Stop),
        }
    }

    /// The flag and control instructions.
    #[verifier::rlimit(40)]
    fn exec_misc(&self, gb: &mut GameBoy) -> (r: Result<MachineCycles, EmulationError>)
        requires
            old(gb).wf(),
            self.op is NOP || self.op is HALT || self.op is SCF || self.op is CCF || self.op is CPL || self.op is DAA || self.op is EI || self.op is DI,
        ensures
            final(gb).wf(),
            exec_outcome(old(gb)@, final(gb)@, r, exec_spec(old(gb)@, self.op)),
    {
        match self.op {
            InstructionType::NOP => self.nop(gb),
            InstructionType::HALT => self.halt(gb),
            InstructionType::SCF => self.scf(gb),
            InstructionType::CCF => self.ccf(gb),
            InstructionType::CPL => self.cpl(gb),
            InstructionType::DAA => self.daa(gb),
            InstructionType::EI => self.ei(gb),
            InstructionType::DI => self.di(gb),
            _ => Err(EmulationError::Stop),
        }
    }

    /// The 8-bit arithmetic instructions.
    #[verifier::rlimit(40)]
    fn exec_alu(&self, gb: &mut GameBoy) -> (r: Result<MachineCycles, EmulationError>)
        requires
            old(gb).wf(),
            self.op is ADD || self.op is ADC || self.op is SUB || self.op is SBC || self.op is AND || self.op is XOR || self.op is OR || self.op is CP || self.op is INC || self.op is DEC,
        ensures
            final(gb).wf(),
            exec_outcome(old(gb)@, final(gb)@, r, exec_spec(old(gb)@, self.op)),
    {
        match self.op {
            InstructionType::ADD(target) => self.add(gb, target),
            InstructionType::ADC(target) => self.adc(gb, target),
            InstructionType::SUB(target) => self.sub(gb, target),
            InstructionType::SBC(target) => self.sbc(gb, target),
            InstructionType::AND(target) => self.and(gb, target),
            InstructionType::XOR(target) => self.xor(gb, target),
            InstructionType::OR(target) => self.or(gb, target),
            InstructionType::CP(target) => self.cp(gb, target),
            InstructionType::INC(target) => self.inc(gb, target),
            InstructionType::DEC(target) => self.dec(gb, target),
            _ => Err(EmulationError::Stop),
        }
    }

    /// The 16-bit and stack instructions.
    #[verifier::rlimit(40)]
    fn exec_word(&self, gb: &mut GameBoy) -> (r: Result<MachineCycles, EmulationError>)
        requires
            old(gb).wf(),
            self.op is ADD16 || self.op is INC16 || self.op is DEC16 || self.op is ADDSPS8 || self.op is LDHLSPD8 || self.op is LDSPHL || self.op is LDSPA16 || self.op is PUSH || self.op is POP,
        ensures
            final(gb).wf(),
            exec_outcome(old(gb)@, final(gb)@, r, exec_spec(old(gb)@, self.op)),
    {
        match self.op {
            InstructionType::ADD16(target) => self.add16(gb, target),
            InstructionType::INC16(target) => self.inc16(gb, target),
            InstructionType::DEC16(target) => self.dec16(gb, target),
            InstructionType::ADDSPS8 => self.addsps8(gb),
            InstructionType::LDHLSPD8 => self.ldhlspd8(gb),
            InstructionType::LDSPHL => self.ldsphl(gb),
            InstructionType::LDSPA16 => self.ldspa16(gb),
            InstructionType::PUSH(target) => self.push(gb, target),
            InstructionType::POP(target) => self.pop(gb, target),
            _ => Err(EmulationError::Stop),
        }
    }

    /// The load instructions.
    #[verifier::rlimit(40)]
    fn exec_load(&self, gb: &mut GameBoy) -> (r: Result<MachineCycles, EmulationError>)
        requires
            old(gb).wf(),
            self.op is LD || self.op is LDFF,
        ensures
            final(gb).wf(),
            exec_outcome(old(gb)@, final(gb)@, r, exec_spec(old(gb)@, self.op)),
    {
        match self.op {
            InstructionType::LD(load_type) => self.load(gb, load_type),
            InstructionType::LDFF(load_type) => self.ldff(gb, load_type),
            _ => Err(EmulationError::Stop),
        }
    }

    /// The bit instructions.
    #[verifier::rlimit(40)]
    fn exec_bits(&self, gb: &mut GameBoy) -> (r: Result<MachineCycles, EmulationError>)
        requires
            old(gb).wf(),
            self.op is BIT || self.op is SWAP || self.op is RES || self.op is SET,
        ensures
            final(gb).wf(),
            exec_outcome(old(gb)@, final(gb)@, r, exec_spec(old(gb)@, self.op)),
    {
        match self.op {
            InstructionType::BIT(bit_type) => self.bit(gb, bit_type),
            InstructionType::SWAP(target) => self.swap(gb, target),
            InstructionType::RES(target) => self.res(gb, target),
            InstructionType::SET(target) => self.set(gb, target),
            _ => Err(EmulationError::Stop),
        }
    }

    /// The rotate instructions.
    #[verifier::rlimit(40)]
    fn exec_rotate(&self, gb: &mut GameBoy) -> (r: Result<MachineCycles, EmulationError>)
        requires
            old(gb).wf(),
            self.op is RL || self.op is RLC || self.op is RR || self.op is RRC,
        ensures
            final(gb).wf(),
            exec_outcome(old(gb)@, final(gb)@, r, exec_spec(old(gb)@, self.op)),
    {
        match self.op {
            InstructionType::RL(target) => self.rl(gb, target),
            InstructionType::RLC(target) => self.rlc(gb, target),
            InstructionType::RR(target) => self.rr(gb, target),
            InstructionType::RRC(target) => self.rrc(gb, target),
            _ => Err(EmulationError::Stop),
        }
    }

    /// The accumulator rotate instructions.
    #[verifier::rlimit(40)]
    fn exec_rotate_a(&self, gb: &mut GameBoy) -> (r: Result<MachineCycles, EmulationError>)
        requires
            old(gb).wf(),
            self.op is RLA || self.op is RLCA || self.op is RRA || self.op is RRCA,
        ensures
            final(gb).wf(),
            exec_outcome(old(gb)@, final(gb)@, r, exec_spec(old(gb)@, self.op)),
    {
        match self.op {
            InstructionType::RLA => self.rla(gb),
            InstructionType::RLCA => self.rlca(gb),
            InstructionType::RRA => self.rra(gb),
            InstructionType::RRCA => self.rrca(gb),
            _ => Err(EmulationError::Stop),
        }
    }

    /// The shift instructions.
    #[verifier::rlimit(40)]
    fn exec_shift(&self, gb: &mut GameBoy) -> (r: Result<MachineCycles, EmulationError>)
        requires
            old(gb).wf(),
            self.op is SRA || self.op is SLA || self.op is SRL,
        ensures
            final(gb).wf(),
            exec_outcome(old(gb)@, final(gb)@, r, exec_spec(old(gb)@, self.op)),
    {
        match self.op {
            InstructionType::SRA(target) => self.sra(gb, target),
            InstructionType::SLA(target) => self.sla(gb, target),
            InstructionType::SRL(target) => self.srl(gb, target),
            _ => Err(EmulationError::Stop),
        }
    }
}

/// The bit number of a bit target.
pub fn get_position_by_bittarget(target: BitTarget) -> (r: usize)
    ensures
        r == bit_number(target),
{
    match target {
        BitTarget::Zero => 0,
        BitTarget::One => 1,
        BitTarget::Two => 2,
        BitTarget::Three => 3,
        BitTarget::Four => 4,
        BitTarget::Five => 5,
        BitTarget::Six => 6,
        BitTarget::Seven => 7,
    }
}

/// Whether a jump condition holds on the current flags.
pub fn should_jump(cpu: &CPU, test: JumpTest) -> (r: bool)
    ensures
        r == cond_holds(cpu.regs.flags, test),
{
    match test {
        JumpTest::NotZero => !cpu.regs.flags.zero,
        JumpTest::NotCarry => !cpu.regs.flags.carry,
        JumpTest::Zero => cpu.regs.flags.zero,
        JumpTest::Carry => cpu.regs.flags.carry,
        JumpTest::Always => true,
    }
}

/// Rotates the target left or right, through the carry (RL, RR) or around
/// it (RLC, RRC); N and H are cleared.
#[verifier::rlimit(30)]
pub fn bitwise_rotate(gb: &mut GameBoy, target: RegistersIndirect, left: bool, is_rc: bool) -> (r: Result<(), EmulationError>)
    requires
        old(gb).wf(),
    ensures
        final(gb).wf(),
        write_outcome(old(gb)@, final(gb)@, r, rotate_spec(old(gb)@, target, left, is_rc)),
        final(gb).cpu.pc == old(gb).cpu.pc,
{
    let value = get_register_indirect_val(gb, target)?;
    let old_flags = gb.cpu.regs.flags;
    let (new_value, carry) = if left {
        alu::rotate_left(value, old_flags.carry, is_rc)
    } else {
        alu::rotate_right(value, old_flags.carry, is_rc)
    };
    let ghost m0 = gb@;
    gb.cpu.regs.flags = FlagsRegister { subtract: false, half_carry: false, carry, ..old_flags };
    if let Err(error) = set_register_indirect_val(gb, target, new_value) {
        gb.cpu.regs.flags = old_flags;
        assert(gb@ == m0);
        return Err(error);
    }
    Ok(())
}

/// Sets bit `bt` of the register (or of the byte at HL) to `value`.
pub fn res_set(gb: &mut GameBoy, target: ResSetType, value: bool) -> (r: Result<(), EmulationError>)
    requires
        old(gb).wf(),
    ensures
        final(gb).wf(),
        ({
            let ResSetType::Registers(bt, t) = target;
            write_outcome(old(gb)@, final(gb)@, r, res_set_spec(old(gb)@, t, bit_number(bt), value))
        }),
        final(gb).cpu.pc == old(gb).cpu.pc,
{
    let ResSetType::Registers(bt, register) = target;
    let i = get_position_by_bittarget(bt);
    let v = get_register_indirect_val(gb, register)?;
    let nv = alu::set_bit_val(i, value, v);
    set_register_indirect_val(gb, register, nv)
}

/// Sets the zero flag from the target (read again from memory for (HL)).
pub fn set_flag_zero(gb: &mut GameBoy, target: RegistersIndirect) -> (r: Result<(), EmulationError>)
    requires
        old(gb).wf(),
    ensures
        final(gb).wf(),
        write_outcome(old(gb)@, final(gb)@, r, set_zero_spec(old(gb)@, target)),
        final(gb).cpu.pc == old(gb).cpu.pc,
{
    let v = get_register_indirect_val(gb, target)?;
    gb.cpu.regs.flags.zero = v == 0;
    Ok(())
}

impl Instruction {
    pub fn nop(&self, gb: &mut GameBoy) -> (r: Result<MachineCycles, EmulationError>)
        requires
            old(gb).wf(),
            self.op == InstructionType::NOP,
        ensures
            final(gb).wf(),
            exec_outcome(old(gb)@, final(gb)@, r, misc_spec(old(gb)@, self.op)),
    {
        self.advance_pc(gb);
        Ok(MachineCycles::One)
    }

    pub fn ei(&self, gb: &mut GameBoy) -> (r: Result<MachineCycles, EmulationError>)
        requires
            old(gb).wf(),
            self.op == InstructionType::EI,
        ensures
            final(gb).wf(),
            exec_outcome(old(gb)@, final(gb)@, r, misc_spec(old(gb)@, self.op)),
    {
        gb.cpu.ime = true;
        self.advance_pc(gb);
        Ok(MachineCycles::One)
    }

    pub fn di(&self, gb: &mut GameBoy) -> (r: Result<MachineCycles, EmulationError>)
        requires
            old(gb).wf(),
            self.op == InstructionType::DI,
        ensures
            final(gb).wf(),
            exec_outcome(old(gb)@, final(gb)@, r, misc_spec(old(gb)@, self.op)),
    {
        gb.cpu.ime = false;
        self.advance_pc(gb);
        Ok(MachineCycles::One)
    }

    pub fn scf(&self, gb: &mut GameBoy) -> (r: Result<MachineCycles, EmulationError>)
        requires
            old(gb).wf(),
            self.op == InstructionType::SCF,
        ensures
            final(gb).wf(),
            exec_outcome(old(gb)@, final(gb)@, r, misc_spec(old(gb)@, self.op)),
    {
        gb.cpu.regs.flags.carry = true;
        gb.cpu.regs.flags.subtract = false;
        gb.cpu.regs.flags.half_carry = false;
        self.advance_pc(gb);
        Ok(MachineCycles::One)
    }

    pub fn cpl(&self, gb: &mut GameBoy) -> (r: Result<MachineCycles, EmulationError>)
        requires
            old(gb).wf(),
            self.op == InstructionType::CPL,
        ensures
            final(gb).wf(),
            exec_outcome(old(gb)@, final(gb)@, r, misc_spec(old(gb)@, self.op)),
    {
        gb.cpu.regs.a = !gb.cpu.regs.a;
        gb.cpu.regs.flags.subtract = true;
        gb.cpu.regs.flags.half_carry = true;
        self.advance_pc(gb);
        Ok(MachineCycles::One)
    }

    pub fn ccf(&self, gb: &mut GameBoy) -> (r: Result<MachineCycles, EmulationError>)
        requires
            old(gb).wf(),
            self.op == InstructionType::CCF,
        ensures
            final(gb).wf(),
            exec_outcome(old(gb)@, final(gb)@, r, misc_spec(old(gb)@, self.op)),
    {
        gb.cpu.regs.flags.carry = !gb.cpu.regs.flags.carry;
        gb.cpu.regs.flags.subtract = false;
        gb.cpu.regs.flags.half_carry = false;
        self.advance_pc(gb);
        Ok(MachineCycles::One)
    }

    /// https://forums.nesdev.org/viewtopic.php?t=15944
    pub fn daa(&self, gb: &mut GameBoy) -> (r: Result<MachineCycles, EmulationError>)
        requires
            old(gb).wf(),
            self.op == InstructionType::DAA,
        ensures
            final(gb).wf(),
            exec_outcome(old(gb)@, final(gb)@, r, misc_spec(old(gb)@, self.op)),
    {
        let (a, f) = alu::daa(gb.cpu.regs.a, gb.cpu.regs.flags);
        gb.cpu.regs.a = a;
        gb.cpu.regs.flags = f;
        self.advance_pc(gb);
        Ok(MachineCycles::One)
    }

    /// HALT: with an interrupt pending it does not halt (and, with the
    /// master enable off, the program counter stays: the halt bug);
    /// otherwise the CPU halts.
    pub fn halt(&self, gb: &mut GameBoy) -> (r: Result<MachineCycles, EmulationError>)
        requires
            old(gb).wf(),
            self.op == InstructionType::HALT,
        ensures
            final(gb).wf(),
            exec_outcome(old(gb)@, final(gb)@, r, misc_spec(old(gb)@, self.op)),
    {
        if gb.io.interrupts.some_interrupt_enabled() {
            if !gb.cpu.ime {
                // Halt bug, no PC increment
            } else {
                // We ignore the halting
                self.advance_pc(gb);
            }
        } else {
            gb.cpu.is_halted = true;
            self.advance_pc(gb);
        }
        Ok(MachineCycles::One)
    }

    pub fn add16(&self, gb: &mut GameBoy, target: WordRegister) -> (r: Result<MachineCycles, EmulationError>)
        requires
            old(gb).wf(),
            self.op == InstructionType::ADD16(target),
        ensures
            final(gb).wf(),
            exec_outcome(old(gb)@, final(gb)@, r, word_spec(old(gb)@, self.op)),
    {
        let value = match target {
            WordRegister::BC => gb.cpu.regs.get_bc(),
            WordRegister::DE => gb.cpu.regs.get_de(),
            WordRegister::HL => gb.cpu.regs.get_hl(),
            WordRegister::SP => gb.cpu.sp,
        };
        let (new_value, flags) = alu::add16(gb.cpu.regs.get_hl(), value, gb.cpu.regs.flags);
        gb.cpu.regs.flags = flags;
        gb.cpu.regs.set_hl(new_value);
        self.advance_pc(gb);
        Ok(MachineCycles::Two)
    }

    pub fn inc16(&self, gb: &mut GameBoy, target: WordRegister) -> (r: Result<MachineCycles, EmulationError>)
        requires
            old(gb).wf(),
            self.op == InstructionType::INC16(target),
        ensures
            final(gb).wf(),
            exec_outcome(old(gb)@, final(gb)@, r, word_spec(old(gb)@, self.op)),
    {
        let ghost m0 = gb@;
        inc_word(gb, target);
        self.advance_pc(gb);
        proof {
            crate::semantics::lemma_incdec16_spec(m0, target);
        }
        Ok(MachineCycles::Two)
    }

    pub fn dec16(&self, gb: &mut GameBoy, target: WordRegister) -> (r: Result<MachineCycles, EmulationError>)
        requires
            old(gb).wf(),
            self.op == InstructionType::DEC16(target),
        ensures
            final(gb).wf(),
            exec_outcome(old(gb)@, final(gb)@, r, word_spec(old(gb)@, self.op)),
    {
        let ghost m0 = gb@;
        dec_word(gb, target);
        self.advance_pc(gb);
        proof {
            crate::semantics::lemma_incdec16_spec(m0, target);
        }
        Ok(MachineCycles::Two)
    }

    /// ADD SP,e: the signed byte after the opcode added to SP.
    pub fn addsps8(&self, gb: &mut GameBoy) -> (r: Result<MachineCycles, EmulationError>)
        requires
            old(gb).wf(),
            self.op == InstructionType::ADDSPS8,
        ensures
            final(gb).wf(),
            exec_outcome(old(gb)@, final(gb)@, r, word_spec(old(gb)@, self.op)),
    {
        let d = read_next_byte(gb, gb.cpu.pc)?;
        let (new_value, flags) = alu::add_sp(gb.cpu.sp, d);
        gb.cpu.regs.flags = flags;
        gb.cpu.sp = new_value;
        self.advance_pc(gb);
        Ok(MachineCycles::Four)
    }

    /// LD HL,SP+e.
    pub fn ldhlspd8(&self, gb: &mut GameBoy) -> (r: Result<MachineCycles, EmulationError>)
        requires
            old(gb).wf(),
            self.op == InstructionType::LDHLSPD8,
        ensures
            final(gb).wf(),
            exec_outcome(old(gb)@, final(gb)@, r, word_spec(old(gb)@, self.op)),
    {
        let d = read_next_byte(gb, gb.cpu.pc)?;
        let (new_value, flags) = alu::add_sp(gb.cpu.sp, d);
        gb.cpu.regs.flags = flags;
        gb.cpu.regs.set_hl(new_value);
        self.advance_pc(gb);
        Ok(MachineCycles::Three)
    }

    pub fn ldsphl(&self, gb: &mut GameBoy) -> (r: Result<MachineCycles, EmulationError>)
        requires
            old(gb).wf(),
            self.op == InstructionType::LDSPHL,
        ensures
            final(gb).wf(),
            exec_outcome(old(gb)@, final(gb)@, r, word_spec(old(gb)@, self.op)),
    {
        gb.cpu.sp = gb.cpu.regs.get_hl();
        self.advance_pc(gb);
        Ok(MachineCycles::Two)
    }
}


impl Instruction {
    /// JP: to the address after the opcode when the condition holds.
    pub fn jump(&self, gb: &mut GameBoy, test: JumpTest) -> (r: Result<MachineCycles, EmulationError>)
        requires
            old(gb).wf(),
            self.op == InstructionType::JP(test),
        ensures
            final(gb).wf(),
            exec_outcome(old(gb)@, final(gb)@, r, flow_spec(old(gb)@, self.op)),
    {
        if should_jump(&gb.cpu, test) {
            // Gameboy is little endian so read pc + 2 as most significant bit
            // and pc + 1 as least significant bit
            let pc = gb.cpu.pc;
            if pc >= 0xFFFE {
                return Err(EmulationError::AddressOverflow);
            }
            let least_significant_byte = read8(gb, pc + 1)?;
            let most_significant_byte = read8(gb, pc + 2)?;
            gb.cpu.pc = crate::registers::join(most_significant_byte, least_significant_byte);
            Ok(MachineCycles::Four)
        } else {
            self.advance_pc(gb);
            Ok(MachineCycles::Three)
        }
    }

    /// JR: the signed byte after the opcode, plus two, wrapped as a signed
    /// byte, added to the program counter when the condition holds.
    pub fn jump_relative(&self, gb: &mut GameBoy, test: JumpTest) -> (r: Result<MachineCycles, EmulationError>)
        requires
            old(gb).wf(),
            self.op == InstructionType::JR(test),
        ensures
            final(gb).wf(),
            exec_outcome(old(gb)@, final(gb)@, r, flow_spec(old(gb)@, self.op)),
    {
        if should_jump(&gb.cpu, test) {
            let offset = read_next_byte(gb, gb.cpu.pc)?;
            gb.cpu.pc = relative_target(gb.cpu.pc, offset);
            Ok(MachineCycles::Three)
        } else {
            self.advance_pc(gb);
            Ok(MachineCycles::Two)
        }
    }

    pub fn jump_hl(&self, gb: &mut GameBoy) -> (r: Result<MachineCycles, EmulationError>)
        requires
            old(gb).wf(),
            self.op == InstructionType::JPHL,
        ensures
            final(gb).wf(),
            exec_outcome(old(gb)@, final(gb)@, r, flow_spec(old(gb)@, self.op)),
    {
        gb.cpu.pc = gb.cpu.regs.get_hl();
        Ok(MachineCycles::One)
    }

    /// CALL: pushes the address of the next instruction and jumps to the
    /// address after the opcode when the condition holds.
    pub fn call(&self, gb: &mut GameBoy, test: JumpTest) -> (r: Result<MachineCycles, EmulationError>)
        requires
            old(gb).wf(),
            self.op == InstructionType::CALL(test),
        ensures
            final(gb).wf(),
            exec_outcome(old(gb)@, final(gb)@, r, flow_spec(old(gb)@, self.op)),
    {
        if should_jump(&gb.cpu, test) {
            let jump_addr = read_next_word(gb, gb.cpu.pc)?;
            let next = gb.cpu.pc.wrapping_add(self.op.size().bytes());
            push_stack(gb, next)?;
            gb.cpu.pc = jump_addr;
            Ok(MachineCycles::Six)
        } else {
            self.advance_pc(gb);
            Ok(MachineCycles::Three)
        }
    }

    /// RET: pops the program counter when the condition holds.
    pub fn ret(&self, gb: &mut GameBoy, test: JumpTest) -> (r: Result<MachineCycles, EmulationError>)
        requires
            old(gb).wf(),
            self.op == InstructionType::RET(test),
        ensures
            final(gb).wf(),
            exec_outcome(old(gb)@, final(gb)@, r, flow_spec(old(gb)@, self.op)),
    {
        if should_jump(&gb.cpu, test) {
            let addr = pop_stack(gb)?;
            gb.cpu.pc = addr;
            Ok(MachineCycles::Five)
        } else {
            self.advance_pc(gb);
            Ok(MachineCycles::Two)
        }
    }

    /// RETI: pops the program counter and enables interrupts.
    pub fn reti(&self, gb: &mut GameBoy) -> (r: Result<MachineCycles, EmulationError>)
        requires
            old(gb).wf(),
            self.op == InstructionType::RETI,
        ensures
            final(gb).wf(),
            exec_outcome(old(gb)@, final(gb)@, r, flow_spec(old(gb)@, self.op)),
    {
        let addr = pop_stack(gb)?;
        gb.cpu.pc = addr;
        gb.cpu.ime = true;
        Ok(MachineCycles::Four)
    }

    /// RST: pushes the address of the next instruction and jumps to eight
    /// times the target.
    pub fn rst(&self, gb: &mut GameBoy, target: BitTarget) -> (r: Result<MachineCycles, EmulationError>)
        requires
            old(gb).wf(),
            self.op == InstructionType::RST(target),
        ensures
            final(gb).wf(),
            exec_outcome(old(gb)@, final(gb)@, r, flow_spec(old(gb)@, self.op)),
    {
        let next = gb.cpu.pc.wrapping_add(self.op.size().bytes());
        push_stack(gb, next)?;
        let address: u16 = match target {
            BitTarget::Zero => 0x0000,
            BitTarget::One => 0x0008,
            BitTarget::Two => 0x0010,
            BitTarget::Three => 0x0018,
            BitTarget::Four => 0x0020,
            BitTarget::Five => 0x0028,
            BitTarget::Six => 0x0030,
            BitTarget::Seven => 0x0038,
        };
        gb.cpu.pc = address;
        Ok(MachineCycles::Four)
    }

    pub fn push(&self, gb: &mut GameBoy, target: StackTarget) -> (r: Result<MachineCycles, EmulationError>)
        requires
            old(gb).wf(),
            self.op == InstructionType::PUSH(target),
        ensures
            final(gb).wf(),
            exec_outcome(old(gb)@, final(gb)@, r, stack_spec(old(gb)@, self.op)),
    {
        let value = match target {
            StackTarget::BC => gb.cpu.regs.get_bc(),
            StackTarget::DE => gb.cpu.regs.get_de(),
            StackTarget::HL => gb.cpu.regs.get_hl(),
            StackTarget::AF => gb.cpu.regs.get_af(),
        };
        push_stack(gb, value)?;
        self.advance_pc(gb);
        Ok(MachineCycles::Four)
    }

    pub fn pop(&self, gb: &mut GameBoy, target: StackTarget) -> (r: Result<MachineCycles, EmulationError>)
        requires
            old(gb).wf(),
            self.op == InstructionType::POP(target),
        ensures
            final(gb).wf(),
            exec_outcome(old(gb)@, final(gb)@, r, stack_spec(old(gb)@, self.op)),
    {
        let result = pop_stack(gb)?;
        match target {
            StackTarget::BC => gb.cpu.regs.set_bc(result),
            StackTarget::DE => gb.cpu.regs.set_de(result),
            StackTarget::HL => gb.cpu.regs.set_hl(result),
            StackTarget::AF => gb.cpu.regs.set_af(result),
        };
        self.advance_pc(gb);
        Ok(MachineCycles::Three)
    }

    /// LD (a16),SP: the low byte of SP at the address after the opcode, the
    /// high byte after it.
    pub fn ldspa16(&self, gb: &mut GameBoy) -> (r: Result<MachineCycles, EmulationError>)
        requires
            old(gb).wf(),
            self.op == InstructionType::LDSPA16,
        ensures
            final(gb).wf(),
            exec_outcome(old(gb)@, final(gb)@, r, word_spec(old(gb)@, self.op)),
    {
        let ghost m0 = gb@;
        let address = read_next_word(gb, gb.cpu.pc)?;
        let next = address.wrapping_add(1);
        assert(next == wrap16(address + 1));
        let (msb, lsb) = crate::registers::split(gb.cpu.sp);
        proof {
            lemma_write_none_iff(m0, address, lsb);
        }
        if !MMU::writable(address) {
            return Err(EmulationError::ProhibitedWrite(address));
        }
        proof {
            lemma_write_none_iff(m0.write(address, lsb)->0, next, msb);
        }
        if !MMU::writable(next) {
            return Err(EmulationError::ProhibitedWrite(next));
        }
        write_two(gb, address, lsb, next, msb);
        self.advance_pc(gb);
        Ok(MachineCycles::Five)
    }
}


/// Whether the target of a register instruction can be read and written:
/// always for a register; for (HL), when a read at HL is answered and a
/// write there is taken.
pub open spec fn target_usable(m: Machine, t: RegistersIndirect) -> bool {
    t == RegistersIndirect::HLI ==> m.read(m.cpu.regs.hl()).is_some() && writable_spec(m.cpu.regs.hl())
}

/// A usable target reads and writes; a target that was read and written is
/// usable.
proof fn lemma_usable(m: Machine, t: RegistersIndirect, v: u8)
    ensures
        target_usable(m, t) ==> reg8(m, t).is_ok() && put8(m, t, v).is_ok(),
        reg8(m, t).is_ok() && put8(m, t, v).is_ok() ==> target_usable(m, t),
{
    reveal(Machine::write);
}

/// A usable target stays usable when the flags change and after a write
/// to it.
proof fn lemma_usable_kept(m: Machine, t: RegistersIndirect, v: u8, f: FlagsRegister)
    requires
        target_usable(m, t),
    ensures
        target_usable(with_flags(m, f), t),
        put8(m, t, v).is_ok(),
        target_usable(put8(m, t, v)->Ok_0, t),
{
    reveal(Machine::read);
    reveal(Machine::write);
}

/// After a rotate, the target is usable.
proof fn lemma_rotate_usable(m: Machine, t: RegistersIndirect, left: bool, is_rc: bool)
    requires
        rotate_spec(m, t, left, is_rc).is_ok(),
    ensures
        target_usable(m, t),
        target_usable(rotate_spec(m, t, left, is_rc)->Ok_0, t),
{
    let v = reg8(m, t)->Ok_0;
    let f = m.cpu.regs.flags;
    let (r, c) = if left { alu::rotate_left_spec(v, f.carry, is_rc) } else { alu::rotate_right_spec(v, f.carry, is_rc) };
    let nf = FlagsRegister { subtract: false, half_carry: false, carry: c, ..f };
    let m1 = with_flags(m, nf);
    crate::gameboy::lemma_read_ignores_cpu(m, m1.cpu, m.cpu.regs.hl());
    reveal(Machine::write);
    lemma_usable(m1, t, r);
    lemma_usable_kept(m1, t, r, nf);
}

/// On a usable target, setting a bit succeeds and keeps it usable.
proof fn lemma_res_set_usable(m: Machine, t: RegistersIndirect, p: u8, b: bool)
    requires
        target_usable(m, t),
    ensures
        res_set_spec(m, t, p, b).is_ok(),
        target_usable(res_set_spec(m, t, p, b)->Ok_0, t),
{
    lemma_usable(m, t, 0);
    lemma_usable_kept(m, t, alu::set_bit_spec(reg8(m, t)->Ok_0, p, b), m.cpu.regs.flags);
}

impl Instruction {
    /// BIT: Z from the tested bit of the target (set when it is clear), N
    /// clear, H set.
    pub fn bit(&self, gb: &mut GameBoy, bit_type: BitType) -> (r: Result<MachineCycles, EmulationError>)
        requires
            old(gb).wf(),
            self.op == InstructionType::BIT(bit_type),
        ensures
            final(gb).wf(),
            exec_outcome(old(gb)@, final(gb)@, r, bits_spec(old(gb)@, self.op)),
    {
        let BitType::Registers(target, source) = bit_type;
        let i = get_position_by_bittarget(target);
        let value = get_register_indirect_val(gb, source)?;
        let bit_value = alu::get_bit_val(i, value);
        gb.cpu.regs.flags.zero = !bit_value;
        gb.cpu.regs.flags.subtract = false;
        gb.cpu.regs.flags.half_carry = true;
        self.advance_pc(gb);
        match source {
            RegistersIndirect::HLI => Ok(MachineCycles::Three),
            _ => Ok(MachineCycles::Two),
        }
    }

    /// RL, RLC, RR, RRC: the rotate, then Z from the target.
    fn rotate_op(&self, gb: &mut GameBoy, target: RegistersIndirect, left: bool, is_rc: bool) -> (r: Result<MachineCycles, EmulationError>)
        requires
            old(gb).wf(),
            self.op == (if left {
                if is_rc { InstructionType::RLC(target) } else { InstructionType::RL(target) }
            } else {
                if is_rc { InstructionType::RRC(target) } else { InstructionType::RR(target) }
            }),
        ensures
            final(gb).wf(),
            exec_outcome(old(gb)@, final(gb)@, r, shift_spec(old(gb)@, self.op)),
    {
        let ghost m0 = gb@;
        bitwise_rotate(gb, target, left, is_rc)?;
        proof {
            lemma_rotate_usable(m0, target, left, is_rc);
            lemma_usable(gb@, target, 0);
        }
        set_flag_zero(gb, target)?;
        self.advance_pc(gb);
        match target {
            RegistersIndirect::HLI => Ok(MachineCycles::Four),
            _ => Ok(MachineCycles::Two),
        }
    }

    pub fn rl(&self, gb: &mut GameBoy, target: RegistersIndirect) -> (r: Result<MachineCycles, EmulationError>)
        requires
            old(gb).wf(),
            self.op == InstructionType::RL(target),
        ensures
            final(gb).wf(),
            exec_outcome(old(gb)@, final(gb)@, r, shift_spec(old(gb)@, self.op)),
    {
        self.rotate_op(gb, target, true, false)
    }

    pub fn rlc(&self, gb: &mut GameBoy, target: RegistersIndirect) -> (r: Result<MachineCycles, EmulationError>)
        requires
            old(gb).wf(),
            self.op == InstructionType::RLC(target),
        ensures
            final(gb).wf(),
            exec_outcome(old(gb)@, final(gb)@, r, shift_spec(old(gb)@, self.op)),
    {
        self.rotate_op(gb, target, true, true)
    }

    pub fn rr(&self, gb: &mut GameBoy, target: RegistersIndirect) -> (r: Result<MachineCycles, EmulationError>)
        requires
            old(gb).wf(),
            self.op == InstructionType::RR(target),
        ensures
            final(gb).wf(),
            exec_outcome(old(gb)@, final(gb)@, r, shift_spec(old(gb)@, self.op)),
    {
        self.rotate_op(gb, target, false, false)
    }

    pub fn rrc(&self, gb: &mut GameBoy, target: RegistersIndirect) -> (r: Result<MachineCycles, EmulationError>)
        requires
            old(gb).wf(),
            self.op == InstructionType::RRC(target),
        ensures
            final(gb).wf(),
            exec_outcome(old(gb)@, final(gb)@, r, shift_spec(old(gb)@, self.op)),
    {
        self.rotate_op(gb, target, false, true)
    }

    /// SLA: rotate left around the carry, clear bit 0, then Z.
    pub fn sla(&self, gb: &mut GameBoy, target: RegistersIndirect) -> (r: Result<MachineCycles, EmulationError>)
        requires
            old(gb).wf(),
            self.op == InstructionType::SLA(target),
        ensures
            final(gb).wf(),
            exec_outcome(old(gb)@, final(gb)@, r, shift_spec(old(gb)@, self.op)),
    {
        let ghost m0 = gb@;
        bitwise_rotate(gb, target, true, true)?;
        let ghost m1 = gb@;
        proof {
            lemma_rotate_usable(m0, target, true, true);
            lemma_res_set_usable(m1, target, 0, false);
        }
        res_set(gb, ResSetType::Registers(BitTarget::Zero, target), false)?;
        proof {
            lemma_usable(gb@, target, 0);
        }
        set_flag_zero(gb, target)?;
        self.advance_pc(gb);
        match target {
            RegistersIndirect::HLI => Ok(MachineCycles::Four),
            _ => Ok(MachineCycles::Two),
        }
    }

    /// SRA: rotate right around the carry, bit 7 kept as it was, then Z.
    pub fn sra(&self, gb: &mut GameBoy, target: RegistersIndirect) -> (r: Result<MachineCycles, EmulationError>)
        requires
            old(gb).wf(),
            self.op == InstructionType::SRA(target),
        ensures
            final(gb).wf(),
            exec_outcome(old(gb)@, final(gb)@, r, shift_spec(old(gb)@, self.op)),
    {
        let ghost m0 = gb@;
        let value = get_register_indirect_val(gb, target)?;
        let bit7 = alu::get_bit_val(7, value);
        bitwise_rotate(gb, target, false, true)?;
        let ghost m1 = gb@;
        proof {
            lemma_rotate_usable(m0, target, false, true);
            lemma_res_set_usable(m1, target, 7, bit7);
        }
        res_set(gb, ResSetType::Registers(BitTarget::Seven, target), bit7)?;
        proof {
            lemma_usable(gb@, target, 0);
        }
        set_flag_zero(gb, target)?;
        self.advance_pc(gb);
        match target {
            RegistersIndirect::HLI => Ok(MachineCycles::Four),
            _ => Ok(MachineCycles::Two),
        }
    }

    /// SRL: rotate right around the carry, clear bit 7, then Z.
    pub fn srl(&self, gb: &mut GameBoy, target: RegistersIndirect) -> (r: Result<MachineCycles, EmulationError>)
        requires
            old(gb).wf(),
            self.op == InstructionType::SRL(target),
        ensures
            final(gb).wf(),
            exec_outcome(old(gb)@, final(gb)@, r, shift_spec(old(gb)@, self.op)),
    {
        let ghost m0 = gb@;
        bitwise_rotate(gb, target, false, true)?;
        let ghost m1 = gb@;
        proof {
            lemma_rotate_usable(m0, target, false, true);
            lemma_res_set_usable(m1, target, 7, false);
        }
        res_set(gb, ResSetType::Registers(BitTarget::Seven, target), false)?;
        proof {
            lemma_usable(gb@, target, 0);
        }
        set_flag_zero(gb, target)?;
        self.advance_pc(gb);
        match target {
            RegistersIndirect::HLI => Ok(MachineCycles::Four),
            _ => Ok(MachineCycles::Two),
        }
    }

    /// RLA, RLCA, RRA, RRCA: rotates of A; Z is cleared.
    fn rotate_a(&self, gb: &mut GameBoy, left: bool, is_rc: bool) -> (r: Result<MachineCycles, EmulationError>)
        requires
            old(gb).wf(),
            size_spec(self.op) == crate::decode::InstructionSize::OneByte,
        ensures
            final(gb).wf(),
            exec_outcome(old(gb)@, final(gb)@, r, rotate_a_spec(old(gb)@, left, is_rc)),
    {
        bitwise_rotate(gb, RegistersIndirect::A, left, is_rc)?;
        gb.cpu.regs.flags.zero = false;
        self.advance_pc(gb);
        Ok(MachineCycles::One)
    }

    pub fn rla(&self, gb: &mut GameBoy) -> (r: Result<MachineCycles, EmulationError>)
        requires
            old(gb).wf(),
            self.op == InstructionType::RLA,
        ensures
            final(gb).wf(),
            exec_outcome(old(gb)@, final(gb)@, r, rotate_a_spec(old(gb)@, true, false)),
    {
        self.rotate_a(gb, true, false)
    }

    pub fn rlca(&self, gb: &mut GameBoy) -> (r: Result<MachineCycles, EmulationError>)
        requires
            old(gb).wf(),
            self.op == InstructionType::RLCA,
        ensures
            final(gb).wf(),
            exec_outcome(old(gb)@, final(gb)@, r, rotate_a_spec(old(gb)@, true, true)),
    {
        self.rotate_a(gb, true, true)
    }

    pub fn rra(&self, gb: &mut GameBoy) -> (r: Result<MachineCycles, EmulationError>)
        requires
            old(gb).wf(),
            self.op == InstructionType::RRA,
        ensures
            final(gb).wf(),
            exec_outcome(old(gb)@, final(gb)@, r, rotate_a_spec(old(gb)@, false, false)),
    {
        self.rotate_a(gb, false, false)
    }

    pub fn rrca(&self, gb: &mut GameBoy) -> (r: Result<MachineCycles, EmulationError>)
        requires
            old(gb).wf(),
            self.op == InstructionType::RRCA,
        ensures
            final(gb).wf(),
            exec_outcome(old(gb)@, final(gb)@, r, rotate_a_spec(old(gb)@, false, true)),
    {
        self.rotate_a(gb, false, true)
    }

    /// SWAP: the nibbles of the target exchanged; N, H, C cleared, then Z.
    pub fn swap(&self, gb: &mut GameBoy, target: RegistersIndirect) -> (r: Result<MachineCycles, EmulationError>)
        requires
            old(gb).wf(),
            self.op == InstructionType::SWAP(target),
        ensures
            final(gb).wf(),
            exec_outcome(old(gb)@, final(gb)@, r, bits_spec(old(gb)@, self.op)),
    {
        let ghost m0 = gb@;
        let value = get_register_indirect_val(gb, target)?;
        let new_value = alu::swap_nibbles(value);
        set_register_indirect_val(gb, target, new_value)?;
        let ghost m1 = gb@;
        gb.cpu.regs.flags.subtract = false;
        gb.cpu.regs.flags.half_carry = false;
        gb.cpu.regs.flags.carry = false;
        proof {
            lemma_usable(m0, target, new_value);
            lemma_usable_kept(m0, target, new_value, m0.cpu.regs.flags);
            lemma_usable_kept(m1, target, 0, gb@.cpu.regs.flags);
            assert(gb@ == with_flags(m1, gb@.cpu.regs.flags));
            lemma_usable(gb@, target, 0);
        }
        set_flag_zero(gb, target)?;
        self.advance_pc(gb);
        Ok(MachineCycles::Two)
    }

    /// RES: clears a bit of the target.
    pub fn res(&self, gb: &mut GameBoy, target: ResSetType) -> (r: Result<MachineCycles, EmulationError>)
        requires
            old(gb).wf(),
            self.op == InstructionType::RES(target),
        ensures
            final(gb).wf(),
            exec_outcome(old(gb)@, final(gb)@, r, bits_spec(old(gb)@, self.op)),
    {
        let ResSetType::Registers(_, register) = target;
        res_set(gb, target, false)?;
        self.advance_pc(gb);
        match register {
            RegistersIndirect::HLI => Ok(MachineCycles::Four),
            _ => Ok(MachineCycles::Two),
        }
    }

    /// SET: sets a bit of the target.
    pub fn set(&self, gb: &mut GameBoy, target: ResSetType) -> (r: Result<MachineCycles, EmulationError>)
        requires
            old(gb).wf(),
            self.op == InstructionType::SET(target),
        ensures
            final(gb).wf(),
            exec_outcome(old(gb)@, final(gb)@, r, bits_spec(old(gb)@, self.op)),
    {
        let ResSetType::Registers(_, register) = target;
        res_set(gb, target, true)?;
        self.advance_pc(gb);
        match register {
            RegistersIndirect::HLI => Ok(MachineCycles::Four),
            _ => Ok(MachineCycles::Two),
        }
    }
}

impl Instruction {
    pub fn load_byte(&self, gb: &mut GameBoy, target: RegistersIndirect, source: RegistersIndDir) -> (r: Result<MachineCycles, EmulationError>)
        requires
            old(gb).wf(),
            self.op == InstructionType::LD(LoadType::Byte(target, source)),
        ensures
            final(gb).wf(),
            exec_outcome(old(gb)@, final(gb)@, r, load_spec(old(gb)@, LoadType::Byte(target, source))),
    {
        let source_value = get_arithmetic_target_val(gb, source)?;
        set_register_indirect_val(gb, target, source_value)?;
        self.advance_pc(gb);
        if source == RegistersIndDir::HLI || target == RegistersIndirect::HLI {
            Ok(MachineCycles::Two)
        } else {
            Ok(MachineCycles::One)
        }
    }

    pub fn load_word(&self, gb: &mut GameBoy, target: WordRegister) -> (r: Result<MachineCycles, EmulationError>)
        requires
            old(gb).wf(),
            self.op == InstructionType::LD(LoadType::Word(target)),
        ensures
            final(gb).wf(),
            exec_outcome(old(gb)@, final(gb)@, r, load_spec(old(gb)@, LoadType::Word(target))),
    {
        let value = read_next_word(gb, gb.cpu.pc)?;
        match target {
            WordRegister::BC => gb.cpu.regs.set_bc(value),
            WordRegister::DE => gb.cpu.regs.set_de(value),
            WordRegister::HL => gb.cpu.regs.set_hl(value),
            WordRegister::SP => gb.cpu.sp = value,
        }
        self.advance_pc(gb);
        Ok(MachineCycles::Three)
    }

    pub fn load_a_from_indirect(&self, gb: &mut GameBoy, source: LoadIndirectSource) -> (r: Result<MachineCycles, EmulationError>)
        requires
            old(gb).wf(),
            self.op == InstructionType::LD(LoadType::AFromIndirect(source)),
        ensures
            final(gb).wf(),
            exec_outcome(old(gb)@, final(gb)@, r, load_spec(old(gb)@, LoadType::AFromIndirect(source))),
    {
        let addr = indirect_address(&gb.cpu.regs, source);
        let value = read8(gb, addr)?;
        gb.cpu.regs.a = value;
        step_hl(&mut gb.cpu.regs, source);
        self.advance_pc(gb);
        Ok(MachineCycles::Two)
    }

    pub fn load_indirect_from_a(&self, gb: &mut GameBoy, target: LoadIndirectSource) -> (r: Result<MachineCycles, EmulationError>)
        requires
            old(gb).wf(),
            self.op == InstructionType::LD(LoadType::IndirectFromA(target)),
        ensures
            final(gb).wf(),
            exec_outcome(old(gb)@, final(gb)@, r, load_spec(old(gb)@, LoadType::IndirectFromA(target))),
    {
        let addr = indirect_address(&gb.cpu.regs, target);
        let a = gb.cpu.regs.a;
        write8(gb, addr, a)?;
        step_hl(&mut gb.cpu.regs, target);
        self.advance_pc(gb);
        Ok(MachineCycles::Two)
    }

    pub fn load_a_from_direct(&self, gb: &mut GameBoy) -> (r: Result<MachineCycles, EmulationError>)
        requires
            old(gb).wf(),
            self.op == InstructionType::LD(LoadType::AFromDirect),
        ensures
            final(gb).wf(),
            exec_outcome(old(gb)@, final(gb)@, r, load_spec(old(gb)@, LoadType::AFromDirect)),
    {
        let address = read_next_word(gb, gb.cpu.pc)?;
        let value = read8(gb, address)?;
        gb.cpu.regs.a = value;
        self.advance_pc(gb);
        Ok(MachineCycles::Four)
    }

    pub fn load_direct_from_a(&self, gb: &mut GameBoy) -> (r: Result<MachineCycles, EmulationError>)
        requires
            old(gb).wf(),
            self.op == InstructionType::LD(LoadType::DirectFromA),
        ensures
            final(gb).wf(),
            exec_outcome(old(gb)@, final(gb)@, r, load_spec(old(gb)@, LoadType::DirectFromA)),
    {
        let address = read_next_word(gb, gb.cpu.pc)?;
        let a = gb.cpu.regs.a;
        write8(gb, address, a)?;
        self.advance_pc(gb);
        Ok(MachineCycles::Four)
    }

    /// The 8-bit and 16-bit loads.
    pub fn load(&self, gb: &mut GameBoy, load_type: LoadType) -> (r: Result<MachineCycles, EmulationError>)
        requires
            old(gb).wf(),
            self.op == InstructionType::LD(load_type),
        ensures
            final(gb).wf(),
            exec_outcome(old(gb)@, final(gb)@, r, load_spec(old(gb)@, load_type)),
    {
        match load_type {
            LoadType::Byte(target, source) => self.load_byte(gb, target, source),
            LoadType::Word(target) => self.load_word(gb, target),
            LoadType::AFromIndirect(source) => self.load_a_from_indirect(gb, source),
            LoadType::IndirectFromA(target) => self.load_indirect_from_a(gb, target),
            LoadType::AFromDirect => self.load_a_from_direct(gb),
            LoadType::DirectFromA => self.load_direct_from_a(gb),
        }
    }

    /// The loads through the high page: 0xFF00 plus C or plus the byte after
    /// the opcode.
    pub fn ldff(&self, gb: &mut GameBoy, load_type: LoadFFType) -> (r: Result<MachineCycles, EmulationError>)
        requires
            old(gb).wf(),
            self.op == InstructionType::LDFF(load_type),
        ensures
            final(gb).wf(),
            exec_outcome(old(gb)@, final(gb)@, r, ldff_spec(old(gb)@, load_type)),
    {
        match load_type {
            LoadFFType::AtoFFC => {
                let addr: u16 = 0xFF00 + gb.cpu.regs.c as u16;
                let a = gb.cpu.regs.a;
                write8(gb, addr, a)?;
                self.advance_pc(gb);
                Ok(MachineCycles::Two)
            },
            LoadFFType::FFCtoA => {
                let addr: u16 = 0xFF00 + gb.cpu.regs.c as u16;
                gb.cpu.regs.a = read8(gb, addr)?;
                self.advance_pc(gb);
                Ok(MachineCycles::Two)
            },
            LoadFFType::AtoFFa8 => {
                let n = read_next_byte(gb, gb.cpu.pc)?;
                let addr: u16 = 0xFF00 + n as u16;
                let a = gb.cpu.regs.a;
                write8(gb, addr, a)?;
                self.advance_pc(gb);
                Ok(MachineCycles::Three)
            },
            LoadFFType::FFa8toA => {
                let n = read_next_byte(gb, gb.cpu.pc)?;
                let addr: u16 = 0xFF00 + n as u16;
                gb.cpu.regs.a = read8(gb, addr)?;
                self.advance_pc(gb);
                Ok(MachineCycles::Three)
            },
        }
    }
}

/// The program counter plus the signed byte `offset + 2` (wrapping as a
/// byte first).
pub fn relative_target(pc: u16, offset: u8) -> (r: u16)
    ensures
        r == jr_target(pc, offset),
{
    let t: u8 = offset.wrapping_add(2);
    let delta: u16 = if t < 128 { t as u16 } else { 0xFF00u16 + t as u16 };
    pc.wrapping_add(delta)
}

/// The address of an indirect load: BC, DE or HL.
fn indirect_address(regs: &Registers, source: LoadIndirectSource) -> (r: u16)
    ensures
        r == indirect_addr(*regs, source),
{
    match source {
        LoadIndirectSource::BC => regs.get_bc(),
        LoadIndirectSource::DE => regs.get_de(),
        _ => regs.get_hl(),
    }
}

/// HL up by one for (HL+), down by one for (HL-).
fn step_hl(regs: &mut Registers, source: LoadIndirectSource)
    ensures
        *final(regs) == hl_step(*old(regs), source),
{
    match source {
        LoadIndirectSource::HLInc => {
            let v = regs.get_hl().wrapping_add(1);
            regs.set_hl(v);
        },
        LoadIndirectSource::HLDec => {
            let v = regs.get_hl().wrapping_sub(1);
            regs.set_hl(v);
        },
        _ => {},
    }
}

/// Writes two bytes, both at writable addresses.
fn write_two(gb: &mut GameBoy, a1: u16, v1: u8, a2: u16, v2: u8)
    requires
        old(gb).wf(),
        writable_spec(a1),
        writable_spec(a2),
    ensures
        final(gb).wf(),
        final(gb).cpu == old(gb).cpu,
        old(gb)@.write(a1, v1).is_some(),
        old(gb)@.write(a1, v1)->0.write(a2, v2) == Some(final(gb)@),
{
    MMU::write_byte(gb, a1, v1);
    MMU::write_byte(gb, a2, v2);
}

/// Adds one to a register pair, wrapping.
fn inc_word(gb: &mut GameBoy, target: WordRegister)
    requires
        old(gb).wf(),
    ensures
        final(gb).wf(),
        final(gb)@ == put_word(old(gb)@, target, wrap16(word_reg(old(gb)@, target) + 1)),
{
    match target {
        WordRegister::BC => {
            let v = gb.cpu.regs.get_bc().wrapping_add(1);
            gb.cpu.regs.set_bc(v);
        },
        WordRegister::DE => {
            let v = gb.cpu.regs.get_de().wrapping_add(1);
            gb.cpu.regs.set_de(v);
        },
        WordRegister::HL => {
            let v = gb.cpu.regs.get_hl().wrapping_add(1);
            gb.cpu.regs.set_hl(v);
        },
        WordRegister::SP => {
            gb.cpu.sp = gb.cpu.sp.wrapping_add(1);
        },
    }
}

/// Takes one from a register pair, wrapping.
fn dec_word(gb: &mut GameBoy, target: WordRegister)
    requires
        old(gb).wf(),
    ensures
        final(gb).wf(),
        final(gb)@ == put_word(old(gb)@, target, wrap16(word_reg(old(gb)@, target) - 1)),
{
    match target {
        WordRegister::BC => {
            let v = gb.cpu.regs.get_bc().wrapping_sub(1);
            gb.cpu.regs.set_bc(v);
        },
        WordRegister::DE => {
            let v = gb.cpu.regs.get_de().wrapping_sub(1);
            gb.cpu.regs.set_de(v);
        },
        WordRegister::HL => {
            let v = gb.cpu.regs.get_hl().wrapping_sub(1);
            gb.cpu.regs.set_hl(v);
        },
        WordRegister::SP => {
            gb.cpu.sp = gb.cpu.sp.wrapping_sub(1);
        },
    }
}

/// A push is taken exactly when the two bytes below the stack pointer are
/// writable.
pub proof fn lemma_push_some(m: Machine, value: u16)
    ensures
        push_spec(m, value).is_ok() <==> writable_spec(wrap16(m.cpu.sp - 1)) && writable_spec(wrap16(m.cpu.sp - 2)),
        !writable_spec(wrap16(m.cpu.sp - 1)) ==> push_spec(m, value) == Err::<Machine, EmulationError>(
            EmulationError::ProhibitedWrite(wrap16(m.cpu.sp - 1)),
        ),
        writable_spec(wrap16(m.cpu.sp - 1)) && !writable_spec(wrap16(m.cpu.sp - 2)) ==> push_spec(m, value) == Err::<
            Machine,
            EmulationError,
        >(EmulationError::ProhibitedWrite(wrap16(m.cpu.sp - 2))),
{
    reveal(Machine::write);
}

/// A write is refused exactly at the addresses that are not writable.
pub proof fn lemma_write_none_iff(m: Machine, a: u16, v: u8)
    ensures
        m.write(a, v).is_none() <==> !writable_spec(a),
{
    reveal(Machine::write);
}

} // verus!
