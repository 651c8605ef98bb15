//! Conditional control flow, restart vectors, the control flow opcodes and
//! instruction lengths.
use vstd::prelude::*;
use crate::decode::{bit_code, unprefixed_spec, InstructionType, JumpTest, LoadType, LoadFFType, RegistersIndDir, size_spec, size_bytes_spec, prefixed_spec};
use crate::gameboy::Machine;
use crate::semantics::{bit_number, flow_spec, push_spec, exec_spec, jr_target, next_byte, with_pc, wrap16, MachineCycles};

verus! {

// ------------------------------------------------------- conditional flow

/// A conditional jump, call or return is taken exactly when its condition
/// holds on the flags: NZ when Z is clear, Z when Z is set, NC when C is
/// clear, C when C is set, and always without a condition. Not taken, the
/// instruction only moves the program counter past itself (two bytes for
/// JR, three for JP and CALL, one for RET) and takes the shorter time;
/// taken, it takes the longer time, and JR goes to the program counter plus
/// its signed offset plus two.
pub proof fn lemma_conditions_decide_flow(m: Machine, t: JumpTest)
    ensures
        ({
            let f = m.cpu.regs.flags;
            let pc = m.cpu.pc;
            let taken = match t {
                JumpTest::NotZero => !f.zero,
                JumpTest::Zero => f.zero,
                JumpTest::NotCarry => !f.carry,
                JumpTest::Carry => f.carry,
                JumpTest::Always => true,
            };
            &&& !taken ==> exec_spec(m, InstructionType::JR(t)) == Ok::<(Machine, MachineCycles), crate::instructions::EmulationError>(
                (with_pc(m, wrap16(pc + 2)), MachineCycles::Two),
            )
            &&& !taken ==> exec_spec(m, InstructionType::JP(t)) == Ok::<(Machine, MachineCycles), crate::instructions::EmulationError>(
                (with_pc(m, wrap16(pc + 3)), MachineCycles::Three),
            )
            &&& !taken ==> exec_spec(m, InstructionType::CALL(t)) == Ok::<(Machine, MachineCycles), crate::instructions::EmulationError>(
                (with_pc(m, wrap16(pc + 3)), MachineCycles::Three),
            )
            &&& !taken ==> exec_spec(m, InstructionType::RET(t)) == Ok::<(Machine, MachineCycles), crate::instructions::EmulationError>(
                (with_pc(m, wrap16(pc + 1)), MachineCycles::Two),
            )
            &&& taken ==> exec_spec(m, InstructionType::JR(t)) == match next_byte(m) {
                Ok(o) => Ok((with_pc(m, jr_target(pc, o)), MachineCycles::Three)),
                Err(e) => Err(e),
            }
            &&& taken ==> (exec_spec(m, InstructionType::JP(t)) matches Ok((_, c)) ==> c == MachineCycles::Four)
            &&& taken ==> (exec_spec(m, InstructionType::CALL(t)) matches Ok((_, c)) ==> c == MachineCycles::Six)
            &&& taken ==> (exec_spec(m, InstructionType::RET(t)) matches Ok((_, c)) ==> c == MachineCycles::Five)
        }),
{
}

/// Opcode 0xC7 + 8 k is RST k.
proof fn lemma_restart_opcode(k: u8)
    requires
        k < 8,
    ensures
        unprefixed_spec((0xC7 + 8 * k) as u8) == Some(InstructionType::RST(bit_code(k))),
        bit_number(bit_code(k)) == k,
{
    if k == 0 {
        assert(unprefixed_spec(0xC7) == Some(InstructionType::RST(bit_code(0))));
    } else if k == 1 {
        assert(unprefixed_spec(0xCF) == Some(InstructionType::RST(bit_code(1))));
    } else if k == 2 {
        assert(unprefixed_spec(0xD7) == Some(InstructionType::RST(bit_code(2))));
    } else if k == 3 {
        assert(unprefixed_spec(0xDF) == Some(InstructionType::RST(bit_code(3))));
    } else if k == 4 {
        assert(unprefixed_spec(0xE7) == Some(InstructionType::RST(bit_code(4))));
    } else if k == 5 {
        assert(unprefixed_spec(0xEF) == Some(InstructionType::RST(bit_code(5))));
    } else if k == 6 {
        assert(unprefixed_spec(0xF7) == Some(InstructionType::RST(bit_code(6))));
    } else {
        assert(unprefixed_spec(0xFF) == Some(InstructionType::RST(bit_code(7))));
    }
}

/// RST k (opcode 0xC7 + 8 k) pushes the address after it and jumps to
/// 8 k, in sixteen clock cycles.
pub proof fn lemma_restart_vectors(m: Machine, k: u8)
    requires
        k < 8,
    ensures
        unprefixed_spec((0xC7 + 8 * k) as u8) == Some(InstructionType::RST(bit_code(k))),
        exec_spec(m, InstructionType::RST(bit_code(k))) == match push_spec(m, wrap16(m.cpu.pc + 1)) {
            Ok(m1) => Ok((with_pc(m1, (8 * k) as u16), MachineCycles::Four)),
            Err(e) => Err(e),
        },
{
    lemma_restart_opcode(k);
    assert(exec_spec(m, InstructionType::RST(bit_code(k))) == flow_spec(m, InstructionType::RST(bit_code(k))));
}

/// A relative jump with an offset below 0x7E lands the offset plus two bytes
/// after the jump; with an offset of 0x80 or more, 256 minus the offset
/// minus two bytes before it (the offset plus two is wrapped as a signed
/// byte).
pub proof fn lemma_relative_target(pc: u16, o: u8)
    ensures
        o < 0x7E ==> jr_target(pc, o) == (pc + o + 2) % 65536,
        o >= 0x80 ==> jr_target(pc, o) == (pc + o + 2 - 256 + 65536) % 65536,
{
}

// ------------------------------------------------------ instruction length

/// Whether an instruction is one of the CB-prefixed ones.
pub open spec fn cb_prefixed(op: InstructionType) -> bool {
    ||| op is BIT
    ||| op is RL
    ||| op is RLC
    ||| op is RR
    ||| op is RRC
    ||| op is SLA
    ||| op is SRA
    ||| op is SRL
    ||| op is SWAP
    ||| op is RES
    ||| op is SET
}

/// Whether an instruction reads a byte after its opcode: an 8-bit
/// immediate, a relative offset, a high-page offset, a signed offset to SP
/// (and STOP, which is followed by a byte).
pub open spec fn reads_byte_operand(op: InstructionType) -> bool {
    ||| op matches InstructionType::ADD(RegistersIndDir::D8)
    ||| op matches InstructionType::ADC(RegistersIndDir::D8)
    ||| op matches InstructionType::SUB(RegistersIndDir::D8)
    ||| op matches InstructionType::SBC(RegistersIndDir::D8)
    ||| op matches InstructionType::AND(RegistersIndDir::D8)
    ||| op matches InstructionType::XOR(RegistersIndDir::D8)
    ||| op matches InstructionType::OR(RegistersIndDir::D8)
    ||| op matches InstructionType::CP(RegistersIndDir::D8)
    ||| op matches InstructionType::LD(LoadType::Byte(_, RegistersIndDir::D8))
    ||| op matches InstructionType::LDFF(LoadFFType::AtoFFa8)
    ||| op matches InstructionType::LDFF(LoadFFType::FFa8toA)
    ||| op is JR
    ||| op is ADDSPS8
    ||| op is LDHLSPD8
    ||| op is STOP
}

/// Whether an instruction reads a 16-bit word after its opcode: an
/// immediate or an address.
pub open spec fn reads_word_operand(op: InstructionType) -> bool {
    ||| op matches InstructionType::LD(LoadType::Word(_))
    ||| op matches InstructionType::LD(LoadType::AFromDirect)
    ||| op matches InstructionType::LD(LoadType::DirectFromA)
    ||| op is LDSPA16
    ||| op is JP
    ||| op is CALL
}

/// An instruction is as long as its opcode (two bytes with the CB prefix)
/// and the operand bytes it reads after it.
pub proof fn lemma_size_is_opcode_and_operands(op: InstructionType)
    ensures
        size_bytes_spec(size_spec(op)) == if cb_prefixed(op) {
            2u16
        } else if reads_word_operand(op) {
            3u16
        } else if reads_byte_operand(op) {
            2u16
        } else {
            1u16
        },
        !(cb_prefixed(op) && (reads_byte_operand(op) || reads_word_operand(op))),
{
}

/// Every byte after the CB prefix decodes to a prefixed instruction.
pub proof fn lemma_prefixed_are_prefixed(b: u8)
    ensures
        cb_prefixed(prefixed_spec(b)),
{
}

/// The control flow opcodes: 0x18 is JR, 0xC3 JP, 0xCD CALL and 0xC9 RET
/// without a condition; 0x20, 0xC2, 0xC4 and 0xC0 are JR, JP, CALL and RET
/// on NZ, and each following condition (Z, NC, C) adds 8 to the opcode.
/// 0xE0 stores A at 0xFF00 plus a byte and 0xF0 loads it from there.
pub proof fn lemma_flow_opcodes()
    ensures
        unprefixed_spec(0x18) == Some(InstructionType::JR(JumpTest::Always)),
        unprefixed_spec(0xC3) == Some(InstructionType::JP(JumpTest::Always)),
        unprefixed_spec(0xCD) == Some(InstructionType::CALL(JumpTest::Always)),
        unprefixed_spec(0xC9) == Some(InstructionType::RET(JumpTest::Always)),
        unprefixed_spec(0x20) == Some(InstructionType::JR(JumpTest::NotZero)),
        unprefixed_spec(0x28) == Some(InstructionType::JR(JumpTest::Zero)),
        unprefixed_spec(0x30) == Some(InstructionType::JR(JumpTest::NotCarry)),
        unprefixed_spec(0x38) == Some(InstructionType::JR(JumpTest::Carry)),
        unprefixed_spec(0xC2) == Some(InstructionType::JP(JumpTest::NotZero)),
        unprefixed_spec(0xCA) == Some(InstructionType::JP(JumpTest::Zero)),
        unprefixed_spec(0xD2) == Some(InstructionType::JP(JumpTest::NotCarry)),
        unprefixed_spec(0xDA) == Some(InstructionType::JP(JumpTest::Carry)),
        unprefixed_spec(0xC4) == Some(InstructionType::CALL(JumpTest::NotZero)),
        unprefixed_spec(0xCC) == Some(InstructionType::CALL(JumpTest::Zero)),
        unprefixed_spec(0xD4) == Some(InstructionType::CALL(JumpTest::NotCarry)),
        unprefixed_spec(0xDC) == Some(InstructionType::CALL(JumpTest::Carry)),
        unprefixed_spec(0xC0) == Some(InstructionType::RET(JumpTest::NotZero)),
        unprefixed_spec(0xC8) == Some(InstructionType::RET(JumpTest::Zero)),
        unprefixed_spec(0xD0) == Some(InstructionType::RET(JumpTest::NotCarry)),
        unprefixed_spec(0xD8) == Some(InstructionType::RET(JumpTest::Carry)),
        unprefixed_spec(0xE0) == Some(InstructionType::LDFF(LoadFFType::AtoFFa8)),
        unprefixed_spec(0xF0) == Some(InstructionType::LDFF(LoadFFType::FFa8toA)),
{
}

} // verus!
