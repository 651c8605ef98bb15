use gameboy::cartridge::Cartridge;
use gameboy::decode::{Instruction, InstructionType, RegistersIndDir, StackTarget};
use gameboy::gameboy::GameBoy;
use gameboy::rom::ROM;

fn boot_machine() -> GameBoy {
    GameBoy::new(None, ROM::empty())
}

fn dmg_machine() -> GameBoy {
    GameBoy::new(Some(Cartridge::empty()), ROM::dmg(Vec::new()))
}

#[test]
fn add_without_carry() {
    let mut gb = boot_machine();
    gb.cpu.regs.a = 0b00000001;
    gb.cpu.regs.b = 0b00000001;

    let instruction = Instruction::new(InstructionType::ADD(RegistersIndDir::B), None);
    instruction.execute(&mut gb).unwrap();

    assert_eq!(gb.cpu.regs.a, 0b10);
    assert_eq!(gb.cpu.regs.flags.subtract, false);
    assert_eq!(gb.cpu.regs.flags.zero, false);
    assert_eq!(gb.cpu.regs.flags.carry, false);
    assert_eq!(gb.cpu.regs.flags.half_carry, false);
}

#[test]
fn add_with_half_carry() {
    let mut gb = boot_machine();
    gb.cpu.regs.a = 0b00001111;
    gb.cpu.regs.b = 0b00000001;

    let instruction = Instruction::new(InstructionType::ADD(RegistersIndDir::B), None);
    instruction.execute(&mut gb).unwrap();

    assert_eq!(gb.cpu.regs.a, 0b10000);
    assert_eq!(gb.cpu.regs.flags.subtract, false);
    assert_eq!(gb.cpu.regs.flags.zero, false);
    assert_eq!(gb.cpu.regs.flags.carry, false);
    assert_eq!(gb.cpu.regs.flags.half_carry, true);
}

#[test]
fn add_with_carry() {
    let mut gb = boot_machine();
    gb.cpu.regs.a = 0b11111111;
    gb.cpu.regs.b = 0b00000001;

    let instruction = Instruction::new(InstructionType::ADD(RegistersIndDir::B), None);
    instruction.execute(&mut gb).unwrap();

    assert_eq!(gb.cpu.regs.a, 0b0);
    assert_eq!(gb.cpu.regs.flags.subtract, false);
    assert_eq!(gb.cpu.regs.flags.zero, true);
    assert_eq!(gb.cpu.regs.flags.carry, true);
    assert_eq!(gb.cpu.regs.flags.half_carry, true);
}

#[test]
fn adc_with_carry() {
    let mut gb = boot_machine();
    gb.cpu.regs.a = 0b11111110;
    gb.cpu.regs.b = 0b00000001;
    gb.cpu.regs.flags.carry = true;

    let instruction = Instruction::new(InstructionType::ADC(RegistersIndDir::B), None);
    instruction.execute(&mut gb).unwrap();

    assert_eq!(gb.cpu.regs.a, 0b0);
    assert_eq!(gb.cpu.regs.flags.subtract, false);
    assert_eq!(gb.cpu.regs.flags.zero, true);
    assert_eq!(gb.cpu.regs.flags.carry, true);
    assert_eq!(gb.cpu.regs.flags.half_carry, true);
}

#[test]
fn adc_with_half_carry() {
    let mut gb = boot_machine();
    gb.cpu.regs.a = 0b00001110;
    gb.cpu.regs.b = 0b00000001;
    gb.cpu.regs.flags.carry = true;

    let instruction = Instruction::new(InstructionType::ADC(RegistersIndDir::B), None);
    instruction.execute(&mut gb).unwrap();

    assert_eq!(gb.cpu.regs.a, 0b10000);
    assert_eq!(gb.cpu.regs.flags.subtract, false);
    assert_eq!(gb.cpu.regs.flags.zero, false);
    assert_eq!(gb.cpu.regs.flags.carry, false);
    assert_eq!(gb.cpu.regs.flags.half_carry, true);
}

#[test]
fn sub_with_carry() {
    let mut gb = boot_machine();
    gb.cpu.regs.a = 0b00001111;
    gb.cpu.regs.b = 0b10000000;

    let instruction = Instruction::new(InstructionType::SUB(RegistersIndDir::B), None);
    instruction.execute(&mut gb).unwrap();

    assert_eq!(gb.cpu.regs.a, 0b10001111);
    assert_eq!(gb.cpu.regs.flags.subtract, true);
    assert_eq!(gb.cpu.regs.flags.zero, false);
    assert_eq!(gb.cpu.regs.flags.carry, true);
    assert_eq!(gb.cpu.regs.flags.half_carry, false);
}

#[test]
fn sub_with_half_carry() {
    let mut gb = boot_machine();
    gb.cpu.regs.a = 0x1;
    gb.cpu.regs.b = 0xf;

    let instruction = Instruction::new(InstructionType::SUB(RegistersIndDir::B), None);
    instruction.execute(&mut gb).unwrap();

    assert_eq!(gb.cpu.regs.a, 0xF2);
    assert_eq!(gb.cpu.regs.flags.subtract, true);
    assert_eq!(gb.cpu.regs.flags.zero, false);
    assert_eq!(gb.cpu.regs.flags.carry, true);
    assert_eq!(gb.cpu.regs.flags.half_carry, true);
}

#[test]
fn tests_add_without_carry() {
    let mut gb = dmg_machine();
    gb.cpu.regs.a = 0b00000001;
    gb.cpu.regs.b = 0b00000001;

    let instruction = Instruction::new(InstructionType::ADD(RegistersIndDir::B), None);
    instruction.execute(&mut gb).unwrap();

    assert_eq!(gb.cpu.regs.a, 0b10);
    assert_eq!(gb.cpu.regs.flags.subtract, false);
    assert_eq!(gb.cpu.regs.flags.zero, false);
    assert_eq!(gb.cpu.regs.flags.carry, false);
    assert_eq!(gb.cpu.regs.flags.half_carry, false);
}

#[test]
fn tests_add_with_half_carry() {
    let mut gb = dmg_machine();
    gb.cpu.regs.a = 0b00001111;
    gb.cpu.regs.b = 0b00000001;

    let instruction = Instruction::new(InstructionType::ADD(RegistersIndDir::B), None);
    instruction.execute(&mut gb).unwrap();

    assert_eq!(gb.cpu.regs.a, 0b10000);
    assert_eq!(gb.cpu.regs.flags.subtract, false);
    assert_eq!(gb.cpu.regs.flags.zero, false);
    assert_eq!(gb.cpu.regs.flags.carry, false);
    assert_eq!(gb.cpu.regs.flags.half_carry, true);
}

#[test]
fn tests_add_with_carry() {
    let mut gb = dmg_machine();
    gb.cpu.regs.a = 0b11111111;
    gb.cpu.regs.b = 0b00000001;

    let instruction = Instruction::new(InstructionType::ADD(RegistersIndDir::B), None);
    instruction.execute(&mut gb).unwrap();

    assert_eq!(gb.cpu.regs.a, 0b0);
    assert_eq!(gb.cpu.regs.flags.subtract, false);
    assert_eq!(gb.cpu.regs.flags.zero, true);
    assert_eq!(gb.cpu.regs.flags.carry, true);
    assert_eq!(gb.cpu.regs.flags.half_carry, true);
}

#[test]
fn tests_adc_with_carry() {
    let mut gb = dmg_machine();
    gb.cpu.regs.a = 0b11111110;
    gb.cpu.regs.b = 0b00000001;
    gb.cpu.regs.flags.carry = true;

    let instruction = Instruction::new(InstructionType::ADC(RegistersIndDir::B), None);
    instruction.execute(&mut gb).unwrap();

    assert_eq!(gb.cpu.regs.a, 0b0);
    assert_eq!(gb.cpu.regs.flags.subtract, false);
    assert_eq!(gb.cpu.regs.flags.zero, true);
    assert_eq!(gb.cpu.regs.flags.carry, true);
    assert_eq!(gb.cpu.regs.flags.half_carry, true);
}

#[test]
fn tests_adc_with_half_carry() {
    let mut gb = dmg_machine();
    gb.cpu.regs.a = 0b00001110;
    gb.cpu.regs.b = 0b00000001;
    gb.cpu.regs.flags.carry = true;

    let instruction = Instruction::new(InstructionType::ADC(RegistersIndDir::B), None);
    instruction.execute(&mut gb).unwrap();

    assert_eq!(gb.cpu.regs.a, 0b10000);
    assert_eq!(gb.cpu.regs.flags.subtract, false);
    assert_eq!(gb.cpu.regs.flags.zero, false);
    assert_eq!(gb.cpu.regs.flags.carry, false);
    assert_eq!(gb.cpu.regs.flags.half_carry, true);
}

#[test]
fn tests_sub_with_carry() {
    let mut gb = dmg_machine();
    gb.cpu.regs.a = 0b00001111;
    gb.cpu.regs.b = 0b10000000;

    let instruction = Instruction::new(InstructionType::SUB(RegistersIndDir::B), None);
    instruction.execute(&mut gb).unwrap();

    assert_eq!(gb.cpu.regs.a, 0b10001111);
    assert_eq!(gb.cpu.regs.flags.subtract, true);
    assert_eq!(gb.cpu.regs.flags.zero, false);
    assert_eq!(gb.cpu.regs.flags.carry, true);
    assert_eq!(gb.cpu.regs.flags.half_carry, false);
}

#[test]
fn tests_sub_with_half_carry() {
    let mut gb = dmg_machine();
    gb.cpu.regs.a = 0x1;
    gb.cpu.regs.b = 0xf;

    let instruction = Instruction::new(InstructionType::SUB(RegistersIndDir::B), None);
    instruction.execute(&mut gb).unwrap();

    assert_eq!(gb.cpu.regs.a, 0xF2);
    assert_eq!(gb.cpu.regs.flags.subtract, true);
    assert_eq!(gb.cpu.regs.flags.zero, false);
    assert_eq!(gb.cpu.regs.flags.carry, true);
    assert_eq!(gb.cpu.regs.flags.half_carry, true);
}

#[test]
fn sbc_with_carry() {
    let mut gb = dmg_machine();
    gb.cpu.regs.a = 0b00001111;
    gb.cpu.regs.b = 0b01111111;
    gb.cpu.regs.flags.carry = true;

    let instruction = Instruction::new(InstructionType::SBC(RegistersIndDir::B), None);
    instruction.execute(&mut gb).unwrap();

    assert_eq!(gb.cpu.regs.a, 0b10001111);
    assert_eq!(gb.cpu.regs.flags.subtract, true);
    assert_eq!(gb.cpu.regs.flags.zero, false);
    assert_eq!(gb.cpu.regs.flags.carry, true);
    assert_eq!(gb.cpu.regs.flags.half_carry, false);
}

#[test]
fn get_af() {
    let mut gb = dmg_machine();

    gb.cpu.regs.a = 0b01010101;
    gb.cpu.regs.flags.zero = false;
    gb.cpu.regs.flags.subtract = true;
    gb.cpu.regs.flags.half_carry = false;
    gb.cpu.regs.flags.carry = true;

    assert_eq!(gb.cpu.regs.get_af(), 0b0101010101010000);
}

#[test]
fn set_af() {
    let mut gb = dmg_machine();

    gb.cpu.regs.set_af(0b0101010101010000);

    assert_eq!(gb.cpu.regs.a, 0b01010101);
    assert_eq!(gb.cpu.regs.flags.subtract, true);
    assert_eq!(gb.cpu.regs.flags.zero, false);
    assert_eq!(gb.cpu.regs.flags.carry, true);
    assert_eq!(gb.cpu.regs.flags.half_carry, false);
}

#[test]
fn exec_boot_room() {
    let boot = ROM::dmg(Vec::new());
    let gb = GameBoy::new(None, boot);

    assert_eq!(gb.cpu.pc, 0);
}

#[test]
fn stack_push_pop() {
    let mut gb = dmg_machine();
    gb.cpu.sp = 0xFF;

    let test_value: u16 = 0b0101010101010000;

    gb.cpu.regs.set_bc(test_value);

    Instruction::new(InstructionType::PUSH(StackTarget::BC), None).execute(&mut gb).unwrap();
    Instruction::new(InstructionType::POP(StackTarget::HL), None).execute(&mut gb).unwrap();

    assert_eq!(gb.cpu.regs.get_hl(), gb.cpu.regs.get_bc());
}
