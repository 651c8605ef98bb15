use gameboy::alu;
use gameboy::bus::MemoryBus;
use gameboy::cartridge::Cartridge;
use gameboy::decode::{BitTarget, BitType, Instruction, InstructionSize, InstructionType, LoadType, RegistersIndirect, WordRegister};
use gameboy::emulation::{Emulation, CPU_CLOCK_HZ, CPU_CYCLES_PER_FRAME};
use gameboy::frame::ColoredPixel;
use gameboy::interrupts::{Interruption, Interrupts};
use gameboy::joypad::Button;
use gameboy::registers::{FlagsRegister, Registers};
use gameboy::rom::ROM;

fn image_with_title(title: &[u8]) -> Vec<u8> {
    let mut data = vec![0u8; 0x8000];
    for (i, b) in title.iter().enumerate() {
        data[0x134 + i] = *b;
    }
    data[0x147] = 0x01;
    data
}

#[test]
fn cartridge_title_from_header() {
    let cartridge = Cartridge::from_bytes(image_with_title(b"TETRIS")).unwrap();
    assert_eq!(cartridge.title(), "TETRIS\0\0\0\0\0\0\0\0\0");
    assert_eq!(cartridge.get_title(), "TETRIS\0\0\0\0\0\0\0\0\0");
    assert_eq!(gameboy::cartridge::parse_title(&image_with_title(b"ZELDA")), "ZELDA\0\0\0\0\0\0\0\0\0\0");
    assert_eq!(cartridge.ctype(), Some(0x01));
    assert_eq!(cartridge.read_byte(0x0134), b'T');
}

#[test]
fn cartridge_with_invalid_title_is_refused() {
    assert!(Cartridge::from_bytes(image_with_title(&[0xFF, 0xFE])).is_none());
    assert!(Cartridge::from_bytes(vec![0u8; 0x100]).is_none());
    assert!(Cartridge::cpu_instrs_01(vec![0u8; 0x142]).is_none());
    assert!(Cartridge::cpu_instrs_02(vec![0u8; 0x143]).is_some());
}

#[test]
fn test_cartridges_keep_their_image() {
    let image = image_with_title(b"CPU_INSTRS");
    let cartridges = vec![
        Cartridge::cpu_instrs_01(image.clone()),
        Cartridge::cpu_instrs_03(image.clone()),
        Cartridge::cpu_instrs_04(image.clone()),
        Cartridge::cpu_instrs_05(image.clone()),
        Cartridge::cpu_instrs_06(image.clone()),
        Cartridge::cpu_instrs_07(image.clone()),
        Cartridge::cpu_instrs_08(image.clone()),
        Cartridge::cpu_instrs_09(image.clone()),
        Cartridge::cpu_instrs_10(image.clone()),
        Cartridge::cpu_instrs_11(image.clone()),
        Cartridge::halt_bug(image.clone()),
    ];
    for c in cartridges {
        let c = c.unwrap();
        assert_eq!(c.data, image);
        assert!(c.title().starts_with("CPU_INSTRS"));
    }
}

#[test]
fn empty_cartridge() {
    let c = Cartridge::empty();
    assert_eq!(c.title(), "empty");
    assert_eq!(c.data.len(), 0x150);
    assert_eq!(c.get_title(), "\0\0\0\0\0\0\0\0\0\0\0\0\0\0\0");
    assert_eq!(c.ctype(), Some(0));
}

#[test]
fn rom_pads_and_truncates() {
    let rom = ROM::new(vec![1, 2, 3]);
    assert_eq!(rom.size(), 256);
    assert_eq!(rom.read_byte(2), 3);
    assert_eq!(rom.read_byte(3), 0);
    let long = ROM::dmg(vec![7u8; 300]);
    assert_eq!(long.size(), 256);
    assert_eq!(long.read_byte(255), 7);
    assert_eq!(ROM::empty().read_byte(0), 0);
}

#[test]
fn memory_bus_reads_back_writes() {
    let mut bus = MemoryBus::new();
    assert_eq!(bus.read_byte(0x1234), 0);
    bus.write_byte(0x1234, 0x56);
    bus.write_byte(0xFFFE, 0x78);
    assert_eq!(bus.read_byte(0x1234), 0x56);
    assert_eq!(bus.read_byte(0x1235), 0);
    assert_eq!(bus.read_byte(0xFFFE), 0x78);
}

#[test]
fn register_pairs_round_trip() {
    let mut r = Registers::new();
    r.set_bc(0x1234);
    r.set_de(0x5678);
    r.set_hl(0x9ABC);
    assert_eq!(r.get_bc(), 0x1234);
    assert_eq!(r.get_de(), 0x5678);
    assert_eq!(r.get_hl(), 0x9ABC);
    assert_eq!(r.b, 0x12);
    assert_eq!(r.c, 0x34);
    r.set_af(0x12FF);
    // The low nibble of F is not kept.
    assert_eq!(r.get_af(), 0x12F0);
}

#[test]
fn flags_byte_round_trip() {
    let f = FlagsRegister::from_byte(0b1010_0000);
    assert!(f.zero);
    assert!(!f.subtract);
    assert!(f.half_carry);
    assert!(!f.carry);
    assert_eq!(f.to_byte(), 0b1010_0000);
}

#[test]
fn daa_after_bcd_addition() {
    let (sum, flags) = alu::add8(0x45, 0x38);
    assert_eq!(sum, 0x7D);
    let (bcd, f) = alu::daa(sum, flags);
    assert_eq!(bcd, 0x83);
    assert!(!f.carry);
    let (sum, flags) = alu::add8(0x99, 0x01);
    let (bcd, f) = alu::daa(sum, flags);
    assert_eq!(bcd, 0x00);
    assert!(f.carry);
    assert!(f.zero);
}

#[test]
fn alu_formulas() {
    assert_eq!(alu::add8(0x3A, 0xC6).0, 0x00);
    assert!(alu::add8(0x3A, 0xC6).1.carry);
    assert_eq!(alu::sub8(0x3E, 0x0F).0, 0x2F);
    assert!(alu::sub8(0x3E, 0x0F).1.half_carry);
    assert_eq!(alu::add16(0x8A23, 0x0605, FlagsRegister::new()).0, 0x9028);
    assert!(alu::add16(0x8A23, 0x0605, FlagsRegister::new()).1.half_carry);
    assert_eq!(alu::add_sp(0xFFF8, 0x02).0, 0xFFFA);
    assert_eq!(alu::add_sp(0x0005, 0xFF).0, 0x0004);
    assert_eq!(alu::swap_nibbles(0xF1), 0x1F);
    assert_eq!(alu::rotate_left(0b1000_0001, false, true), (0b0000_0011, true));
    assert_eq!(alu::rotate_left(0b1000_0001, false, false), (0b0000_0010, true));
    assert_eq!(alu::rotate_right(0b0000_0001, true, false), (0b1000_0000, true));
    assert!(alu::get_bit_val(7, 0x80));
    assert_eq!(alu::set_bit_val(0, false, 0xFF), 0xFE);
}

#[test]
fn decode_prefixed_and_payloads() {
    let bit = Instruction::parse_instruction(0xCB, 0x7C, 0x00).unwrap();
    assert_eq!(bit.op, InstructionType::BIT(BitType::Registers(BitTarget::Seven, RegistersIndirect::H)));
    assert_eq!(bit.size, InstructionSize::TwoBytes);
    assert_eq!(bit.size_bytes(), 2);
    let ld = Instruction::parse_instruction(0x01, 0x34, 0x12).unwrap();
    assert_eq!(ld.op, InstructionType::LD(LoadType::Word(WordRegister::BC)));
    assert_eq!(ld.payload, Some(0x1234));
    let jp = Instruction::parse_instruction(0xC3, 0x50, 0x01).unwrap();
    assert_eq!(jp.size, InstructionSize::ThreeBytes);
    assert_eq!(jp.payload, Some(0x0150));
    let nop = Instruction::parse_instruction(0x00, 0x00, 0x00).unwrap();
    assert_eq!(nop.op, InstructionType::NOP);
    assert_eq!(nop.payload, None);
    for unused in [0xD3u8, 0xDB, 0xDD, 0xE3, 0xE4, 0xEB, 0xEC, 0xED, 0xF4, 0xFC, 0xFD] {
        assert_eq!(Instruction::parse_instruction(unused, 0, 0), None);
    }
    for b in 0..=255u8 {
        assert!(InstructionType::from_byte_prefixed(b).is_some());
    }
}

#[test]
fn interrupt_priority() {
    let mut i = Interrupts::new();
    i.write_enable(0x1F);
    i.turnon(Interruption::Joypad);
    i.turnon(Interruption::Timer);
    assert!(i.some_interrupt_enabled());
    assert_eq!(i.interrupt_to_handle(), Some(Interruption::Timer));
    assert_eq!(i.read_flag(), 0b1_0000);
    assert_eq!(i.interrupt_to_handle(), Some(Interruption::Joypad));
    assert_eq!(i.interrupt_to_handle(), None);
    assert_eq!(Interruption::Joypad.handler(), 0x60);
    assert_eq!(Interruption::VBlank.handler(), 0x40);
}

#[test]
fn frame_length_matches_the_clock() {
    assert_eq!((CPU_CLOCK_HZ as f32 / 59.7f32) as usize, CPU_CYCLES_PER_FRAME);
}

#[test]
fn emulation_runs_a_frame() {
    // JR -2: a loop on itself.
    let mut emu = Emulation::new(None, ROM::new(vec![0x18, 0xFE]));
    assert!(!emu.running);
    emu.start();
    assert!(emu.running);
    let step = emu.step().unwrap();
    assert!(emu.total_cycles >= CPU_CYCLES_PER_FRAME as u64);
    assert!(emu.total_cycles < CPU_CYCLES_PER_FRAME as u64 + 24);
    assert_eq!(emu.total_cycles % 12, 0);
    assert_eq!(step.framebuffer.width, 160);
    assert_eq!(step.framebuffer.height, 144);
    assert_eq!(step.framebuffer.buffer.len(), 160 * 144);
    assert!(step.framebuffer.buffer.iter().all(|p| *p == ColoredPixel::White));
    assert_eq!(step.tiledata.buffer.len(), 128 * 192);
    assert_eq!(step.background.buffer.len(), 256 * 256);
    let first = emu.total_cycles;
    emu.step().unwrap();
    assert!(emu.total_cycles >= 2 * CPU_CYCLES_PER_FRAME as u64);
    assert!(emu.total_cycles > first);
}

#[test]
fn emulation_stops_at_the_first_failing_tick() {
    // NOPs through the boot ROM and the empty cartridge, until the fetch,
    // which reads three bytes, reads past its end.
    let mut emu = Emulation::new(None, ROM::empty());
    emu.start();
    assert!(emu.step().is_err());
    assert_eq!(emu.gameboy.cpu.pc, 0x014E);
    assert_eq!(emu.total_cycles, 0x14E * 4);
}

#[test]
fn buttons_request_the_joypad_interrupt() {
    let mut emu = Emulation::new(None, ROM::empty());
    emu.button_pressed(Button::Start);
    assert!(emu.gameboy.io.joypad.state.start);
    assert_eq!(emu.gameboy.io.interrupts.flag, 0b1_0000);
    emu.button_released(Button::Start);
    assert!(!emu.gameboy.io.joypad.state.start);
    assert_eq!(emu.gameboy.io.interrupts.flag, 0b1_0000);
}

#[test]
fn add_then_sub_gives_the_operand_back() {
    for (a, v) in [(0x00u8, 0x00u8), (0x12, 0xF0), (0xFF, 0xFF), (0x80, 0x7F)] {
        assert_eq!(alu::sub8(alu::add8(a, v).0, v).0, a);
        assert_eq!(alu::add8(alu::sub8(a, v).0, v).0, a);
        let (sum, flags) = alu::add8(a, v);
        assert_eq!(sum as u16 + 256 * flags.carry as u16, a as u16 + v as u16);
        assert_eq!(alu::adc8(a, v, false), alu::add8(a, v));
        assert_eq!(alu::cp8(a, v), alu::sub8(a, v).1);
    }
}

#[test]
fn rotates_undo_each_other() {
    for x in [0x00u8, 0x01, 0x80, 0xA5, 0xFF] {
        for c in [false, true] {
            assert_eq!(alu::rotate_right(alu::rotate_left(x, c, true).0, c, true).0, x);
            let (y, c1) = alu::rotate_left(x, c, false);
            assert_eq!(alu::rotate_right(y, c1, false), (x, c));
        }
        assert_eq!(alu::swap_nibbles(alu::swap_nibbles(x)), x);
    }
}

#[test]
fn daa_after_bcd_subtraction() {
    let (diff, flags) = alu::sub8(0x42, 0x17);
    let (bcd, f) = alu::daa(diff, flags);
    assert_eq!(bcd, 0x25);
    assert!(!f.carry);
    assert!(!f.half_carry);
    let (diff, flags) = alu::sub8(0x17, 0x42);
    let (bcd, f) = alu::daa(diff, flags);
    assert_eq!(bcd, 0x75);
    assert!(f.carry);
    let (diff, flags) = alu::sub8(0x30, 0x30);
    let (bcd, f) = alu::daa(diff, flags);
    assert_eq!(bcd, 0x00);
    assert!(f.zero);
}
