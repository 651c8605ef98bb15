use gameboy::cartridge::Cartridge;
use gameboy::cpu::CPU;
use gameboy::decode::{Instruction, InstructionType, RegistersIndDir, RegistersIndirect, StackTarget};
use gameboy::gameboy::GameBoy;
use gameboy::instructions::EmulationError;
use gameboy::lcd::LCDMode;
use gameboy::mmu::MMU;
use gameboy::rom::ROM;
use gameboy::semantics::MachineCycles;
use gameboy::serial::DummySerialPort;

/// A machine that runs `program` from address 0 (in the boot ROM).
fn machine(program: Vec<u8>) -> GameBoy {
    GameBoy::new(None, ROM::new(program))
}

#[test]
fn nop_step_takes_four_cycles() {
    let mut gb = machine(vec![0x00]);
    assert_eq!(CPU::step(&mut gb), Ok(4));
    assert_eq!(gb.cpu.pc, 1);
}

#[test]
fn divider_is_the_upper_byte_of_a_cycle_counter() {
    let mut gb = machine(vec![0x00; 256]);
    for _ in 0..63 {
        CPU::step(&mut gb).unwrap();
    }
    assert_eq!(gb.io.timers.div_counter, 252);
    assert_eq!(MMU::read_checked(&gb, 0xFF04), Some(0));
    // 64 steps of 4 cycles make 256 cycles: DIV goes up once.
    CPU::step(&mut gb).unwrap();
    assert_eq!(gb.io.timers.div_counter, 0);
    assert_eq!(MMU::read_checked(&gb, 0xFF04), Some(1));
}

#[test]
fn call_then_ret_returns_after_the_call() {
    // LD SP,0xFFFE; CALL 0x0010; ...; at 0x10: RET
    let mut program = vec![0x31, 0xFE, 0xFF, 0xCD, 0x10, 0x00, 0x00];
    program.resize(0x10, 0x00);
    program.push(0xC9);
    let mut gb = machine(program);
    assert_eq!(CPU::step(&mut gb), Ok(12));
    assert_eq!(gb.cpu.sp, 0xFFFE);
    assert_eq!(CPU::step(&mut gb), Ok(24));
    assert_eq!(gb.cpu.pc, 0x0010);
    assert_eq!(gb.cpu.sp, 0xFFFC);
    assert_eq!(MMU::read_checked(&gb, 0xFFFC), Some(0x06));
    assert_eq!(MMU::read_checked(&gb, 0xFFFD), Some(0x00));
    assert_eq!(CPU::step(&mut gb), Ok(20));
    assert_eq!(gb.cpu.pc, 0x0006);
    assert_eq!(gb.cpu.sp, 0xFFFE);
}

#[test]
fn push_then_pop_in_work_ram() {
    let mut gb = machine(vec![0x00]);
    gb.cpu.sp = 0xD000;
    gb.cpu.regs.set_bc(0b0101010101010000);
    let push = Instruction::new(InstructionType::PUSH(StackTarget::BC), None);
    let pop = Instruction::new(InstructionType::POP(StackTarget::HL), None);
    assert_eq!(push.execute(&mut gb), Ok(MachineCycles::Four));
    assert_eq!(gb.cpu.sp, 0xCFFE);
    assert_eq!(pop.execute(&mut gb), Ok(MachineCycles::Three));
    assert_eq!(gb.cpu.sp, 0xD000);
    assert_eq!(gb.cpu.regs.get_hl(), gb.cpu.regs.get_bc());
}

#[test]
fn interrupt_jumps_to_its_handler() {
    let mut gb = machine(vec![0x00; 256]);
    gb.cpu.sp = 0xFFFE;
    gb.cpu.pc = 0x0020;
    gb.cpu.ime = true;
    MMU::write_byte(&mut gb, 0xFFFF, 0b0000_0100);
    MMU::write_byte(&mut gb, 0xFF0F, 0b0000_0110);
    // The timer interrupt is enabled and requested; the LCD one only
    // requested.
    assert_eq!(CPU::handle_interrupts(&mut gb), Ok(()));
    assert_eq!(gb.cpu.pc, 0x0050);
    assert!(!gb.cpu.ime);
    assert_eq!(gb.io.interrupts.flag, 0b0000_0010);
    assert_eq!(gb.cpu.sp, 0xFFFC);
    assert_eq!(MMU::read_checked(&gb, 0xFFFC), Some(0x20));
    assert_eq!(MMU::read_checked(&gb, 0xFFFD), Some(0x00));
    // RETI goes back and turns the master enable on.
    let reti = Instruction::new(InstructionType::RETI, None);
    assert_eq!(reti.execute(&mut gb), Ok(MachineCycles::Four));
    assert_eq!(gb.cpu.pc, 0x0020);
    assert_eq!(gb.cpu.sp, 0xFFFE);
    assert!(gb.cpu.ime);
}

#[test]
fn interrupt_with_stack_in_echo_ram_is_refused() {
    let mut gb = machine(vec![0x00]);
    gb.cpu.sp = 0xE002;
    gb.cpu.ime = true;
    gb.io.interrupts.enable = 1;
    gb.io.interrupts.flag = 1;
    assert_eq!(CPU::handle_interrupts(&mut gb), Err(EmulationError::ProhibitedWrite(0xE001)));
    assert_eq!(gb.io.interrupts.flag, 1);
    assert!(gb.cpu.ime);
}

#[test]
fn halt_then_idle() {
    let mut gb = machine(vec![0x76, 0x00]);
    assert_eq!(CPU::step(&mut gb), Ok(4));
    assert!(gb.cpu.is_halted);
    assert_eq!(gb.cpu.pc, 1);
    assert_eq!(CPU::step(&mut gb), Ok(4));
    assert!(gb.cpu.is_halted);
    assert_eq!(gb.cpu.pc, 1);
    // A request wakes the CPU even with the master enable off.
    gb.cpu.ime = false;
    gb.io.interrupts.enable = 1;
    gb.io.interrupts.flag = 1;
    assert_eq!(CPU::step(&mut gb), Ok(4));
    assert!(!gb.cpu.is_halted);
    assert_eq!(gb.cpu.pc, 2);
}

#[test]
fn halt_bug_keeps_the_program_counter() {
    let mut gb = machine(vec![0x76]);
    gb.cpu.ime = false;
    gb.io.interrupts.enable = 1;
    gb.io.interrupts.flag = 1;
    let halt = Instruction::new(InstructionType::HALT, None);
    assert_eq!(halt.execute(&mut gb), Ok(MachineCycles::One));
    assert_eq!(gb.cpu.pc, 0);
    assert!(!gb.cpu.is_halted);
}

#[test]
fn unknown_opcode_is_reported() {
    let mut gb = machine(vec![0xD3, 0x42]);
    assert_eq!(CPU::step(&mut gb), Err(EmulationError::UnknownInstruction(0xD3, 0x42)));
    assert_eq!(gb.cpu.pc, 0);
}

#[test]
fn stop_is_reported() {
    let mut gb = machine(vec![0x10, 0x00]);
    assert_eq!(CPU::step(&mut gb), Err(EmulationError::Stop));
}

#[test]
fn read_in_echo_ram_is_refused() {
    let mut gb = machine(vec![0x7E]);
    gb.cpu.regs.set_hl(0xE000);
    assert_eq!(CPU::step(&mut gb), Err(EmulationError::ProhibitedRead(0xE000)));
    assert_eq!(gb.cpu.pc, 0);
}

#[test]
fn write_in_unusable_area_is_refused() {
    let mut gb = machine(vec![0x77]);
    gb.cpu.regs.set_hl(0xFEA0);
    gb.cpu.regs.a = 7;
    assert_eq!(CPU::step(&mut gb), Err(EmulationError::ProhibitedWrite(0xFEA0)));
    assert_eq!(gb.cpu.pc, 0);
}

#[test]
fn fetch_past_the_address_space_is_refused() {
    let mut gb = machine(vec![0x00]);
    gb.cpu.pc = 0xFFFF;
    assert_eq!(CPU::fetch_decode(&gb), Err(EmulationError::AddressOverflow));
}

#[test]
fn fetch_past_the_cartridge_is_refused() {
    let mut gb = machine(vec![0x00]);
    MMU::write_byte(&mut gb, 0xFF50, 1);
    gb.cpu.pc = 0x0200;
    assert_eq!(CPU::fetch_decode(&gb), Err(EmulationError::ProhibitedRead(0x0200)));
}

#[test]
fn scanline_counter_overflow_is_reported() {
    let mut gb = machine(vec![0x00]);
    gb.io.lcd.mode = LCDMode::HBlank;
    gb.io.lcd.scanline = 255;
    gb.io.lcd.clock = 200;
    assert_eq!(gb.tick(), Err(EmulationError::ScanlineOverflow));
}

#[test]
fn lcd_requests_vblank_at_line_144() {
    let mut gb = machine(vec![0x00; 256]);
    gb.io.lcd.mode = LCDMode::HBlank;
    gb.io.lcd.scanline = 142;
    gb.io.lcd.clock = 200;
    assert_eq!(gb.tick(), Ok(4));
    assert_eq!(gb.io.lcd.scanline, 143);
    assert_eq!(gb.io.lcd.mode, LCDMode::SearchingOAM);
    assert_eq!(gb.io.lcd.clock, 0);
    assert_eq!(gb.io.interrupts.flag & 1, 0);
    gb.io.lcd.mode = LCDMode::HBlank;
    gb.io.lcd.clock = 200;
    assert_eq!(gb.tick(), Ok(4));
    assert_eq!(gb.io.lcd.scanline, 144);
    assert_eq!(gb.io.lcd.mode, LCDMode::VBlank);
    assert_eq!(gb.io.interrupts.flag & 1, 1);
    assert_eq!(MMU::read_checked(&gb, 0xFF44), Some(144));
}

#[test]
fn timer_overflow_reloads_tma_and_requests_the_interrupt() {
    let mut gb = machine(vec![0x00]);
    MMU::write_byte(&mut gb, 0xFF07, 0b101);
    MMU::write_byte(&mut gb, 0xFF05, 0xFF);
    MMU::write_byte(&mut gb, 0xFF06, 0x42);
    gb.io.timers.tima_counter = 12;
    assert_eq!(CPU::step(&mut gb), Ok(4));
    assert_eq!(MMU::read_checked(&gb, 0xFF05), Some(0x42));
    assert_eq!(gb.io.interrupts.flag & 0b100, 0b100);
}

#[test]
fn timer_off_keeps_tima() {
    let mut gb = machine(vec![0x00; 16]);
    MMU::write_byte(&mut gb, 0xFF05, 0x10);
    for _ in 0..16 {
        CPU::step(&mut gb).unwrap();
    }
    assert_eq!(MMU::read_checked(&gb, 0xFF05), Some(0x10));
    assert_eq!(gb.io.interrupts.flag, 0);
}

#[test]
fn work_ram_reads_back_what_was_written() {
    let mut gb = machine(vec![0x00]);
    MMU::write_byte(&mut gb, 0xC123, 0xAB);
    MMU::write_byte(&mut gb, 0xFF90, 0xCD);
    MMU::write_byte(&mut gb, 0xA000, 0xEF);
    assert_eq!(MMU::read_checked(&gb, 0xC123), Some(0xAB));
    assert_eq!(MMU::read_checked(&gb, 0xFF90), Some(0xCD));
    assert_eq!(MMU::read_checked(&gb, 0xA000), Some(0xEF));
    assert_eq!(MMU::read_checked(&gb, 0xC124), Some(0x00));
}

#[test]
fn echo_ram_and_unusable_area_are_not_answered() {
    let gb = machine(vec![0x00]);
    assert_eq!(MMU::read_checked(&gb, 0xE000), None);
    assert_eq!(MMU::read_checked(&gb, 0xFEA0), None);
    assert!(!MMU::writable(0xFDFF));
    assert!(MMU::writable(0xFE00));
}

#[test]
fn oam_reads_video_ram() {
    let mut gb = machine(vec![0x00]);
    MMU::write_byte(&mut gb, 0x8003, 0x5A);
    MMU::write_byte(&mut gb, 0xFE03, 0x11);
    assert_eq!(MMU::read_checked(&gb, 0xFE03), Some(0x5A));
}

#[test]
fn boot_switch_unmaps_the_boot_rom() {
    let cartridge = Cartridge { data: vec![0x99; 0x8000], title: String::from("TEST") };
    let mut gb = GameBoy::new(Some(cartridge), ROM::new(vec![0x11; 256]));
    assert_eq!(MMU::read_checked(&gb, 0x0010), Some(0x11));
    assert_eq!(MMU::read_checked(&gb, 0x0100), Some(0x99));
    MMU::write_byte(&mut gb, 0xFF50, 0);
    assert_eq!(MMU::read_checked(&gb, 0x0010), Some(0x11));
    MMU::write_byte(&mut gb, 0xFF50, 1);
    assert_eq!(MMU::read_checked(&gb, 0x0010), Some(0x99));
}

#[test]
fn writes_to_the_cartridge_are_ignored() {
    let mut gb = machine(vec![0x21; 256]);
    MMU::write_byte(&mut gb, 0x0105, 0x55);
    assert_eq!(MMU::read_checked(&gb, 0x0105), Some(0x00));
    // The boot ROM takes writes while it is mapped.
    MMU::write_byte(&mut gb, 0x0005, 0x00);
    assert_eq!(MMU::read_checked(&gb, 0x0005), Some(0x00));
    MMU::write_byte(&mut gb, 0xFF50, 1);
    MMU::write_byte(&mut gb, 0x0005, 0x66);
    assert_eq!(MMU::read_checked(&gb, 0x0005), Some(0x00));
    assert_eq!(gb.mmu.bootrom.read_byte(5), 0x00);
}

#[test]
fn joypad_register_reads_the_selected_buttons() {
    let mut gb = machine(vec![0x00]);
    MMU::write_byte(&mut gb, 0xFF00, 0x10);
    assert_eq!(MMU::read_checked(&gb, 0xFF00), Some(0xDF));
    gb.io.joypad.button_pressed(gameboy::joypad::Button::A);
    assert_eq!(MMU::read_checked(&gb, 0xFF00), Some(0xDE));
    MMU::write_byte(&mut gb, 0xFF00, 0x20);
    assert_eq!(MMU::read_checked(&gb, 0xFF00), Some(0xEF));
}

#[test]
fn serial_byte_goes_out_and_is_acknowledged() {
    let mut gb = machine(vec![0x00]);
    let mut port = DummySerialPort::new();
    assert_eq!(gb.serial_out(&mut port), None);
    MMU::write_byte(&mut gb, 0xFF01, 0x41);
    MMU::write_byte(&mut gb, 0xFF02, 0x81);
    assert_eq!(CPU::send_serial(&mut gb), Some(0x41));
    assert_eq!(gb.serial_out(&mut port), Some(0x41));
    assert_eq!(MMU::read_checked(&gb, 0xFF02), Some(0x01));
    assert_eq!(gb.io.interrupts.flag & 0b1000, 0b1000);
    assert_eq!(gb.serial_out(&mut port), None);
}

#[test]
fn load_increments_hl() {
    // LD (HL+),A then LD A,(HL-)
    let mut gb = machine(vec![0x22, 0x3A]);
    gb.cpu.regs.set_hl(0xC000);
    gb.cpu.regs.a = 0x5C;
    assert_eq!(CPU::step(&mut gb), Ok(8));
    assert_eq!(gb.cpu.regs.get_hl(), 0xC001);
    assert_eq!(MMU::read_checked(&gb, 0xC000), Some(0x5C));
    gb.cpu.regs.a = 0;
    assert_eq!(CPU::step(&mut gb), Ok(8));
    assert_eq!(gb.cpu.regs.a, 0x00);
    assert_eq!(gb.cpu.regs.get_hl(), 0xC000);
}

#[test]
fn shifts_through_memory() {
    // SRA (HL), SWAP (HL), BIT 7,(HL)
    let mut gb = machine(vec![0xCB, 0x2E, 0xCB, 0x36, 0xCB, 0x7E]);
    gb.cpu.regs.set_hl(0xC010);
    MMU::write_byte(&mut gb, 0xC010, 0b1000_0011);
    assert_eq!(CPU::step(&mut gb), Ok(16));
    assert_eq!(MMU::read_checked(&gb, 0xC010), Some(0b1100_0001));
    assert!(gb.cpu.regs.flags.carry);
    assert_eq!(CPU::step(&mut gb), Ok(8));
    assert_eq!(MMU::read_checked(&gb, 0xC010), Some(0b0001_1100));
    assert!(!gb.cpu.regs.flags.carry);
    assert_eq!(CPU::step(&mut gb), Ok(12));
    assert!(gb.cpu.regs.flags.zero);
    assert!(gb.cpu.regs.flags.half_carry);
}

#[test]
fn inc_of_memory_sets_flags() {
    let mut gb = machine(vec![0x34]);
    gb.cpu.regs.set_hl(0xC000);
    MMU::write_byte(&mut gb, 0xC000, 0xFF);
    let inc = Instruction::new(InstructionType::INC(RegistersIndirect::HLI), None);
    assert_eq!(inc.execute(&mut gb), Ok(MachineCycles::Three));
    assert_eq!(MMU::read_checked(&gb, 0xC000), Some(0x00));
    assert!(gb.cpu.regs.flags.zero);
    assert!(gb.cpu.regs.flags.half_carry);
}

#[test]
fn compare_keeps_the_accumulator() {
    let mut gb = machine(vec![0xFE, 0x10]);
    gb.cpu.regs.a = 0x10;
    assert_eq!(CPU::step(&mut gb), Ok(8));
    assert_eq!(gb.cpu.regs.a, 0x10);
    assert!(gb.cpu.regs.flags.zero);
    assert!(gb.cpu.regs.flags.subtract);
    let cp = Instruction::new(InstructionType::CP(RegistersIndDir::B), None);
    gb.cpu.regs.b = 0x11;
    assert_eq!(cp.execute(&mut gb), Ok(MachineCycles::One));
    assert!(gb.cpu.regs.flags.carry);
}

#[test]
fn relative_jump_backwards() {
    // NOP, NOP, JR -4
    let mut gb = machine(vec![0x00, 0x00, 0x18, 0xFC]);
    gb.cpu.pc = 2;
    assert_eq!(CPU::step(&mut gb), Ok(12));
    assert_eq!(gb.cpu.pc, 0);
}

#[test]
fn tile_data_write_updates_the_tile_set() {
    let mut gb = machine(vec![0x00]);
    MMU::write_byte(&mut gb, 0x8000, 0b1000_0001);
    MMU::write_byte(&mut gb, 0x8001, 0b1000_0000);
    let tiles = gb.tiledata();
    assert_eq!(tiles.width, 128);
    assert_eq!(tiles.height, 192);
    assert_eq!(tiles.buffer.len(), 128 * 192);
    assert_eq!(tiles.buffer[0], gameboy::frame::ColoredPixel::Black);
    assert_eq!(tiles.buffer[1], gameboy::frame::ColoredPixel::White);
    assert_eq!(tiles.buffer[7], gameboy::frame::ColoredPixel::LightGray);
    // Background tiles from 0x8000, map at 0x9800 (all tile 0).
    MMU::write_byte(&mut gb, 0xFF40, 0x10);
    let screen = gb.frame();
    assert_eq!(screen.buffer.len(), 160 * 144);
    assert_eq!(screen.buffer[0], gameboy::frame::ColoredPixel::Black);
    assert_eq!(screen.buffer[7], gameboy::frame::ColoredPixel::LightGray);
}

#[test]
fn vram_dump_is_a_hex_dump() {
    let gb = machine(vec![0x00]);
    let dump = gb.ppu.vram_dump();
    assert!(dump.starts_with("PPU 8000-9fff\nLength: 8192 (0x2000) bytes\n"));
    assert!(dump.contains("0000:   00 00 00 00"));
    let io = gb.io.data_dump();
    assert!(io.starts_with("IO ff00-ff7f\nLength: 128 (0x80) bytes\n"));
}

#[test]
fn writes_to_the_cartridge_area_keep_the_image() {
    // LD (0x4000),A; LD (0x0000),A; JR -2
    let cartridge = Cartridge { data: vec![0x77; 0x8000], title: String::from("ROM") };
    let mut gb = GameBoy::new(Some(cartridge), ROM::new(vec![0xEA, 0x00, 0x40, 0xEA, 0x00, 0x00, 0x18, 0xFE]));
    gb.cpu.regs.a = 0x12;
    for _ in 0..10 {
        gb.tick().unwrap();
    }
    assert_eq!(gb.cartridge.data, vec![0x77; 0x8000]);
    assert_eq!(gb.cartridge.title, "ROM");
    assert_eq!(MMU::read_checked(&gb, 0x4000), Some(0x77));
    // The write at 0x0000 went to the mapped boot ROM.
    assert_eq!(MMU::read_checked(&gb, 0x0000), Some(0x12));
    assert_eq!(gb.mmu.bootrom.read_byte(0), 0x12);
}

#[test]
fn operand_past_the_address_space_is_refused() {
    let mut gb = machine(vec![0x00]);
    gb.cpu.pc = 0xFFFF;
    let add = Instruction::new(InstructionType::ADD(RegistersIndDir::D8), None);
    assert_eq!(add.execute(&mut gb), Err(EmulationError::AddressOverflow));
    assert_eq!(gb.cpu.pc, 0xFFFF);
}

#[test]
fn store_of_sp_names_the_refused_byte() {
    // LD (0xFDFF),SP: the low byte goes to echo RAM.
    let mut gb = machine(vec![0x08, 0xFF, 0xFD]);
    gb.cpu.sp = 0x1234;
    assert_eq!(CPU::step(&mut gb), Err(EmulationError::ProhibitedWrite(0xFDFF)));
    // LD (0xFE9F),SP: the low byte goes to OAM, the high byte to the
    // unusable area; nothing is written.
    let mut gb = machine(vec![0x08, 0x9F, 0xFE]);
    gb.cpu.sp = 0x1234;
    assert_eq!(CPU::step(&mut gb), Err(EmulationError::ProhibitedWrite(0xFEA0)));
    assert_eq!(gb.ppu.oam[0x9F], 0x00);
    // LD (0xC000),SP
    let mut gb = machine(vec![0x08, 0x00, 0xC0]);
    gb.cpu.sp = 0x1234;
    assert_eq!(CPU::step(&mut gb), Ok(20));
    assert_eq!(MMU::read_checked(&gb, 0xC000), Some(0x34));
    assert_eq!(MMU::read_checked(&gb, 0xC001), Some(0x12));
}

#[test]
fn instructions_advance_by_their_size() {
    // LD BC,d16; LD A,d8; INC A; CB SWAP A
    let mut gb = machine(vec![0x01, 0x34, 0x12, 0x3E, 0x05, 0x3C, 0xCB, 0x37]);
    CPU::step(&mut gb).unwrap();
    assert_eq!(gb.cpu.pc, 3);
    assert_eq!(gb.cpu.regs.get_bc(), 0x1234);
    CPU::step(&mut gb).unwrap();
    assert_eq!(gb.cpu.pc, 5);
    CPU::step(&mut gb).unwrap();
    assert_eq!(gb.cpu.pc, 6);
    CPU::step(&mut gb).unwrap();
    assert_eq!(gb.cpu.pc, 8);
    assert_eq!(gb.cpu.regs.a, 0x60);
}

#[test]
fn jump_to_a_little_endian_address() {
    // JP 0x0150
    let mut gb = machine(vec![0xC3, 0x50, 0x01]);
    assert_eq!(CPU::step(&mut gb), Ok(16));
    assert_eq!(gb.cpu.pc, 0x0150);
}
