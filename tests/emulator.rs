use gb3000::cpu::IllegalOpcode;
use gb3000::io;
use gb3000::ppu::{SCREEN_HEIGHT, SCREEN_WIDTH};
use gb3000::{Button, Emulator};

#[test]
fn emulator_creation() {
    let emu = Emulator::new();
    assert_eq!(emu.framebuffer().len(), SCREEN_WIDTH * SCREEN_HEIGHT);
}

#[test]
fn button_state() {
    let mut emu = Emulator::new();
    assert_eq!(emu.button_state, 0xFF);
    emu.set_button(Button::A, true);
    assert_eq!(emu.button_state & 0x10, 0x00);
    emu.set_button(Button::A, false);
    assert_eq!(emu.button_state & 0x10, 0x10);
}

#[test]
fn buttons_are_edge_idempotent() {
    let mut emu = Emulator::new();
    emu.set_button(Button::Start, true);
    emu.set_button(Button::Start, true);
    assert_eq!(emu.button_state, 0x7F);
    emu.set_button(Button::Right, true);
    assert_eq!(emu.button_state, 0x7E);
    emu.set_button(Button::Start, false);
    emu.set_button(Button::Start, false);
    assert_eq!(emu.button_state, 0xFE);
}

fn emulator_with_program(program: &[u8]) -> Emulator {
    let mut rom = vec![0u8; 0x8000];
    rom[0x0100..0x0100 + program.len()].copy_from_slice(program);
    let mut emu = Emulator::new();
    emu.load_rom(&rom);
    emu.reset();
    emu
}

#[test]
fn nop_step_through_scheduler() {
    let mut emu = emulator_with_program(&[0x00]);
    assert_eq!(emu.step(), 4);
    assert_eq!(emu.cpu.pc, 0x0101);
}

#[test]
fn interrupt_dispatch_costs_twenty_cycles() {
    let mut emu = emulator_with_program(&[0x00, 0x00]);
    emu.cpu.ime = true;
    emu.cpu.sp = 0xD000;
    emu.memory.data[io::IE as usize] = 0x05;
    emu.memory.data[io::IF as usize] = 0x04 | 0x08;
    let cycles = emu.step();
    // Timer interrupt (vector 0x50) wins; then the NOP at 0x0050 runs.
    assert_eq!(cycles, 24);
    assert_eq!(emu.cpu.pc, 0x0051);
    assert!(!emu.cpu.ime);
    assert_eq!(emu.memory.data[io::IF as usize] & 0x04, 0);
    assert_eq!(emu.memory.read_byte(0xCFFF), 0x01);
    assert_eq!(emu.memory.read_byte(0xCFFE), 0x00);
}

#[test]
fn halt_wakes_on_pending_interrupt() {
    let mut emu = emulator_with_program(&[0x76, 0x00]);
    emu.step();
    assert!(emu.cpu.halted);
    emu.memory.data[io::IE as usize] = 0x01;
    emu.memory.data[io::IF as usize] = 0x01;
    emu.step();
    assert!(!emu.cpu.halted);
}

#[test]
fn run_frame_completes() {
    let mut emu = emulator_with_program(&[0x18, 0xFE]); // JR -2
    emu.memory.data[io::LCDC as usize] = 0x91;
    let cycles = emu.run_frame();
    assert!(emu.frame_ready());
    assert!(cycles >= 4 && cycles < 70224 + 44);
    assert_eq!(emu.fault(), None);
}

#[test]
fn run_cycles_runs_at_least_target() {
    let mut emu = emulator_with_program(&[0x18, 0xFE]);
    let cycles = emu.run_cycles(1000);
    assert!(cycles >= 1000 && cycles < 1044);
    assert_eq!(emu.cpu.pc, 0x0100);
}

#[test]
fn illegal_opcode_reported() {
    let mut emu = emulator_with_program(&[0xFD]);
    emu.step();
    assert_eq!(emu.fault(), Some(IllegalOpcode { pc: 0x0100, opcode: 0xFD }));
}

#[test]
fn save_ram_only_with_battery() {
    let mut rom = vec![0u8; 0x8000];
    rom[0x0147] = 0x01;
    rom[0x0149] = 0x02;
    let mut emu = Emulator::new();
    emu.load_rom(&rom);
    assert!(!emu.has_battery());
    assert_eq!(emu.save_ram(), None);
    rom[0x0147] = 0x03;
    let mut emu = Emulator::new();
    emu.load_rom(&rom);
    emu.load_ram(&[9, 8, 7]);
    let saved = emu.save_ram().unwrap();
    assert_eq!(saved.len(), 0x2000);
    assert_eq!(&saved[..3], &[9, 8, 7]);
}

#[test]
fn audio_sample_rate_is_fixed() {
    let emu = Emulator::new();
    assert_eq!(emu.audio_sample_rate(), 44100);
}

#[test]
fn rom_info_parsing() {
    let mut rom = vec![0u8; 0x8000];
    rom[0x0134..0x0140].copy_from_slice(b"TEST GAME   ");
    rom[0x0147] = 0x01;
    rom[0x0148] = 0x00;
    rom[0x0149] = 0x00;

    let info = Emulator::parse_rom_info(&rom).unwrap();
    assert_eq!(info.title, "TEST GAME");
    assert_eq!(info.cart_type, "MBC1");
    assert_eq!(info.rom_size, "32 KB");
    assert_eq!(info.ram_size, "None");
}

#[test]
fn rom_info_title_rules() {
    let mut rom = vec![0u8; 0x150];
    rom[0x0134..0x0144].copy_from_slice(b"  A\x01B  \0ZZZZZZZZ");
    rom[0x0147] = 0x1B;
    rom[0x0148] = 0x05;
    rom[0x0149] = 0x04;
    let info = Emulator::parse_rom_info(&rom).unwrap();
    assert_eq!(info.title, "A?B");
    assert_eq!(info.cart_type, "MBC5+RAM+BATTERY");
    assert_eq!(info.rom_size, "1 MB");
    assert_eq!(info.ram_size, "128 KB");
    assert_eq!(info.cart_type_code, 0x1B);
    rom[0x0147] = 0x42;
    let info = Emulator::parse_rom_info(&rom).unwrap();
    assert_eq!(info.cart_type, "Unknown");
}

#[test]
fn rom_info_needs_whole_header() {
    assert!(Emulator::parse_rom_info(&vec![0u8; 0x14F]).is_none());
    assert!(Emulator::parse_rom_info(&[]).is_none());
}
