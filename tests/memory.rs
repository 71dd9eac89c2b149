use gb3000::interrupts;
use gb3000::io;
use gb3000::memory::{MbcType, Memory};

#[test]
fn read_write_roundtrip() {
    let mut mem = Memory::new();
    mem.write_byte(0xC000, 0x42);
    assert_eq!(mem.read_byte(0xC000), 0x42);
}

#[test]
fn load_rom_copies_bytes() {
    let rom = vec![0xAA, 0xBB, 0xCC];
    let mut mem = Memory::new();
    mem.load_rom(&rom);
    assert_eq!(mem.read_byte(0x0000), 0xAA);
    assert_eq!(mem.read_byte(0x0001), 0xBB);
    assert_eq!(mem.read_byte(0x0002), 0xCC);
}

#[test]
fn echo_ram_mirrors_wram() {
    let mut mem = Memory::new();
    mem.write_byte(0xC000, 0x55);
    assert_eq!(mem.read_byte(0xE000), 0x55);
}

#[test]
fn div_reset_on_write() {
    let mut mem = Memory::new();
    mem.data[io::DIV as usize] = 0xAB;
    mem.write_byte(io::DIV, 0x12);
    assert_eq!(mem.read_byte(io::DIV), 0x00);
}

#[test]
fn interrupt_request_and_clear() {
    let mut mem = Memory::new();
    mem.request_interrupt(interrupts::VBLANK);
    assert_eq!(mem.data[io::IF as usize] & interrupts::VBLANK, interrupts::VBLANK);
    mem.clear_interrupt(interrupts::VBLANK);
    assert_eq!(mem.data[io::IF as usize] & interrupts::VBLANK, 0);
}

fn mbc1_rom(banks: usize) -> Vec<u8> {
    let mut rom = vec![0u8; banks * 0x4000];
    rom[0x0147] = 0x01;
    for b in 0..banks {
        rom[b * 0x4000 + 0x10] = b as u8;
    }
    rom
}

#[test]
fn mbc1_rom_bank_select() {
    let mut rom = mbc1_rom(4);
    rom[0x02 * 0x4000] = 0x77;
    let mut mem = Memory::new();
    mem.load_rom(&rom);
    assert_eq!(mem.mbc.kind, MbcType::Mbc1);
    assert_eq!(mem.read_byte(0x4010), 1);
    mem.write_byte(0x2100, 0x02);
    assert_eq!(mem.read_byte(0x4000), 0x77);
    assert_eq!(mem.read_byte(0x4010), 2);
    // Bank 0 selects bank 1.
    mem.write_byte(0x2000, 0x00);
    assert_eq!(mem.read_byte(0x4010), 1);
}

#[test]
fn mbc_writes_do_not_change_rom() {
    let rom = mbc1_rom(2);
    let mut mem = Memory::new();
    mem.load_rom(&rom);
    mem.write_byte(0x0010, 0x99);
    assert_eq!(mem.read_byte(0x0010), 0);
}

#[test]
fn external_ram_gated_by_enable() {
    let mut rom = mbc1_rom(2);
    rom[0x0149] = 0x02;
    let mut mem = Memory::new();
    mem.load_rom(&rom);
    assert_eq!(mem.eram.len(), 0x2000);
    mem.write_byte(0xA000, 0x11);
    assert_eq!(mem.read_byte(0xA000), 0xFF);
    mem.write_byte(0x0000, 0x0A);
    mem.write_byte(0xA000, 0x11);
    assert_eq!(mem.read_byte(0xA000), 0x11);
    mem.write_byte(0x0000, 0x00);
    assert_eq!(mem.read_byte(0xA000), 0xFF);
}

#[test]
fn mbc5_nine_bit_bank() {
    let mut rom = vec![0u8; 0x4000 * 4];
    rom[0x0147] = 0x19;
    let mut mem = Memory::new();
    mem.load_rom(&rom);
    assert_eq!(mem.mbc.kind, MbcType::Mbc5);
    mem.write_byte(0x2000, 0x03);
    mem.write_byte(0x3000, 0x01);
    assert_eq!(mem.mbc.rom_bank, 0x103);
    // Past the end of the image reads 0xFF.
    assert_eq!(mem.read_byte(0x4000), 0xFF);
}

#[test]
fn mbc2_and_mbc3_registers() {
    let mut rom = vec![0u8; 0x8000];
    rom[0x0147] = 0x05;
    let mut mem = Memory::new();
    mem.load_rom(&rom);
    assert_eq!(mem.mbc.kind, MbcType::Mbc2);
    mem.write_byte(0x2100, 0x03);
    assert_eq!(mem.mbc.rom_bank, 3);
    mem.write_byte(0x2000, 0x05);
    assert_eq!(mem.mbc.rom_bank, 3);
    rom[0x0147] = 0x11;
    let mut mem = Memory::new();
    mem.load_rom(&rom);
    assert_eq!(mem.mbc.kind, MbcType::Mbc3);
    mem.write_byte(0x2000, 0x80);
    assert_eq!(mem.mbc.rom_bank, 1);
    mem.write_byte(0x4000, 0x1F);
    assert_eq!(mem.mbc.ram_bank, 0x0F);
}

#[test]
fn unusable_region_reads_ff() {
    let mut mem = Memory::new();
    mem.write_byte(0xFEA0, 0x12);
    assert_eq!(mem.read_byte(0xFEA0), 0xFF);
    assert_eq!(mem.read_byte(0xFEFF), 0xFF);
}

#[test]
fn register_write_rules() {
    let mut mem = Memory::new();
    mem.data[io::LY as usize] = 0x33;
    mem.write_byte(io::LY, 0x99);
    assert_eq!(mem.read_byte(io::LY), 0x33);
    mem.data[io::STAT as usize] = 0x03;
    mem.write_byte(io::STAT, 0xFC);
    assert_eq!(mem.read_byte(io::STAT), 0xFB);
    assert!(mem.written.stat);
    mem.write_byte(io::TAC, 0x05);
    assert!(mem.written.tac);
    assert_eq!(mem.written.tac_old, 0x00);
}

#[test]
fn joypad_matrix() {
    let mut mem = Memory::new();
    // Press A (bit 4) and Right (bit 0).
    mem.set_joypad(0xEE);
    mem.write_byte(io::JOYP, 0x10); // select buttons (bit 5 low)
    assert_eq!(mem.read_byte(io::JOYP), 0xDE);
    mem.write_byte(io::JOYP, 0x20); // select directions (bit 4 low)
    assert_eq!(mem.read_byte(io::JOYP), 0xEE);
    mem.write_byte(io::JOYP, 0x30); // nothing selected
    assert_eq!(mem.read_byte(io::JOYP), 0xFF);
}

#[test]
fn joypad_press_on_exposed_line_interrupts() {
    let mut mem = Memory::new();
    mem.write_byte(io::JOYP, 0x20); // directions exposed
    mem.data[io::IF as usize] = 0;
    mem.set_joypad(0xEF); // A pressed: not exposed
    assert_eq!(mem.data[io::IF as usize] & interrupts::JOYPAD, 0);
    mem.set_joypad(0xEE); // Right pressed: exposed
    assert_eq!(mem.data[io::IF as usize] & interrupts::JOYPAD, interrupts::JOYPAD);
}

#[test]
fn dma_copies_160_bytes() {
    let mut mem = Memory::new();
    for i in 0..160u16 {
        mem.write_byte(0xC100 + i, i as u8 ^ 0x5A);
    }
    mem.write_byte(io::DMA, 0xC1);
    for _ in 0..160 {
        mem.tick_dma();
    }
    assert!(!mem.dma.active);
    for i in 0..160u16 {
        assert_eq!(mem.read_byte(0xFE00 + i), i as u8 ^ 0x5A);
    }
}

#[test]
fn pending_interrupts_masks_with_ie() {
    let mut mem = Memory::new();
    mem.data[io::IF as usize] = 0xFF;
    mem.data[io::IE as usize] = 0x05;
    assert_eq!(mem.pending_interrupts(), 0x05);
}

#[test]
fn save_ram_round_trip() {
    let mut rom = vec![0u8; 0x8000];
    rom[0x0147] = 0x03;
    rom[0x0149] = 0x02;
    let mut mem = Memory::new();
    mem.load_rom(&rom);
    assert!(mem.has_battery());
    mem.set_eram(&[1, 2, 3]);
    let saved = mem.get_eram();
    assert_eq!(saved.len(), 0x2000);
    assert_eq!(&saved[..4], &[1, 2, 3, 0]);
}

#[test]
fn mbc1_low_bits_zero_select_one() {
    let rom = mbc1_rom(64);
    let mut mem = Memory::new();
    mem.load_rom(&rom);
    mem.write_byte(0x4000, 0x01); // upper bits 01 (mode 0)
    mem.write_byte(0x2000, 0x01);
    assert_eq!(mem.mbc.rom_bank, 0x21);
    mem.write_byte(0x2000, 0x00);
    assert_eq!(mem.mbc.rom_bank, 0x21);
    assert_eq!(mem.read_byte(0x4010), 0x21);
}

#[test]
fn cartridge_without_ram_reads_ff() {
    let rom = mbc1_rom(2); // RAM-size byte 0
    let mut mem = Memory::new();
    mem.load_rom(&rom);
    assert_eq!(mem.eram.len(), 0);
    mem.write_byte(0x0000, 0x0A);
    mem.write_byte(0xA000, 0x12);
    assert_eq!(mem.read_byte(0xA000), 0xFF);
}
