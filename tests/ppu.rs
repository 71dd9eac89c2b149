use gb3000::interrupts;
use gb3000::io;
use gb3000::memory::Memory;
use gb3000::ppu::{LineTiming, Mode, Ppu, DOTS_PER_LINE, MODE_2_DOTS, MODE_3_BASE_DOTS};

#[test]
fn ppu_modes_cycle() {
    let mut ppu = Ppu::new();
    let mut memory = Memory::new();

    memory.data[io::LCDC as usize] = 0x91;
    assert_eq!(ppu.timing.mode, Mode::OamScan);

    ppu.tick(&mut memory, MODE_2_DOTS);
    assert_eq!(ppu.timing.mode, Mode::Drawing);

    let mode_3_len = ppu.timing.mode_3_length;
    ppu.tick(&mut memory, mode_3_len);
    assert_eq!(ppu.timing.mode, Mode::HBlank);

    let hblank_len = DOTS_PER_LINE - MODE_2_DOTS - mode_3_len;
    ppu.tick(&mut memory, hblank_len);
    assert_eq!(ppu.timing.mode, Mode::OamScan);
    assert_eq!(memory.data[io::LY as usize], 1);
}

#[test]
fn vblank_after_144_lines() {
    let mut ppu = Ppu::new();
    let mut memory = Memory::new();
    memory.data[io::LCDC as usize] = 0x91;
    for _ in 0..144 {
        ppu.tick(&mut memory, DOTS_PER_LINE);
    }
    assert_eq!(ppu.timing.mode, Mode::VBlank);
    assert!(ppu.timing.frame_ready);
    assert!(memory.data[io::IF as usize] & interrupts::VBLANK != 0);
}

#[test]
fn mode_3_length_varies_with_sprites() {
    let mut ppu = Ppu::new();
    let mut memory = Memory::new();
    memory.data[io::LCDC as usize] = 0x93;
    let base_length = ppu.calculate_mode_3_length(&memory, 0);
    assert_eq!(base_length, MODE_3_BASE_DOTS);
    memory.data[0xFE00] = 16;
    memory.data[0xFE01] = 8;
    ppu.scan_oam(&memory, 0);
    let with_sprite = ppu.calculate_mode_3_length(&memory, 0);
    assert!(with_sprite > base_length);
}

fn with_mode(mode: Mode) -> Ppu {
    let base = Ppu::new();
    Ppu { timing: LineTiming { mode, ..base.timing }, ..base }
}

#[test]
fn oam_vram_access_timing() {
    let ppu_oam = with_mode(Mode::OamScan);
    let ppu_draw = with_mode(Mode::Drawing);
    let ppu_hblank = with_mode(Mode::HBlank);
    let ppu_vblank = with_mode(Mode::VBlank);

    assert!(!ppu_oam.oam_accessible());
    assert!(!ppu_draw.oam_accessible());
    assert!(ppu_hblank.oam_accessible());
    assert!(ppu_vblank.oam_accessible());

    assert!(ppu_oam.vram_accessible());
    assert!(!ppu_draw.vram_accessible());
    assert!(ppu_hblank.vram_accessible());
    assert!(ppu_vblank.vram_accessible());
}

#[test]
fn mode_cycle_scenario_line_one() {
    let mut ppu = Ppu::new();
    let mut memory = Memory::new();
    memory.data[io::LCDC as usize] = 0x91;
    ppu.tick(&mut memory, 80);
    assert_eq!(ppu.current_mode(), Mode::Drawing);
    let m3 = ppu.timing.mode_3_length;
    assert_eq!(m3, 172);
    ppu.tick(&mut memory, m3);
    assert_eq!(ppu.current_mode(), Mode::HBlank);
    ppu.tick(&mut memory, 376 - m3);
    assert_eq!(ppu.current_mode(), Mode::OamScan);
    assert_eq!(memory.data[io::LY as usize], 1);
}

#[test]
fn mode_3_length_formula() {
    let mut ppu = Ppu::new();
    let mut memory = Memory::new();
    memory.data[io::LCDC as usize] = 0xB3; // window on
    memory.data[io::SCX as usize] = 5;
    memory.data[io::WY as usize] = 0;
    memory.data[io::WX as usize] = 7;
    for i in 0..3 {
        memory.data[0xFE00 + 4 * i] = 16;
        memory.data[0xFE01 + 4 * i] = 8 + i as u8;
    }
    ppu.scan_oam(&memory, 0);
    assert_eq!(ppu.scanline_sprites.len(), 3);
    assert_eq!(ppu.calculate_mode_3_length(&memory, 0), 172 + 5 + 18 + 6);
}

#[test]
fn mode_3_length_with_ten_sprites() {
    let mut ppu = Ppu::new();
    let mut memory = Memory::new();
    memory.data[io::LCDC as usize] = 0xB3;
    memory.data[io::SCX as usize] = 7;
    for i in 0..40 {
        memory.data[0xFE00 + 4 * i] = 16;
    }
    ppu.scan_oam(&memory, 0);
    assert_eq!(ppu.scanline_sprites.len(), 10);
    assert_eq!(ppu.calculate_mode_3_length(&memory, 0), 172 + 7 + 60 + 6);
}

#[test]
fn oam_scan_keeps_first_ten_sorted_by_x() {
    let mut ppu = Ppu::new();
    let mut memory = Memory::new();
    memory.data[io::LCDC as usize] = 0x93;
    for i in 0..12 {
        memory.data[0xFE00 + 4 * i] = 20;
        memory.data[0xFE01 + 4 * i] = (50 - i) as u8;
        memory.data[0xFE02 + 4 * i] = i as u8;
    }
    ppu.scan_oam(&memory, 5);
    assert_eq!(ppu.scanline_sprites.len(), 10);
    let xs: Vec<u8> = ppu.scanline_sprites.iter().map(|s| s.x).collect();
    assert_eq!(xs, vec![41, 42, 43, 44, 45, 46, 47, 48, 49, 50]);
    let tiles: Vec<u8> = ppu.scanline_sprites.iter().map(|s| s.tile).collect();
    assert_eq!(tiles, vec![9, 8, 7, 6, 5, 4, 3, 2, 1, 0]);
}

#[test]
fn oam_scan_ties_keep_order() {
    let mut ppu = Ppu::new();
    let mut memory = Memory::new();
    memory.data[io::LCDC as usize] = 0x93;
    for i in 0..3 {
        memory.data[0xFE00 + 4 * i] = 16;
        memory.data[0xFE01 + 4 * i] = 30;
        memory.data[0xFE02 + 4 * i] = 7 + i as u8;
    }
    ppu.scan_oam(&memory, 0);
    let tiles: Vec<u8> = ppu.scanline_sprites.iter().map(|s| s.tile).collect();
    assert_eq!(tiles, vec![7, 8, 9]);
}

#[test]
fn scanline_is_456_dots() {
    let mut ppu = Ppu::new();
    let mut memory = Memory::new();
    memory.data[io::LCDC as usize] = 0x93;
    memory.data[io::SCX as usize] = 3;
    memory.data[0xFE00] = 17;
    ppu.tick(&mut memory, 455);
    assert_eq!(memory.data[io::LY as usize], 0);
    ppu.tick(&mut memory, 1);
    assert_eq!(memory.data[io::LY as usize], 1);
    assert_eq!(ppu.timing.mode, Mode::OamScan);
    assert_eq!(ppu.timing.dots, 0);
}

#[test]
fn full_frame_returns_to_line_zero_with_one_vblank() {
    let mut ppu = Ppu::new();
    let mut memory = Memory::new();
    memory.data[io::LCDC as usize] = 0x91;
    memory.data[io::IF as usize] = 0;
    let mut vblanks = 0;
    for _ in 0..70224 {
        ppu.tick(&mut memory, 1);
        if memory.data[io::IF as usize] & interrupts::VBLANK != 0 {
            vblanks += 1;
            memory.data[io::IF as usize] &= !interrupts::VBLANK;
        }
    }
    assert_eq!(vblanks, 1);
    assert_eq!(memory.data[io::LY as usize], 0);
    assert_eq!(ppu.timing.mode, Mode::OamScan);
    assert_eq!(ppu.timing.dots, 0);
}

#[test]
fn lcd_off_holds_line_zero() {
    let mut ppu = Ppu::new();
    let mut memory = Memory::new();
    memory.data[io::LCDC as usize] = 0x11;
    memory.data[io::LY as usize] = 77;
    memory.data[io::STAT as usize] = 0x87;
    ppu.tick(&mut memory, 1000);
    assert_eq!(ppu.timing.mode, Mode::HBlank);
    assert_eq!(ppu.timing.dots, 0);
    assert_eq!(memory.data[io::LY as usize], 0);
    assert_eq!(memory.data[io::STAT as usize], 0x84);
}

#[test]
fn stat_interrupt_on_rising_edge_only() {
    let mut ppu = Ppu::new();
    let mut memory = Memory::new();
    memory.data[io::LCDC as usize] = 0x91;
    memory.data[io::STAT as usize] = 0x08; // HBlank source
    memory.data[io::IF as usize] = 0;
    ppu.tick(&mut memory, 80 + 172);
    assert_eq!(memory.data[io::IF as usize] & interrupts::LCD_STAT, interrupts::LCD_STAT);
    memory.data[io::IF as usize] = 0;
    ppu.tick(&mut memory, 10);
    assert_eq!(memory.data[io::IF as usize] & interrupts::LCD_STAT, 0);
}

#[test]
fn background_renders_tile_pixels() {
    let mut ppu = Ppu::new();
    let mut memory = Memory::new();
    memory.data[io::LCDC as usize] = 0x91; // unsigned tile data at 0x8000
    memory.data[io::BGP as usize] = 0xE4; // identity palette
    // Tile 1, row 0: low byte 0xFF, high byte 0x00 -> colour 1 everywhere.
    memory.data[0x8010] = 0xFF;
    memory.data[0x8011] = 0x00;
    memory.data[0x9800] = 1;
    ppu.tick(&mut memory, 80 + 172);
    assert_eq!(&ppu.framebuffer[0..8], &[1, 1, 1, 1, 1, 1, 1, 1]);
    assert_eq!(ppu.framebuffer[8], 0);
}

#[test]
fn sprite_drawn_over_background() {
    let mut ppu = Ppu::new();
    let mut memory = Memory::new();
    memory.data[io::LCDC as usize] = 0x93;
    memory.data[io::OBP0 as usize] = 0xE4;
    // Sprite tile 2, row 0: high byte 0x80 -> leftmost pixel colour 2.
    memory.data[0x8021] = 0x80;
    memory.data[0xFE00] = 16;
    memory.data[0xFE01] = 8;
    memory.data[0xFE02] = 2;
    ppu.tick(&mut memory, 80 + 178);
    assert_eq!(ppu.framebuffer[0], 2);
    assert_eq!(ppu.framebuffer[1], 0);
}

#[test]
fn sprite_priority_checks_background_not_other_sprites() {
    let mut ppu = Ppu::new();
    let mut memory = Memory::new();
    memory.data[io::LCDC as usize] = 0x93;
    memory.data[io::OBP0 as usize] = 0xE4;
    // Tile 2: leftmost pixel colour 2; tile 3: leftmost pixel colour 1.
    memory.data[0x8021] = 0x80;
    memory.data[0x8030] = 0x80;
    // Entry 0 (X 9) is drawn with priority over background colour 0; entry 1 (X 8) covers column 0.
    memory.data[0xFE00] = 16;
    memory.data[0xFE01] = 8;
    memory.data[0xFE02] = 2;
    memory.data[0xFE04] = 16;
    memory.data[0xFE05] = 8;
    memory.data[0xFE06] = 3;
    memory.data[0xFE07] = 0x80;
    ppu.tick(&mut memory, 80 + 184);
    // First in the list (entry 0, same X) ends on top.
    assert_eq!(ppu.framebuffer[0], 2);
}

#[test]
fn split_ticks_render_the_same_frame() {
    let setup = |m: &mut Memory| {
        m.data[io::LCDC as usize] = 0xB3;
        m.data[io::BGP as usize] = 0xE4;
        m.data[io::OBP0 as usize] = 0xE4;
        m.data[io::WY as usize] = 40;
        m.data[io::WX as usize] = 60;
        for i in 0..0x1800 {
            m.data[0x8000 + i] = (i * 7 % 251) as u8;
        }
        for i in 0..0x400 {
            m.data[0x9800 + i] = (i % 5) as u8;
        }
        m.data[0xFE00] = 30;
        m.data[0xFE01] = 20;
        m.data[0xFE02] = 3;
    };
    let mut a = Ppu::new();
    let mut ma = Memory::new();
    setup(&mut ma);
    let mut b = Ppu::new();
    let mut mb = Memory::new();
    setup(&mut mb);
    a.tick(&mut ma, 30_001);
    a.tick(&mut ma, 40_223);
    b.tick(&mut mb, 70_224);
    assert_eq!(a.framebuffer, b.framebuffer);
    assert_eq!(a.scanline_sprites, b.scanline_sprites);
    assert_eq!(a.window_line, b.window_line);
    assert_eq!(a.timing, b.timing);
    assert_eq!(ma.data, mb.data);
    assert!(a.framebuffer.iter().any(|&p| p != 0));
}

#[test]
fn lcd_off_keeps_frame() {
    let mut ppu = Ppu::new();
    let mut memory = Memory::new();
    ppu.framebuffer[5] = 3;
    memory.data[io::LCDC as usize] = 0x11;
    ppu.tick(&mut memory, 500);
    assert_eq!(ppu.framebuffer[5], 3);
}
