//! The picture processing unit: the per-scanline mode machine (OAM scan, drawing,
//! HBlank, VBlank), STAT and VBlank interrupts, and scanline rendering into a
//! 160x144 frame of 2-bit colour indices.
use vstd::prelude::*;
use crate::interrupts;
use crate::io;
use crate::memory::{Memory, MEM_SIZE};

verus! {

pub const SCREEN_WIDTH: usize = 160;
pub const SCREEN_HEIGHT: usize = 144;
pub const FRAME_PIXELS: usize = 23040;

/// Dots in every scanline.
pub const DOTS_PER_LINE: u32 = 456;

/// Length of the OAM scan.
pub const MODE_2_DOTS: u32 = 80;

/// Shortest drawing period.
pub const MODE_3_BASE_DOTS: u32 = 172;

/// Longest drawing period.
pub const MODE_3_MAX_DOTS: u32 = 289;

/// Scanlines in a frame, VBlank included.
pub const LINES_PER_FRAME: u8 = 154;

/// Sprites kept for one scanline.
pub const MAX_LINE_SPRITES: usize = 10;

pub const OAM_START: usize = 0xFE00;

#[derive(Debug, Clone, Copy, PartialEq, Eq, Structural)]
pub enum Mode {
    HBlank,
    VBlank,
    OamScan,
    Drawing,
}

/// The number of a mode as STAT reports it.
pub open spec fn mode_number(m: Mode) -> u8 {
    match m {
        Mode::HBlank => 0,
        Mode::VBlank => 1,
        Mode::OamScan => 2,
        Mode::Drawing => 3,
    }
}

pub fn mode_bits(m: Mode) -> (r: u8)
    ensures
        r == mode_number(m),
{
    match m {
        Mode::HBlank => 0,
        Mode::VBlank => 1,
        Mode::OamScan => 2,
        Mode::Drawing => 3,
    }
}

/// One object attribute entry.
#[derive(Debug, Clone, Copy, PartialEq, Eq, Structural)]
pub struct Sprite {
    pub y: u8,
    pub x: u8,
    pub tile: u8,
    pub flags: u8,
}

impl Sprite {
    /// Drawn only over background colour 0.
    pub fn priority(&self) -> (r: bool)
        ensures
            r == (self.flags & 0x80 != 0),
    {
        self.flags & 0x80 != 0
    }

    pub fn y_flip(&self) -> (r: bool)
        ensures
            r == (self.flags & 0x40 != 0),
    {
        self.flags & 0x40 != 0
    }

    pub fn x_flip(&self) -> (r: bool)
        ensures
            r == (self.flags & 0x20 != 0),
    {
        self.flags & 0x20 != 0
    }

    /// Uses OBP1 rather than OBP0.
    pub fn palette(&self) -> (r: bool)
        ensures
            r == (self.flags & 0x10 != 0),
    {
        self.flags & 0x10 != 0
    }
}

/// The part of the PPU state that decides timing: mode, dot counter, the current
/// drawing length, the frame-ready mark and the previous STAT line.
#[derive(Debug, Clone, Copy, PartialEq, Eq, Structural)]
pub struct LineTiming {
    pub mode: Mode,
    pub dots: u32,
    pub mode_3_length: u32,
    pub frame_ready: bool,
    pub stat_line: bool,
}

impl LineTiming {
    pub open spec fn wf(&self) -> bool {
        &&& self.dots < DOTS_PER_LINE
        &&& MODE_3_BASE_DOTS <= self.mode_3_length <= MODE_3_MAX_DOTS
    }
}

/// Sprite height selected by LCDC bit 2.
pub open spec fn sprite_height(lcdc: u8) -> int {
    if lcdc & 0x04 != 0 {
        16
    } else {
        8
    }
}

/// Whether an OAM entry with the given Y byte covers scanline `ly`.
pub open spec fn on_line(y: u8, ly: u8, height: int) -> bool {
    y <= ly + 16 < y + height
}

/// Entries among the first `n` of OAM that cover scanline `ly`.
pub open spec fn oam_matches(d: Seq<u8>, ly: u8, height: int, n: int) -> int
    decreases n,
{
    if n <= 0 {
        0
    } else {
        oam_matches(d, ly, height, n - 1) + if on_line(d[OAM_START + 4 * (n - 1)], ly, height) {
            1int
        } else {
            0int
        }
    }
}

/// OAM entry `i`.
pub open spec fn oam_entry(d: Seq<u8>, i: int) -> Sprite {
    Sprite {
        y: d[OAM_START + 4 * i],
        x: d[OAM_START + 4 * i + 1],
        tile: d[OAM_START + 4 * i + 2],
        flags: d[OAM_START + 4 * i + 3],
    }
}

/// First index of `s`, from `k` on, whose X is above `x` (or the length).
pub open spec fn first_above(s: Seq<Sprite>, x: u8, k: int) -> int
    decreases s.len() - k,
{
    if k >= s.len() {
        s.len() as int
    } else if s[k].x > x {
        k
    } else {
        first_above(s, x, k + 1)
    }
}

/// The scan after OAM entries `0..n`: the first ten that cover scanline `ly`, each put after
/// every kept entry whose X is not above its own, so that the list is sorted by X and equal
/// X keep OAM order.
pub open spec fn scan_spec(d: Seq<u8>, ly: u8, height: int, n: int) -> Seq<Sprite>
    decreases n,
{
    if n <= 0 {
        Seq::empty()
    } else {
        let s = scan_spec(d, ly, height, n - 1);
        let e = oam_entry(d, n - 1);
        if on_line(e.y, ly, height) && s.len() < 10 {
            s.insert(first_above(s, e.x, 0), e)
        } else {
            s
        }
    }
}

/// Sprites the OAM scan keeps for scanline `ly`.
pub open spec fn sprite_count(d: Seq<u8>, ly: u8) -> int {
    let n = oam_matches(d, ly, sprite_height(d[io::LCDC as int]), 40);
    if n < 10 {
        n
    } else {
        10
    }
}

/// Drawing length of scanline `ly` as the OAM scan leaves it.
pub open spec fn mode_3_length_spec(d: Seq<u8>, ly: u8) -> u32 {
    mode_3_length_with(d, ly, sprite_count(d, ly))
}

/// Drawing length of scanline `ly` with `n` sprites: scroll, sprite and window penalties, capped.
pub open spec fn mode_3_length_with(d: Seq<u8>, ly: u8, n: int) -> u32 {
    let lcdc = d[io::LCDC as int];
    let window = lcdc & 0x20 != 0 && ly >= d[io::WY as int] && d[io::WX as int] <= 166;
    let len = MODE_3_BASE_DOTS + d[io::SCX as int] % 8 + 6 * n + if window {
        6int
    } else {
        0int
    };
    if len > MODE_3_MAX_DOTS {
        MODE_3_MAX_DOTS
    } else {
        len as u32
    }
}

/// STAT with the mode bits and the LY=LYC bit brought up to date.
pub open spec fn update_stat_spec(d: Seq<u8>, mode: Mode) -> Seq<u8> {
    let s = (d[io::STAT as int] & 0xF8) | mode_number(mode);
    let s2 = if d[io::LY as int] == d[io::LYC as int] { s | 0x04 } else { s };
    d.update(io::STAT as int, s2)
}

/// STAT with the LY=LYC bit set for line `ly`.
pub open spec fn check_lyc_spec(d: Seq<u8>, ly: u8) -> Seq<u8> {
    let s = d[io::STAT as int];
    d.update(io::STAT as int, if ly == d[io::LYC as int] { s | 0x04 } else { s & !0x04u8 })
}

/// The OR of the enabled STAT interrupt sources.
pub open spec fn stat_condition(mode: Mode, d: Seq<u8>) -> bool {
    let stat = d[io::STAT as int];
    (stat & 0x08 != 0 && mode == Mode::HBlank) || (stat & 0x10 != 0 && mode == Mode::VBlank) || (stat & 0x20
        != 0 && mode == Mode::OamScan) || (stat & 0x40 != 0 && d[io::LY as int] == d[io::LYC as int])
}

/// IF bit 1 is raised on a rising edge of the STAT line.
pub open spec fn stat_edge_spec(t: LineTiming, d: Seq<u8>) -> (LineTiming, Seq<u8>) {
    let line = stat_condition(t.mode, d);
    let d1 = if line && !t.stat_line {
        d.update(io::IF as int, d[io::IF as int] | interrupts::LCD_STAT)
    } else {
        d
    };
    (LineTiming { stat_line: line, ..t }, d1)
}

/// Mode machine and address array after one dot, before the STAT edge check.
pub open spec fn mode_step(t: LineTiming, d: Seq<u8>) -> (LineTiming, Seq<u8>) {
    let dots = t.dots + 1;
    let ly = d[io::LY as int];
    match t.mode {
        Mode::OamScan => if dots >= MODE_2_DOTS {
            (
                LineTiming { mode: Mode::Drawing, dots: 0, mode_3_length: mode_3_length_spec(d, ly), ..t },
                update_stat_spec(d, Mode::Drawing),
            )
        } else {
            (LineTiming { dots: dots as u32, ..t }, d)
        },
        Mode::Drawing => if dots >= t.mode_3_length {
            (LineTiming { mode: Mode::HBlank, dots: 0, ..t }, update_stat_spec(d, Mode::HBlank))
        } else {
            (LineTiming { dots: dots as u32, ..t }, d)
        },
        Mode::HBlank => if dots >= DOTS_PER_LINE - MODE_2_DOTS - t.mode_3_length {
            let new_ly = ((ly + 1) % 256) as u8;
            let d1 = d.update(io::LY as int, new_ly);
            if new_ly >= 144 {
                let d2 = d1.update(io::IF as int, d1[io::IF as int] | interrupts::VBLANK);
                (
                    LineTiming { mode: Mode::VBlank, dots: 0, frame_ready: true, ..t },
                    check_lyc_spec(update_stat_spec(d2, Mode::VBlank), new_ly),
                )
            } else {
                (LineTiming { mode: Mode::OamScan, dots: 0, ..t }, check_lyc_spec(update_stat_spec(d1, Mode::OamScan), new_ly))
            }
        } else {
            (LineTiming { dots: dots as u32, ..t }, d)
        },
        Mode::VBlank => if dots >= DOTS_PER_LINE {
            let new_ly = ((ly + 1) % 256) as u8;
            if new_ly >= LINES_PER_FRAME {
                let d1 = d.update(io::LY as int, 0);
                (LineTiming { mode: Mode::OamScan, dots: 0, ..t }, check_lyc_spec(update_stat_spec(d1, Mode::OamScan), 0))
            } else {
                (LineTiming { dots: 0, ..t }, check_lyc_spec(d.update(io::LY as int, new_ly), new_ly))
            }
        } else {
            (LineTiming { dots: dots as u32, ..t }, d)
        },
    }
}

/// Timing state and address array after one dot.
pub open spec fn ppu_step(t: LineTiming, d: Seq<u8>) -> (LineTiming, Seq<u8>) {
    let (t1, d1) = mode_step(t, d);
    stat_edge_spec(t1, d1)
}

/// Timing state and address array after `n` dots.
pub open spec fn ppu_run(t: LineTiming, d: Seq<u8>, n: nat) -> (LineTiming, Seq<u8>)
    decreases n,
{
    if n == 0 {
        (t, d)
    } else {
        let (t1, d1) = ppu_run(t, d, (n - 1) as nat);
        ppu_step(t1, d1)
    }
}

/// The state the LCD is held in while LCDC bit 7 is clear.
pub open spec fn lcd_off_spec(t: LineTiming, d: Seq<u8>) -> (LineTiming, Seq<u8>) {
    (
        LineTiming { mode: Mode::HBlank, dots: 0, ..t },
        d.update(io::LY as int, 0).update(io::STAT as int, d[io::STAT as int] & 0xFC),
    )
}

/// Timing state and address array after `tick(n)`.
pub open spec fn ppu_tick_spec(t: LineTiming, d: Seq<u8>, n: nat) -> (LineTiming, Seq<u8>) {
    if d[io::LCDC as int] & 0x80 == 0 {
        lcd_off_spec(t, d)
    } else {
        ppu_run(t, d, n)
    }
}

/// Colour index (0..3) of pixel `col` (0 = leftmost) of row `row` of the tile at `tile_addr`.
pub open spec fn tile_pixel(d: Seq<u8>, tile_addr: int, row: int, col: int) -> u8 {
    let lo = d[tile_addr + row * 2];
    let hi = d[tile_addr + row * 2 + 1];
    let bit = (7 - col) as u8;
    (((hi >> bit) & 1) << 1u8) | ((lo >> bit) & 1)
}

/// Shade that palette register `pal` gives colour index `idx`.
pub open spec fn shade(pal: u8, idx: u8) -> u8 {
    (pal >> (idx * 2) as u8) & 3
}

/// Address of the tile data for tile number `idx` in the background/window addressing mode.
pub open spec fn bg_tile_addr(lcdc: u8, idx: u8) -> int {
    if lcdc & 0x10 != 0 {
        0x8000 + idx * 16
    } else {
        0x8800 + ((idx + 128) % 256) * 16
    }
}

/// Shade of the background at screen column `sx` of scanline `ly`.
pub open spec fn bg_shade(d: Seq<u8>, ly: u8, sx: int) -> u8 {
    let lcdc = d[io::LCDC as int];
    let y = (ly + d[io::SCY as int]) % 256;
    let x = (sx + d[io::SCX as int]) % 256;
    let map = if lcdc & 0x08 != 0 { 0x9C00int } else { 0x9800int };
    let idx = d[map + (y / 8) * 32 + x / 8];
    shade(d[io::BGP as int], tile_pixel(d, bg_tile_addr(lcdc, idx), y % 8, x % 8))
}

/// Shade of the window at screen column `sx`, drawing window line `wl`.
pub open spec fn window_shade(d: Seq<u8>, wl: u8, sx: int) -> u8 {
    let lcdc = d[io::LCDC as int];
    let x = sx - window_start(d[io::WX as int]);
    let map = if lcdc & 0x40 != 0 { 0x9C00int } else { 0x9800int };
    let idx = d[map + (wl as int / 8) * 32 + x / 8];
    shade(d[io::BGP as int], tile_pixel(d, bg_tile_addr(lcdc, idx), wl as int % 8, x % 8))
}

/// First screen column of the window.
pub open spec fn window_start(wx: u8) -> int {
    if wx < 7 {
        0
    } else {
        wx - 7
    }
}

/// Whether the window is drawn on scanline `ly`.
pub open spec fn window_visible(d: Seq<u8>, ly: u8) -> bool {
    let lcdc = d[io::LCDC as int];
    lcdc & 0x01 != 0 && lcdc & 0x20 != 0 && ly >= d[io::WY as int] && d[io::WX as int] <= 166
}

pub proof fn lemma_small_bits()
    by (bit_vector)
    ensures
        forall|x: u8| #![trigger (x & 3)] (x & 3) < 4,
        forall|x: u8| #![trigger (x & 1)] (x & 1) < 2,
        forall|a: u8, b: u8| a < 2 && b < 2 ==> ((a << 1u8) | b) < 4,
        forall|x: u8| #![trigger ((x & 0xFC) & 0xFC)] (x & 0xFC) & 0xFC == x & 0xFC,
{
}

proof fn lemma_step_keeps(t: LineTiming, d: Seq<u8>)
    requires
        d.len() == MEM_SIZE,
    ensures
        ppu_step(t, d).1.len() == d.len(),
        ppu_step(t, d).1[io::LCDC as int] == d[io::LCDC as int],
{
}

proof fn lemma_run_keeps(t: LineTiming, d: Seq<u8>, n: nat)
    requires
        d.len() == MEM_SIZE,
    ensures
        ppu_run(t, d, n).1.len() == d.len(),
        ppu_run(t, d, n).1[io::LCDC as int] == d[io::LCDC as int],
    decreases n,
{
    if n > 0 {
        lemma_run_keeps(t, d, (n - 1) as nat);
        let (t1, d1) = ppu_run(t, d, (n - 1) as nat);
        lemma_step_keeps(t1, d1);
    }
}

proof fn lemma_run_keeps_low(t: LineTiming, d: Seq<u8>, n: nat)
    requires
        d.len() == MEM_SIZE,
    ensures
        ppu_run(t, d, n).1.len() == d.len(),
        forall|i: int| 0 <= i < 0xFE00 ==> #[trigger] ppu_run(t, d, n).1[i] == d[i],
    decreases n,
{
    if n > 0 {
        lemma_run_keeps_low(t, d, (n - 1) as nat);
    }
}

/// Ticking the PPU writes only LY, STAT and IF: nothing below 0xFE00 changes.
pub proof fn lemma_tick_keeps_low(t: LineTiming, d: Seq<u8>, n: nat)
    requires
        d.len() == MEM_SIZE,
    ensures
        ppu_tick_spec(t, d, n).1.len() == d.len(),
        forall|i: int| 0 <= i < 0xFE00 ==> #[trigger] ppu_tick_spec(t, d, n).1[i] == d[i],
{
    lemma_run_keeps_low(t, d, n);
}

proof fn lemma_ppu_run_split(t: LineTiming, d: Seq<u8>, n: nat, m: nat)
    ensures
        ppu_run(ppu_run(t, d, n).0, ppu_run(t, d, n).1, m) == ppu_run(t, d, n + m),
    decreases m,
{
    if m > 0 {
        lemma_ppu_run_split(t, d, n, (m - 1) as nat);
        assert(n + m - 1 == n + (m - 1) as nat);
    }
}

/// Ticking `n` and then `m` dots leaves the mode machine and the address array as
/// ticking `n + m` dots at once.
pub proof fn lemma_ppu_tick_additive(t: LineTiming, d: Seq<u8>, n: nat, m: nat)
    requires
        d.len() == MEM_SIZE,
    ensures
        ({
            let s = ppu_tick_spec(t, d, n);
            ppu_tick_spec(s.0, s.1, m)
        }) == ppu_tick_spec(t, d, n + m),
{
    if d[io::LCDC as int] & 0x80 == 0 {
        lemma_small_bits();
        let s = lcd_off_spec(t, d);
        let s2 = lcd_off_spec(s.0, s.1);
        assert(s2.1 =~= s.1);
    } else {
        lemma_run_keeps(t, d, n);
        lemma_ppu_run_split(t, d, n, m);
    }
}

/// Dots left in the current phase of the mode machine.
pub open spec fn phase_end(t: LineTiming) -> int {
    match t.mode {
        Mode::OamScan => MODE_2_DOTS as int,
        Mode::Drawing => t.mode_3_length as int,
        Mode::HBlank => DOTS_PER_LINE - MODE_2_DOTS - t.mode_3_length,
        Mode::VBlank => DOTS_PER_LINE as int,
    }
}

proof fn lemma_matches_nonneg(d: Seq<u8>, ly: u8, h: int, n: int)
    ensures
        oam_matches(d, ly, h, n) >= 0,
    decreases n,
{
    if n > 0 {
        lemma_matches_nonneg(d, ly, h, n - 1);
    }
}

/// Within a phase only the dot counter of the mode machine moves, and LY stays.
proof fn lemma_phase(t: LineTiming, d: Seq<u8>, j: nat)
    requires
        t.wf(),
        d.len() == MEM_SIZE,
        t.dots + j < phase_end(t),
    ensures
        ({
            let (t2, d2) = ppu_run(t, d, j);
            &&& t2 == LineTiming { dots: (t.dots + j) as u32, stat_line: t2.stat_line, ..t }
            &&& d2.len() == d.len()
            &&& d2[io::LY as int] == d[io::LY as int]
            &&& d2[io::LCDC as int] == d[io::LCDC as int]
        }),
    decreases j,
{
    if j > 0 {
        lemma_phase(t, d, (j - 1) as nat);
    }
}

/// Steps, among the first `n` dots, on which the PPU enters VBlank (each raises the
/// VBlank interrupt).
pub open spec fn vblank_entries(t: LineTiming, d: Seq<u8>, n: nat) -> nat
    decreases n,
{
    if n == 0 {
        0
    } else {
        let (t1, d1) = ppu_run(t, d, (n - 1) as nat);
        vblank_entries(t, d, (n - 1) as nat) + if t1.mode != Mode::VBlank && ppu_step(t1, d1).0.mode
            == Mode::VBlank {
            1nat
        } else {
            0nat
        }
    }
}

proof fn lemma_entries_split(t: LineTiming, d: Seq<u8>, n: nat, m: nat)
    ensures
        vblank_entries(t, d, n + m) == vblank_entries(t, d, n) + vblank_entries(
            ppu_run(t, d, n).0,
            ppu_run(t, d, n).1,
            m,
        ),
    decreases m,
{
    if m > 0 {
        lemma_entries_split(t, d, n, (m - 1) as nat);
        lemma_ppu_run_split(t, d, n, (m - 1) as nat);
        assert(n + m - 1 == n + (m - 1) as nat);
    }
}

/// Within a phase no step enters VBlank.
proof fn lemma_phase_entries(t: LineTiming, d: Seq<u8>, j: nat)
    requires
        t.wf(),
        d.len() == MEM_SIZE,
        t.dots + j < phase_end(t),
    ensures
        vblank_entries(t, d, j) == 0,
    decreases j,
{
    if j > 0 {
        lemma_phase_entries(t, d, (j - 1) as nat);
        lemma_phase(t, d, (j - 1) as nat);
    }
}

proof fn lemma_oam_phase(t: LineTiming, d: Seq<u8>)
    requires
        t.wf(),
        d.len() == MEM_SIZE,
        t.mode == Mode::OamScan,
        t.dots == 0,
    ensures
        ({
            let (t2, d2) = ppu_run(t, d, MODE_2_DOTS as nat);
            &&& t2.wf()
            &&& t2.mode == Mode::Drawing
            &&& t2.dots == 0
            &&& d2.len() == d.len()
            &&& d2[io::LY as int] == d[io::LY as int]
            &&& d2[io::LCDC as int] == d[io::LCDC as int]
        }),
        vblank_entries(t, d, MODE_2_DOTS as nat) == 0,
{
    lemma_phase(t, d, 79);
    lemma_phase_entries(t, d, 79);
    let (t1, d1) = ppu_run(t, d, 79);
    lemma_matches_nonneg(d1, d1[io::LY as int], sprite_height(d1[io::LCDC as int]), 40);
    let (t2, d2) = mode_step(t1, d1);
    assert(t2.mode == Mode::Drawing && t2.dots == 0 && t2.wf());
}

proof fn lemma_draw_phase(t: LineTiming, d: Seq<u8>)
    requires
        t.wf(),
        d.len() == MEM_SIZE,
        t.mode == Mode::Drawing,
        t.dots == 0,
    ensures
        ({
            let (t2, d2) = ppu_run(t, d, t.mode_3_length as nat);
            &&& t2.wf()
            &&& t2.mode == Mode::HBlank
            &&& t2.dots == 0
            &&& t2.mode_3_length == t.mode_3_length
            &&& d2.len() == d.len()
            &&& d2[io::LY as int] == d[io::LY as int]
            &&& d2[io::LCDC as int] == d[io::LCDC as int]
        }),
        vblank_entries(t, d, t.mode_3_length as nat) == 0,
{
    lemma_phase(t, d, (t.mode_3_length - 1) as nat);
    lemma_phase_entries(t, d, (t.mode_3_length - 1) as nat);
    let (t1, d1) = ppu_run(t, d, (t.mode_3_length - 1) as nat);
    let (t2, d2) = mode_step(t1, d1);
    assert(t2.mode == Mode::HBlank && t2.dots == 0);
}

proof fn lemma_hblank_phase(t: LineTiming, d: Seq<u8>)
    requires
        t.wf(),
        d.len() == MEM_SIZE,
        t.mode == Mode::HBlank,
        t.dots == 0,
        d[io::LY as int] < 144,
    ensures
        ({
            let (t2, d2) = ppu_run(t, d, (DOTS_PER_LINE - MODE_2_DOTS - t.mode_3_length) as nat);
            &&& t2.wf()
            &&& t2.mode == (if d[io::LY as int] < 143 { Mode::OamScan } else { Mode::VBlank })
            &&& t2.dots == 0
            &&& d2.len() == d.len()
            &&& d2[io::LY as int] == d[io::LY as int] + 1
            &&& d2[io::LCDC as int] == d[io::LCDC as int]
        }),
        vblank_entries(t, d, (DOTS_PER_LINE - MODE_2_DOTS - t.mode_3_length) as nat) == (if d[io::LY as int]
            < 143 {
            0nat
        } else {
            1nat
        }),
{
    let n = (DOTS_PER_LINE - MODE_2_DOTS - t.mode_3_length) as nat;
    lemma_phase(t, d, (n - 1) as nat);
    lemma_phase_entries(t, d, (n - 1) as nat);
    let (t1, d1) = ppu_run(t, d, (n - 1) as nat);
    let (t2, d2) = mode_step(t1, d1);
    assert(t2.dots == 0 && d2[io::LY as int] == d[io::LY as int] + 1);
}

proof fn lemma_vblank_line(t: LineTiming, d: Seq<u8>)
    requires
        t.wf(),
        d.len() == MEM_SIZE,
        t.mode == Mode::VBlank,
        t.dots == 0,
        144 <= d[io::LY as int] < 154,
    ensures
        ({
            let (t2, d2) = ppu_run(t, d, DOTS_PER_LINE as nat);
            &&& t2.wf()
            &&& t2.mode == (if d[io::LY as int] < 153 { Mode::VBlank } else { Mode::OamScan })
            &&& t2.dots == 0
            &&& d2.len() == d.len()
            &&& d2[io::LY as int] == (if d[io::LY as int] < 153 { d[io::LY as int] + 1 } else { 0 })
            &&& d2[io::LCDC as int] == d[io::LCDC as int]
        }),
        vblank_entries(t, d, DOTS_PER_LINE as nat) == 0,
{
    lemma_phase(t, d, 455);
    lemma_phase_entries(t, d, 455);
    let (t1, d1) = ppu_run(t, d, 455);
    let (t2, d2) = mode_step(t1, d1);
    assert(t2.dots == 0);
}

/// One scanline from the start of its OAM scan, for lines 0..143.
proof fn lemma_line(t: LineTiming, d: Seq<u8>)
    requires
        t.wf(),
        d.len() == MEM_SIZE,
        t.mode == Mode::OamScan,
        t.dots == 0,
        d[io::LY as int] < 144,
    ensures
        ({
            let (t2, d2) = ppu_run(t, d, DOTS_PER_LINE as nat);
            &&& t2.wf()
            &&& t2.mode == (if d[io::LY as int] < 143 { Mode::OamScan } else { Mode::VBlank })
            &&& t2.dots == 0
            &&& d2.len() == d.len()
            &&& d2[io::LY as int] == d[io::LY as int] + 1
            &&& d2[io::LCDC as int] == d[io::LCDC as int]
        }),
        vblank_entries(t, d, DOTS_PER_LINE as nat) == (if d[io::LY as int] < 143 { 0nat } else { 1nat }),
{
    lemma_oam_phase(t, d);
    let (ta, da) = ppu_run(t, d, 80);
    let m3 = ta.mode_3_length;
    lemma_draw_phase(ta, da);
    let (tb, db) = ppu_run(ta, da, m3 as nat);
    lemma_hblank_phase(tb, db);
    lemma_ppu_run_split(t, d, 80, m3 as nat);
    lemma_ppu_run_split(t, d, (80 + m3) as nat, (DOTS_PER_LINE - MODE_2_DOTS - m3) as nat);
    lemma_entries_split(t, d, 80, m3 as nat);
    lemma_entries_split(t, d, (80 + m3) as nat, (DOTS_PER_LINE - MODE_2_DOTS - m3) as nat);
    assert(80 + m3 + (DOTS_PER_LINE - MODE_2_DOTS - m3) == 456);
}

/// The first `k` visible lines of a frame.
proof fn lemma_visible_lines(t: LineTiming, d: Seq<u8>, k: nat)
    requires
        t.wf(),
        d.len() == MEM_SIZE,
        t.mode == Mode::OamScan,
        t.dots == 0,
        d[io::LY as int] == 0,
        k <= 143,
    ensures
        ({
            let (t2, d2) = ppu_run(t, d, k * 456);
            &&& t2.wf()
            &&& t2.mode == Mode::OamScan
            &&& t2.dots == 0
            &&& d2.len() == d.len()
            &&& d2[io::LY as int] == k
            &&& d2[io::LCDC as int] == d[io::LCDC as int]
        }),
        vblank_entries(t, d, k * 456) == 0,
    decreases k,
{
    if k > 0 {
        let p = ((k - 1) * 456) as nat;
        lemma_visible_lines(t, d, (k - 1) as nat);
        let (t1, d1) = ppu_run(t, d, p);
        lemma_line(t1, d1);
        lemma_ppu_run_split(t, d, p, 456);
        lemma_entries_split(t, d, p, 456);
        assert(p + 456 == k * 456);
    }
}

/// The VBlank lines 144 up to `144 + k`.
proof fn lemma_vblank_lines(t: LineTiming, d: Seq<u8>, k: nat)
    requires
        t.wf(),
        d.len() == MEM_SIZE,
        t.mode == Mode::VBlank,
        t.dots == 0,
        d[io::LY as int] == 144,
        k <= 9,
    ensures
        ({
            let (t2, d2) = ppu_run(t, d, k * 456);
            &&& t2.wf()
            &&& t2.mode == Mode::VBlank
            &&& t2.dots == 0
            &&& d2.len() == d.len()
            &&& d2[io::LY as int] == 144 + k
            &&& d2[io::LCDC as int] == d[io::LCDC as int]
        }),
        vblank_entries(t, d, k * 456) == 0,
    decreases k,
{
    if k > 0 {
        let p = ((k - 1) * 456) as nat;
        lemma_vblank_lines(t, d, (k - 1) as nat);
        let (t1, d1) = ppu_run(t, d, p);
        lemma_vblank_line(t1, d1);
        lemma_ppu_run_split(t, d, p, 456);
        lemma_entries_split(t, d, p, 456);
        assert(p + 456 == k * 456);
    }
}

/// A whole frame, 70 224 dots from the start of line 0 with the LCD on, brings the PPU
/// back to the start of line 0 and enters VBlank (raising its interrupt) exactly once.
pub proof fn lemma_frame(t: LineTiming, d: Seq<u8>)
    requires
        t.wf(),
        d.len() == MEM_SIZE,
        d[io::LCDC as int] & 0x80 != 0,
        t.mode == Mode::OamScan,
        t.dots == 0,
        d[io::LY as int] == 0,
    ensures
        ({
            let (t2, d2) = ppu_tick_spec(t, d, 70224);
            &&& t2.mode == Mode::OamScan
            &&& t2.dots == 0
            &&& d2[io::LY as int] == 0
        }),
        vblank_entries(t, d, 70224) == 1,
{
    lemma_visible_lines(t, d, 143);
    let (t1, d1) = ppu_run(t, d, 143 * 456);
    lemma_line(t1, d1);
    lemma_ppu_run_split(t, d, 143 * 456, 456);
    lemma_entries_split(t, d, 143 * 456, 456);
    let (t2, d2) = ppu_run(t, d, 144 * 456);
    lemma_vblank_lines(t2, d2, 9);
    lemma_ppu_run_split(t, d, 144 * 456, 9 * 456);
    lemma_entries_split(t, d, 144 * 456, 9 * 456);
    let (t3, d3) = ppu_run(t, d, 153 * 456);
    lemma_vblank_line(t3, d3);
    lemma_ppu_run_split(t, d, 153 * 456, 456);
    lemma_entries_split(t, d, 153 * 456, 456);
}

/// A visible scanline takes exactly 456 dots, whatever its drawing length: from the start
/// of its OAM scan the PPU reaches the start of the next line's OAM scan.
pub proof fn lemma_line_length(t: LineTiming, d: Seq<u8>)
    requires
        t.wf(),
        d.len() == MEM_SIZE,
        d[io::LCDC as int] & 0x80 != 0,
        t.mode == Mode::OamScan,
        t.dots == 0,
        d[io::LY as int] < 143,
    ensures
        ({
            let (t2, d2) = ppu_tick_spec(t, d, DOTS_PER_LINE as nat);
            &&& t2.mode == Mode::OamScan
            &&& t2.dots == 0
            &&& d2[io::LY as int] == d[io::LY as int] + 1
        }),
{
    lemma_line(t, d);
}

/// Colour index (0..3) from bit `bit` of a tile row's low and high bytes.
pub fn color_index(lo: u8, hi: u8, bit: u8) -> (r: u8)
    requires
        bit < 8,
    ensures
        r == (((hi >> bit) & 1) << 1u8) | ((lo >> bit) & 1),
        r < 4,
{
    assert(((((hi >> bit) & 1) << 1u8) | ((lo >> bit) & 1)) < 4) by (bit_vector)
        requires
            bit < 8,
    ;
    (((hi >> bit) & 1) << 1u8) | ((lo >> bit) & 1)
}

/// Shade that a palette register gives a colour index.
pub fn shade_of(pal: u8, idx: u8) -> (r: u8)
    requires
        idx < 4,
    ensures
        r == shade(pal, idx),
        r < 4,
{
    let r = (pal >> (idx * 2)) & 3;
    assert(r < 4) by (bit_vector)
        requires
            r == (pal >> (idx * 2)) & 3,
    ;
    r
}

/// Colour sprite `s` gives screen column `x` of scanline `ly`, drawn over pixel `below`;
/// `bg` is the background pixel there. Colour 0 is transparent, a sprite with the
/// priority bit shows only over background colour 0, flips mirror the tile, and 8x16
/// sprites use the even tile of their pair on top.
pub open spec fn sprite_over(d: Seq<u8>, ly: u8, s: Sprite, x: int, below: u8, bg: u8) -> u8 {
    let h = sprite_height(d[io::LCDC as int]);
    let row_raw = (ly + 16 + 256 - s.y) % 256;
    let col = x + 8 - s.x;
    if !(0 <= col < 8) || row_raw >= h {
        below
    } else {
        let row = if s.flags & 0x40 != 0 { h - 1 - row_raw } else { row_raw };
        let tile = if h == 16 { s.tile & 0xFE } else { s.tile };
        let pc = if s.flags & 0x20 != 0 { 7 - col } else { col };
        let idx = tile_pixel(d, 0x8000 + tile * 16, row, pc);
        if idx == 0 || (s.flags & 0x80 != 0 && bg != 0) {
            below
        } else {
            shade(if s.flags & 0x10 != 0 { d[io::OBP1 as int] } else { d[io::OBP0 as int] }, idx)
        }
    }
}

/// Pixel `x` of scanline `ly` once sprites `k..` of `list` are drawn over `bg`, the last
/// first, so that an earlier sprite in the list ends on top.
pub open spec fn sprites_over(d: Seq<u8>, ly: u8, list: Seq<Sprite>, k: int, x: int, bg: u8) -> u8
    decreases list.len() - k,
{
    if k < 0 || k >= list.len() {
        bg
    } else {
        sprite_over(d, ly, list[k], x, sprites_over(d, ly, list, k + 1, x, bg), bg)
    }
}

/// Whether the window is drawn on scanline `ly` once the background is on.
pub open spec fn window_on_line(d: Seq<u8>, ly: u8) -> bool {
    d[io::LCDC as int] & 0x20 != 0 && ly >= d[io::WY as int] && d[io::WX as int] <= 166
}

/// Pixel `x` of scanline `ly`: background or colour 0, the window over it from its
/// first column (drawing window line `wl`), then the sprites of `list`.
pub open spec fn line_pixel(d: Seq<u8>, ly: u8, wl: u8, list: Seq<Sprite>, x: int) -> u8 {
    let lcdc = d[io::LCDC as int];
    let base = if lcdc & 0x01 == 0 {
        0u8
    } else if window_on_line(d, ly) && x >= window_start(d[io::WX as int]) {
        window_shade(d, wl, x)
    } else {
        bg_shade(d, ly, x)
    };
    if lcdc & 0x02 != 0 {
        sprites_over(d, ly, list, 0, x, base)
    } else {
        base
    }
}

/// The frame with scanline `ly` rendered.
pub open spec fn render_line(fb: Seq<u8>, d: Seq<u8>, ly: u8, wl: u8, sp: Seq<Sprite>) -> Seq<u8> {
    Seq::new(
        fb.len(),
        |i: int|
            if ly * 160 <= i < ly * 160 + 160 {
                line_pixel(d, ly, wl, sp, i - ly * 160)
            } else {
                fb[i]
            },
    )
}

/// Rendering state (frame, scanline sprites, window line counter, window-drawn mark) after
/// one dot that starts with the mode machine at `t` and the address array at `d`: the OAM
/// scan fills the sprite list, the end of drawing renders the line, and VBlank entry
/// restarts the window line counter.
pub open spec fn content_step(t: LineTiming, d: Seq<u8>, c: (Seq<u8>, Seq<Sprite>, u8, bool)) -> (
    Seq<u8>,
    Seq<Sprite>,
    u8,
    bool,
) {
    let dots = t.dots + 1;
    let ly = d[io::LY as int];
    match t.mode {
        Mode::OamScan => if dots >= MODE_2_DOTS {
            (c.0, scan_spec(d, ly, sprite_height(d[io::LCDC as int]), 40), c.2, c.3)
        } else {
            c
        },
        Mode::Drawing => if dots >= t.mode_3_length && ly < 144 {
            let drawn = d[io::LCDC as int] & 0x01 != 0 && window_on_line(d, ly);
            (
                render_line(c.0, d, ly, c.2, c.1),
                c.1,
                if drawn { ((c.2 + 1) % 256) as u8 } else { c.2 },
                c.3 || drawn,
            )
        } else {
            c
        },
        Mode::HBlank => if dots >= DOTS_PER_LINE - MODE_2_DOTS - t.mode_3_length && (ly + 1) % 256 >= 144 {
            (c.0, c.1, 0u8, false)
        } else {
            c
        },
        Mode::VBlank => c,
    }
}

/// Rendering state after `n` dots.
pub open spec fn content_run(t: LineTiming, d: Seq<u8>, c: (Seq<u8>, Seq<Sprite>, u8, bool), n: nat) -> (
    Seq<u8>,
    Seq<Sprite>,
    u8,
    bool,
)
    decreases n,
{
    if n == 0 {
        c
    } else {
        let (t1, d1) = ppu_run(t, d, (n - 1) as nat);
        content_step(t1, d1, content_run(t, d, c, (n - 1) as nat))
    }
}

/// Rendering state after `tick(n)`: unchanged while the LCD is off.
pub open spec fn content_tick_spec(t: LineTiming, d: Seq<u8>, c: (Seq<u8>, Seq<Sprite>, u8, bool), n: nat) -> (
    Seq<u8>,
    Seq<Sprite>,
    u8,
    bool,
) {
    if d[io::LCDC as int] & 0x80 == 0 {
        c
    } else {
        content_run(t, d, c, n)
    }
}

proof fn lemma_content_split(t: LineTiming, d: Seq<u8>, c: (Seq<u8>, Seq<Sprite>, u8, bool), n: nat, m: nat)
    ensures
        content_run(ppu_run(t, d, n).0, ppu_run(t, d, n).1, content_run(t, d, c, n), m) == content_run(t, d, c, n + m),
    decreases m,
{
    if m > 0 {
        lemma_content_split(t, d, c, n, (m - 1) as nat);
        lemma_ppu_run_split(t, d, n, (m - 1) as nat);
        assert(n + m - 1 == n + (m - 1) as nat);
    }
}

/// Ticking `n` and then `m` dots leaves the rendering state (frame, sprite list, window
/// line counter) as ticking `n + m` dots at once.
pub proof fn lemma_content_tick_additive(t: LineTiming, d: Seq<u8>, c: (Seq<u8>, Seq<Sprite>, u8, bool), n: nat, m: nat)
    requires
        d.len() == MEM_SIZE,
    ensures
        ({
            let s = ppu_tick_spec(t, d, n);
            content_tick_spec(s.0, s.1, content_tick_spec(t, d, c, n), m)
        }) == content_tick_spec(t, d, c, n + m),
{
    lemma_ppu_tick_additive(t, d, n, m);
    if d[io::LCDC as int] & 0x80 == 0 {
        lemma_small_bits();
        let s = lcd_off_spec(t, d);
        assert(s.1[io::LCDC as int] == d[io::LCDC as int]);
    } else {
        lemma_run_keeps(t, d, n);
        lemma_content_split(t, d, c, n, m);
    }
}

#[derive(Debug)]
pub struct Ppu {
    pub timing: LineTiming,
    /// Frame of 2-bit colour indices, row by row.
    pub framebuffer: Vec<u8>,
    /// Sprites on the current scanline, by X.
    pub scanline_sprites: Vec<Sprite>,
    /// Window line counter; advances only on lines where the window is drawn.
    pub window_line: u8,
    pub window_triggered: bool,
}

impl Ppu {
    pub open spec fn wf(&self) -> bool {
        &&& self.timing.wf()
        &&& self.content_wf()
    }

    /// The frame holds 2-bit colour indices, and at most ten sprites are kept.
    pub open spec fn content_wf(&self) -> bool {
        &&& self.framebuffer@.len() == FRAME_PIXELS
        &&& forall|i: int| 0 <= i < FRAME_PIXELS ==> #[trigger] self.framebuffer@[i] < 4
        &&& self.scanline_sprites@.len() <= MAX_LINE_SPRITES
    }

    /// The rendering state: frame, scanline sprites, window line counter, window-drawn mark.
    pub open spec fn content(&self) -> (Seq<u8>, Seq<Sprite>, u8, bool) {
        (self.framebuffer@, self.scanline_sprites@, self.window_line, self.window_triggered)
    }

    pub open spec fn initial_timing() -> LineTiming {
        LineTiming {
            mode: Mode::OamScan,
            dots: 0,
            mode_3_length: MODE_3_BASE_DOTS,
            frame_ready: false,
            stat_line: false,
        }
    }

    pub fn new() -> (r: Self)
        ensures
            r.wf(),
            r.timing == Self::initial_timing(),
            r.framebuffer@ == Seq::new(FRAME_PIXELS as nat, |i: int| 0u8),
            r.scanline_sprites@.len() == 0,
            r.window_line == 0,
    {
        let fb: Vec<u8> = vec![0u8; FRAME_PIXELS];
        assert(fb@ =~= Seq::new(FRAME_PIXELS as nat, |i: int| 0u8));
        Ppu {
            timing: LineTiming {
                mode: Mode::OamScan,
                dots: 0,
                mode_3_length: MODE_3_BASE_DOTS,
                frame_ready: false,
                stat_line: false,
            },
            framebuffer: fb,
            scanline_sprites: Vec::new(),
            window_line: 0,
            window_triggered: false,
        }
    }

    pub fn reset(&mut self)
        ensures
            final(self).wf(),
            final(self).timing == Self::initial_timing(),
            final(self).framebuffer@ == Seq::new(FRAME_PIXELS as nat, |i: int| 0u8),
            final(self).scanline_sprites@.len() == 0,
            final(self).window_line == 0,
    {
        *self = Self::new();
    }

    /// Whether a new frame is complete.
    pub fn frame_ready(&self) -> (r: bool)
        ensures
            r == self.timing.frame_ready,
    {
        self.timing.frame_ready
    }

    pub fn clear_frame_ready(&mut self)
        ensures
            final(self).timing == (LineTiming { frame_ready: false, ..old(self).timing }),
            final(self).framebuffer@ == old(self).framebuffer@,
            final(self).scanline_sprites@ == old(self).scanline_sprites@,
            final(self).window_line == old(self).window_line,
    {
        self.timing.frame_ready = false;
    }

    /// OAM is open to the CPU outside the OAM scan and drawing.
    pub fn oam_accessible(&self) -> (r: bool)
        ensures
            r == (self.timing.mode != Mode::OamScan && self.timing.mode != Mode::Drawing),
    {
        self.timing.mode != Mode::OamScan && self.timing.mode != Mode::Drawing
    }

    /// VRAM is open to the CPU outside drawing.
    pub fn vram_accessible(&self) -> (r: bool)
        ensures
            r == (self.timing.mode != Mode::Drawing),
    {
        self.timing.mode != Mode::Drawing
    }

    pub fn current_mode(&self) -> (r: Mode)
        ensures
            r == self.timing.mode,
    {
        self.timing.mode
    }

    /// Advances the PPU by the given number of T-cycles (dots); with the LCD off it is
    /// held at the start of line 0 instead.
    pub fn tick(&mut self, memory: &mut Memory, cycles: u32)
        requires
            old(self).wf(),
            old(memory).wf(),
        ensures
            final(self).wf(),
            final(memory).wf(),
            (final(self).timing, final(memory).data@) == ppu_tick_spec(old(self).timing, old(memory).data@, cycles as nat),
            final(self).content() == content_tick_spec(old(self).timing, old(memory).data@, old(self).content(), cycles as nat),
            final(memory).same_but_data(old(memory)),
    {
        let lcdc = memory.data[io::LCDC as usize];
        if lcdc & 0x80 == 0 {
            self.timing.mode = Mode::HBlank;
            self.timing.dots = 0;
            memory.data.set(io::LY as usize, 0);
            let stat = memory.data[io::STAT as usize];
            memory.data.set(io::STAT as usize, stat & 0xFC);
            return;
        }
        let ghost t0 = self.timing;
        let ghost d0 = memory.data@;
        let ghost m0: Memory = *memory;
        let mut i: u32 = 0;
        while i < cycles
            invariant
                i <= cycles,
                self.wf(),
                memory.wf(),
                memory.same_but_data(&m0),
                (self.timing, memory.data@) == ppu_run(t0, d0, i as nat),
                self.content() == content_run(t0, d0, old(self).content(), i as nat),
                d0[io::LCDC as int] & 0x80 != 0,
                d0 == old(memory).data@,
                t0 == old(self).timing,
            decreases cycles - i,
        {
            self.tick_single(memory);
            i = i + 1;
        }
    }

    /// Advances the PPU by one dot.
    fn tick_single(&mut self, memory: &mut Memory)
        requires
            old(self).wf(),
            old(memory).wf(),
        ensures
            final(self).wf(),
            final(memory).wf(),
            (final(self).timing, final(memory).data@) == ppu_step(old(self).timing, old(memory).data@),
            final(self).content() == content_step(old(self).timing, old(memory).data@, old(self).content()),
            final(memory).same_but_data(old(memory)),
    {
        self.timing.dots = self.timing.dots + 1;
        let ly = memory.data[io::LY as usize];
        match self.timing.mode {
            Mode::OamScan => {
                if self.timing.dots >= MODE_2_DOTS {
                    self.scan_oam(memory, ly);
                    self.timing.mode_3_length = self.calculate_mode_3_length(memory, ly);
                    self.timing.dots = 0;
                    self.timing.mode = Mode::Drawing;
                    self.update_stat(memory);
                }
            },
            Mode::Drawing => {
                if self.timing.dots >= self.timing.mode_3_length {
                    if (ly as usize) < SCREEN_HEIGHT {
                        let ghost c0 = self.content();
                        self.render_scanline(memory, ly);
                        assert(self.framebuffer@ =~= render_line(c0.0, memory.data@, ly, c0.2, c0.1));
                    }
                    self.timing.dots = 0;
                    self.timing.mode = Mode::HBlank;
                    self.update_stat(memory);
                }
            },
            Mode::HBlank => {
                let hblank_length = DOTS_PER_LINE - MODE_2_DOTS - self.timing.mode_3_length;
                if self.timing.dots >= hblank_length {
                    self.timing.dots = 0;
                    let new_ly = ly.wrapping_add(1);
                    memory.data.set(io::LY as usize, new_ly);
                    if new_ly >= 144 {
                        self.timing.mode = Mode::VBlank;
                        self.timing.frame_ready = true;
                        self.window_line = 0;
                        self.window_triggered = false;
                        memory.request_interrupt(interrupts::VBLANK);
                    } else {
                        self.timing.mode = Mode::OamScan;
                    }
                    self.update_stat(memory);
                    self.check_lyc(memory, new_ly);
                }
            },
            Mode::VBlank => {
                if self.timing.dots >= DOTS_PER_LINE {
                    self.timing.dots = 0;
                    let new_ly = ly.wrapping_add(1);
                    if new_ly >= LINES_PER_FRAME {
                        memory.data.set(io::LY as usize, 0);
                        self.timing.mode = Mode::OamScan;
                        self.update_stat(memory);
                        self.check_lyc(memory, 0);
                    } else {
                        memory.data.set(io::LY as usize, new_ly);
                        self.check_lyc(memory, new_ly);
                    }
                }
            },
        }
        self.handle_stat_interrupt(memory);
    }

    /// Drawing length of scanline `ly`, from the sprites just found and the registers.
    pub fn calculate_mode_3_length(&self, memory: &Memory, ly: u8) -> (r: u32)
        requires
            memory.wf(),
        ensures
            r == mode_3_length_with(memory.data@, ly, self.scanline_sprites@.len() as int),
            MODE_3_BASE_DOTS <= r <= MODE_3_MAX_DOTS,
    {
        let lcdc = memory.data[io::LCDC as usize];
        let scx = memory.data[io::SCX as usize];
        let wy = memory.data[io::WY as usize];
        let wx = memory.data[io::WX as usize];
        let mut length: u32 = MODE_3_BASE_DOTS;
        length = length + (scx % 8) as u32;
        let count = self.scanline_sprites.len();
        let n: u32 = if count > 20 { 20 } else { count as u32 };
        length = length + n * 6;
        if lcdc & 0x20 != 0 && ly >= wy && wx <= 166 {
            length = length + 6;
        }
        if length > MODE_3_MAX_DOTS {
            MODE_3_MAX_DOTS
        } else {
            length
        }
    }

    /// Raises IF bit 1 on a rising edge of the STAT line.
    fn handle_stat_interrupt(&mut self, memory: &mut Memory)
        requires
            old(memory).wf(),
        ensures
            final(memory).wf(),
            (final(self).timing, final(memory).data@) == stat_edge_spec(old(self).timing, old(memory).data@),
            final(memory).same_but_data(old(memory)),
            final(self).framebuffer@ == old(self).framebuffer@,
            final(self).scanline_sprites@ == old(self).scanline_sprites@,
            final(self).window_line == old(self).window_line,
            final(self).window_triggered == old(self).window_triggered,
    {
        let stat = memory.data[io::STAT as usize];
        let ly = memory.data[io::LY as usize];
        let lyc = memory.data[io::LYC as usize];
        let mode = self.timing.mode;
        let line = (stat & 0x08 != 0 && mode == Mode::HBlank) || (stat & 0x10 != 0 && mode == Mode::VBlank) || (stat
            & 0x20 != 0 && mode == Mode::OamScan) || (stat & 0x40 != 0 && ly == lyc);
        if line && !self.timing.stat_line {
            memory.request_interrupt(interrupts::LCD_STAT);
        }
        self.timing.stat_line = line;
    }

    /// Writes the current mode and the LY=LYC bit into STAT.
    fn update_stat(&self, memory: &mut Memory)
        requires
            old(memory).wf(),
        ensures
            final(memory).wf(),
            final(memory).data@ == update_stat_spec(old(memory).data@, self.timing.mode),
            final(memory).same_but_data(old(memory)),
    {
        let ly = memory.data[io::LY as usize];
        let lyc = memory.data[io::LYC as usize];
        let mut stat = (memory.data[io::STAT as usize] & 0xF8) | mode_bits(self.timing.mode);
        if ly == lyc {
            stat = stat | 0x04;
        }
        memory.data.set(io::STAT as usize, stat);
    }

    /// Sets or clears the LY=LYC bit of STAT for line `ly`.
    fn check_lyc(&self, memory: &mut Memory, ly: u8)
        requires
            old(memory).wf(),
        ensures
            final(memory).wf(),
            final(memory).data@ == check_lyc_spec(old(memory).data@, ly),
            final(memory).same_but_data(old(memory)),
    {
        let lyc = memory.data[io::LYC as usize];
        let stat = memory.data[io::STAT as usize];
        if ly == lyc {
            memory.data.set(io::STAT as usize, stat | 0x04);
        } else {
            memory.data.set(io::STAT as usize, stat & !0x04u8);
        }
    }

    /// Acts on a CPU write to STAT or LYC: the LY=LYC bit follows the current line.
    pub fn on_register_write(&self, memory: &mut Memory)
        requires
            old(memory).wf(),
        ensures
            final(memory).wf(),
            final(memory).data@ == check_lyc_spec(old(memory).data@, old(memory).data@[io::LY as int]),
            final(memory).same_but_data(old(memory)),
    {
        let ly = memory.data[io::LY as usize];
        self.check_lyc(memory, ly);
    }

    /// Collects the first ten OAM entries on scanline `ly`, ordered by X (ties keep OAM order).
    pub fn scan_oam(&mut self, memory: &Memory, ly: u8)
        requires
            old(self).content_wf(),
            memory.wf(),
        ensures
            final(self).content_wf(),
            final(self).timing == old(self).timing,
            final(self).framebuffer@ == old(self).framebuffer@,
            final(self).window_line == old(self).window_line,
            final(self).window_triggered == old(self).window_triggered,
            final(self).scanline_sprites@.len() == sprite_count(memory.data@, ly),
            final(self).scanline_sprites@ == scan_spec(memory.data@, ly, sprite_height(memory.data@[io::LCDC as int]), 40),
            forall|i: int, j: int|
                0 <= i < j < final(self).scanline_sprites@.len() ==> (#[trigger] final(self).scanline_sprites@[i]).x
                    <= (#[trigger] final(self).scanline_sprites@[j]).x,
            forall|i: int|
                0 <= i < final(self).scanline_sprites@.len() ==> on_line(
                    (#[trigger] final(self).scanline_sprites@[i]).y,
                    ly,
                    sprite_height(memory.data@[io::LCDC as int]),
                ),
    {
        self.scanline_sprites.clear();
        let lcdc = memory.data[io::LCDC as usize];
        let height: u16 = if lcdc & 0x04 != 0 { 16 } else { 8 };
        let ghost h = sprite_height(memory.data@[io::LCDC as int]);
        let mut i: usize = 0;
        while i < 40
            invariant
                i <= 40,
                memory.wf(),
                height as int == h,
                h == sprite_height(memory.data@[io::LCDC as int]),
                self.scanline_sprites@ == scan_spec(memory.data@, ly, h, i as int),
                self.scanline_sprites@.len() == (if oam_matches(memory.data@, ly, h, i as int) < 10 {
                    oam_matches(memory.data@, ly, h, i as int)
                } else {
                    10
                }),
                forall|a: int, b: int|
                    0 <= a < b < self.scanline_sprites@.len() ==> (#[trigger] self.scanline_sprites@[a]).x
                        <= (#[trigger] self.scanline_sprites@[b]).x,
                forall|a: int|
                    0 <= a < self.scanline_sprites@.len() ==> on_line((#[trigger] self.scanline_sprites@[a]).y, ly, h),
                self.timing == old(self).timing,
                self.framebuffer@ == old(self).framebuffer@,
                self.window_line == old(self).window_line,
                self.window_triggered == old(self).window_triggered,
                self.framebuffer@.len() == FRAME_PIXELS,
                forall|k: int| 0 <= k < FRAME_PIXELS ==> #[trigger] self.framebuffer@[k] < 4,
            decreases 40 - i,
        {
            let addr = OAM_START + i * 4;
            let y = memory.data[addr];
            let x = memory.data[addr + 1];
            let tile = memory.data[addr + 2];
            let flags = memory.data[addr + 3];
            assert(oam_matches(memory.data@, ly, h, i as int + 1) == oam_matches(memory.data@, ly, h, i as int) + if on_line(
                memory.data@[OAM_START + 4 * i],
                ly,
                h,
            ) {
                1int
            } else {
                0int
            });
            if (y as u16) <= (ly as u16) + 16 && (ly as u16) + 16 < (y as u16) + height {
                if self.scanline_sprites.len() < MAX_LINE_SPRITES {
                    let sprite = Sprite { y, x, tile, flags };
                    let mut p: usize = 0;
                    while p < self.scanline_sprites.len() && self.scanline_sprites[p].x <= x
                        invariant
                            p <= self.scanline_sprites@.len(),
                            forall|a: int| 0 <= a < p ==> (#[trigger] self.scanline_sprites@[a]).x <= x,
                            first_above(self.scanline_sprites@, x, 0) == first_above(self.scanline_sprites@, x, p as int),
                        decreases self.scanline_sprites@.len() - p,
                    {
                        p = p + 1;
                    }
                    let ghost before = self.scanline_sprites@;
                    assert(first_above(before, x, p as int) == p);
                    assert(sprite == oam_entry(memory.data@, i as int));
                    self.scanline_sprites.insert(p, sprite);
                    assert forall|a: int, b: int|
                        0 <= a < b < self.scanline_sprites@.len() implies (#[trigger] self.scanline_sprites@[a]).x
                            <= (#[trigger] self.scanline_sprites@[b]).x by {
                        if p < before.len() {
                            assert(before[p as int].x > x);
                        }
                        if a < p && b > p {
                            assert(before[a].x <= x);
                        }
                        if a == p && b > p {
                            assert(before[p as int].x <= before[b - 1].x || b - 1 == p);
                        }
                    }
                }
            }
            i = i + 1;
        }
    }

    /// Renders scanline `ly`: background (or colour 0), window, then sprites.
    #[verifier::rlimit(100)]
    #[verifier::spinoff_prover]
    fn render_scanline(&mut self, memory: &Memory, ly: u8)
        requires
            old(self).content_wf(),
            memory.wf(),
            (ly as int) < SCREEN_HEIGHT,
        ensures
            final(self).content_wf(),
            final(self).timing == old(self).timing,
            final(self).scanline_sprites@ == old(self).scanline_sprites@,
            forall|i: int|
                0 <= i < FRAME_PIXELS ==> #[trigger] final(self).framebuffer@[i] == (if ly * 160 <= i < ly * 160 + 160 {
                    line_pixel(memory.data@, ly, old(self).window_line, old(self).scanline_sprites@, i - ly * 160)
                } else {
                    old(self).framebuffer@[i]
                }),
            final(self).window_line == (if memory.data@[io::LCDC as int] & 0x01 != 0 && window_on_line(
                memory.data@,
                ly,
            ) {
                ((old(self).window_line + 1) % 256) as u8
            } else {
                old(self).window_line
            }),
            final(self).window_triggered == (old(self).window_triggered || (memory.data@[io::LCDC as int] & 0x01
                != 0 && window_on_line(memory.data@, ly))),
    {
        let lcdc = memory.data[io::LCDC as usize];
        let ghost d = memory.data@;
        let ghost wl = self.window_line;
        let ghost list = self.scanline_sprites@;
        let ghost fb0 = self.framebuffer@;
        let base = (ly as usize) * SCREEN_WIDTH;
        if lcdc & 0x01 != 0 {
            self.render_background(memory, ly);
            if lcdc & 0x20 != 0 {
                self.render_window(memory, ly);
            }
        } else {
            let mut x: usize = 0;
            while x < SCREEN_WIDTH
                invariant
                    x <= SCREEN_WIDTH,
                    base == ly * 160,
                    (ly as int) < SCREEN_HEIGHT,
                    self.content_wf(),
                    self.timing == old(self).timing,
                    self.scanline_sprites@ == old(self).scanline_sprites@,
                    self.window_line == old(self).window_line,
                    self.window_triggered == old(self).window_triggered,
                    forall|i: int|
                        0 <= i < FRAME_PIXELS ==> #[trigger] self.framebuffer@[i] == (if base <= i < base + x {
                            0u8
                        } else {
                            old(self).framebuffer@[i]
                        }),
                decreases SCREEN_WIDTH - x,
            {
                self.framebuffer.set(base + x, 0);
                x = x + 1;
            }
        }
        let ghost fb1 = self.framebuffer@;
        if lcdc & 0x02 != 0 {
            self.render_sprites(memory, ly);
        }
        assert forall|i: int| 0 <= i < FRAME_PIXELS implies #[trigger] self.framebuffer@[i] == (if ly * 160 <= i < ly
            * 160 + 160 {
            line_pixel(d, ly, wl, list, i - ly * 160)
        } else {
            fb0[i]
        }) by {
            if base <= i < base + 160 {
                let x = i - base;
                let b = if lcdc & 0x01 == 0 {
                    0u8
                } else if window_on_line(d, ly) && x >= window_start(d[io::WX as int]) {
                    window_shade(d, wl, x)
                } else {
                    bg_shade(d, ly, x)
                };
                assert(fb1[i] == b);
            }
        }
    }

    /// Colour index of pixel `col` of row `row` of the tile at `tile_addr`.
    fn tile_pixel_at(memory: &Memory, tile_addr: usize, row: usize, col: usize) -> (r: u8)
        requires
            memory.wf(),
            tile_addr + row * 2 + 1 < MEM_SIZE,
            col < 8,
        ensures
            r == tile_pixel(memory.data@, tile_addr as int, row as int, col as int),
            r < 4,
    {
        let addr = tile_addr + row * 2;
        let lo = memory.data[addr];
        let hi = memory.data[addr + 1];
        color_index(lo, hi, (7 - col) as u8)
    }

    /// Draws the background for scanline `ly`.
    fn render_background(&mut self, memory: &Memory, ly: u8)
        requires
            old(self).content_wf(),
            memory.wf(),
            (ly as int) < SCREEN_HEIGHT,
        ensures
            final(self).content_wf(),
            final(self).timing == old(self).timing,
            final(self).scanline_sprites@ == old(self).scanline_sprites@,
            final(self).window_line == old(self).window_line,
            final(self).window_triggered == old(self).window_triggered,
            forall|i: int|
                0 <= i < FRAME_PIXELS ==> #[trigger] final(self).framebuffer@[i] == (if ly * 160 <= i < ly * 160 + 160 {
                    bg_shade(memory.data@, ly, i - ly * 160)
                } else {
                    old(self).framebuffer@[i]
                }),
    {
        let lcdc = memory.data[io::LCDC as usize];
        let scy = memory.data[io::SCY as usize];
        let scx = memory.data[io::SCX as usize];
        let bgp = memory.data[io::BGP as usize];
        let map: usize = if lcdc & 0x08 != 0 { 0x9C00 } else { 0x9800 };
        let y: usize = (ly as usize + scy as usize) % 256;
        let base = (ly as usize) * SCREEN_WIDTH;
        proof {
            lemma_small_bits();
        }
        let mut sx: usize = 0;
        while sx < SCREEN_WIDTH
            invariant
                sx <= SCREEN_WIDTH,
                memory.wf(),
                base == ly * 160,
                (ly as int) < SCREEN_HEIGHT,
                y == (ly + memory.data@[io::SCY as int]) % 256,
                map == (if lcdc & 0x08 != 0 { 0x9C00int } else { 0x9800int }),
                lcdc == memory.data@[io::LCDC as int],
                scx == memory.data@[io::SCX as int],
                bgp == memory.data@[io::BGP as int],
                self.content_wf(),
                self.timing == old(self).timing,
                self.scanline_sprites@ == old(self).scanline_sprites@,
                self.window_line == old(self).window_line,
                self.window_triggered == old(self).window_triggered,
                forall|i: int|
                    0 <= i < FRAME_PIXELS ==> #[trigger] self.framebuffer@[i] == (if ly * 160 <= i < ly * 160 + sx {
                        bg_shade(memory.data@, ly, i - ly * 160)
                    } else {
                        old(self).framebuffer@[i]
                    }),
            decreases SCREEN_WIDTH - sx,
        {
            let x = (sx + scx as usize) % 256;
            let idx = memory.data[map + (y / 8) * 32 + x / 8];
            let tile_addr: usize = if lcdc & 0x10 != 0 {
                0x8000 + (idx as usize) * 16
            } else {
                0x8800 + ((idx as usize + 128) % 256) * 16
            };
            let c = Self::tile_pixel_at(memory, tile_addr, y % 8, x % 8);
            let color = shade_of(bgp, c);
            assert(color == bg_shade(memory.data@, ly, sx as int));
            assert(color < 4);
            self.framebuffer.set(base + sx, color);
            sx = sx + 1;
        }
    }

    /// Draws the window over scanline `ly` when it is visible there, and advances the
    /// window line counter.
    fn render_window(&mut self, memory: &Memory, ly: u8)
        requires
            old(self).content_wf(),
            memory.wf(),
            (ly as int) < SCREEN_HEIGHT,
        ensures
            final(self).content_wf(),
            final(self).timing == old(self).timing,
            final(self).scanline_sprites@ == old(self).scanline_sprites@,
            ly >= memory.data@[io::WY as int] && memory.data@[io::WX as int] <= 166 ==> {
                &&& final(self).window_line == (old(self).window_line + 1) % 256
                &&& forall|i: int|
                    0 <= i < FRAME_PIXELS ==> #[trigger] final(self).framebuffer@[i] == (if ly * 160 + window_start(
                        memory.data@[io::WX as int],
                    ) <= i < ly * 160 + 160 {
                        window_shade(memory.data@, old(self).window_line, i - ly * 160)
                    } else {
                        old(self).framebuffer@[i]
                    })
            },
            !(ly >= memory.data@[io::WY as int] && memory.data@[io::WX as int] <= 166) ==> final(self).framebuffer@
                == old(self).framebuffer@ && final(self).window_line == old(self).window_line,
            final(self).window_triggered == (old(self).window_triggered || (ly >= memory.data@[io::WY as int]
                && memory.data@[io::WX as int] <= 166)),
    {
        let wy = memory.data[io::WY as usize];
        let wx = memory.data[io::WX as usize];
        if ly < wy || wx > 166 {
            return;
        }
        let lcdc = memory.data[io::LCDC as usize];
        let bgp = memory.data[io::BGP as usize];
        let map: usize = if lcdc & 0x40 != 0 { 0x9C00 } else { 0x9800 };
        let start: usize = if wx < 7 { 0 } else { (wx - 7) as usize };
        let wl = self.window_line;
        let base = (ly as usize) * SCREEN_WIDTH;
        proof {
            lemma_small_bits();
        }
        let mut sx: usize = start;
        while sx < SCREEN_WIDTH
            invariant
                start <= sx <= SCREEN_WIDTH,
                start == window_start(wx),
                memory.wf(),
                base == ly * 160,
                (ly as int) < SCREEN_HEIGHT,
                map == (if lcdc & 0x40 != 0 { 0x9C00int } else { 0x9800int }),
                lcdc == memory.data@[io::LCDC as int],
                wx == memory.data@[io::WX as int],
                bgp == memory.data@[io::BGP as int],
                wl == old(self).window_line,
                self.content_wf(),
                self.timing == old(self).timing,
                self.scanline_sprites@ == old(self).scanline_sprites@,
                self.window_line == old(self).window_line,
                forall|i: int|
                    0 <= i < FRAME_PIXELS ==> #[trigger] self.framebuffer@[i] == (if ly * 160 + start <= i < ly * 160 + sx {
                        window_shade(memory.data@, wl, i - ly * 160)
                    } else {
                        old(self).framebuffer@[i]
                    }),
            decreases SCREEN_WIDTH - sx,
        {
            let x = sx - start;
            let idx = memory.data[map + ((wl / 8) as usize) * 32 + x / 8];
            let tile_addr: usize = if lcdc & 0x10 != 0 {
                0x8000 + (idx as usize) * 16
            } else {
                0x8800 + ((idx as usize + 128) % 256) * 16
            };
            let c = Self::tile_pixel_at(memory, tile_addr, (wl % 8) as usize, x % 8);
            let color = shade_of(bgp, c);
            assert(color == window_shade(memory.data@, wl, sx as int));
            assert(color < 4);
            self.framebuffer.set(base + sx, color);
            sx = sx + 1;
        }
        self.window_line = self.window_line.wrapping_add(1);
        self.window_triggered = true;
    }

    /// Draws the scanline's sprites, the last in the list first so that the first ends on top.
    #[verifier::rlimit(100)]
    #[verifier::spinoff_prover]
    fn render_sprites(&mut self, memory: &Memory, ly: u8)
        requires
            old(self).content_wf(),
            memory.wf(),
            (ly as int) < SCREEN_HEIGHT,
        ensures
            final(self).content_wf(),
            final(self).timing == old(self).timing,
            final(self).scanline_sprites@ == old(self).scanline_sprites@,
            final(self).window_line == old(self).window_line,
            final(self).window_triggered == old(self).window_triggered,
            forall|i: int|
                0 <= i < FRAME_PIXELS ==> #[trigger] final(self).framebuffer@[i] == (if ly * 160 <= i < ly * 160 + 160 {
                    sprites_over(
                        memory.data@,
                        ly,
                        old(self).scanline_sprites@,
                        0,
                        i - ly * 160,
                        old(self).framebuffer@[i],
                    )
                } else {
                    old(self).framebuffer@[i]
                }),
    {
        let lcdc = memory.data[io::LCDC as usize];
        let obp0 = memory.data[io::OBP0 as usize];
        let obp1 = memory.data[io::OBP1 as usize];
        let height: u8 = if lcdc & 0x04 != 0 { 16 } else { 8 };
        let base = (ly as usize) * SCREEN_WIDTH;
        let ghost d = memory.data@;
        let ghost list = self.scanline_sprites@;
        let ghost fb0 = self.framebuffer@;
        proof {
            lemma_small_bits();
        }
        let mut bg: Vec<u8> = Vec::new();
        let mut x: usize = 0;
        while x < SCREEN_WIDTH
            invariant
                x <= SCREEN_WIDTH,
                base == ly * 160,
                (ly as int) < SCREEN_HEIGHT,
                self.framebuffer@ == fb0,
                fb0.len() == FRAME_PIXELS,
                bg@.len() == x,
                forall|j: int| 0 <= j < x ==> #[trigger] bg@[j] == fb0[base + j],
            decreases SCREEN_WIDTH - x,
        {
            bg.push(self.framebuffer[base + x]);
            x = x + 1;
        }
        let mut k: usize = self.scanline_sprites.len();
        while k > 0
            invariant
                k <= list.len(),
                self.scanline_sprites@ == list,
                memory.wf(),
                memory.data@ == d,
                base == ly * 160,
                (ly as int) < SCREEN_HEIGHT,
                height as int == sprite_height(d[io::LCDC as int]),
                lcdc == d[io::LCDC as int],
                obp0 == d[io::OBP0 as int],
                obp1 == d[io::OBP1 as int],
                bg@.len() == SCREEN_WIDTH,
                forall|j: int| 0 <= j < SCREEN_WIDTH ==> #[trigger] bg@[j] == fb0[base + j],
                self.content_wf(),
                self.timing == old(self).timing,
                self.window_line == old(self).window_line,
                self.window_triggered == old(self).window_triggered,
                forall|i: int|
                    0 <= i < FRAME_PIXELS ==> #[trigger] self.framebuffer@[i] == (if base <= i < base + 160 {
                        sprites_over(d, ly, list, k as int, i - base, bg@[i - base])
                    } else {
                        fb0[i]
                    }),
            decreases k,
        {
            k = k - 1;
            let sprite = self.scanline_sprites[k];
            let palette = if sprite.palette() { obp1 } else { obp0 };
            let row_raw = (ly as u16 + 16 + 256 - sprite.y as u16) % 256;
            let ghost prev = self.framebuffer@;
            if row_raw < height as u16 {
                let row: u16 = if sprite.y_flip() { (height as u16 - 1) - row_raw } else { row_raw };
                let tile: u16 = if height == 16 { (sprite.tile & 0xFE) as u16 } else { sprite.tile as u16 };
                let tile_addr = 0x8000 + tile * 16 + row * 2;
                let low = memory.data[tile_addr as usize];
                let high = memory.data[tile_addr as usize + 1];
                let mut col: u8 = 0;
                while col < 8
                    invariant
                        col <= 8,
                        k < list.len(),
                        sprite == list[k as int],
                        self.scanline_sprites@ == list,
                        memory.wf(),
                        memory.data@ == d,
                        base == ly * 160,
                        (ly as int) < SCREEN_HEIGHT,
                        row_raw < height,
                        row_raw as int == (ly + 16 + 256 - sprite.y) % 256,
                        height as int == sprite_height(d[io::LCDC as int]),
                        row as int == (if sprite.flags & 0x40 != 0 {
                            height as int - 1 - row_raw as int
                        } else {
                            row_raw as int
                        }),
                        tile as int == (if height == 16 { (sprite.tile & 0xFE) as int } else { sprite.tile as int }),
                        tile_addr as int == 0x8000 + tile * 16 + row * 2,
                        low == d[tile_addr as int],
                        high == d[tile_addr + 1],
                        palette == (if sprite.flags & 0x10 != 0 { d[io::OBP1 as int] } else { d[io::OBP0 as int] }),
                        bg@.len() == SCREEN_WIDTH,
                        self.content_wf(),
                        self.timing == old(self).timing,
                        self.window_line == old(self).window_line,
                        self.window_triggered == old(self).window_triggered,
                        forall|i: int|
                            0 <= i < FRAME_PIXELS ==> #[trigger] self.framebuffer@[i] == (if base <= i < base + 160
                                && 0 <= i - base + 8 - sprite.x < col {
                                sprite_over(d, ly, sprite, i - base, prev[i], bg@[i - base])
                            } else {
                                prev[i]
                            }),
                    decreases 8 - col,
                {
                    let screen_x = sprite.x as u16 + col as u16;
                    if 8 <= screen_x && screen_x < 168 {
                        let px = (screen_x - 8) as usize;
                        let pc: u8 = if sprite.x_flip() { 7 - col } else { col };
                        let color_idx = color_index(low, high, 7 - pc);
                        assert(color_idx == tile_pixel(d, 0x8000 + tile * 16, row as int, pc as int));
                        if color_idx != 0 && !(sprite.priority() && bg[px] != 0) {
                            let color = shade_of(palette, color_idx);
                            self.framebuffer.set(base + px, color);
                        }
                    }
                    col = col + 1;
                }
            }
            assert forall|i: int| 0 <= i < FRAME_PIXELS implies #[trigger] self.framebuffer@[i] == (if base <= i < base
                + 160 {
                sprites_over(d, ly, list, k as int, i - base, bg@[i - base])
            } else {
                fb0[i]
            }) by {
                if base <= i < base + 160 {
                    assert(prev[i] == sprites_over(d, ly, list, k + 1, i - base, bg@[i - base]));
                }
            }
        }
        assert forall|i: int| 0 <= i < FRAME_PIXELS implies #[trigger] self.framebuffer@[i] == (if ly * 160 <= i < ly
            * 160 + 160 {
            sprites_over(d, ly, list, 0, i - ly * 160, fb0[i])
        } else {
            fb0[i]
        }) by {
            if base <= i < base + 160 {
                assert(bg@[i - base] == fb0[i]);
            }
        }
    }
}

} // verus!
