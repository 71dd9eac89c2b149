//! A cycle-accurate core for the DMG Game Boy: processor, memory bus with
//! cartridge bank controllers, picture processing unit, timer and audio unit, advanced
//! together by one T-cycle clock.
pub mod apu;
pub mod cpu;
pub mod interrupts;
pub mod io;
pub mod memory;
pub mod ppu;
pub mod test_runner;
pub mod timer;
pub mod ui;

use vstd::prelude::*;
use crate::apu::Apu;
use crate::cpu::{add16, push_post, step_post, Cpu, IllegalOpcode};
use crate::memory::{battery_of, joypad_exposed, Memory};
use crate::ppu::Ppu;
use crate::timer::Timer;

verus! {

/// T-cycles in one frame.
pub const CYCLES_PER_FRAME: u32 = 70224;

/// T-cycles that dispatching an interrupt takes.
pub const INTERRUPT_CYCLES: u32 = 20;

#[derive(Debug, Clone, Copy, PartialEq, Eq, Hash, Structural)]
pub enum Button {
    Right,
    Left,
    Up,
    Down,
    A,
    B,
    Select,
    Start,
}

/// The joypad latch bit of a button.
pub open spec fn button_mask(b: Button) -> u8 {
    match b {
        Button::Right => 0x01,
        Button::Left => 0x02,
        Button::Up => 0x04,
        Button::Down => 0x08,
        Button::A => 0x10,
        Button::B => 0x20,
        Button::Select => 0x40,
        Button::Start => 0x80,
    }
}

/// The highest-priority (lowest-numbered) pending interrupt bit.
pub open spec fn lowest_pending(p: u8) -> u8 {
    if p & 0x01 != 0 {
        0x01
    } else if p & 0x02 != 0 {
        0x02
    } else if p & 0x04 != 0 {
        0x04
    } else if p & 0x08 != 0 {
        0x08
    } else {
        0x10
    }
}

/// Handler address of an interrupt bit.
pub open spec fn vector_of(bit: u8) -> u16 {
    if bit == 0x01 {
        0x40
    } else if bit == 0x02 {
        0x48
    } else if bit == 0x04 {
        0x50
    } else if bit == 0x08 {
        0x58
    } else {
        0x60
    }
}

/// Cartridge header fields, with descriptions for display.
#[derive(Debug, Clone)]
pub struct RomInfo {
    pub title: String,
    pub cart_type: String,
    pub rom_size: String,
    pub ram_size: String,
    pub cart_type_code: u8,
    pub rom_size_code: u8,
    pub ram_size_code: u8,
}

/// Start of the 16-byte title in the cartridge header.
pub const HEADER_TITLE: usize = 0x0134;

/// Shortest image that holds a whole header.
pub const HEADER_END: usize = 0x0150;

/// How a title byte is shown: printable ASCII and space as themselves, anything else as '?'.
pub open spec fn title_char(b: u8) -> char {
    if 0x20 <= b <= 0x7E {
        b as char
    } else {
        '?'
    }
}

/// Index (0..16) of the first NUL of the title, or 16.
pub open spec fn title_end(rom: Seq<u8>, i: int) -> int
    decreases 16 - i,
{
    if i >= 16 {
        16
    } else if rom[HEADER_TITLE + i] == 0 {
        i
    } else {
        title_end(rom, i + 1)
    }
}

/// First title index at or after `k` (below `n`) that is not a space, or `n`.
pub open spec fn first_nonspace(rom: Seq<u8>, k: int, n: int) -> int
    decreases n - k,
{
    if k >= n {
        n
    } else if rom[HEADER_TITLE + k] != 0x20 {
        k
    } else {
        first_nonspace(rom, k + 1, n)
    }
}

/// The end of the title once trailing spaces down to `lo` are dropped.
pub open spec fn trimmed_end(rom: Seq<u8>, k: int, lo: int) -> int
    decreases k - lo,
{
    if k <= lo {
        lo
    } else if rom[HEADER_TITLE + k - 1] != 0x20 {
        k
    } else {
        trimmed_end(rom, k - 1, lo)
    }
}

/// The title as shown: up to the first NUL, unprintable bytes as '?', spaces trimmed.
pub open spec fn header_title(rom: Seq<u8>) -> Seq<char> {
    let n = title_end(rom, 0);
    let s = first_nonspace(rom, 0, n);
    let e = trimmed_end(rom, n, s);
    Seq::new((e - s) as nat, |k: int| title_char(rom[HEADER_TITLE + s + k]))
}

pub open spec fn cart_type_name(code: u8) -> &'static str {
    if code == 0x00 {
        "ROM ONLY"
    } else if code == 0x01 {
        "MBC1"
    } else if code == 0x02 {
        "MBC1+RAM"
    } else if code == 0x03 {
        "MBC1+RAM+BATTERY"
    } else if code == 0x05 {
        "MBC2"
    } else if code == 0x06 {
        "MBC2+BATTERY"
    } else if code == 0x08 {
        "ROM+RAM"
    } else if code == 0x09 {
        "ROM+RAM+BATTERY"
    } else if code == 0x0F {
        "MBC3+TIMER+BATTERY"
    } else if code == 0x10 {
        "MBC3+TIMER+RAM+BATTERY"
    } else if code == 0x11 {
        "MBC3"
    } else if code == 0x12 {
        "MBC3+RAM"
    } else if code == 0x13 {
        "MBC3+RAM+BATTERY"
    } else if code == 0x19 {
        "MBC5"
    } else if code == 0x1A {
        "MBC5+RAM"
    } else if code == 0x1B {
        "MBC5+RAM+BATTERY"
    } else if code == 0x1C {
        "MBC5+RUMBLE"
    } else if code == 0x1D {
        "MBC5+RUMBLE+RAM"
    } else if code == 0x1E {
        "MBC5+RUMBLE+RAM+BATTERY"
    } else {
        "Unknown"
    }
}

pub open spec fn rom_size_name(code: u8) -> &'static str {
    if code == 0x00 {
        "32 KB"
    } else if code == 0x01 {
        "64 KB"
    } else if code == 0x02 {
        "128 KB"
    } else if code == 0x03 {
        "256 KB"
    } else if code == 0x04 {
        "512 KB"
    } else if code == 0x05 {
        "1 MB"
    } else if code == 0x06 {
        "2 MB"
    } else if code == 0x07 {
        "4 MB"
    } else if code == 0x08 {
        "8 MB"
    } else {
        "Unknown"
    }
}

pub open spec fn ram_size_name(code: u8) -> &'static str {
    if code == 0x00 {
        "None"
    } else if code == 0x01 {
        "2 KB"
    } else if code == 0x02 {
        "8 KB"
    } else if code == 0x03 {
        "32 KB"
    } else if code == 0x04 {
        "128 KB"
    } else if code == 0x05 {
        "64 KB"
    } else {
        "Unknown"
    }
}

/// Relies on String::push: appends one character to the string.
#[verifier::external_body]
fn push_char(s: &mut String, c: char)
    ensures
        final(s)@ == old(s)@.push(c),
{
    s.push(c);
}

fn cart_type_text(code: u8) -> (r: &'static str)
    ensures
        r == cart_type_name(code),
{
    match code {
        0x00 => "ROM ONLY",
        0x01 => "MBC1",
        0x02 => "MBC1+RAM",
        0x03 => "MBC1+RAM+BATTERY",
        0x05 => "MBC2",
        0x06 => "MBC2+BATTERY",
        0x08 => "ROM+RAM",
        0x09 => "ROM+RAM+BATTERY",
        0x0F => "MBC3+TIMER+BATTERY",
        0x10 => "MBC3+TIMER+RAM+BATTERY",
        0x11 => "MBC3",
        0x12 => "MBC3+RAM",
        0x13 => "MBC3+RAM+BATTERY",
        0x19 => "MBC5",
        0x1A => "MBC5+RAM",
        0x1B => "MBC5+RAM+BATTERY",
        0x1C => "MBC5+RUMBLE",
        0x1D => "MBC5+RUMBLE+RAM",
        0x1E => "MBC5+RUMBLE+RAM+BATTERY",
        _ => "Unknown",
    }
}

fn rom_size_text(code: u8) -> (r: &'static str)
    ensures
        r == rom_size_name(code),
{
    match code {
        0x00 => "32 KB",
        0x01 => "64 KB",
        0x02 => "128 KB",
        0x03 => "256 KB",
        0x04 => "512 KB",
        0x05 => "1 MB",
        0x06 => "2 MB",
        0x07 => "4 MB",
        0x08 => "8 MB",
        _ => "Unknown",
    }
}

fn ram_size_text(code: u8) -> (r: &'static str)
    ensures
        r == ram_size_name(code),
{
    match code {
        0x00 => "None",
        0x01 => "2 KB",
        0x02 => "8 KB",
        0x03 => "32 KB",
        0x04 => "128 KB",
        0x05 => "64 KB",
        _ => "Unknown",
    }
}

/// The header title as shown to a user.
fn read_title(rom: &[u8]) -> (r: String)
    requires
        rom@.len() >= HEADER_END,
    ensures
        r@ == header_title(rom@),
{
    let mut n: usize = 0;
    while n < 16 && rom[HEADER_TITLE + n] != 0
        invariant
            n <= 16,
            rom@.len() >= HEADER_END,
            title_end(rom@, 0) == title_end(rom@, n as int),
        decreases 16 - n,
    {
        n = n + 1;
    }
    let mut start: usize = 0;
    while start < n && rom[HEADER_TITLE + start] == 0x20
        invariant
            start <= n <= 16,
            rom@.len() >= HEADER_END,
            first_nonspace(rom@, 0, n as int) == first_nonspace(rom@, start as int, n as int),
        decreases n - start,
    {
        start = start + 1;
    }
    let mut end: usize = n;
    while end > start && rom[HEADER_TITLE + end - 1] == 0x20
        invariant
            start <= end <= n <= 16,
            rom@.len() >= HEADER_END,
            trimmed_end(rom@, n as int, start as int) == trimmed_end(rom@, end as int, start as int),
        decreases end,
    {
        end = end - 1;
    }
    let mut title = String::new();
    let mut k: usize = start;
    while k < end
        invariant
            start <= k <= end <= 16,
            rom@.len() >= HEADER_END,
            title@ == Seq::new((k - start) as nat, |j: int| title_char(rom@[HEADER_TITLE + start + j])),
        decreases end - k,
    {
        let b = rom[HEADER_TITLE + k];
        let c = if 0x20 <= b && b <= 0x7E { b as char } else { '?' };
        push_char(&mut title, c);
        k = k + 1;
        assert(title@ =~= Seq::new((k - start) as nat, |j: int| title_char(rom@[HEADER_TITLE + start + j])));
    }
    title
}

/// Memory after the joypad latch takes `state`: a press on an exposed line raises IF bit 4.
pub open spec fn joypad_post(m0: &Memory, state: u8, m: &Memory) -> bool {
    &&& m.data@ == (if m0.joypad_state & !state & joypad_exposed(m0.data@[io::JOYP as int]) != 0 {
        m0.data@.update(io::IF as int, m0.data@[io::IF as int] | interrupts::JOYPAD)
    } else {
        m0.data@
    })
    &&& m.joypad_state == state
    &&& m.rom@ == m0.rom@
    &&& m.eram@ == m0.eram@
    &&& m.cart_type == m0.cart_type
    &&& m.mbc == m0.mbc
    &&& m.dma == m0.dma
    &&& m.written == m0.written
}

/// Interrupt dispatch from processor `c0` and memory `m0` to `c1` and `m1`, taking `i`
/// T-cycles: a pending interrupt wakes a halted processor; with IME set the
/// highest-priority one is serviced (IME cleared, PC pushed, its IF bit cleared, PC at
/// its vector).
pub open spec fn dispatch_post(c0: Cpu, m0: &Memory, c1: Cpu, m1: &Memory, i: u32) -> bool {
    let p = m0.data@[io::IF as int] & m0.data@[io::IE as int] & 0x1F;
    if !c0.ime || p == 0 {
        &&& i == 0
        &&& c1 == Cpu { halted: c0.halted && p == 0, ..c0 }
        &&& *m1 == *m0
    } else {
        &&& i == INTERRUPT_CYCLES
        &&& c1 == Cpu {
            ime: false,
            halted: false,
            sp: add16(c0.sp, -2),
            pc: vector_of(lowest_pending(p)),
            ..c0
        }
        &&& exists|mid: Memory|
            #[trigger] push_post(m0, &mid, c0.sp, c0.pc) && m1.data@ == mid.data@.update(
                io::IF as int,
                mid.data@[io::IF as int] & !lowest_pending(p),
            ) && m1.same_but_data(&mid)
    }
}

pub struct Emulator {
    pub cpu: Cpu,
    pub memory: Memory,
    pub ppu: Ppu,
    pub apu: Apu,
    pub timer: Timer,
    /// Button latch, active low: Start, Select, B, A, Down, Up, Left, Right.
    pub button_state: u8,
}

impl Emulator {
    pub open spec fn wf(&self) -> bool {
        &&& self.cpu.wf()
        &&& self.memory.wf()
        &&& self.ppu.wf()
        &&& self.apu.wf()
        &&& self.timer.wf()
    }

    pub fn new() -> (r: Self)
        ensures
            r.wf(),
            r.button_state == 0xFF,
            r.cpu.pc == 0,
            r.ppu.framebuffer@.len() == ppu::FRAME_PIXELS,
    {
        Emulator {
            cpu: Cpu::new(),
            memory: Memory::new(),
            ppu: Ppu::new(),
            apu: Apu::new(),
            timer: Timer::new(),
            button_state: 0xFF,
        }
    }

    /// Loads a ROM image and sets up the cartridge its header describes.
    pub fn load_rom(&mut self, rom: &[u8])
        requires
            old(self).wf(),
        ensures
            final(self).wf(),
            final(self).memory.rom@ == rom@,
            final(self).cpu == old(self).cpu,
    {
        self.memory.load_rom(rom);
    }

    /// Resets every component to its power-on state; the cartridge stays loaded.
    pub fn reset(&mut self)
        requires
            old(self).wf(),
        ensures
            final(self).wf(),
            final(self).cpu.pc == 0x0100,
            final(self).cpu.sp == 0xFFFE,
            final(self).cpu.a == 0x01,
            final(self).cpu.f == 0xB0,
            !final(self).cpu.ime,
            final(self).button_state == 0xFF,
            final(self).memory.rom@ == old(self).memory.rom@,
    {
        self.cpu.reset();
        self.ppu.reset();
        self.apu.reset();
        self.timer.reset();
        self.button_state = 0xFF;
    }

    /// Runs whole instructions until the PPU completes a frame or a frame's worth of
    /// T-cycles has passed; returns the T-cycles run. The frame-ready mark is cleared first.
    pub fn run_frame(&mut self) -> (r: u32)
        requires
            old(self).wf(),
        ensures
            final(self).wf(),
            4 <= r <= CYCLES_PER_FRAME + 43,
            r >= CYCLES_PER_FRAME || final(self).ppu.timing.frame_ready,
    {
        self.ppu.clear_frame_ready();
        let mut cycles: u32 = 0;
        let mut done = false;
        while cycles < CYCLES_PER_FRAME && !done
            invariant
                self.wf(),
                cycles <= CYCLES_PER_FRAME + 43,
                done ==> self.ppu.timing.frame_ready && cycles >= 4,
            decreases CYCLES_PER_FRAME + 44 - cycles,
        {
            let c = self.step();
            cycles = cycles + c;
            if self.ppu.frame_ready() {
                done = true;
            }
        }
        cycles
    }

    /// Runs whole instructions until at least `target_cycles` T-cycles have passed;
    /// returns the T-cycles run.
    pub fn run_cycles(&mut self, target_cycles: u32) -> (r: u64)
        requires
            old(self).wf(),
        ensures
            final(self).wf(),
            target_cycles <= r < target_cycles + 44,
    {
        let mut cycles: u64 = 0;
        while cycles < target_cycles as u64
            invariant
                self.wf(),
                cycles < target_cycles as u64 + 44,
            decreases target_cycles as u64 + 44 - cycles,
        {
            let c = self.step();
            cycles = cycles + c as u64;
        }
        cycles
    }

    /// Advances timer, PPU, APU and DMA by the given T-cycles.
    fn advance(&mut self, cycles: u32)
        requires
            old(self).wf(),
        ensures
            final(self).wf(),
            final(self).cpu == old(self).cpu,
            final(self).button_state == old(self).button_state,
            final(self).memory.same_below(&old(self).memory, 0xFE00),
    {
        let ghost t0 = self.timer;
        let ghost d0 = self.memory.data@;
        let ghost w0 = self.memory.written;
        let ghost p0 = self.ppu.timing;
        self.timer.tick(&mut self.memory, cycles);
        proof {
            timer::lemma_tick_keeps_low(t0, d0, w0, cycles as nat);
        }
        let ghost d1 = self.memory.data@;
        self.ppu.tick(&mut self.memory, cycles);
        proof {
            ppu::lemma_tick_keeps_low(p0, d1, cycles as nat);
        }
        let ghost d2 = self.memory.data@;
        self.apu.tick(&mut self.memory, cycles);
        assert forall|k: int| 0 <= k < 0xFE00 implies #[trigger] self.memory.data@[k] == d0[k] by {
            assert(self.memory.data@[k] == d2[k]);
            assert(ppu::ppu_tick_spec(p0, d1, cycles as nat).1[k] == d1[k]);
            assert(d2[k] == d1[k]);
            assert(timer::timer_tick_spec(t0, d0, w0, cycles as nat).1[k] == d0[k]);
            assert(d1[k] == d0[k]);
        }
        let mut i: u32 = 0;
        while i < cycles
            invariant
                i <= cycles,
                self.wf(),
                self.cpu == old(self).cpu,
                self.button_state == old(self).button_state,
                self.memory.same_below(&old(self).memory, 0xFE00),
            decreases cycles - i,
        {
            self.memory.tick_dma();
            i = i + 1;
        }
    }

    /// Executes one instruction (dispatching a pending interrupt first) and advances the
    /// other components by the T-cycles it took; returns that count.
    pub fn step(&mut self) -> (r: u32)
        requires
            old(self).wf(),
        ensures
            final(self).wf(),
            4 <= r <= 44,
            final(self).button_state == old(self).button_state,
            exists|mj: Memory, c1: Cpu, md: Memory, m1: Memory, m2: Memory, i: u32, k: u32|
                #![trigger dispatch_post(old(self).cpu, &mj, c1, &md, i), step_post(c1, &m1, final(self).cpu, &m2, k)]
                joypad_post(&old(self).memory, old(self).button_state, &mj) && dispatch_post(
                    old(self).cpu,
                    &mj,
                    c1,
                    &md,
                    i,
                ) && m1.same_below(&md, 0xFE00) && step_post(c1, &m1, final(self).cpu, &m2, k) && r == i + k,
    {
        let buttons = self.button_state;
        self.memory.set_joypad(buttons);
        let ghost mj: Memory = self.memory;
        let intr_cycles = self.handle_interrupts();
        let ghost c1: Cpu = self.cpu;
        let ghost md: Memory = self.memory;
        if intr_cycles > 0 {
            self.advance(intr_cycles);
        }
        let ghost m1: Memory = self.memory;
        let cycles = self.cpu.step(&mut self.memory);
        let ghost m2: Memory = self.memory;
        assert(joypad_post(&old(self).memory, old(self).button_state, &mj));
        assert(dispatch_post(old(self).cpu, &mj, c1, &md, intr_cycles));
        assert(m1.same_below(&md, 0xFE00));
        assert(step_post(c1, &m1, self.cpu, &m2, cycles));
        self.advance(cycles);
        if self.memory.written.stat || self.memory.written.lyc {
            self.memory.written.stat = false;
            self.memory.written.lyc = false;
            self.ppu.on_register_write(&mut self.memory);
        }
        cycles + intr_cycles
    }

    /// Wakes a halted CPU on any pending interrupt and, when IME is set, dispatches the
    /// highest-priority one: IME cleared, PC pushed, its IF bit cleared, PC at its vector.
    fn handle_interrupts(&mut self) -> (r: u32)
        requires
            old(self).wf(),
        ensures
            final(self).wf(),
            final(self).button_state == old(self).button_state,
            dispatch_post(old(self).cpu, &old(self).memory, final(self).cpu, &final(self).memory, r),
    {
        let pending = self.memory.pending_interrupts();
        if pending != 0 {
            self.cpu.halted = false;
        }
        if !self.cpu.ime || pending == 0 {
            return 0;
        }
        self.cpu.ime = false;
        let pc = self.cpu.pc;
        self.cpu.push(&mut self.memory, pc);
        let ghost mid: Memory = self.memory;
        let bit: u8 = if pending & 0x01 != 0 {
            0x01
        } else if pending & 0x02 != 0 {
            0x02
        } else if pending & 0x04 != 0 {
            0x04
        } else if pending & 0x08 != 0 {
            0x08
        } else {
            0x10
        };
        self.memory.clear_interrupt(bit);
        self.cpu.pc = if bit == 0x01 {
            0x40
        } else if bit == 0x02 {
            0x48
        } else if bit == 0x04 {
            0x50
        } else if bit == 0x08 {
            0x58
        } else {
            0x60
        };
        assert(push_post(&old(self).memory, &mid, old(self).cpu.sp, old(self).cpu.pc));
        INTERRUPT_CYCLES
    }

    /// Presses or releases a button.
    pub fn set_button(&mut self, button: Button, pressed: bool)
        ensures
            final(self).button_state == (if pressed {
                old(self).button_state & !button_mask(button)
            } else {
                old(self).button_state | button_mask(button)
            }),
            final(self).cpu == old(self).cpu,
            final(self).memory == old(self).memory,
    {
        let bit: u8 = match button {
            Button::Right => 0x01,
            Button::Left => 0x02,
            Button::Up => 0x04,
            Button::Down => 0x08,
            Button::A => 0x10,
            Button::B => 0x20,
            Button::Select => 0x40,
            Button::Start => 0x80,
        };
        if pressed {
            self.button_state = self.button_state & !bit;
        } else {
            self.button_state = self.button_state | bit;
        }
    }

    /// The frame: 160x144 colour indices (0..3), row by row.
    pub fn framebuffer(&self) -> (r: &[u8])
        ensures
            r@ == self.ppu.framebuffer@,
    {
        self.ppu.framebuffer.as_slice()
    }

    /// Takes the audio emitted so far: stereo integer levels (0..=420), left then right.
    pub fn audio_samples(&mut self) -> (r: Vec<u16>)
        requires
            old(self).wf(),
        ensures
            final(self).wf(),
            r@ == old(self).apu.levels@,
            final(self).apu.levels@.len() == 0,
    {
        self.apu.take_samples()
    }

    pub fn audio_sample_rate(&self) -> (r: u32)
        ensures
            r == apu::SAMPLE_RATE,
    {
        apu::SAMPLE_RATE
    }

    pub fn frame_ready(&self) -> (r: bool)
        ensures
            r == self.ppu.timing.frame_ready,
    {
        self.ppu.frame_ready()
    }

    /// Where execution stopped on an undefined opcode, if it did.
    pub fn fault(&self) -> (r: Option<IllegalOpcode>)
        ensures
            r == self.cpu.fault,
    {
        self.cpu.fault
    }

    pub fn has_battery(&self) -> (r: bool)
        ensures
            r == battery_of(self.memory.cart_type),
    {
        self.memory.has_battery()
    }

    /// The external RAM of a battery-backed cartridge, for saving.
    pub fn save_ram(&self) -> (r: Option<Vec<u8>>)
        ensures
            r.is_some() == battery_of(self.memory.cart_type),
            r matches Some(v) ==> v@ == self.memory.eram@,
    {
        if self.has_battery() {
            Some(self.memory.get_eram())
        } else {
            None
        }
    }

    /// Reads the cartridge header; an image too short to hold one gives `None`.
    pub fn parse_rom_info(rom: &[u8]) -> (r: Option<RomInfo>)
        ensures
            rom@.len() < HEADER_END <==> r.is_none(),
            r matches Some(info) ==> {
                &&& info.title@ == header_title(rom@)
                &&& info.cart_type@ == cart_type_name(rom@[0x0147])@
                &&& info.rom_size@ == rom_size_name(rom@[0x0148])@
                &&& info.ram_size@ == ram_size_name(rom@[0x0149])@
                &&& info.cart_type_code == rom@[0x0147]
                &&& info.rom_size_code == rom@[0x0148]
                &&& info.ram_size_code == rom@[0x0149]
            },
    {
        if rom.len() < HEADER_END {
            return None;
        }
        let title = read_title(rom);
        let cart_type_code = rom[0x0147];
        let rom_size_code = rom[0x0148];
        let ram_size_code = rom[0x0149];
        Some(RomInfo {
            title,
            cart_type: cart_type_text(cart_type_code).to_owned(),
            rom_size: rom_size_text(rom_size_code).to_owned(),
            ram_size: ram_size_text(ram_size_code).to_owned(),
            cart_type_code,
            rom_size_code,
            ram_size_code,
        })
    }

    /// Restores saved external RAM.
    pub fn load_ram(&mut self, data: &[u8])
        requires
            old(self).wf(),
        ensures
            final(self).wf(),
            final(self).memory.eram@.len() == old(self).memory.eram@.len(),
            forall|i: int|
                0 <= i < old(self).memory.eram@.len() ==> #[trigger] final(self).memory.eram@[i] == (if i < data@.len() {
                    data@[i]
                } else {
                    old(self).memory.eram@[i]
                }),
    {
        self.memory.set_eram(data);
    }
}

} // verus!
