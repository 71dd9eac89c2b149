//! The memory bus: address decoding, cartridge bank controllers, OAM DMA,
//! the joypad matrix and the side effects of hardware-register writes.
use vstd::prelude::*;
use crate::io;
use crate::interrupts;

verus! {

/// Size of the CPU-visible address space.
pub const MEM_SIZE: usize = 0x10000;

/// Cartridge header offset of the cartridge-type byte.
pub const HEADER_CART_TYPE: usize = 0x0147;

/// Cartridge header offset of the RAM-size code.
pub const HEADER_RAM_SIZE: usize = 0x0149;

/// External RAM allocated before a header says otherwise.
pub const DEFAULT_ERAM_SIZE: usize = 0x8000;

/// Number of bytes copied by one OAM DMA transfer.
pub const DMA_LENGTH: u8 = 160;

#[derive(Debug, Clone, Copy, PartialEq, Eq, Structural)]
pub enum MbcType {
    RomOnly,
    Mbc1,
    Mbc2,
    Mbc3,
    Mbc5,
}

/// Controller kind announced by a cartridge-type byte.
pub open spec fn mbc_kind_of(code: u8) -> MbcType {
    if code == 0x01 || code == 0x02 || code == 0x03 {
        MbcType::Mbc1
    } else if code == 0x05 || code == 0x06 {
        MbcType::Mbc2
    } else if 0x0F <= code <= 0x13 {
        MbcType::Mbc3
    } else if 0x19 <= code <= 0x1E {
        MbcType::Mbc5
    } else {
        MbcType::RomOnly
    }
}

/// External RAM size, in bytes, for a RAM-size code.
pub open spec fn eram_size_of(code: u8) -> usize {
    if code == 0 {
        0
    } else if code == 1 {
        0x800
    } else if code == 2 {
        0x2000
    } else if code == 3 {
        0x8000
    } else if code == 4 {
        0x20000
    } else if code == 5 {
        0x10000
    } else {
        0x8000
    }
}

/// Whether a cartridge-type byte announces battery-backed RAM.
pub open spec fn battery_of(code: u8) -> bool {
    code == 0x03 || code == 0x06 || code == 0x09 || code == 0x0D || code == 0x0F || code == 0x10
        || code == 0x13 || code == 0x1B || code == 0x1E
}

pub fn mbc_kind_from_header(code: u8) -> (r: MbcType)
    ensures
        r == mbc_kind_of(code),
{
    if code == 0x01 || code == 0x02 || code == 0x03 {
        MbcType::Mbc1
    } else if code == 0x05 || code == 0x06 {
        MbcType::Mbc2
    } else if 0x0F <= code && code <= 0x13 {
        MbcType::Mbc3
    } else if 0x19 <= code && code <= 0x1E {
        MbcType::Mbc5
    } else {
        MbcType::RomOnly
    }
}

pub fn eram_size_from_header(code: u8) -> (r: usize)
    ensures
        r == eram_size_of(code),
{
    match code {
        0 => 0,
        1 => 0x800,
        2 => 0x2000,
        3 => 0x8000,
        4 => 0x20000,
        5 => 0x10000,
        _ => 0x8000,
    }
}

/// Registers of a cartridge's memory bank controller.
#[derive(Debug, Clone, Copy, PartialEq, Eq, Structural)]
pub struct Mbc {
    pub kind: MbcType,
    pub rom_bank: u16,
    pub ram_bank: u8,
    pub ram_enabled: bool,
    pub banking_mode: u8,
}

/// Bank 0 is never selected in the switchable ROM window.
pub open spec fn nonzero_bank(b: u16) -> u16 {
    if b == 0 {
        1
    } else {
        b
    }
}

/// The controller after a CPU write of `v` at `addr` in the ROM region.
pub open spec fn mbc_write(m: Mbc, addr: u16, v: u8) -> Mbc {
    if addr < 0x2000 {
        match m.kind {
            MbcType::RomOnly => m,
            MbcType::Mbc2 => if addr & 0x0100 == 0 {
                Mbc { ram_enabled: v & 0x0F == 0x0A, ..m }
            } else {
                m
            },
            _ => Mbc { ram_enabled: v & 0x0F == 0x0A, ..m },
        }
    } else if addr < 0x4000 {
        match m.kind {
            MbcType::Mbc1 => Mbc { rom_bank: (m.rom_bank & 0x60) | nonzero_bank((v & 0x1F) as u16), ..m },
            MbcType::Mbc2 => if addr & 0x0100 != 0 {
                Mbc { rom_bank: nonzero_bank((v & 0x0F) as u16), ..m }
            } else {
                m
            },
            MbcType::Mbc3 => Mbc { rom_bank: nonzero_bank((v & 0x7F) as u16), ..m },
            MbcType::Mbc5 => if addr < 0x3000 {
                Mbc { rom_bank: (m.rom_bank & 0x100) | (v as u16), ..m }
            } else {
                Mbc { rom_bank: (m.rom_bank & 0xFF) | (((v & 1) as u16) << 8u16), ..m }
            },
            MbcType::RomOnly => m,
        }
    } else if addr < 0x6000 {
        match m.kind {
            MbcType::Mbc1 => Mbc {
                ram_bank: v & 0x03,
                rom_bank: if m.banking_mode == 0 {
                    (m.rom_bank & 0x1F) | (((v & 0x03) as u16) << 5u16)
                } else {
                    m.rom_bank
                },
                ..m
            },
            MbcType::Mbc3 | MbcType::Mbc5 => Mbc { ram_bank: v & 0x0F, ..m },
            _ => m,
        }
    } else if addr < 0x8000 {
        match m.kind {
            MbcType::Mbc1 => Mbc { banking_mode: v & 0x01, ..m },
            _ => m,
        }
    } else {
        m
    }
}

/// Offset into the ROM image that a read at `addr` (below 0x8000) selects.
pub open spec fn rom_offset(m: Mbc, addr: u16) -> int {
    if addr < 0x4000 {
        if m.kind == MbcType::Mbc1 && m.banking_mode == 1 {
            (m.ram_bank as int) * 32 * 0x4000 + addr
        } else {
            addr as int
        }
    } else {
        (m.rom_bank as int) * 0x4000 + (addr - 0x4000)
    }
}

/// Offset into external RAM that an access at `addr` (0xA000..0xC000) selects.
pub open spec fn eram_offset(m: Mbc, addr: u16) -> int {
    (m.ram_bank as int) * 0x2000 + (addr - 0xA000)
}

/// Where a read in the cartridge regions lands.
#[derive(Debug, Clone, Copy, PartialEq, Eq, Structural)]
pub enum Mapped {
    Rom(usize),
    Ram(usize),
    OpenBus,
}

impl Mbc {
    pub fn fresh(kind: MbcType) -> (r: Mbc)
        ensures
            r == (Mbc { kind, rom_bank: 1, ram_bank: 0, ram_enabled: false, banking_mode: 0 }),
    {
        Mbc { kind, rom_bank: 1, ram_bank: 0, ram_enabled: false, banking_mode: 0 }
    }

    /// Applies a CPU write in the ROM region to the controller registers.
    pub fn write_control(&mut self, addr: u16, v: u8)
        ensures
            *final(self) == mbc_write(*old(self), addr, v),
    {
        if addr < 0x2000 {
            match self.kind {
                MbcType::RomOnly => {},
                MbcType::Mbc2 => {
                    if addr & 0x0100 == 0 {
                        self.ram_enabled = v & 0x0F == 0x0A;
                    }
                },
                _ => {
                    self.ram_enabled = v & 0x0F == 0x0A;
                },
            }
        } else if addr < 0x4000 {
            match self.kind {
                MbcType::Mbc1 => {
                    let low = (v & 0x1F) as u16;
                    self.rom_bank = (self.rom_bank & 0x60) | (if low == 0 { 1 } else { low });
                },
                MbcType::Mbc2 => {
                    if addr & 0x0100 != 0 {
                        let b = (v & 0x0F) as u16;
                        self.rom_bank = if b == 0 { 1 } else { b };
                    }
                },
                MbcType::Mbc3 => {
                    let b = (v & 0x7F) as u16;
                    self.rom_bank = if b == 0 { 1 } else { b };
                },
                MbcType::Mbc5 => {
                    if addr < 0x3000 {
                        self.rom_bank = (self.rom_bank & 0x100) | (v as u16);
                    } else {
                        self.rom_bank = (self.rom_bank & 0xFF) | (((v & 1) as u16) << 8u16);
                    }
                },
                MbcType::RomOnly => {},
            }
        } else if addr < 0x6000 {
            match self.kind {
                MbcType::Mbc1 => {
                    self.ram_bank = v & 0x03;
                    if self.banking_mode == 0 {
                        self.rom_bank = (self.rom_bank & 0x1F) | (((v & 0x03) as u16) << 5u16);
                    }
                },
                MbcType::Mbc3 | MbcType::Mbc5 => {
                    self.ram_bank = v & 0x0F;
                },
                _ => {},
            }
        } else if addr < 0x8000 {
            if self.kind == MbcType::Mbc1 {
                self.banking_mode = v & 0x01;
            }
        }
    }

    /// Decodes a read in the cartridge regions (below 0x8000, or 0xA000..0xC000).
    pub fn map_read(&self, addr: u16) -> (r: Mapped)
        requires
            addr < 0x8000 || (0xA000 <= addr < 0xC000),
        ensures
            addr < 0x8000 ==> r == Mapped::Rom(rom_offset(*self, addr) as usize),
            addr >= 0x8000 && self.ram_enabled ==> r == Mapped::Ram(eram_offset(*self, addr) as usize),
            addr >= 0x8000 && !self.ram_enabled ==> r == Mapped::OpenBus,
    {
        if addr < 0x4000 {
            if self.kind == MbcType::Mbc1 && self.banking_mode == 1 {
                Mapped::Rom((self.ram_bank as usize) * 32 * 0x4000 + (addr as usize))
            } else {
                Mapped::Rom(addr as usize)
            }
        } else if addr < 0x8000 {
            Mapped::Rom((self.rom_bank as usize) * 0x4000 + ((addr - 0x4000) as usize))
        } else if self.ram_enabled {
            Mapped::Ram((self.ram_bank as usize) * 0x2000 + ((addr - 0xA000) as usize))
        } else {
            Mapped::OpenBus
        }
    }
}

/// Progress of an OAM DMA transfer.
#[derive(Debug, Clone, Copy, PartialEq, Eq, Structural)]
pub struct Dma {
    pub active: bool,
    pub source_high: u8,
    pub offset: u8,
}

/// Register writes that the owning subsystem still has to act on.
#[derive(Debug, Clone, Copy, PartialEq, Eq, Structural)]
pub struct WriteFlags {
    pub div: bool,
    pub tac: bool,
    /// TAC as it was before the pending TAC write.
    pub tac_old: u8,
    pub tima: bool,
    pub stat: bool,
    pub lyc: bool,
}

impl WriteFlags {
    pub open spec fn none_pending(self) -> bool {
        !self.div && !self.tac && !self.tima && !self.stat && !self.lyc
    }
}

/// The byte found at `i` in `s`, or 0xFF past its end.
pub open spec fn byte_or_ff(s: Seq<u8>, i: int) -> u8 {
    if 0 <= i < s.len() {
        s[i]
    } else {
        0xFF
    }
}

/// JOYP as read: the select bits, the selected (active-low) nibbles AND-combined, bits 6-7 set.
pub open spec fn joypad_value(select: u8, state: u8) -> u8 {
    let r0 = select | 0x0F;
    let r1 = if select & 0x20 == 0 { r0 & ((state >> 4u8) | 0xF0) } else { r0 };
    let r2 = if select & 0x10 == 0 { r1 & ((state & 0x0F) | 0xF0) } else { r1 };
    r2 | 0xC0
}

/// The latch bits that the select bits of JOYP expose.
pub open spec fn joypad_exposed(select: u8) -> u8 {
    (if select & 0x10 == 0 { 0x0Fu8 } else { 0u8 }) | (if select & 0x20 == 0 { 0xF0u8 } else { 0u8 })
}

/// The address array after a write of `v` to the I/O register at `addr`.
pub open spec fn io_write(d: Seq<u8>, addr: u16, v: u8) -> Seq<u8> {
    if addr == io::JOYP {
        d.update(addr as int, (v & 0x30) | (d[addr as int] & 0xCF))
    } else if addr == io::DIV {
        d.update(addr as int, 0)
    } else if addr == io::LY {
        d
    } else if addr == io::STAT {
        d.update(addr as int, (v & 0xF8) | (d[addr as int] & 0x07))
    } else {
        d.update(addr as int, v)
    }
}

/// The address array after a CPU write of `v` at `addr`.
pub open spec fn data_write(d: Seq<u8>, addr: u16, v: u8) -> Seq<u8> {
    if addr < 0x8000 || (0xA000 <= addr < 0xC000) || (0xFEA0 <= addr < 0xFF00) {
        d
    } else if 0xE000 <= addr < 0xFE00 {
        d.update(addr - 0x2000, v)
    } else if 0xFF00 <= addr < 0xFF80 {
        io_write(d, addr, v)
    } else {
        d.update(addr as int, v)
    }
}

/// The pending-write flags after a CPU write at `addr` (d is the array before it).
pub open spec fn flags_write(f: WriteFlags, d: Seq<u8>, addr: u16) -> WriteFlags {
    if addr == io::DIV {
        WriteFlags { div: true, ..f }
    } else if addr == io::TAC {
        WriteFlags { tac: true, tac_old: if f.tac { f.tac_old } else { d[io::TAC as int] }, ..f }
    } else if addr == io::TIMA {
        WriteFlags { tima: true, ..f }
    } else if addr == io::STAT {
        WriteFlags { stat: true, ..f }
    } else if addr == io::LYC {
        WriteFlags { lyc: true, ..f }
    } else {
        f
    }
}

pub struct Memory {
    /// The CPU-visible address space, read and written directly by the subsystems.
    pub data: Vec<u8>,
    /// The cartridge ROM image.
    pub rom: Vec<u8>,
    /// Cartridge external RAM.
    pub eram: Vec<u8>,
    /// Cartridge-type byte of the loaded header.
    pub cart_type: u8,
    pub mbc: Mbc,
    /// Joypad latch, active low: Start, Select, B, A, Down, Up, Left, Right.
    pub joypad_state: u8,
    pub dma: Dma,
    pub written: WriteFlags,
}

impl Memory {
    pub open spec fn wf(&self) -> bool {
        &&& self.data@.len() == MEM_SIZE
        &&& self.dma.offset <= DMA_LENGTH
        &&& self.dma.active ==> self.dma.offset < DMA_LENGTH
    }

    /// The cartridge is as in `other`, and so is the address array below `lim`.
    pub open spec fn same_below(&self, other: &Memory, lim: int) -> bool {
        &&& self.data@.len() == other.data@.len()
        &&& forall|i: int| 0 <= i < lim ==> #[trigger] self.data@[i] == other.data@[i]
        &&& self.rom@ == other.rom@
        &&& self.eram@ == other.eram@
        &&& self.cart_type == other.cart_type
        &&& self.mbc == other.mbc
    }

    /// Everything but the address array is as in `other`.
    pub open spec fn same_but_data(&self, other: &Memory) -> bool {
        &&& self.rom@ == other.rom@
        &&& self.eram@ == other.eram@
        &&& self.cart_type == other.cart_type
        &&& self.mbc == other.mbc
        &&& self.joypad_state == other.joypad_state
        &&& self.dma == other.dma
        &&& self.written == other.written
    }

    /// What a CPU read at `addr` returns.
    pub open spec fn read_spec(&self, addr: u16) -> u8 {
        if addr < 0x8000 {
            if self.mbc.kind == MbcType::RomOnly {
                self.data@[addr as int]
            } else {
                byte_or_ff(self.rom@, rom_offset(self.mbc, addr))
            }
        } else if 0xA000 <= addr < 0xC000 {
            if self.mbc.ram_enabled {
                byte_or_ff(self.eram@, eram_offset(self.mbc, addr))
            } else {
                0xFF
            }
        } else if 0xE000 <= addr < 0xFE00 {
            self.data@[addr - 0x2000]
        } else if 0xFEA0 <= addr < 0xFF00 {
            0xFF
        } else if addr == io::JOYP {
            joypad_value(self.data@[io::JOYP as int], self.joypad_state)
        } else {
            self.data@[addr as int]
        }
    }

    /// Whether a CPU write at `addr` lands in external RAM.
    pub open spec fn eram_write_hits(&self, addr: u16) -> bool {
        &&& 0xA000 <= addr < 0xC000
        &&& self.mbc.ram_enabled
        &&& eram_offset(self.mbc, addr) < self.eram@.len()
    }

    /// The effect of a CPU write of `v` at `addr`.
    pub open spec fn write_post(&self, post: &Memory, addr: u16, v: u8) -> bool {
        &&& post.data@ == data_write(self.data@, addr, v)
        &&& post.mbc == (if addr < 0x8000 { mbc_write(self.mbc, addr, v) } else { self.mbc })
        &&& post.eram@ == (if self.eram_write_hits(addr) {
            self.eram@.update(eram_offset(self.mbc, addr), v)
        } else {
            self.eram@
        })
        &&& post.dma == (if addr == io::DMA {
            Dma { active: true, source_high: v, offset: 0 }
        } else {
            self.dma
        })
        &&& post.written == flags_write(self.written, self.data@, addr)
        &&& post.rom@ == self.rom@
        &&& post.cart_type == self.cart_type
        &&& post.joypad_state == self.joypad_state
    }

    /// Creates the memory with the power-on register values and no cartridge.
    pub fn new() -> (r: Self)
        ensures
            r.wf(),
            r.data@[io::LCDC as int] == 0x91,
            r.data@[io::BGP as int] == 0xFC,
            r.data@[io::OBP0 as int] == 0xFF,
            r.data@[io::OBP1 as int] == 0xFF,
            r.data@[io::JOYP as int] == 0xCF,
            forall|i: int|
                0 <= i < MEM_SIZE && i != io::LCDC && i != io::BGP && i != io::OBP0 && i != io::OBP1
                    && i != io::JOYP ==> #[trigger] r.data@[i] == 0,
            r.rom@.len() == 0,
            r.eram@ == Seq::new(DEFAULT_ERAM_SIZE as nat, |i: int| 0u8),
            r.mbc == Mbc::fresh_spec(MbcType::RomOnly),
            r.cart_type == 0,
            r.joypad_state == 0xFF,
            !r.dma.active,
            r.written.none_pending(),
    {
        let mut data: Vec<u8> = vec![0u8; MEM_SIZE];
        data.set(io::LCDC as usize, 0x91);
        data.set(io::BGP as usize, 0xFC);
        data.set(io::OBP0 as usize, 0xFF);
        data.set(io::OBP1 as usize, 0xFF);
        data.set(io::JOYP as usize, 0xCF);
        let eram: Vec<u8> = vec![0u8; DEFAULT_ERAM_SIZE];
        assert(eram@ =~= Seq::new(DEFAULT_ERAM_SIZE as nat, |i: int| 0u8));
        Memory {
            data,
            rom: Vec::new(),
            eram,
            cart_type: 0,
            mbc: Mbc::fresh(MbcType::RomOnly),
            joypad_state: 0xFF,
            dma: Dma { active: false, source_high: 0, offset: 0 },
            written: WriteFlags { div: false, tac: false, tac_old: 0, tima: false, stat: false, lyc: false },
        }
    }

    /// Reads a byte from the given address.
    pub fn read_byte(&self, addr: u16) -> (r: u8)
        requires
            self.wf(),
        ensures
            r == self.read_spec(addr),
    {
        if addr < 0x8000 {
            if self.mbc.kind == MbcType::RomOnly {
                self.data[addr as usize]
            } else {
                match self.mbc.map_read(addr) {
                    Mapped::Rom(off) => if off < self.rom.len() { self.rom[off] } else { 0xFF },
                    _ => 0xFF,
                }
            }
        } else if 0xA000 <= addr && addr < 0xC000 {
            match self.mbc.map_read(addr) {
                Mapped::Ram(off) => if off < self.eram.len() { self.eram[off] } else { 0xFF },
                _ => 0xFF,
            }
        } else if 0xE000 <= addr && addr < 0xFE00 {
            self.data[(addr - 0x2000) as usize]
        } else if 0xFEA0 <= addr && addr < 0xFF00 {
            0xFF
        } else if addr == io::JOYP {
            self.read_joypad()
        } else {
            self.data[addr as usize]
        }
    }

    /// JOYP as the CPU reads it.
    fn read_joypad(&self) -> (r: u8)
        requires
            self.wf(),
        ensures
            r == joypad_value(self.data@[io::JOYP as int], self.joypad_state),
    {
        let select = self.data[io::JOYP as usize];
        let mut result = select | 0x0F;
        if select & 0x20 == 0 {
            result = result & ((self.joypad_state >> 4u8) | 0xF0);
        }
        if select & 0x10 == 0 {
            result = result & ((self.joypad_state & 0x0F) | 0xF0);
        }
        result | 0xC0
    }

    /// Writes a byte to the given address.
    pub fn write_byte(&mut self, addr: u16, value: u8)
        requires
            old(self).wf(),
        ensures
            final(self).wf(),
            old(self).write_post(final(self), addr, value),
    {
        if addr < 0x8000 {
            self.mbc.write_control(addr, value);
        } else if 0xA000 <= addr && addr < 0xC000 {
            if let Mapped::Ram(off) = self.mbc.map_read(addr) {
                if off < self.eram.len() {
                    self.eram.set(off, value);
                }
            }
        } else if 0xE000 <= addr && addr < 0xFE00 {
            self.data.set((addr - 0x2000) as usize, value);
        } else if 0xFEA0 <= addr && addr < 0xFF00 {
        } else if 0xFF00 <= addr && addr < 0xFF80 {
            self.write_io(addr, value);
        } else {
            self.data.set(addr as usize, value);
        }
    }

    /// Handles a write to the I/O register page.
    fn write_io(&mut self, addr: u16, value: u8)
        requires
            old(self).wf(),
            0xFF00 <= addr < 0xFF80,
        ensures
            final(self).wf(),
            old(self).write_post(final(self), addr, value),
    {
        let a = addr as usize;
        if addr == io::JOYP {
            let cur = self.data[a];
            self.data.set(a, (value & 0x30) | (cur & 0xCF));
        } else if addr == io::DIV {
            self.data.set(a, 0);
            self.written.div = true;
        } else if addr == io::LY {
        } else if addr == io::STAT {
            let cur = self.data[a];
            self.data.set(a, (value & 0xF8) | (cur & 0x07));
            self.written.stat = true;
        } else {
            if addr == io::TAC {
                if !self.written.tac {
                    self.written.tac_old = self.data[a];
                }
                self.written.tac = true;
            } else if addr == io::TIMA {
                self.written.tima = true;
            } else if addr == io::LYC {
                self.written.lyc = true;
            } else if addr == io::DMA {
                self.dma = Dma { active: true, source_high: value, offset: 0 };
            }
            self.data.set(a, value);
        }
    }

    /// Loads the given ROM bytes: keeps the image, copies its first 32 KiB into the
    /// address array and sets up the controller and external RAM that the header names.
    pub fn load_rom(&mut self, rom: &[u8])
        requires
            old(self).wf(),
        ensures
            final(self).wf(),
            final(self).rom@ == rom@,
            forall|i: int| 0 <= i < MEM_SIZE ==> #[trigger] final(self).data@[i] == (if i < rom@.len() && i < 0x8000 {
                rom@[i]
            } else {
                old(self).data@[i]
            }),
            final(self).cart_type == (if rom@.len() > HEADER_CART_TYPE { rom@[HEADER_CART_TYPE as int] } else { old(self).cart_type }),
            final(self).mbc == Mbc::fresh_spec(
                if rom@.len() > HEADER_CART_TYPE { mbc_kind_of(rom@[HEADER_CART_TYPE as int]) } else { old(self).mbc.kind },
            ),
            final(self).eram@ == (if rom@.len() > HEADER_RAM_SIZE {
                Seq::new(eram_size_of(rom@[HEADER_RAM_SIZE as int]) as nat, |i: int| 0u8)
            } else {
                old(self).eram@
            }),
            final(self).joypad_state == old(self).joypad_state,
            final(self).dma == old(self).dma,
            final(self).written == old(self).written,
    {
        let mut image: Vec<u8> = Vec::new();
        let mut i: usize = 0;
        while i < rom.len()
            invariant
                i <= rom@.len(),
                image@ == rom@.subrange(0, i as int),
                self.wf(),
                forall|j: int| 0 <= j < MEM_SIZE ==> #[trigger] self.data@[j] == (if j < i && j < 0x8000 {
                    rom@[j]
                } else {
                    old(self).data@[j]
                }),
                self.cart_type == old(self).cart_type,
                self.mbc == old(self).mbc,
                self.eram@ == old(self).eram@,
                self.joypad_state == old(self).joypad_state,
                self.dma == old(self).dma,
                self.written == old(self).written,
            decreases rom@.len() - i,
        {
            let b = rom[i];
            image.push(b);
            if i < 0x8000 {
                self.data.set(i, b);
            }
            i = i + 1;
            assert(image@ =~= rom@.subrange(0, i as int));
        }
        assert(image@ =~= rom@);
        self.rom = image;
        let mut kind = self.mbc.kind;
        if rom.len() > HEADER_CART_TYPE {
            self.cart_type = rom[HEADER_CART_TYPE];
            kind = mbc_kind_from_header(rom[HEADER_CART_TYPE]);
        }
        self.mbc = Mbc::fresh(kind);
        if rom.len() > HEADER_RAM_SIZE {
            let size = eram_size_from_header(rom[HEADER_RAM_SIZE]);
            let fresh: Vec<u8> = vec![0u8; size];
            assert(fresh@ =~= Seq::new(size as nat, |i: int| 0u8));
            self.eram = fresh;
        }
    }

    /// Copies the next byte of an active OAM DMA transfer.
    pub fn tick_dma(&mut self)
        requires
            old(self).wf(),
        ensures
            final(self).wf(),
            old(self).dma.active ==> {
                let off = old(self).dma.offset;
                let src = (old(self).dma.source_high as int * 256 + off) as u16;
                &&& final(self).data@ == old(self).data@.update(0xFE00 + off, old(self).read_spec(src))
                &&& final(self).dma == (Dma {
                    active: off + 1 < DMA_LENGTH,
                    offset: (off + 1) as u8,
                    ..old(self).dma
                })
            },
            !old(self).dma.active ==> final(self).data@ == old(self).data@ && final(self).dma == old(self).dma,
            final(self).rom@ == old(self).rom@,
            final(self).eram@ == old(self).eram@,
            final(self).cart_type == old(self).cart_type,
            final(self).mbc == old(self).mbc,
            final(self).joypad_state == old(self).joypad_state,
            final(self).written == old(self).written,
    {
        if self.dma.active {
            let off = self.dma.offset;
            let src = (self.dma.source_high as u16) * 256 + (off as u16);
            let dst = 0xFE00 + (off as usize);
            let val = self.read_byte(src);
            self.data.set(dst, val);
            self.dma.offset = off + 1;
            if self.dma.offset >= DMA_LENGTH {
                self.dma.active = false;
            }
        }
    }

    /// Requests an interrupt: sets the given bits of IF.
    pub fn request_interrupt(&mut self, interrupt: u8)
        requires
            old(self).wf(),
        ensures
            final(self).wf(),
            final(self).data@ == old(self).data@.update(io::IF as int, old(self).data@[io::IF as int] | interrupt),
            final(self).same_but_data(old(self)),
    {
        let cur = self.data[io::IF as usize];
        self.data.set(io::IF as usize, cur | interrupt);
    }

    /// Pending interrupts: IF & IE, five sources.
    pub fn pending_interrupts(&self) -> (r: u8)
        requires
            self.wf(),
        ensures
            r == self.data@[io::IF as int] & self.data@[io::IE as int] & 0x1F,
    {
        self.data[io::IF as usize] & self.data[io::IE as usize] & 0x1F
    }

    /// Clears the given bits of IF.
    pub fn clear_interrupt(&mut self, interrupt: u8)
        requires
            old(self).wf(),
        ensures
            final(self).wf(),
            final(self).data@ == old(self).data@.update(io::IF as int, old(self).data@[io::IF as int] & !interrupt),
            final(self).same_but_data(old(self)),
    {
        let cur = self.data[io::IF as usize];
        self.data.set(io::IF as usize, cur & !interrupt);
    }

    /// Latches the joypad state (bit 0 = pressed); a press on an exposed line
    /// requests the joypad interrupt.
    pub fn set_joypad(&mut self, state: u8)
        requires
            old(self).wf(),
        ensures
            final(self).wf(),
            final(self).joypad_state == state,
            final(self).data@ == (if old(self).joypad_state & !state & joypad_exposed(old(self).data@[io::JOYP as int]) != 0 {
                old(self).data@.update(io::IF as int, old(self).data@[io::IF as int] | interrupts::JOYPAD)
            } else {
                old(self).data@
            }),
            final(self).rom@ == old(self).rom@,
            final(self).eram@ == old(self).eram@,
            final(self).cart_type == old(self).cart_type,
            final(self).mbc == old(self).mbc,
            final(self).dma == old(self).dma,
            final(self).written == old(self).written,
    {
        let old_state = self.joypad_state;
        self.joypad_state = state;
        let select = self.data[io::JOYP as usize];
        let exposed: u8 = (if select & 0x10 == 0 { 0x0Fu8 } else { 0u8 }) | (if select & 0x20 == 0 { 0xF0u8 } else { 0u8 });
        if old_state & !state & exposed != 0 {
            self.request_interrupt(interrupts::JOYPAD);
        }
    }

    /// Whether the cartridge keeps its RAM on a battery.
    pub fn has_battery(&self) -> (r: bool)
        ensures
            r == battery_of(self.cart_type),
    {
        let c = self.cart_type;
        c == 0x03 || c == 0x06 || c == 0x09 || c == 0x0D || c == 0x0F || c == 0x10 || c == 0x13 || c == 0x1B || c == 0x1E
    }

    /// A copy of the external RAM.
    pub fn get_eram(&self) -> (r: Vec<u8>)
        ensures
            r@ == self.eram@,
    {
        let mut out: Vec<u8> = Vec::new();
        let mut i: usize = 0;
        while i < self.eram.len()
            invariant
                i <= self.eram@.len(),
                out@ == self.eram@.subrange(0, i as int),
            decreases self.eram@.len() - i,
        {
            out.push(self.eram[i]);
            i = i + 1;
            assert(out@ =~= self.eram@.subrange(0, i as int));
        }
        assert(out@ =~= self.eram@);
        out
    }

    /// Overwrites the start of external RAM with saved bytes; the RAM keeps its size.
    pub fn set_eram(&mut self, saved: &[u8])
        requires
            old(self).wf(),
        ensures
            final(self).wf(),
            final(self).eram@.len() == old(self).eram@.len(),
            forall|i: int| 0 <= i < old(self).eram@.len() ==> #[trigger] final(self).eram@[i] == (if i < saved@.len() {
                saved@[i]
            } else {
                old(self).eram@[i]
            }),
            final(self).data@ == old(self).data@,
            final(self).rom@ == old(self).rom@,
            final(self).mbc == old(self).mbc,
            final(self).cart_type == old(self).cart_type,
    {
        let mut i: usize = 0;
        while i < saved.len() && i < self.eram.len()
            invariant
                i <= saved@.len(),
                i <= old(self).eram@.len(),
                self.wf(),
                self.eram@.len() == old(self).eram@.len(),
                forall|j: int| 0 <= j < old(self).eram@.len() ==> #[trigger] self.eram@[j] == (if j < i {
                    saved@[j]
                } else {
                    old(self).eram@[j]
                }),
                self.data@ == old(self).data@,
                self.rom@ == old(self).rom@,
                self.mbc == old(self).mbc,
                self.cart_type == old(self).cart_type,
            decreases saved@.len() - i,
        {
            self.eram.set(i, saved[i]);
            i = i + 1;
        }
    }
}

impl Mbc {
    pub open spec fn fresh_spec(kind: MbcType) -> Mbc {
        Mbc { kind, rom_bank: 1, ram_bank: 0, ram_enabled: false, banking_mode: 0 }
    }
}

} // verus!
