//! Running conformance-test ROMs headlessly and judging them by the signals they give:
//! Blargg tests print "Passed" or "Failed" over the serial port or leave a signature in
//! cartridge RAM; Mooneye tests execute `LD B,B` then spin, with Fibonacci numbers in the
//! registers on success.
use vstd::prelude::*;
use crate::cpu::{Cpu, IllegalOpcode};
use crate::io;
use crate::memory::Memory;
use crate::Emulator;

verus! {

/// Cycle budget after which a test counts as hung.
pub const MAX_TEST_CYCLES: u64 = 500_000_000;

/// Why a test ROM was judged failed.
#[derive(Debug, Clone, Copy, PartialEq, Eq, Structural)]
pub enum TestFailure {
    /// The budget ran out first.
    TimedOut,
    /// The processor met an undefined opcode.
    CpuFault(IllegalOpcode),
    /// The serial output said "Failed".
    SerialFailed,
    /// The RAM signature was present with a non-zero status.
    Status(u8),
    /// The Mooneye breakpoint was reached without the Fibonacci registers.
    Mooneye { b: u8, c: u8, d: u8, e: u8, h: u8, l: u8 },
}

/// Outcome of running one test ROM.
#[derive(Debug)]
pub struct TestResult {
    pub name: String,
    pub passed: bool,
    /// Bytes the ROM sent over the serial port.
    pub output: Vec<u8>,
    pub cycles: u64,
    pub error: Option<TestFailure>,
}

/// Whether `s` ends with `pat`.
pub open spec fn ends_with(s: Seq<u8>, pat: Seq<u8>) -> bool {
    pat.len() <= s.len() && s.subrange(s.len() - pat.len(), s.len() as int) == pat
}

pub open spec fn passed_text() -> Seq<u8> {
    seq![0x50u8, 0x61, 0x73, 0x73, 0x65, 0x64]
}

pub open spec fn failed_text() -> Seq<u8> {
    seq![0x46u8, 0x61, 0x69, 0x6C, 0x65, 0x64]
}

/// Output cannot end with both words.
proof fn lemma_verdicts_exclusive(s: Seq<u8>)
    ensures
        !(ends_with(s, passed_text()) && ends_with(s, failed_text())),
{
    if ends_with(s, passed_text()) && ends_with(s, failed_text()) {
        let t = s.subrange(s.len() - 6, s.len() as int);
        assert(t[0] == passed_text()[0]);
        assert(t[0] == failed_text()[0]);
    }
}

/// The Mooneye success registers: B, C, D, E, H, L = 3, 5, 8, 13, 21, 34.
pub open spec fn fibonacci_registers(c: Cpu) -> bool {
    c.b == 3 && c.c == 5 && c.d == 8 && c.e == 13 && c.h == 21 && c.l == 34
}

fn ends_with_bytes(s: &Vec<u8>, pat: [u8; 6]) -> (r: bool)
    ensures
        r == ends_with(s@, pat@),
{
    if s.len() < 6 {
        return false;
    }
    let base = s.len() - 6;
    let mut k: usize = base;
    while k < s.len()
        invariant
            base <= k <= s@.len(),
            base + 6 == s@.len(),
            pat@.len() == 6,
            forall|j: int| 0 <= j < k - base ==> s@[base + j] == pat@[j],
        decreases s@.len() - k,
    {
        if s[k] != pat[k - base] {
            assert(s@.subrange(base as int, s@.len() as int)[k - base] != pat@[k - base]);
            return false;
        }
        k = k + 1;
    }
    assert(s@.subrange(base as int, s@.len() as int) =~= pat@);
    true
}

/// The verdict of the serial output so far: passed, failed, or undecided.
pub fn serial_verdict(output: &Vec<u8>) -> (r: Option<bool>)
    ensures
        ends_with(output@, passed_text()) ==> r == Some(true),
        !ends_with(output@, passed_text()) && ends_with(output@, failed_text()) ==> r == Some(false),
        !ends_with(output@, passed_text()) && !ends_with(output@, failed_text()) ==> r.is_none(),
{
    let passed: [u8; 6] = [0x50, 0x61, 0x73, 0x73, 0x65, 0x64];
    let failed: [u8; 6] = [0x46, 0x61, 0x69, 0x6C, 0x65, 0x64];
    assert(passed@ =~= passed_text());
    assert(failed@ =~= failed_text());
    if ends_with_bytes(output, passed) {
        Some(true)
    } else if ends_with_bytes(output, failed) {
        Some(false)
    } else {
        None
    }
}

/// Whether the registers hold the Mooneye success values.
pub fn mooneye_passed(cpu: &Cpu) -> (r: bool)
    ensures
        r == fibonacci_registers(*cpu),
{
    cpu.b == 3 && cpu.c == 5 && cpu.d == 8 && cpu.e == 13 && cpu.h == 21 && cpu.l == 34
}

/// Whether the bytes at `pc` are the Mooneye end marker `LD B,B; JR -2`.
pub fn at_mooneye_breakpoint(memory: &Memory, pc: u16) -> (r: bool)
    requires
        memory.wf(),
    ensures
        r == (memory.read_spec(pc) == 0x40 && memory.read_spec(((pc as int + 1) % 0x10000) as u16) == 0x18
            && memory.read_spec(((pc as int + 2) % 0x10000) as u16) == 0xFE),
{
    memory.read_byte(pc) == 0x40 && memory.read_byte(pc.wrapping_add(1)) == 0x18 && memory.read_byte(
        pc.wrapping_add(2),
    ) == 0xFE
}

/// Whether cartridge RAM holds the Blargg "done" signature DE B0 61 at 0xA001.
pub fn ram_signature(memory: &Memory) -> (r: bool)
    requires
        memory.wf(),
    ensures
        r == (memory.read_spec(0xA001) == 0xDE && memory.read_spec(0xA002) == 0xB0 && memory.read_spec(0xA003)
            == 0x61),
{
    memory.read_byte(0xA001) == 0xDE && memory.read_byte(0xA002) == 0xB0 && memory.read_byte(0xA003) == 0x61
}

/// Runs a test ROM until it reports a result, hits an undefined opcode, or uses up
/// `max_cycles` T-cycles.
pub fn run_test_rom(name: String, rom: &[u8], max_cycles: u64) -> (r: TestResult)
    requires
        max_cycles <= u64::MAX - 44,
    ensures
        r.passed <==> r.error.is_none(),
        r.error == Some(TestFailure::TimedOut) ==> r.cycles >= max_cycles && !ends_with(r.output@, passed_text())
            && !ends_with(r.output@, failed_text()),
        ends_with(r.output@, passed_text()) ==> r.passed,
        ends_with(r.output@, failed_text()) ==> r.error == Some(TestFailure::SerialFailed),
        r.error == Some(TestFailure::SerialFailed) ==> ends_with(r.output@, failed_text()),
        r.error matches Some(TestFailure::Status(st)) ==> st != 0,
        r.cycles <= max_cycles + 44,
{
    let mut emu = Emulator::new();
    emu.load_rom(rom);
    emu.reset();
    let mut output: Vec<u8> = Vec::new();
    let mut total: u64 = 0;
    while total < max_cycles
        invariant
            emu.wf(),
            max_cycles <= u64::MAX - 44,
            total <= max_cycles + 44,
            !ends_with(output@, passed_text()),
            !ends_with(output@, failed_text()),
        decreases max_cycles + 44 - total,
    {
        let prev_pc = emu.cpu.pc;
        let cycles = emu.step();
        total = total + cycles as u64;
        if let Some(fault) = emu.fault() {
            return TestResult { name, passed: false, output, cycles: total, error: Some(TestFailure::CpuFault(fault)) };
        }
        if at_mooneye_breakpoint(&emu.memory, prev_pc) {
            let ok = mooneye_passed(&emu.cpu);
            let error = if ok {
                None
            } else {
                Some(
                    TestFailure::Mooneye {
                        b: emu.cpu.b,
                        c: emu.cpu.c,
                        d: emu.cpu.d,
                        e: emu.cpu.e,
                        h: emu.cpu.h,
                        l: emu.cpu.l,
                    },
                )
            };
            return TestResult { name, passed: ok, output, cycles: total, error };
        }
        if emu.memory.data[io::SC as usize] == 0x81 {
            output.push(emu.memory.data[io::SB as usize]);
            emu.memory.data.set(io::SC as usize, 0);
            proof {
                lemma_verdicts_exclusive(output@);
            }
            match serial_verdict(&output) {
                Some(true) => {
                    return TestResult { name, passed: true, output, cycles: total, error: None };
                },
                Some(false) => {
                    return TestResult {
                        name,
                        passed: false,
                        output,
                        cycles: total,
                        error: Some(TestFailure::SerialFailed),
                    };
                },
                None => {},
            }
        }
        if ram_signature(&emu.memory) {
            let status = emu.memory.read_byte(0xA000);
            let error = if status == 0 { None } else { Some(TestFailure::Status(status)) };
            return TestResult { name, passed: status == 0, output, cycles: total, error };
        }
    }
    TestResult { name, passed: false, output, cycles: total, error: Some(TestFailure::TimedOut) }
}

} // verus!
