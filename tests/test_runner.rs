use gb3000::cpu::IllegalOpcode;
use gb3000::test_runner::{mooneye_passed, run_test_rom, serial_verdict, TestFailure};
use gb3000::cpu::Cpu;

fn rom_with(program: &[u8]) -> Vec<u8> {
    let mut rom = vec![0u8; 0x8000];
    rom[0x0100..0x0100 + program.len()].copy_from_slice(program);
    rom
}

fn serial_program(text: &[u8]) -> Vec<u8> {
    let mut p = Vec::new();
    for &c in text {
        p.extend_from_slice(&[0x3E, c, 0xE0, 0x01, 0x3E, 0x81, 0xE0, 0x02]);
    }
    p.extend_from_slice(&[0x18, 0xFE]);
    p
}

#[test]
fn serial_passed_is_a_pass() {
    let rom = rom_with(&serial_program(b"ok Passed"));
    let r = run_test_rom("serial".to_string(), &rom, 1_000_000);
    assert!(r.passed);
    assert_eq!(r.error, None);
    assert_eq!(r.output, b"ok Passed".to_vec());
}

#[test]
fn serial_failed_is_a_failure() {
    let rom = rom_with(&serial_program(b"Failed"));
    let r = run_test_rom("serial".to_string(), &rom, 1_000_000);
    assert!(!r.passed);
    assert_eq!(r.error, Some(TestFailure::SerialFailed));
}

#[test]
fn mooneye_signature() {
    // LD B,3 ; LD C,5 ; LD D,8 ; LD E,13 ; LD H,21 ; LD L,34 ; LD B,B ; JR -2
    let rom = rom_with(&[0x06, 3, 0x0E, 5, 0x16, 8, 0x1E, 13, 0x26, 21, 0x2E, 34, 0x40, 0x18, 0xFE]);
    let r = run_test_rom("mooneye".to_string(), &rom, 1_000_000);
    assert!(r.passed);
    let rom = rom_with(&[0x06, 4, 0x40, 0x18, 0xFE]);
    let r = run_test_rom("mooneye".to_string(), &rom, 1_000_000);
    assert!(!r.passed);
    assert!(matches!(r.error, Some(TestFailure::Mooneye { b: 4, .. })));
}

#[test]
fn hung_rom_times_out() {
    let rom = rom_with(&[0x18, 0xFE]);
    let r = run_test_rom("loop".to_string(), &rom, 10_000);
    assert!(!r.passed);
    assert_eq!(r.error, Some(TestFailure::TimedOut));
    assert!(r.cycles >= 10_000);
}

#[test]
fn undefined_opcode_fails() {
    let rom = rom_with(&[0x00, 0xE4]);
    let r = run_test_rom("bad".to_string(), &rom, 10_000);
    assert_eq!(r.error, Some(TestFailure::CpuFault(IllegalOpcode { pc: 0x0101, opcode: 0xE4 })));
}

#[test]
fn serial_verdict_looks_at_the_end() {
    assert_eq!(serial_verdict(&b"...Passed".to_vec()), Some(true));
    assert_eq!(serial_verdict(&b"Failed".to_vec()), Some(false));
    assert_eq!(serial_verdict(&b"Pass".to_vec()), None);
}

#[test]
fn fibonacci_registers_checked() {
    let mut cpu = Cpu::new();
    assert!(!mooneye_passed(&cpu));
    cpu.b = 3;
    cpu.c = 5;
    cpu.d = 8;
    cpu.e = 13;
    cpu.h = 21;
    cpu.l = 34;
    assert!(mooneye_passed(&cpu));
}
