use gb3000::cpu::{Cpu, IllegalOpcode};
use gb3000::memory::Memory;

#[test]
fn reset_sets_initial_values() {
    let mut cpu = Cpu::new();
    cpu.reset();
    assert_eq!(cpu.a, 0x01);
    assert_eq!(cpu.f, 0xB0);
    assert_eq!(cpu.sp, 0xFFFE);
    assert_eq!(cpu.pc, 0x0100);
}

#[test]
fn step_executes_nop() {
    let mut cpu = Cpu::new();
    let mut mem = Memory::new();
    mem.data[0x0100] = 0x00;
    cpu.reset();
    cpu.step(&mut mem);
    assert_eq!(cpu.pc, 0x0101);
}

#[test]
fn boot_register_state() {
    let mut cpu = Cpu::new();
    cpu.reset();
    assert_eq!(cpu.a, 0x01);
    assert_eq!(cpu.f, 0xB0);
    assert_eq!(cpu.b, 0x00);
    assert_eq!(cpu.c, 0x13);
    assert_eq!(cpu.d, 0x00);
    assert_eq!(cpu.e, 0xD8);
    assert_eq!(cpu.h, 0x01);
    assert_eq!(cpu.l, 0x4D);
    assert_eq!(cpu.sp, 0xFFFE);
    assert_eq!(cpu.pc, 0x0100);
    assert!(!cpu.ime);
}

#[test]
fn nop_takes_four_cycles() {
    let mut cpu = Cpu::new();
    let mut mem = Memory::new();
    cpu.reset();
    let cycles = cpu.step(&mut mem);
    assert_eq!(cycles, 4);
    assert_eq!(cpu.pc, 0x0101);
}

fn run_program(program: &[u8], setup: impl Fn(&mut Cpu)) -> (Cpu, Memory, Vec<u32>) {
    let mut cpu = Cpu::new();
    let mut mem = Memory::new();
    cpu.reset();
    for (i, b) in program.iter().enumerate() {
        mem.data[0x0100 + i] = *b;
    }
    setup(&mut cpu);
    let mut cycles = Vec::new();
    while (cpu.pc as usize) < 0x0100 + program.len() && cpu.fault.is_none() {
        cycles.push(cpu.step(&mut mem));
    }
    (cpu, mem, cycles)
}

#[test]
fn pop_af_clears_low_nibble_of_f() {
    // LD SP,0xC000 ; POP AF with 0xFFFF on the stack
    let mut cpu = Cpu::new();
    let mut mem = Memory::new();
    cpu.reset();
    mem.write_byte(0xC000, 0xFF);
    mem.write_byte(0xC001, 0x12);
    mem.data[0x0100] = 0xF1;
    cpu.sp = 0xC000;
    let cycles = cpu.step(&mut mem);
    assert_eq!(cycles, 12);
    assert_eq!(cpu.f, 0xF0);
    assert_eq!(cpu.a, 0x12);
    assert_eq!(cpu.sp, 0xC002);
    assert_eq!(cpu.f & 0x0F, 0);
}

#[test]
fn pop_af_low_nibble_zero_for_every_byte() {
    for v in 0..=255u8 {
        let mut cpu = Cpu::new();
        let mut mem = Memory::new();
        cpu.reset();
        mem.write_byte(0xC000, v);
        mem.data[0x0100] = 0xF1;
        cpu.sp = 0xC000;
        cpu.step(&mut mem);
        assert_eq!(cpu.f & 0x0F, 0);
        assert_eq!(cpu.f, v & 0xF0);
    }
}

#[test]
fn add_sets_carry_and_half_carry() {
    let mut cpu = Cpu::new();
    cpu.a = 0x8F;
    cpu.alu_add(0x81);
    assert_eq!(cpu.a, 0x10);
    assert_eq!(cpu.f, 0x30); // H and C
    let mut cpu = Cpu::new();
    cpu.a = 0xFF;
    cpu.alu_add(0x01);
    assert_eq!(cpu.a, 0x00);
    assert_eq!(cpu.f, 0xB0); // Z, H, C
    let mut cpu = Cpu::new();
    cpu.a = 0x12;
    cpu.alu_add(0x34);
    assert_eq!(cpu.a, 0x46);
    assert_eq!(cpu.f, 0x00);
}

#[test]
fn add_flags_match_formula_everywhere() {
    for a in 0..=255u16 {
        for v in 0..=255u16 {
            let mut cpu = Cpu::new();
            cpu.a = a as u8;
            cpu.alu_add(v as u8);
            assert_eq!(cpu.f & 0x10 != 0, a + v > 0xFF);
            assert_eq!(cpu.f & 0x20 != 0, (a & 0xF) + (v & 0xF) > 0xF);
            let mut cpu = Cpu::new();
            cpu.a = a as u8;
            cpu.alu_sub(v as u8);
            assert_eq!(cpu.f & 0x10 != 0, a < v);
            assert_eq!(cpu.f & 0x20 != 0, (a & 0xF) < (v & 0xF));
            assert_eq!(cpu.f & 0x40 != 0, true);
        }
    }
}

#[test]
fn sub_and_compare() {
    let mut cpu = Cpu::new();
    cpu.a = 0x10;
    cpu.alu_sub(0x01);
    assert_eq!(cpu.a, 0x0F);
    assert_eq!(cpu.f, 0x60); // N, H
    let mut cpu = Cpu::new();
    cpu.a = 0x05;
    cpu.alu_cp(0x05);
    assert_eq!(cpu.a, 0x05);
    assert_eq!(cpu.f, 0xC0); // Z, N
}

#[test]
fn adc_and_sbc_use_carry() {
    let mut cpu = Cpu::new();
    cpu.a = 0x0F;
    cpu.f = 0x10;
    cpu.alu_adc(0x00);
    assert_eq!(cpu.a, 0x10);
    assert_eq!(cpu.f, 0x20);
    let mut cpu = Cpu::new();
    cpu.a = 0x00;
    cpu.f = 0x10;
    cpu.alu_sbc(0x00);
    assert_eq!(cpu.a, 0xFF);
    assert_eq!(cpu.f, 0x70);
}

#[test]
fn swap_twice_is_identity() {
    for v in 0..=255u8 {
        let mut cpu = Cpu::new();
        let once = cpu.alu_swap(v);
        assert_eq!(cpu.f & 0x80 != 0, v == 0);
        assert_eq!(cpu.f & 0x70, 0);
        let twice = cpu.alu_swap(once);
        assert_eq!(twice, v);
    }
    let mut cpu = Cpu::new();
    assert_eq!(cpu.alu_swap(0xAB), 0xBA);
}

#[test]
fn rotates_and_shifts() {
    let mut cpu = Cpu::new();
    assert_eq!(cpu.alu_rlc(0x85), 0x0B);
    assert_eq!(cpu.f, 0x10);
    assert_eq!(cpu.alu_rrc(0x01), 0x80);
    assert_eq!(cpu.f, 0x10);
    cpu.f = 0x00;
    assert_eq!(cpu.alu_rl(0x80), 0x00);
    assert_eq!(cpu.f, 0x90);
    assert_eq!(cpu.alu_rr(0x00), 0x80);
    assert_eq!(cpu.f, 0x00);
    assert_eq!(cpu.alu_sla(0xC0), 0x80);
    assert_eq!(cpu.f, 0x10);
    assert_eq!(cpu.alu_sra(0x81), 0xC0);
    assert_eq!(cpu.f, 0x10);
    assert_eq!(cpu.alu_srl(0x01), 0x00);
    assert_eq!(cpu.f, 0x90);
}

#[test]
fn inc_dec_keep_carry() {
    let mut cpu = Cpu::new();
    cpu.f = 0x10;
    assert_eq!(cpu.alu_inc(0x0F), 0x10);
    assert_eq!(cpu.f, 0x30);
    assert_eq!(cpu.alu_dec(0x01), 0x00);
    assert_eq!(cpu.f, 0xD0);
    assert_eq!(cpu.alu_dec(0x00), 0xFF);
    assert_eq!(cpu.f, 0x70);
}

#[test]
fn bit_res_set() {
    let mut cpu = Cpu::new();
    cpu.f = 0x10;
    cpu.alu_bit(3, 0x08);
    assert_eq!(cpu.f, 0x30);
    cpu.alu_bit(2, 0x08);
    assert_eq!(cpu.f, 0xB0);
    assert_eq!(cpu.alu_res(3, 0xFF), 0xF7);
    assert_eq!(cpu.alu_set(0, 0x00), 0x01);
}

#[test]
fn daa_after_addition() {
    let mut cpu = Cpu::new();
    cpu.a = 0x45;
    cpu.alu_add(0x38); // 0x7D
    cpu.alu_daa();
    assert_eq!(cpu.a, 0x83);
    assert_eq!(cpu.f & 0x10, 0);
    let mut cpu = Cpu::new();
    cpu.a = 0x99;
    cpu.alu_add(0x01); // 0x9A
    cpu.alu_daa();
    assert_eq!(cpu.a, 0x00);
    assert_eq!(cpu.f, 0x90);
}

#[test]
fn add_hl_and_add_sp() {
    let mut cpu = Cpu::new();
    cpu.set_hl(0x0FFF);
    cpu.alu_add_hl(0x0001);
    assert_eq!(cpu.hl(), 0x1000);
    assert_eq!(cpu.f, 0x20);
    cpu.sp = 0x00FF;
    let r = cpu.alu_add_sp(1);
    assert_eq!(r, 0x0100);
    assert_eq!(cpu.f, 0x30);
    cpu.sp = 0x0000;
    let r = cpu.alu_add_sp(-1);
    assert_eq!(r, 0xFFFF);
    assert_eq!(cpu.f, 0x00);
}

#[test]
fn register_pairs() {
    let mut cpu = Cpu::new();
    cpu.set_bc(0x1234);
    assert_eq!((cpu.b, cpu.c), (0x12, 0x34));
    assert_eq!(cpu.bc(), 0x1234);
    cpu.set_de(0xABCD);
    assert_eq!(cpu.de(), 0xABCD);
    cpu.set_af(0x12FF);
    assert_eq!(cpu.af(), 0x12F0);
}

#[test]
fn jr_cycle_counts() {
    // JR NZ,+2 with Z clear is taken (12); JR Z,+0 with Z clear is not (8).
    let (cpu, _, cycles) = run_program(&[0x20, 0x02, 0x00, 0x00, 0x28, 0x00], |c| c.f = 0);
    assert_eq!(cycles, vec![12, 8]);
    assert_eq!(cpu.pc, 0x0106);
}

#[test]
fn call_and_ret() {
    // CALL 0x0105 ; (0x0103) JR +1 ; (0x0105) RET
    let (cpu, mem, cycles) = run_program(&[0xCD, 0x05, 0x01, 0x18, 0x01, 0xC9], |c| c.sp = 0xD000);
    assert_eq!(cycles, vec![24, 16, 12]);
    assert_eq!(mem.read_byte(0xCFFF), 0x01);
    assert_eq!(mem.read_byte(0xCFFE), 0x03);
    assert_eq!(cpu.sp, 0xD000);
}

#[test]
fn ld_and_alu_blocks() {
    // LD B,0x07 ; LD A,B ; ADD A,A ; LD (HL),A with HL=0xC010 ; XOR A
    let (cpu, mem, cycles) = run_program(&[0x06, 0x07, 0x78, 0x87, 0x77, 0xAF], |c| c.set_hl(0xC010));
    assert_eq!(cycles, vec![8, 4, 4, 8, 4]);
    assert_eq!(mem.read_byte(0xC010), 0x0E);
    assert_eq!(cpu.a, 0);
    assert_eq!(cpu.f, 0x80);
}

#[test]
fn cb_prefixed_cycles() {
    // SWAP B (8) ; BIT 0,(HL) (12) ; SET 7,(HL) (16)
    let (_, mem, cycles) = run_program(&[0xCB, 0x30, 0xCB, 0x46, 0xCB, 0xFE], |c| c.set_hl(0xC000));
    assert_eq!(cycles, vec![8, 12, 16]);
    assert_eq!(mem.read_byte(0xC000), 0x80);
}

#[test]
fn halt_then_idle() {
    let (cpu, _, cycles) = run_program(&[0x76], |_| {});
    assert_eq!(cycles, vec![4]);
    assert!(cpu.halted);
}

#[test]
fn ei_takes_effect_after_next_instruction() {
    let mut cpu = Cpu::new();
    let mut mem = Memory::new();
    cpu.reset();
    mem.data[0x0100] = 0xFB;
    mem.data[0x0101] = 0x00;
    cpu.step(&mut mem);
    assert!(!cpu.ime);
    assert!(cpu.ime_pending);
    cpu.step(&mut mem);
    assert!(cpu.ime);
}

#[test]
fn illegal_opcode_stops_with_diagnostic() {
    let mut cpu = Cpu::new();
    let mut mem = Memory::new();
    cpu.reset();
    mem.data[0x0100] = 0xD3;
    assert_eq!(cpu.step(&mut mem), 4);
    assert_eq!(cpu.fault, Some(IllegalOpcode { pc: 0x0100, opcode: 0xD3 }));
    let before = cpu.pc;
    cpu.step(&mut mem);
    assert_eq!(cpu.pc, before);
}

#[test]
fn flag_instructions() {
    // SCF ; CCF ; CPL with A=0x35
    let (cpu, _, cycles) = run_program(&[0x37, 0x3F, 0x2F], |c| {
        c.a = 0x35;
        c.f = 0x80;
    });
    assert_eq!(cycles, vec![4, 4, 4]);
    assert_eq!(cpu.a, 0xCA);
    assert_eq!(cpu.f, 0xE0); // Z kept, N and H set, C cleared by CCF
}

#[test]
fn sixteen_bit_immediates_and_stack_pointer() {
    // LD BC,0x1234 ; LD SP,0xC123 ; LD HL,0xD000 ; LD SP,HL ; JP (HL) would leave the program, so stop.
    let (cpu, _, cycles) = run_program(&[0x01, 0x34, 0x12, 0x31, 0x23, 0xC1, 0x21, 0x00, 0xD0, 0xF9], |_| {});
    assert_eq!(cycles, vec![12, 12, 12, 8]);
    assert_eq!(cpu.bc(), 0x1234);
    assert_eq!(cpu.hl(), 0xD000);
    assert_eq!(cpu.sp, 0xD000);
}

#[test]
fn alu_immediates_and_interrupt_enable() {
    // LD A,0x0F ; ADD A,0x01 ; XOR 0xFF ; DI ; EI
    let (cpu, _, cycles) = run_program(&[0x3E, 0x0F, 0xC6, 0x01, 0xEE, 0xFF, 0xF3, 0xFB], |_| {});
    assert_eq!(cycles, vec![8, 8, 8, 4, 4]);
    assert_eq!(cpu.a, 0xEF);
    assert!(!cpu.ime);
    assert!(cpu.ime_pending);
}

#[test]
fn inc_dec_memory_operand() {
    // INC (HL) twice ; DEC B
    let (cpu, mem, cycles) = run_program(&[0x34, 0x34, 0x05], |c| {
        c.set_hl(0xC000);
        c.b = 0x10;
    });
    assert_eq!(cycles, vec![12, 12, 4]);
    assert_eq!(mem.read_byte(0xC000), 2);
    assert_eq!(cpu.b, 0x0F);
    assert_eq!(cpu.f, 0x70); // N and H set, carry from the boot value kept
}

#[test]
fn jr_backwards_and_conditional_return() {
    let mut cpu = Cpu::new();
    let mut mem = Memory::new();
    cpu.reset();
    // 0x0100: JR -2 (to itself)
    mem.data[0x0100] = 0x18;
    mem.data[0x0101] = 0xFE;
    assert_eq!(cpu.step(&mut mem), 12);
    assert_eq!(cpu.pc, 0x0100);
    // RET NC with C set (boot F has C) is not taken.
    mem.data[0x0100] = 0xD0;
    assert_eq!(cpu.step(&mut mem), 8);
    assert_eq!(cpu.pc, 0x0101);
}

#[test]
fn io_page_and_indirect_loads() {
    // LD A,0x5A ; LDH (0x80),A ; LD A,0 ; LDH A,(0x80) ; LD BC,0xC000 ; LD (BC),A ; POP DE (SP=0xC000)
    let (cpu, mem, cycles) = run_program(
        &[0x3E, 0x5A, 0xE0, 0x80, 0x3E, 0x00, 0xF0, 0x80, 0x01, 0x00, 0xC0, 0x02, 0xD1],
        |c| c.sp = 0xC000,
    );
    assert_eq!(cycles, vec![8, 12, 8, 12, 12, 8, 12]);
    assert_eq!(mem.read_byte(0xFF80), 0x5A);
    assert_eq!(mem.read_byte(0xC000), 0x5A);
    assert_eq!(cpu.de(), 0x005A);
    assert_eq!(cpu.sp, 0xC002);
}

#[test]
fn add_sp_and_ld_hl_sp_offset() {
    // ADD SP,-1 ; LD HL,SP+2 with SP = 0x0100
    let (cpu, _, cycles) = run_program(&[0xE8, 0xFF, 0xF8, 0x02], |c| c.sp = 0x0100);
    assert_eq!(cycles, vec![16, 12]);
    assert_eq!(cpu.sp, 0x00FF);
    assert_eq!(cpu.hl(), 0x0101);
}

#[test]
fn push_rst_and_reti() {
    // PUSH BC ; RST 0x08 is taken from 0x0101, so check the stack after both.
    let mut cpu = Cpu::new();
    let mut mem = Memory::new();
    cpu.reset();
    cpu.sp = 0xD000;
    cpu.set_bc(0xBEEF);
    mem.data[0x0100] = 0xC5;
    mem.data[0x0101] = 0xCF;
    mem.data[0x0008] = 0xD9;
    assert_eq!(cpu.step(&mut mem), 16);
    assert_eq!(mem.read_byte(0xCFFF), 0xBE);
    assert_eq!(mem.read_byte(0xCFFE), 0xEF);
    assert_eq!(cpu.step(&mut mem), 16);
    assert_eq!(cpu.pc, 0x0008);
    assert_eq!(cpu.step(&mut mem), 16);
    assert_eq!(cpu.pc, 0x0102);
    assert!(cpu.ime);
    assert_eq!(cpu.sp, 0xCFFE);
}
