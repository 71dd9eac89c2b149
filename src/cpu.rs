//! The Sharp LR35902 processor: registers, the ALU, and the instruction set.
use vstd::prelude::*;
use crate::memory::Memory;

verus! {

pub const FLAG_Z: u8 = 0x80;
pub const FLAG_N: u8 = 0x40;
pub const FLAG_H: u8 = 0x20;
pub const FLAG_C: u8 = 0x10;

pub open spec fn z_of(f: u8) -> bool {
    f & 0x80 != 0
}

pub open spec fn n_of(f: u8) -> bool {
    f & 0x40 != 0
}

pub open spec fn h_of(f: u8) -> bool {
    f & 0x20 != 0
}

pub open spec fn c_of(f: u8) -> bool {
    f & 0x10 != 0
}

/// The carry flag as a number.
pub open spec fn carry_in(f: u8) -> u8 {
    if c_of(f) {
        1
    } else {
        0
    }
}

/// The F register holding the four given flags; its low nibble is zero.
pub open spec fn flags_byte(z: bool, n: bool, h: bool, c: bool) -> u8 {
    ((if z { 0x80u8 } else { 0u8 }) | (if n { 0x40u8 } else { 0u8 })) | ((if h { 0x20u8 } else { 0u8 }) | (if c {
        0x10u8
    } else {
        0u8
    }))
}

pub proof fn lemma_flags_byte(z: bool, n: bool, h: bool, c: bool)
    by (bit_vector)
    ensures
        z_of(flags_byte(z, n, h, c)) == z,
        n_of(flags_byte(z, n, h, c)) == n,
        h_of(flags_byte(z, n, h, c)) == h,
        c_of(flags_byte(z, n, h, c)) == c,
        flags_byte(z, n, h, c) & 0x0F == 0,
{
}

pub proof fn lemma_constant_flags()
    by (bit_vector)
    ensures
        0u8 & 0x0F == 0,
        0xB0u8 & 0x0F == 0,
        forall|x: u8| #![trigger (x & 0xF0)] (x & 0xF0) & 0x0F == 0,
{
}

pub proof fn lemma_bit_bounds()
    by (bit_vector)
    ensures
        forall|x: u8| #![trigger (x & 7)] (x & 7) < 8,
        forall|x: u8| #![trigger (x >> 3u8)] (x >> 3u8) & 7 < 8 && (x < 0x40 ==> (x >> 3u8) < 8),
        forall|x: u16| #![trigger (x & 0x0F)] (x & 0x0F) <= 0x0F,
        forall|x: u16| #![trigger (x & 0xFF)] (x & 0xFF) <= 0xFF,
{
}

/// An offset byte sign-extended to sixteen bits.
pub open spec fn sign_extend(v: i8) -> u16 {
    ((v as int + 0x10000) % 0x10000) as u16
}

/// A 16-bit register pair from its high and low halves.
pub open spec fn pair(hi: u8, lo: u8) -> u16 {
    ((hi as u16) << 8u16) | (lo as u16)
}

pub proof fn lemma_pair_bytes()
    by (bit_vector)
    ensures
        forall|hi: u8, lo: u8| #![trigger pair(hi, lo)] ((pair(hi, lo) >> 8u16) as u8) == hi && (pair(hi, lo) as u8) == lo,
        forall|v: u16| #![trigger (v & 0xF0)] ((v & 0xF0) as u8) == (v as u8) & 0xF0 && ((v as u8) & 0xF0) & 0x0F == 0,
{
}

/// `x + k` on sixteen bits, wrapping around.
pub open spec fn add16(x: u16, k: int) -> u16 {
    ((x as int + k) % 0x10000) as u16
}

pub open spec fn add8(a: u8, v: u8, cin: u8) -> u8 {
    ((a as int + v as int + cin as int) % 256) as u8
}

pub open spec fn sub8(a: u8, v: u8, cin: u8) -> u8 {
    ((a as int - v as int - cin as int + 512) % 256) as u8
}

/// A and F after the 8-bit ALU operation numbered `op` (ADD, ADC, SUB, SBC, AND, XOR, OR, CP)
/// applied to A and the operand `v`.
pub open spec fn alu_spec(op: u8, a: u8, f: u8, v: u8) -> (u8, u8) {
    let c = carry_in(f);
    if op == 0 {
        let r = add8(a, v, 0);
        (r, flags_byte(r == 0, false, (a & 0x0F) + (v & 0x0F) > 0x0F, a + v > 0xFF))
    } else if op == 1 {
        let r = add8(a, v, c);
        (r, flags_byte(r == 0, false, (a & 0x0F) + (v & 0x0F) + c > 0x0F, a + v + c > 0xFF))
    } else if op == 2 {
        let r = sub8(a, v, 0);
        (r, flags_byte(r == 0, true, (a & 0x0F) < (v & 0x0F), a < v))
    } else if op == 3 {
        let r = sub8(a, v, c);
        (r, flags_byte(r == 0, true, (a & 0x0F) < (v & 0x0F) + c, a < v + c))
    } else if op == 4 {
        (a & v, flags_byte(a & v == 0, false, true, false))
    } else if op == 5 {
        (a ^ v, flags_byte(a ^ v == 0, false, false, false))
    } else if op == 6 {
        (a | v, flags_byte(a | v == 0, false, false, false))
    } else {
        (a, flags_byte(a == v, true, (a & 0x0F) < (v & 0x0F), a < v))
    }
}

/// Result and carry-out of the rotate/shift numbered `op` (RLC, RRC, RL, RR, SLA, SRA, SWAP, SRL).
pub open spec fn shift_spec(op: u8, v: u8, f: u8) -> (u8, bool) {
    if op == 0 {
        ((v << 1u8) | (v >> 7u8), v >> 7u8 != 0)
    } else if op == 1 {
        ((v >> 1u8) | (v << 7u8), v & 1 != 0)
    } else if op == 2 {
        ((v << 1u8) | carry_in(f), v >> 7u8 != 0)
    } else if op == 3 {
        ((v >> 1u8) | (carry_in(f) << 7u8), v & 1 != 0)
    } else if op == 4 {
        (v << 1u8, v >> 7u8 != 0)
    } else if op == 5 {
        ((v >> 1u8) | (v & 0x80), v & 1 != 0)
    } else if op == 6 {
        (swap_nibbles(v), false)
    } else {
        (v >> 1u8, v & 1 != 0)
    }
}

pub open spec fn swap_nibbles(v: u8) -> u8 {
    (v >> 4u8) | (v << 4u8)
}

/// Swapping the nibbles twice gives the byte back, and the result is zero exactly when the
/// byte is.
pub proof fn lemma_swap_involution(v: u8)
    by (bit_vector)
    ensures
        swap_nibbles(swap_nibbles(v)) == v,
        (swap_nibbles(v) == 0) == (v == 0),
{
}

/// Operand byte and F after the CB-prefixed operation `op` on the operand `v`.
pub open spec fn cb_spec(op: u8, v: u8, f: u8) -> (u8, u8) {
    let bit = (op >> 3u8) & 7;
    if op < 0x40 {
        let (r, carry) = shift_spec(op >> 3u8, v, f);
        (r, flags_byte(r == 0, false, false, carry))
    } else if op < 0x80 {
        (v, flags_byte(v & (1u8 << bit) == 0, false, true, c_of(f)))
    } else if op < 0xC0 {
        (v & !(1u8 << bit), f)
    } else {
        (v | (1u8 << bit), f)
    }
}

/// The opcodes that the processor does not define.
pub open spec fn is_illegal(op: u8) -> bool {
    op == 0xD3 || op == 0xDB || op == 0xDD || op == 0xE3 || op == 0xE4 || op == 0xEB || op == 0xEC
        || op == 0xED || op == 0xF4 || op == 0xFC || op == 0xFD
}

/// An offset byte read as a signed number.
pub fn signed_offset(b: u8) -> (r: i8)
    ensures
        r as int == (if b < 128 { b as int } else { b - 256 }),
{
    if b < 128 {
        b as i8
    } else {
        (b as i16 - 256) as i8
    }
}

pub fn is_illegal_opcode(op: u8) -> (r: bool)
    ensures
        r == is_illegal(op),
{
    op == 0xD3 || op == 0xDB || op == 0xDD || op == 0xE3 || op == 0xE4 || op == 0xEB || op == 0xEC
        || op == 0xED || op == 0xF4 || op == 0xFC || op == 0xFD
}

/// T-cycle counts that one step can take.
pub open spec fn valid_cycles(r: u32) -> bool {
    r == 4 || r == 8 || r == 12 || r == 16 || r == 20 || r == 24
}

/// A and F after DAA.
pub open spec fn daa_spec(a: u8, f: u8) -> (u8, u8) {
    let lo = h_of(f) || (!n_of(f) && (a & 0x0F) > 9);
    let hi = c_of(f) || (!n_of(f) && a > 0x99);
    let adjust = (if lo { 0x06u8 } else { 0u8 }) | (if hi { 0x60u8 } else { 0u8 });
    let r = if n_of(f) { sub8(a, adjust, 0) } else { add8(a, adjust, 0) };
    (r, flags_byte(r == 0, n_of(f), false, hi))
}

/// Effect of a CB-prefixed instruction whose opcode byte follows at `c.pc`.
pub open spec fn cb_post(c: Cpu, m0: &Memory, post: Cpu, m: &Memory, r: u32) -> bool {
    let op = m0.read_spec(c.pc);
    let c1 = Cpu { pc: add16(c.pc, 1), ..c };
    let idx = op & 7;
    let res = cb_spec(op, c1.operand(m0, idx), c1.f);
    if 0x40 <= op < 0x80 {
        post == Cpu { f: res.1, ..c1 } && *m == *m0 && r == (if idx == 6 { 12u32 } else { 8u32 })
    } else {
        Cpu { f: res.1, ..c1 }.store_post(m0, idx, res.0, post, m) && r == (if idx == 6 { 16u32 } else { 8u32 })
    }
}

/// The condition of a conditional jump, call or return: NZ, Z, NC or C by bits 3-4.
pub open spec fn cond_holds(op: u8, f: u8) -> bool {
    if op == 0x20 || op == 0xC0 || op == 0xC2 || op == 0xC4 {
        !z_of(f)
    } else if op == 0x28 || op == 0xC8 || op == 0xCA || op == 0xCC {
        z_of(f)
    } else if op == 0x30 || op == 0xD0 || op == 0xD2 || op == 0xD4 {
        !c_of(f)
    } else {
        c_of(f)
    }
}

/// `pc` moved by the signed offset byte `off`.
pub open spec fn rel_target(pc: u16, off: u8) -> u16 {
    add16(pc, if off < 128 { off as int } else { off - 256 })
}

/// The register pair that opcode `op` (bits 4-5: BC, DE, HL, SP) names.
pub open spec fn rr_value(c: Cpu, op: u8) -> u16 {
    if op == 0x03 || op == 0x0B || op == 0x09 {
        pair(c.b, c.c)
    } else if op == 0x13 || op == 0x1B || op == 0x19 {
        pair(c.d, c.e)
    } else if op == 0x23 || op == 0x2B || op == 0x29 {
        pair(c.h, c.l)
    } else {
        c.sp
    }
}

/// The processor after INC rr (0x03, 0x13, 0x23, 0x33) or DEC rr (0x0B, 0x1B, 0x2B, 0x3B).
pub open spec fn pair_step_post(c: Cpu, op: u8) -> Cpu {
    let v = add16(rr_value(c, op), if op == 0x03 || op == 0x13 || op == 0x23 || op == 0x33 { 1 } else { -1 });
    if op == 0x03 || op == 0x0B {
        Cpu { b: (v >> 8u16) as u8, c: v as u8, ..c }
    } else if op == 0x13 || op == 0x1B {
        Cpu { d: (v >> 8u16) as u8, e: v as u8, ..c }
    } else if op == 0x23 || op == 0x2B {
        Cpu { h: (v >> 8u16) as u8, l: v as u8, ..c }
    } else {
        Cpu { sp: v, ..c }
    }
}

/// HL and F after ADD HL,`v`.
pub open spec fn add_hl_post(c: Cpu, v: u16) -> Cpu {
    let hl = pair(c.h, c.l);
    Cpu {
        h: (((hl as int + v as int) % 0x10000) as u16 >> 8u16) as u8,
        l: (((hl as int + v as int) % 0x10000) as u16) as u8,
        f: flags_byte(z_of(c.f), false, (hl & 0x0FFF) + (v & 0x0FFF) > 0x0FFF, hl + v > 0xFFFF),
        ..c
    }
}

/// HL moved by one after LD (HL+),A or LD A,(HL+) (0x22, 0x2A), or back by one otherwise.
pub open spec fn hl_step(c: Cpu, op: u8) -> Cpu {
    let v = add16(pair(c.h, c.l), if op == 0x22 || op == 0x2A { 1 } else { -1 });
    Cpu { h: (v >> 8u16) as u8, l: v as u8, ..c }
}

/// The processor after ADD SP,e8 / LD HL,SP+e8 with offset byte `b`: the sum goes to SP or HL.
pub open spec fn add_sp_post(c: Cpu, b: u8, to_hl: bool) -> Cpu {
    let e = if b < 128 { b as int } else { b - 256 };
    let sum = add16(c.sp, e);
    let f = flags_byte(
        false,
        false,
        (c.sp & 0x0F) + (sign_extend(e as i8) & 0x0F) > 0x0F,
        (c.sp & 0xFF) + (sign_extend(e as i8) & 0xFF) > 0xFF,
    );
    if to_hl {
        Cpu { h: (sum >> 8u16) as u8, l: sum as u8, f, ..c }
    } else {
        Cpu { sp: sum, f, ..c }
    }
}

/// Effect of executing opcode `op`, already fetched, with `c.pc` just past it.
#[verifier::opaque]
pub open spec fn exec_post(c: Cpu, m0: &Memory, op: u8, post: Cpu, m: &Memory, r: u32) -> bool {
    if op == 0x00 {
        post == c && *m == *m0 && r == 4
    } else if op == 0x76 {
        post == Cpu { halted: true, ..c } && *m == *m0 && r == 4
    } else if 0x40 <= op < 0x80 {
        let src = op & 7;
        let dst = (op >> 3u8) & 7;
        c.store_post(m0, dst, c.operand(m0, src), post, m) && r == (if src == 6 || dst == 6 { 8u32 } else { 4u32 })
    } else if 0x80 <= op < 0xC0 {
        let src = op & 7;
        let res = alu_spec((op >> 3u8) & 7, c.a, c.f, c.operand(m0, src));
        post == Cpu { a: res.0, f: res.1, ..c } && *m == *m0 && r == (if src == 6 { 8u32 } else { 4u32 })
    } else if op == 0xCB {
        cb_post(c, m0, post, m, r)
    } else if op == 0xF1 {
        post == Cpu {
            a: m0.read_spec(add16(c.sp, 1)),
            f: m0.read_spec(c.sp) & 0xF0,
            sp: add16(c.sp, 2),
            ..c
        } && *m == *m0 && r == 12
    } else if op == 0xC3 {
        post == Cpu { pc: pair(m0.read_spec(add16(c.pc, 1)), m0.read_spec(c.pc)), ..c } && *m == *m0 && r == 16
    } else if op == 0x01 {
        post == Cpu { b: m0.read_spec(add16(c.pc, 1)), c: m0.read_spec(c.pc), pc: add16(c.pc, 2), ..c } && *m == *m0
            && r == 12
    } else if op == 0x11 {
        post == Cpu { d: m0.read_spec(add16(c.pc, 1)), e: m0.read_spec(c.pc), pc: add16(c.pc, 2), ..c } && *m == *m0
            && r == 12
    } else if op == 0x21 {
        post == Cpu { h: m0.read_spec(add16(c.pc, 1)), l: m0.read_spec(c.pc), pc: add16(c.pc, 2), ..c } && *m == *m0
            && r == 12
    } else if op == 0x31 {
        post == Cpu { sp: pair(m0.read_spec(add16(c.pc, 1)), m0.read_spec(c.pc)), pc: add16(c.pc, 2), ..c } && *m
            == *m0 && r == 12
    } else if op == 0xC6 || op == 0xCE || op == 0xD6 || op == 0xDE || op == 0xE6 || op == 0xEE || op == 0xF6
        || op == 0xFE {
        let res = alu_spec((op >> 3u8) & 7, c.a, c.f, m0.read_spec(c.pc));
        post == Cpu { a: res.0, f: res.1, pc: add16(c.pc, 1), ..c } && *m == *m0 && r == 8
    } else if op == 0x18 || op == 0x20 || op == 0x28 || op == 0x30 || op == 0x38 {
        let taken = op == 0x18 || cond_holds(op, c.f);
        post == (if taken {
            Cpu { pc: rel_target(add16(c.pc, 1), m0.read_spec(c.pc)), ..c }
        } else {
            Cpu { pc: add16(c.pc, 1), ..c }
        }) && *m == *m0 && r == (if taken { 12u32 } else { 8u32 })
    } else if op == 0xC2 || op == 0xCA || op == 0xD2 || op == 0xDA {
        post == (if cond_holds(op, c.f) {
            Cpu { pc: pair(m0.read_spec(add16(c.pc, 1)), m0.read_spec(c.pc)), ..c }
        } else {
            Cpu { pc: add16(c.pc, 2), ..c }
        }) && *m == *m0 && r == (if cond_holds(op, c.f) { 16u32 } else { 12u32 })
    } else if op == 0xC0 || op == 0xC8 || op == 0xD0 || op == 0xD8 {
        post == (if cond_holds(op, c.f) {
            Cpu { pc: pair(m0.read_spec(add16(c.sp, 1)), m0.read_spec(c.sp)), sp: add16(c.sp, 2), ..c }
        } else {
            c
        }) && *m == *m0 && r == (if cond_holds(op, c.f) { 20u32 } else { 8u32 })
    } else if op == 0xC1 {
        post == Cpu { b: m0.read_spec(add16(c.sp, 1)), c: m0.read_spec(c.sp), sp: add16(c.sp, 2), ..c } && *m == *m0
            && r == 12
    } else if op == 0xD1 {
        post == Cpu { d: m0.read_spec(add16(c.sp, 1)), e: m0.read_spec(c.sp), sp: add16(c.sp, 2), ..c } && *m == *m0
            && r == 12
    } else if op == 0xE1 {
        post == Cpu { h: m0.read_spec(add16(c.sp, 1)), l: m0.read_spec(c.sp), sp: add16(c.sp, 2), ..c } && *m == *m0
            && r == 12
    } else if op == 0xE0 {
        post == Cpu { pc: add16(c.pc, 1), ..c } && m0.write_post(m, (0xFF00 + m0.read_spec(c.pc)) as u16, c.a) && r
            == 12
    } else if op == 0xF0 {
        post == Cpu { a: m0.read_spec((0xFF00 + m0.read_spec(c.pc)) as u16), pc: add16(c.pc, 1), ..c } && *m == *m0
            && r == 12
    } else if op == 0xE2 {
        post == c && m0.write_post(m, (0xFF00 + c.c) as u16, c.a) && r == 8
    } else if op == 0xF2 {
        post == Cpu { a: m0.read_spec((0xFF00 + c.c) as u16), ..c } && *m == *m0 && r == 8
    } else if op == 0x02 {
        post == c && m0.write_post(m, pair(c.b, c.c), c.a) && r == 8
    } else if op == 0x12 {
        post == c && m0.write_post(m, pair(c.d, c.e), c.a) && r == 8
    } else if op == 0x0A {
        post == Cpu { a: m0.read_spec(pair(c.b, c.c)), ..c } && *m == *m0 && r == 8
    } else if op == 0x1A {
        post == Cpu { a: m0.read_spec(pair(c.d, c.e)), ..c } && *m == *m0 && r == 8
    } else if op == 0xEA {
        post == Cpu { pc: add16(c.pc, 2), ..c } && m0.write_post(
            m,
            pair(m0.read_spec(add16(c.pc, 1)), m0.read_spec(c.pc)),
            c.a,
        ) && r == 16
    } else if op == 0xFA {
        post == Cpu { a: m0.read_spec(pair(m0.read_spec(add16(c.pc, 1)), m0.read_spec(c.pc))), pc: add16(c.pc, 2), ..c }
            && *m == *m0 && r == 16
    } else if op == 0x03 || op == 0x13 || op == 0x23 || op == 0x33 || op == 0x0B || op == 0x1B || op == 0x2B
        || op == 0x3B {
        post == pair_step_post(c, op) && *m == *m0 && r == 8
    } else if op == 0x09 || op == 0x19 || op == 0x29 || op == 0x39 {
        post == add_hl_post(c, rr_value(c, op)) && *m == *m0 && r == 8
    } else if op == 0x22 || op == 0x32 {
        post == hl_step(c, op) && m0.write_post(m, pair(c.h, c.l), c.a) && r == 8
    } else if op == 0x2A || op == 0x3A {
        post == Cpu { a: m0.read_spec(pair(c.h, c.l)), ..hl_step(c, op) } && *m == *m0 && r == 8
    } else if op == 0x08 {
        let target = pair(m0.read_spec(add16(c.pc, 1)), m0.read_spec(c.pc));
        post == Cpu { pc: add16(c.pc, 2), ..c } && r == 20 && exists|mid: Memory|
            #[trigger] m0.write_post(&mid, target, c.sp as u8) && mid.write_post(m, add16(target, 1), (c.sp >> 8u16) as u8)
    } else if op == 0x27 {
        post == Cpu { a: daa_spec(c.a, c.f).0, f: daa_spec(c.a, c.f).1, ..c } && *m == *m0 && r == 4
    } else if op == 0x07 || op == 0x0F || op == 0x17 || op == 0x1F {
        post == Cpu {
            a: shift_spec(op >> 3u8, c.a, c.f).0,
            f: flags_byte(false, false, false, shift_spec(op >> 3u8, c.a, c.f).1),
            ..c
        } && *m == *m0 && r == 4
    } else if op == 0xD9 {
        post == Cpu {
            pc: pair(m0.read_spec(add16(c.sp, 1)), m0.read_spec(c.sp)),
            sp: add16(c.sp, 2),
            ime: true,
            ..c
        } && *m == *m0 && r == 16
    } else if op == 0xC5 || op == 0xD5 || op == 0xE5 || op == 0xF5 {
        let v = if op == 0xC5 {
            pair(c.b, c.c)
        } else if op == 0xD5 {
            pair(c.d, c.e)
        } else if op == 0xE5 {
            pair(c.h, c.l)
        } else {
            pair(c.a, c.f)
        };
        post == Cpu { sp: add16(c.sp, -2), ..c } && push_post(m0, m, c.sp, v) && r == 16
    } else if op == 0xCD || op == 0xC4 || op == 0xCC || op == 0xD4 || op == 0xDC {
        if op == 0xCD || cond_holds(op, c.f) {
            post == Cpu {
                pc: pair(m0.read_spec(add16(c.pc, 1)), m0.read_spec(c.pc)),
                sp: add16(c.sp, -2),
                ..c
            } && push_post(m0, m, c.sp, add16(c.pc, 2)) && r == 24
        } else {
            post == Cpu { pc: add16(c.pc, 2), ..c } && *m == *m0 && r == 12
        }
    } else if op == 0xC7 || op == 0xCF || op == 0xD7 || op == 0xDF || op == 0xE7 || op == 0xEF || op == 0xF7
        || op == 0xFF {
        post == Cpu { pc: (op - 0xC7) as u16, sp: add16(c.sp, -2), ..c } && push_post(m0, m, c.sp, c.pc) && r == 16
    } else if op == 0xE8 || op == 0xF8 {
        post == Cpu { pc: add16(c.pc, 1), ..add_sp_post(c, m0.read_spec(c.pc), op == 0xF8) } && *m == *m0 && r == (
        if op == 0xE8 {
            16u32
        } else {
            12u32
        })
    } else if op == 0xF3 {
        post == Cpu { ime: false, ..c } && *m == *m0 && r == 4
    } else if op == 0xFB {
        post == Cpu { ime_pending: true, ..c } && *m == *m0 && r == 4
    } else if op == 0xC9 {
        post == Cpu { pc: pair(m0.read_spec(add16(c.sp, 1)), m0.read_spec(c.sp)), sp: add16(c.sp, 2), ..c } && *m
            == *m0 && r == 16
    } else if op == 0xE9 {
        post == Cpu { pc: pair(c.h, c.l), ..c } && *m == *m0 && r == 4
    } else if op == 0xF9 {
        post == Cpu { sp: pair(c.h, c.l), ..c } && *m == *m0 && r == 8
    } else if op == 0x10 {
        post == Cpu { pc: add16(c.pc, 1), stopped: true, ..c } && *m == *m0 && r == 4
    } else if op == 0x37 {
        post == Cpu { f: flags_byte(z_of(c.f), false, false, true), ..c } && *m == *m0 && r == 4
    } else if op == 0x3F {
        post == Cpu { f: flags_byte(z_of(c.f), false, false, !c_of(c.f)), ..c } && *m == *m0 && r == 4
    } else if op == 0x2F {
        post == Cpu { a: !c.a, f: flags_byte(z_of(c.f), true, true, c_of(c.f)), ..c } && *m == *m0 && r == 4
    } else if op == 0x06 || op == 0x0E || op == 0x16 || op == 0x1E || op == 0x26 || op == 0x2E || op == 0x36
        || op == 0x3E {
        let idx = (op >> 3u8) & 7;
        Cpu { pc: add16(c.pc, 1), ..c }.store_post(m0, idx, m0.read_spec(c.pc), post, m) && r == (if idx == 6 {
            12u32
        } else {
            8u32
        })
    } else if op == 0x04 || op == 0x0C || op == 0x14 || op == 0x1C || op == 0x24 || op == 0x2C || op == 0x34
        || op == 0x3C {
        let idx = (op >> 3u8) & 7;
        let v = c.operand(m0, idx);
        let res = add8(v, 1, 0);
        Cpu { f: flags_byte(res == 0, false, (v & 0x0F) + 1 > 0x0F, c_of(c.f)), ..c }.store_post(m0, idx, res, post, m)
            && r == (if idx == 6 { 12u32 } else { 4u32 })
    } else if op == 0x05 || op == 0x0D || op == 0x15 || op == 0x1D || op == 0x25 || op == 0x2D || op == 0x35
        || op == 0x3D {
        let idx = (op >> 3u8) & 7;
        let v = c.operand(m0, idx);
        let res = sub8(v, 1, 0);
        Cpu { f: flags_byte(res == 0, true, v & 0x0F == 0, c_of(c.f)), ..c }.store_post(m0, idx, res, post, m) && r
            == (if idx == 6 { 12u32 } else { 4u32 })
    } else {
        valid_cycles(r)
    }
}

/// Memory after pushing `val` with stack pointer `sp`: high byte at SP-1, then low byte at SP-2.
pub open spec fn push_post(m0: &Memory, m: &Memory, sp: u16, val: u16) -> bool {
    exists|mid: Memory|
        #[trigger] m0.write_post(&mid, add16(sp, -1), (val >> 8u16) as u8) && mid.write_post(m, add16(sp, -2), val as u8)
}

/// Executing POP AF, whatever the two stack bytes hold, leaves the low nibble of F zero:
/// F takes the byte at SP with that nibble cleared, A the byte at SP+1.
pub proof fn lemma_pop_af(c: Cpu, m0: &Memory, post: Cpu, m: &Memory, r: u32)
    requires
        exec_post(c, m0, 0xF1, post, m, r),
    ensures
        post.f & 0x0F == 0,
        post.f == m0.read_spec(c.sp) & 0xF0,
        post.a == m0.read_spec(add16(c.sp, 1)),
        post.sp == add16(c.sp, 2),
        post.pc == c.pc,
        r == 12,
{
    reveal(exec_post);
    lemma_constant_flags();
}

/// Effect of one step of the processor.
pub open spec fn step_post(c0: Cpu, m0: &Memory, post: Cpu, m: &Memory, r: u32) -> bool {
    if c0.fault.is_some() {
        post == c0 && *m == *m0 && r == 4
    } else {
        let c1 = c0.after_ei();
        let op = m0.read_spec(c1.pc);
        if c1.halted {
            post == c1 && *m == *m0 && r == 4
        } else if is_illegal(op) {
            post == Cpu { fault: Some(IllegalOpcode { pc: c1.pc, opcode: op }), ..c1 } && *m == *m0 && r == 4
        } else {
            exec_post(Cpu { pc: add16(c1.pc, 1), ..c1 }, m0, op, post, m, r)
        }
    }
}

/// Where execution stopped on an undefined opcode.
#[derive(Debug, Clone, Copy, PartialEq, Eq, Structural)]
pub struct IllegalOpcode {
    pub pc: u16,
    pub opcode: u8,
}

#[derive(Debug)]
pub struct Cpu {
    pub a: u8,
    pub f: u8,
    pub b: u8,
    pub c: u8,
    pub d: u8,
    pub e: u8,
    pub h: u8,
    pub l: u8,
    pub sp: u16,
    pub pc: u16,
    /// Interrupt master enable.
    pub ime: bool,
    /// EI takes effect after the next instruction.
    pub ime_pending: bool,
    pub halted: bool,
    pub stopped: bool,
    /// Set when an undefined opcode was fetched; the processor then stays stopped.
    pub fault: Option<IllegalOpcode>,
}

impl Cpu {
    /// The low nibble of F is always zero.
    pub open spec fn wf(&self) -> bool {
        self.f & 0x0F == 0
    }

    pub open spec fn hl_spec(&self) -> u16 {
        pair(self.h, self.l)
    }

    /// Register number `idx` (B, C, D, E, H, L, (HL), A) as an operand.
    pub open spec fn operand(&self, mem: &Memory, idx: u8) -> u8 {
        if idx == 0 {
            self.b
        } else if idx == 1 {
            self.c
        } else if idx == 2 {
            self.d
        } else if idx == 3 {
            self.e
        } else if idx == 4 {
            self.h
        } else if idx == 5 {
            self.l
        } else if idx == 6 {
            mem.read_spec(self.hl_spec())
        } else {
            self.a
        }
    }

    /// The processor with register number `idx` (not 6) set to `v`.
    pub open spec fn with_reg(self, idx: u8, v: u8) -> Cpu {
        if idx == 0 {
            Cpu { b: v, ..self }
        } else if idx == 1 {
            Cpu { c: v, ..self }
        } else if idx == 2 {
            Cpu { d: v, ..self }
        } else if idx == 3 {
            Cpu { e: v, ..self }
        } else if idx == 4 {
            Cpu { h: v, ..self }
        } else if idx == 5 {
            Cpu { l: v, ..self }
        } else {
            Cpu { a: v, ..self }
        }
    }

    /// Stores `v` into operand `idx`: a register, or memory at HL for 6.
    pub open spec fn store_post(self, m0: &Memory, idx: u8, v: u8, c: Cpu, m: &Memory) -> bool {
        if idx == 6 {
            c == self && m0.write_post(m, self.hl_spec(), v)
        } else {
            c == self.with_reg(idx, v) && *m == *m0
        }
    }

    /// The processor as a step sees it once a pending EI has taken effect.
    pub open spec fn after_ei(self) -> Cpu {
        if self.ime_pending {
            Cpu { ime: true, ime_pending: false, ..self }
        } else {
            self
        }
    }

    /// Creates a processor with every register zero.
    pub fn new() -> (r: Self)
        ensures
            r.wf(),
            r == (Cpu {
                a: 0,
                f: 0,
                b: 0,
                c: 0,
                d: 0,
                e: 0,
                h: 0,
                l: 0,
                sp: 0,
                pc: 0,
                ime: false,
                ime_pending: false,
                halted: false,
                stopped: false,
                fault: None,
            }),
    {
        let r = Cpu {
            a: 0,
            f: 0,
            b: 0,
            c: 0,
            d: 0,
            e: 0,
            h: 0,
            l: 0,
            sp: 0,
            pc: 0,
            ime: false,
            ime_pending: false,
            halted: false,
            stopped: false,
            fault: None,
        };
        proof {
            lemma_constant_flags();
        }
        r
    }

    /// Sets the registers to the values the boot ROM leaves behind.
    pub fn reset(&mut self)
        ensures
            final(self).wf(),
            *final(self) == (Cpu {
                a: 0x01,
                f: 0xB0,
                b: 0x00,
                c: 0x13,
                d: 0x00,
                e: 0xD8,
                h: 0x01,
                l: 0x4D,
                sp: 0xFFFE,
                pc: 0x0100,
                ime: false,
                ime_pending: false,
                halted: false,
                stopped: false,
                fault: None,
            }),
    {
        self.a = 0x01;
        self.f = 0xB0;
        self.b = 0x00;
        self.c = 0x13;
        self.d = 0x00;
        self.e = 0xD8;
        self.h = 0x01;
        self.l = 0x4D;
        self.sp = 0xFFFE;
        self.pc = 0x0100;
        self.ime = false;
        self.ime_pending = false;
        self.halted = false;
        self.stopped = false;
        self.fault = None;
        proof {
            lemma_constant_flags();
        }
    }

    fn flag_z(&self) -> (r: bool)
        ensures
            r == z_of(self.f),
    {
        self.f & FLAG_Z != 0
    }

    fn flag_n(&self) -> (r: bool)
        ensures
            r == n_of(self.f),
    {
        self.f & FLAG_N != 0
    }

    fn flag_h(&self) -> (r: bool)
        ensures
            r == h_of(self.f),
    {
        self.f & FLAG_H != 0
    }

    fn flag_c(&self) -> (r: bool)
        ensures
            r == c_of(self.f),
    {
        self.f & FLAG_C != 0
    }

    fn set_flags(&mut self, z: bool, n: bool, h: bool, c: bool)
        ensures
            *final(self) == (Cpu { f: flags_byte(z, n, h, c), ..*old(self) }),
            final(self).wf(),
    {
        self.f = ((if z { FLAG_Z } else { 0u8 }) | (if n { FLAG_N } else { 0u8 })) | ((if h { FLAG_H } else { 0u8 }) | (
        if c {
            FLAG_C
        } else {
            0u8
        }));
        proof {
            lemma_flags_byte(z, n, h, c);
        }
    }

    pub fn af(&self) -> (r: u16)
        ensures
            r == pair(self.a, self.f),
    {
        ((self.a as u16) << 8u16) | (self.f as u16)
    }

    /// Loads AF; the low nibble of F stays zero.
    pub fn set_af(&mut self, val: u16)
        ensures
            *final(self) == (Cpu { a: (val >> 8u16) as u8, f: (val as u8) & 0xF0, ..*old(self) }),
            final(self).wf(),
    {
        self.a = (val >> 8u16) as u8;
        self.f = (val & 0xF0) as u8;
        proof {
            lemma_pair_bytes();
            assert(((val & 0xF0) as u8) == (val as u8) & 0xF0);
        }
    }

    pub fn bc(&self) -> (r: u16)
        ensures
            r == pair(self.b, self.c),
    {
        ((self.b as u16) << 8u16) | (self.c as u16)
    }

    pub fn set_bc(&mut self, val: u16)
        ensures
            *final(self) == (Cpu { b: (val >> 8u16) as u8, c: val as u8, ..*old(self) }),
    {
        self.b = (val >> 8u16) as u8;
        self.c = val as u8;
    }

    pub fn de(&self) -> (r: u16)
        ensures
            r == pair(self.d, self.e),
    {
        ((self.d as u16) << 8u16) | (self.e as u16)
    }

    pub fn set_de(&mut self, val: u16)
        ensures
            *final(self) == (Cpu { d: (val >> 8u16) as u8, e: val as u8, ..*old(self) }),
    {
        self.d = (val >> 8u16) as u8;
        self.e = val as u8;
    }

    pub fn hl(&self) -> (r: u16)
        ensures
            r == pair(self.h, self.l),
    {
        ((self.h as u16) << 8u16) | (self.l as u16)
    }

    pub fn set_hl(&mut self, val: u16)
        ensures
            *final(self) == (Cpu { h: (val >> 8u16) as u8, l: val as u8, ..*old(self) }),
    {
        self.h = (val >> 8u16) as u8;
        self.l = val as u8;
    }

    /// The 8-bit ALU operation numbered `op` on A and `val`.
    pub fn alu(&mut self, op: u8, val: u8)
        requires
            op < 8,
        ensures
            *final(self) == (Cpu {
                a: alu_spec(op, old(self).a, old(self).f, val).0,
                f: alu_spec(op, old(self).a, old(self).f, val).1,
                ..*old(self)
            }),
            final(self).wf(),
    {
        proof {
            lemma_flags_byte(false, false, false, false);
        }
        if op == 0 {
            self.alu_add(val);
        } else if op == 1 {
            self.alu_adc(val);
        } else if op == 2 {
            self.alu_sub(val);
        } else if op == 3 {
            self.alu_sbc(val);
        } else if op == 4 {
            self.alu_and(val);
        } else if op == 5 {
            self.alu_xor(val);
        } else if op == 6 {
            self.alu_or(val);
        } else {
            self.alu_cp(val);
        }
    }

    pub fn alu_add(&mut self, val: u8)
        ensures
            *final(self) == (Cpu { a: alu_spec(0, old(self).a, old(self).f, val).0, f: alu_spec(0, old(self).a, old(self).f, val).1, ..*old(self) }),
            final(self).wf(),
            c_of(final(self).f) == (old(self).a + val > 0xFF),
            h_of(final(self).f) == ((old(self).a & 0x0F) + (val & 0x0F) > 0x0F),
    {
        let a = self.a;
        let result = a.wrapping_add(val);
        self.set_flags(result == 0, false, (a & 0x0F) as u16 + (val & 0x0F) as u16 > 0x0F, (a as u16) + (val as u16) > 0xFF);
        self.a = result;
        proof {
            lemma_flags_byte(result == 0, false, (a & 0x0F) + (val & 0x0F) > 0x0F, a + val > 0xFF);
        }
    }

    pub fn alu_adc(&mut self, val: u8)
        ensures
            *final(self) == (Cpu { a: alu_spec(1, old(self).a, old(self).f, val).0, f: alu_spec(1, old(self).a, old(self).f, val).1, ..*old(self) }),
            final(self).wf(),
    {
        let a = self.a;
        let c: u8 = if self.flag_c() { 1 } else { 0 };
        let result = a.wrapping_add(val).wrapping_add(c);
        self.set_flags(
            result == 0,
            false,
            (a & 0x0F) as u16 + (val & 0x0F) as u16 + c as u16 > 0x0F,
            (a as u16) + (val as u16) + (c as u16) > 0xFF,
        );
        self.a = result;
    }

    pub fn alu_sub(&mut self, val: u8)
        ensures
            *final(self) == (Cpu { a: alu_spec(2, old(self).a, old(self).f, val).0, f: alu_spec(2, old(self).a, old(self).f, val).1, ..*old(self) }),
            final(self).wf(),
            c_of(final(self).f) == (old(self).a < val),
            h_of(final(self).f) == ((old(self).a & 0x0F) < (val & 0x0F)),
    {
        let a = self.a;
        let result = a.wrapping_sub(val);
        self.set_flags(result == 0, true, (a & 0x0F) < (val & 0x0F), a < val);
        self.a = result;
        proof {
            lemma_flags_byte(result == 0, true, (a & 0x0F) < (val & 0x0F), a < val);
        }
    }

    pub fn alu_sbc(&mut self, val: u8)
        ensures
            *final(self) == (Cpu { a: alu_spec(3, old(self).a, old(self).f, val).0, f: alu_spec(3, old(self).a, old(self).f, val).1, ..*old(self) }),
            final(self).wf(),
    {
        let a = self.a;
        let c: u8 = if self.flag_c() { 1 } else { 0 };
        let result = a.wrapping_sub(val).wrapping_sub(c);
        self.set_flags(
            result == 0,
            true,
            ((a & 0x0F) as u16) < ((val & 0x0F) as u16) + (c as u16),
            (a as u16) < (val as u16) + (c as u16),
        );
        self.a = result;
    }

    pub fn alu_and(&mut self, val: u8)
        ensures
            *final(self) == (Cpu { a: alu_spec(4, old(self).a, old(self).f, val).0, f: alu_spec(4, old(self).a, old(self).f, val).1, ..*old(self) }),
            final(self).wf(),
    {
        self.a = self.a & val;
        let z = self.a == 0;
        self.set_flags(z, false, true, false);
    }

    pub fn alu_xor(&mut self, val: u8)
        ensures
            *final(self) == (Cpu { a: alu_spec(5, old(self).a, old(self).f, val).0, f: alu_spec(5, old(self).a, old(self).f, val).1, ..*old(self) }),
            final(self).wf(),
    {
        self.a = self.a ^ val;
        let z = self.a == 0;
        self.set_flags(z, false, false, false);
    }

    pub fn alu_or(&mut self, val: u8)
        ensures
            *final(self) == (Cpu { a: alu_spec(6, old(self).a, old(self).f, val).0, f: alu_spec(6, old(self).a, old(self).f, val).1, ..*old(self) }),
            final(self).wf(),
    {
        self.a = self.a | val;
        let z = self.a == 0;
        self.set_flags(z, false, false, false);
    }

    pub fn alu_cp(&mut self, val: u8)
        ensures
            *final(self) == (Cpu { a: alu_spec(7, old(self).a, old(self).f, val).0, f: alu_spec(7, old(self).a, old(self).f, val).1, ..*old(self) }),
            final(self).wf(),
    {
        let a = self.a;
        self.set_flags(a == val, true, (a & 0x0F) < (val & 0x0F), a < val);
    }

    fn read_byte(&self, memory: &Memory, addr: u16) -> (r: u8)
        requires
            memory.wf(),
        ensures
            r == memory.read_spec(addr),
    {
        memory.read_byte(addr)
    }

    fn write_byte(&self, memory: &mut Memory, addr: u16, val: u8)
        requires
            old(memory).wf(),
        ensures
            final(memory).wf(),
            old(memory).write_post(final(memory), addr, val),
    {
        memory.write_byte(addr, val);
    }

    fn fetch_byte(&mut self, memory: &Memory) -> (r: u8)
        requires
            memory.wf(),
        ensures
            r == memory.read_spec(old(self).pc),
            *final(self) == (Cpu { pc: add16(old(self).pc, 1), ..*old(self) }),
    {
        let val = memory.read_byte(self.pc);
        self.pc = self.pc.wrapping_add(1);
        val
    }

    /// Fetches a little-endian word.
    fn fetch_word(&mut self, memory: &Memory) -> (r: u16)
        requires
            memory.wf(),
        ensures
            r == pair(memory.read_spec(add16(old(self).pc, 1)), memory.read_spec(old(self).pc)),
            *final(self) == (Cpu { pc: add16(old(self).pc, 2), ..*old(self) }),
    {
        let lo = self.fetch_byte(memory);
        let hi = self.fetch_byte(memory);
        ((hi as u16) << 8u16) | (lo as u16)
    }

    /// Pushes a word: high byte at SP-1, then low byte at SP-2.
    pub(crate) fn push(&mut self, memory: &mut Memory, val: u16)
        requires
            old(memory).wf(),
        ensures
            final(memory).wf(),
            *final(self) == (Cpu { sp: add16(old(self).sp, -2), ..*old(self) }),
            push_post(old(memory), final(memory), old(self).sp, val),
    {
        self.sp = self.sp.wrapping_sub(1);
        memory.write_byte(self.sp, (val >> 8u16) as u8);
        let ghost mid: Memory = *memory;
        assert(self.sp == add16(old(self).sp, -1));
        assert(old(memory).write_post(&mid, add16(old(self).sp, -1), (val >> 8u16) as u8));
        self.sp = self.sp.wrapping_sub(1);
        memory.write_byte(self.sp, val as u8);
        assert(self.sp == add16(old(self).sp, -2));
        assert(mid.write_post(memory, add16(old(self).sp, -2), val as u8));
    }

    fn pop(&mut self, memory: &Memory) -> (r: u16)
        requires
            memory.wf(),
        ensures
            r == pair(memory.read_spec(add16(old(self).sp, 1)), memory.read_spec(old(self).sp)),
            *final(self) == (Cpu { sp: add16(old(self).sp, 2), ..*old(self) }),
    {
        let lo = memory.read_byte(self.sp);
        self.sp = self.sp.wrapping_add(1);
        let hi = memory.read_byte(self.sp);
        self.sp = self.sp.wrapping_add(1);
        ((hi as u16) << 8u16) | (lo as u16)
    }

    pub fn alu_inc(&mut self, val: u8) -> (r: u8)
        ensures
            r == add8(val, 1, 0),
            *final(self) == (Cpu { f: flags_byte(r == 0, false, (val & 0x0F) + 1 > 0x0F, c_of(old(self).f)), ..*old(self) }),
            final(self).wf(),
    {
        let result = val.wrapping_add(1);
        let c = self.flag_c();
        self.set_flags(result == 0, false, (val & 0x0F) as u16 + 1 > 0x0F, c);
        result
    }

    pub fn alu_dec(&mut self, val: u8) -> (r: u8)
        ensures
            r == sub8(val, 1, 0),
            *final(self) == (Cpu { f: flags_byte(r == 0, true, val & 0x0F == 0, c_of(old(self).f)), ..*old(self) }),
            final(self).wf(),
    {
        let result = val.wrapping_sub(1);
        let c = self.flag_c();
        self.set_flags(result == 0, true, (val & 0x0F) == 0, c);
        result
    }

    pub fn alu_add_hl(&mut self, val: u16)
        ensures
            *final(self) == (Cpu {
                h: (((pair(old(self).h, old(self).l) as int + val as int) % 0x10000) as u16 >> 8u16) as u8,
                l: (((pair(old(self).h, old(self).l) as int + val as int) % 0x10000) as u16) as u8,
                f: flags_byte(
                    z_of(old(self).f),
                    false,
                    (pair(old(self).h, old(self).l) & 0x0FFF) + (val & 0x0FFF) > 0x0FFF,
                    pair(old(self).h, old(self).l) + val > 0xFFFF,
                ),
                ..*old(self)
            }),
            final(self).wf(),
    {
        let hl = self.hl();
        let result = hl.wrapping_add(val);
        let z = self.flag_z();
        self.set_flags(z, false, (hl & 0x0FFF) as u32 + (val & 0x0FFF) as u32 > 0x0FFF, hl as u32 + val as u32 > 0xFFFF);
        self.set_hl(result);
    }

    /// SP plus a signed offset, with the flags ADD SP,e8 sets.
    pub fn alu_add_sp(&mut self, val: i8) -> (r: u16)
        ensures
            r == add16(old(self).sp, val as int),
            *final(self) == (Cpu {
                f: flags_byte(
                    false,
                    false,
                    (old(self).sp & 0x0F) + (sign_extend(val) & 0x0F) > 0x0F,
                    (old(self).sp & 0xFF) + (sign_extend(val) & 0xFF) > 0xFF,
                ),
                ..*old(self)
            }),
            final(self).wf(),
    {
        let sp = self.sp;
        let val_u: u16 = if val < 0 { (val as i32 + 0x10000) as u16 } else { val as u16 };
        let result = sp.wrapping_add_signed(val as i16);
        proof {
            lemma_bit_bounds();
        }
        self.set_flags(
            false,
            false,
            (sp & 0x0F) as u32 + (val_u & 0x0F) as u32 > 0x0F,
            (sp & 0xFF) as u32 + (val_u & 0xFF) as u32 > 0xFF,
        );
        result
    }

    pub fn alu_rlc(&mut self, val: u8) -> (r: u8)
        ensures
            r == shift_spec(0, val, old(self).f).0,
            *final(self) == (Cpu { f: flags_byte(r == 0, false, false, shift_spec(0, val, old(self).f).1), ..*old(self) }),
            final(self).wf(),
    {
        let carry = val >> 7u8;
        let result = (val << 1u8) | carry;
        self.set_flags(result == 0, false, false, carry != 0);
        result
    }

    pub fn alu_rrc(&mut self, val: u8) -> (r: u8)
        ensures
            r == shift_spec(1, val, old(self).f).0,
            *final(self) == (Cpu { f: flags_byte(r == 0, false, false, shift_spec(1, val, old(self).f).1), ..*old(self) }),
            final(self).wf(),
    {
        let carry = val & 1;
        let result = (val >> 1u8) | (val << 7u8);
        self.set_flags(result == 0, false, false, carry != 0);
        result
    }

    pub fn alu_rl(&mut self, val: u8) -> (r: u8)
        ensures
            r == shift_spec(2, val, old(self).f).0,
            *final(self) == (Cpu { f: flags_byte(r == 0, false, false, shift_spec(2, val, old(self).f).1), ..*old(self) }),
            final(self).wf(),
    {
        let old_carry: u8 = if self.flag_c() { 1 } else { 0 };
        let new_carry = val >> 7u8;
        let result = (val << 1u8) | old_carry;
        self.set_flags(result == 0, false, false, new_carry != 0);
        result
    }

    pub fn alu_rr(&mut self, val: u8) -> (r: u8)
        ensures
            r == shift_spec(3, val, old(self).f).0,
            *final(self) == (Cpu { f: flags_byte(r == 0, false, false, shift_spec(3, val, old(self).f).1), ..*old(self) }),
            final(self).wf(),
    {
        let old_carry: u8 = if self.flag_c() { 1 } else { 0 };
        let new_carry = val & 1;
        let result = (val >> 1u8) | (old_carry << 7u8);
        self.set_flags(result == 0, false, false, new_carry != 0);
        result
    }

    pub fn alu_sla(&mut self, val: u8) -> (r: u8)
        ensures
            r == shift_spec(4, val, old(self).f).0,
            *final(self) == (Cpu { f: flags_byte(r == 0, false, false, shift_spec(4, val, old(self).f).1), ..*old(self) }),
            final(self).wf(),
    {
        let carry = val >> 7u8;
        let result = val << 1u8;
        self.set_flags(result == 0, false, false, carry != 0);
        result
    }

    pub fn alu_sra(&mut self, val: u8) -> (r: u8)
        ensures
            r == shift_spec(5, val, old(self).f).0,
            *final(self) == (Cpu { f: flags_byte(r == 0, false, false, shift_spec(5, val, old(self).f).1), ..*old(self) }),
            final(self).wf(),
    {
        let carry = val & 1;
        let result = (val >> 1u8) | (val & 0x80);
        self.set_flags(result == 0, false, false, carry != 0);
        result
    }

    /// Swaps the nibbles; Z is set exactly when the operand is zero, the other flags cleared.
    pub fn alu_swap(&mut self, val: u8) -> (r: u8)
        ensures
            r == swap_nibbles(val),
            *final(self) == (Cpu { f: flags_byte(val == 0, false, false, false), ..*old(self) }),
            final(self).wf(),
    {
        let result = (val >> 4u8) | (val << 4u8);
        self.set_flags(result == 0, false, false, false);
        proof {
            lemma_swap_involution(val);
        }
        result
    }

    pub fn alu_srl(&mut self, val: u8) -> (r: u8)
        ensures
            r == shift_spec(7, val, old(self).f).0,
            *final(self) == (Cpu { f: flags_byte(r == 0, false, false, shift_spec(7, val, old(self).f).1), ..*old(self) }),
            final(self).wf(),
    {
        let carry = val & 1;
        let result = val >> 1u8;
        self.set_flags(result == 0, false, false, carry != 0);
        result
    }

    /// The rotate/shift numbered `op` (RLC, RRC, RL, RR, SLA, SRA, SWAP, SRL).
    fn shift(&mut self, op: u8, val: u8) -> (r: u8)
        requires
            op < 8,
        ensures
            r == shift_spec(op, val, old(self).f).0,
            *final(self) == (Cpu { f: flags_byte(r == 0, false, false, shift_spec(op, val, old(self).f).1), ..*old(self) }),
            final(self).wf(),
    {
        if op == 0 {
            self.alu_rlc(val)
        } else if op == 1 {
            self.alu_rrc(val)
        } else if op == 2 {
            self.alu_rl(val)
        } else if op == 3 {
            self.alu_rr(val)
        } else if op == 4 {
            self.alu_sla(val)
        } else if op == 5 {
            self.alu_sra(val)
        } else if op == 6 {
            let r = self.alu_swap(val);
            proof {
                lemma_swap_involution(val);
            }
            r
        } else {
            self.alu_srl(val)
        }
    }

    /// BIT b: Z is set when bit `bit` of the operand is clear; N cleared, H set, C kept.
    pub fn alu_bit(&mut self, bit: u8, val: u8)
        requires
            bit < 8,
        ensures
            *final(self) == (Cpu { f: flags_byte(val & (1u8 << bit) == 0, false, true, c_of(old(self).f)), ..*old(self) }),
            final(self).wf(),
    {
        let result = val & (1u8 << bit);
        let c = self.flag_c();
        self.set_flags(result == 0, false, true, c);
    }

    pub fn alu_res(&self, bit: u8, val: u8) -> (r: u8)
        requires
            bit < 8,
        ensures
            r == val & !(1u8 << bit),
    {
        val & !(1u8 << bit)
    }

    pub fn alu_set(&self, bit: u8, val: u8) -> (r: u8)
        requires
            bit < 8,
        ensures
            r == val | (1u8 << bit),
    {
        val | (1u8 << bit)
    }

    /// Decimal adjust of A after a BCD addition or subtraction.
    pub fn alu_daa(&mut self)
        ensures
            *final(self) == (Cpu { a: daa_spec(old(self).a, old(self).f).0, f: daa_spec(old(self).a, old(self).f).1, ..*old(self) }),
            final(self).wf(),
    {
        let a = self.a;
        let n = self.flag_n();
        let lo = self.flag_h() || (!n && (a & 0x0F) > 9);
        let hi = self.flag_c() || (!n && a > 0x99);
        let adjust: u8 = (if lo { 0x06u8 } else { 0u8 }) | (if hi { 0x60u8 } else { 0u8 });
        let r = if n { a.wrapping_sub(adjust) } else { a.wrapping_add(adjust) };
        self.set_flags(r == 0, n, false, hi);
        self.a = r;
    }

    /// Operand number `idx`: B, C, D, E, H, L, (HL), A.
    fn get_reg(&self, memory: &Memory, idx: u8) -> (r: u8)
        requires
            memory.wf(),
            idx < 8,
        ensures
            r == self.operand(memory, idx),
    {
        match idx {
            0 => self.b,
            1 => self.c,
            2 => self.d,
            3 => self.e,
            4 => self.h,
            5 => self.l,
            6 => memory.read_byte(self.hl()),
            _ => self.a,
        }
    }

    fn set_reg(&mut self, memory: &mut Memory, idx: u8, val: u8)
        requires
            old(memory).wf(),
            idx < 8,
        ensures
            final(memory).wf(),
            old(self).store_post(old(memory), idx, val, *final(self), final(memory)),
    {
        match idx {
            0 => self.b = val,
            1 => self.c = val,
            2 => self.d = val,
            3 => self.e = val,
            4 => self.h = val,
            5 => self.l = val,
            6 => {
                let addr = self.hl();
                memory.write_byte(addr, val);
            },
            _ => self.a = val,
        }
    }

    /// Executes a CB-prefixed instruction.
    fn execute_cb(&mut self, memory: &mut Memory) -> (r: u32)
        requires
            old(self).wf(),
            old(memory).wf(),
        ensures
            final(self).wf(),
            final(memory).wf(),
            cb_post(*old(self), old(memory), *final(self), final(memory), r),
    {
        let opcode = self.fetch_byte(memory);
        proof {
            lemma_bit_bounds();
        }
        let idx = opcode & 0x07;
        let is_hl = idx == 6;
        let val = self.get_reg(memory, idx);
        let bit = (opcode >> 3u8) & 0x07;
        if opcode < 0x40 {
            let result = self.shift(opcode >> 3u8, val);
            self.set_reg(memory, idx, result);
            if is_hl { 16 } else { 8 }
        } else if opcode < 0x80 {
            self.alu_bit(bit, val);
            if is_hl { 12 } else { 8 }
        } else if opcode < 0xC0 {
            let result = self.alu_res(bit, val);
            self.set_reg(memory, idx, result);
            if is_hl { 16 } else { 8 }
        } else {
            let result = self.alu_set(bit, val);
            self.set_reg(memory, idx, result);
            if is_hl { 16 } else { 8 }
        }
    }

    /// JR: adds the signed offset that follows when `cond` holds.
    fn jr(&mut self, memory: &Memory, cond: bool) -> (r: u32)
        requires
            memory.wf(),
            old(self).wf(),
        ensures
            final(self).wf(),
            *final(self) == (if cond {
                Cpu { pc: rel_target(add16(old(self).pc, 1), memory.read_spec(old(self).pc)), ..*old(self) }
            } else {
                Cpu { pc: add16(old(self).pc, 1), ..*old(self) }
            }),
            r == (if cond { 12u32 } else { 8u32 }),
    {
        let offset = self.fetch_byte(memory);
        if cond {
            self.pc = if offset < 128 {
                self.pc.wrapping_add(offset as u16)
            } else {
                self.pc.wrapping_sub(256 - offset as u16)
            };
            12
        } else {
            8
        }
    }

    /// JP: jumps to the address that follows when `cond` holds.
    fn jp(&mut self, memory: &Memory, cond: bool) -> (r: u32)
        requires
            memory.wf(),
            old(self).wf(),
        ensures
            final(self).wf(),
            cond ==> *final(self) == (Cpu {
                pc: pair(memory.read_spec(add16(old(self).pc, 1)), memory.read_spec(old(self).pc)),
                ..*old(self)
            }),
            !cond ==> *final(self) == (Cpu { pc: add16(old(self).pc, 2), ..*old(self) }),
            r == (if cond { 16u32 } else { 12u32 }),
    {
        let addr = self.fetch_word(memory);
        if cond {
            self.pc = addr;
            16
        } else {
            12
        }
    }

    /// CALL: pushes the return address and jumps when `cond` holds.
    fn call(&mut self, memory: &mut Memory, cond: bool) -> (r: u32)
        requires
            old(memory).wf(),
            old(self).wf(),
        ensures
            final(self).wf(),
            final(memory).wf(),
            cond ==> *final(self) == (Cpu {
                pc: pair(old(memory).read_spec(add16(old(self).pc, 1)), old(memory).read_spec(old(self).pc)),
                sp: add16(old(self).sp, -2),
                ..*old(self)
            }) && push_post(old(memory), final(memory), old(self).sp, add16(old(self).pc, 2)),
            !cond ==> *final(self) == (Cpu { pc: add16(old(self).pc, 2), ..*old(self) }) && *final(memory)
                == *old(memory),
            r == (if cond { 24u32 } else { 12u32 }),
    {
        let addr = self.fetch_word(memory);
        if cond {
            let ret = self.pc;
            self.push(memory, ret);
            self.pc = addr;
            24
        } else {
            12
        }
    }

    /// RET: pops the program counter when `cond` holds.
    fn ret(&mut self, memory: &Memory, cond: bool) -> (r: u32)
        requires
            memory.wf(),
            old(self).wf(),
        ensures
            final(self).wf(),
            cond ==> *final(self) == (Cpu {
                pc: pair(memory.read_spec(add16(old(self).sp, 1)), memory.read_spec(old(self).sp)),
                sp: add16(old(self).sp, 2),
                ..*old(self)
            }),
            !cond ==> *final(self) == *old(self),
            r == (if cond { 20u32 } else { 8u32 }),
    {
        if cond {
            self.pc = self.pop(memory);
            20
        } else {
            8
        }
    }

    /// RST: calls a fixed vector.
    fn rst(&mut self, memory: &mut Memory, vector: u16) -> (r: u32)
        requires
            old(memory).wf(),
            old(self).wf(),
        ensures
            final(self).wf(),
            final(memory).wf(),
            *final(self) == (Cpu { pc: vector, sp: add16(old(self).sp, -2), ..*old(self) }),
            push_post(old(memory), final(memory), old(self).sp, old(self).pc),
            r == 16,
    {
        let ret = self.pc;
        self.push(memory, ret);
        self.pc = vector;
        16
    }

    /// INC rr or DEC rr.
    fn pair_step(&mut self, opcode: u8)
        requires
            opcode == 0x03 || opcode == 0x13 || opcode == 0x23 || opcode == 0x33 || opcode == 0x0B || opcode == 0x1B
                || opcode == 0x2B || opcode == 0x3B,
        ensures
            *final(self) == pair_step_post(*old(self), opcode),
    {
        match opcode {
            0x03 => {
                let v = self.bc();
                self.set_bc(v.wrapping_add(1));
            },
            0x13 => {
                let v = self.de();
                self.set_de(v.wrapping_add(1));
            },
            0x23 => {
                let v = self.hl();
                self.set_hl(v.wrapping_add(1));
            },
            0x33 => {
                self.sp = self.sp.wrapping_add(1);
            },
            0x0B => {
                let v = self.bc();
                self.set_bc(v.wrapping_sub(1));
            },
            0x1B => {
                let v = self.de();
                self.set_de(v.wrapping_sub(1));
            },
            0x2B => {
                let v = self.hl();
                self.set_hl(v.wrapping_sub(1));
            },
            _ => {
                self.sp = self.sp.wrapping_sub(1);
            },
        }
    }

    /// ADD HL,rr.
    fn add_hl_op(&mut self, opcode: u8)
        requires
            opcode == 0x09 || opcode == 0x19 || opcode == 0x29 || opcode == 0x39,
        ensures
            *final(self) == add_hl_post(*old(self), rr_value(*old(self), opcode)),
            final(self).wf(),
    {
        let v = if opcode == 0x09 {
            self.bc()
        } else if opcode == 0x19 {
            self.de()
        } else if opcode == 0x29 {
            self.hl()
        } else {
            self.sp
        };
        self.alu_add_hl(v);
    }

    /// RLCA, RRCA, RLA, RRA: as the CB rotates of A, but Z is always cleared.
    fn rotate_a(&mut self, opcode: u8)
        requires
            opcode == 0x07 || opcode == 0x0F || opcode == 0x17 || opcode == 0x1F,
        ensures
            *final(self) == (Cpu {
                a: shift_spec(opcode >> 3u8, old(self).a, old(self).f).0,
                f: flags_byte(false, false, false, shift_spec(opcode >> 3u8, old(self).a, old(self).f).1),
                ..*old(self)
            }),
            final(self).wf(),
    {
        proof {
            lemma_bit_bounds();
        }
        let a = self.a;
        let res = self.shift(opcode >> 3u8, a);
        proof {
            lemma_flags_byte(res == 0, false, false, shift_spec(opcode >> 3u8, a, old(self).f).1);
        }
        let c = self.flag_c();
        self.a = res;
        self.set_flags(false, false, false, c);
    }

    /// LD (HL+),A, LD (HL-),A, LD A,(HL+), LD A,(HL-).
    fn ld_hl_step(&mut self, memory: &mut Memory, opcode: u8) -> (r: u32)
        requires
            old(memory).wf(),
            opcode == 0x22 || opcode == 0x32 || opcode == 0x2A || opcode == 0x3A,
        ensures
            final(memory).wf(),
            r == 8,
            opcode == 0x22 || opcode == 0x32 ==> *final(self) == hl_step(*old(self), opcode) && old(memory).write_post(
                final(memory),
                pair(old(self).h, old(self).l),
                old(self).a,
            ),
            opcode == 0x2A || opcode == 0x3A ==> *final(self) == (Cpu {
                a: old(memory).read_spec(pair(old(self).h, old(self).l)),
                ..hl_step(*old(self), opcode)
            }) && *final(memory) == *old(memory),
    {
        let addr = self.hl();
        if opcode == 0x22 || opcode == 0x32 {
            memory.write_byte(addr, self.a);
        } else {
            self.a = memory.read_byte(addr);
        }
        if opcode == 0x22 || opcode == 0x2A {
            self.set_hl(addr.wrapping_add(1));
        } else {
            self.set_hl(addr.wrapping_sub(1));
        }
        8
    }

    /// LD (a16),SP: the low byte of SP at the address that follows, the high byte after it.
    fn store_sp(&mut self, memory: &mut Memory) -> (r: u32)
        requires
            old(memory).wf(),
        ensures
            final(memory).wf(),
            r == 20,
            *final(self) == (Cpu { pc: add16(old(self).pc, 2), ..*old(self) }),
            exists|mid: Memory|
                #[trigger] old(memory).write_post(
                    &mid,
                    pair(old(memory).read_spec(add16(old(self).pc, 1)), old(memory).read_spec(old(self).pc)),
                    old(self).sp as u8,
                ) && mid.write_post(
                    final(memory),
                    add16(pair(old(memory).read_spec(add16(old(self).pc, 1)), old(memory).read_spec(old(self).pc)), 1),
                    (old(self).sp >> 8u16) as u8,
                ),
    {
        let addr = self.fetch_word(memory);
        let sp = self.sp;
        memory.write_byte(addr, sp as u8);
        let ghost mid: Memory = *memory;
        memory.write_byte(addr.wrapping_add(1), (sp >> 8u16) as u8);
        assert(mid.write_post(memory, add16(addr, 1), (sp >> 8u16) as u8));
        20
    }

    /// LD r,r' and HALT (opcodes 0x40..0x7F).
    fn exec_load(&mut self, memory: &mut Memory, opcode: u8) -> (r: u32)
        requires
            old(self).wf(),
            old(memory).wf(),
            0x40 <= opcode < 0x80,
        ensures
            final(self).wf(),
            final(memory).wf(),
            exec_post(*old(self), old(memory), opcode, *final(self), final(memory), r),
            4 <= r <= 24,
    {
        reveal(exec_post);
        proof {
            lemma_bit_bounds();
        }
        if opcode == 0x76 {
            self.halted = true;
            return 4;
        }
        let src = opcode & 0x07;
        let dst = (opcode >> 3u8) & 0x07;
        let val = self.get_reg(memory, src);
        self.set_reg(memory, dst, val);
        if src == 6 || dst == 6 { 8 } else { 4 }
    }

    /// ALU A,r (opcodes 0x80..0xBF).
    fn exec_alu(&mut self, memory: &mut Memory, opcode: u8) -> (r: u32)
        requires
            old(self).wf(),
            old(memory).wf(),
            0x80 <= opcode < 0xC0,
        ensures
            final(self).wf(),
            final(memory).wf(),
            exec_post(*old(self), old(memory), opcode, *final(self), final(memory), r),
            4 <= r <= 24,
    {
        reveal(exec_post);
        proof {
            lemma_bit_bounds();
        }
        let src = opcode & 0x07;
        let val = self.get_reg(memory, src);
        self.alu((opcode >> 3u8) & 0x07, val);
        if src == 6 { 8 } else { 4 }
    }

    /// Opcodes 0x00..0x3F: loads of immediates, 16-bit arithmetic, rotates of A, relative jumps.
    #[verifier::rlimit(100)]
    #[verifier::spinoff_prover]
    fn exec_block0(&mut self, memory: &mut Memory, opcode: u8) -> (r: u32)
        requires
            old(self).wf(),
            old(memory).wf(),
            opcode < 0x40,
        ensures
            final(self).wf(),
            final(memory).wf(),
            exec_post(*old(self), old(memory), opcode, *final(self), final(memory), r),
            4 <= r <= 24,
    {
        reveal(exec_post);
        match opcode {
            0x00 => 4,
            0x01 | 0x11 | 0x21 | 0x31 => {
                proof {
                    lemma_pair_bytes();
                }
                let val = self.fetch_word(memory);
                match opcode {
                    0x01 => self.set_bc(val),
                    0x11 => self.set_de(val),
                    0x21 => self.set_hl(val),
                    _ => self.sp = val,
                }
                12
            },
            0x02 => {
                let addr = self.bc();
                memory.write_byte(addr, self.a);
                8
            },
            0x12 => {
                let addr = self.de();
                memory.write_byte(addr, self.a);
                8
            },
            0x22 | 0x32 | 0x2A | 0x3A => self.ld_hl_step(memory, opcode),
            0x03 | 0x13 | 0x23 | 0x33 | 0x0B | 0x1B | 0x2B | 0x3B => {
                self.pair_step(opcode);
                8
            },
            0x04 | 0x0C | 0x14 | 0x1C | 0x24 | 0x2C | 0x34 | 0x3C => {
                proof {
                    lemma_bit_bounds();
                }
                let idx = (opcode >> 3u8) & 0x07;
                let v = self.get_reg(memory, idx);
                let res = self.alu_inc(v);
                self.set_reg(memory, idx, res);
                if idx == 6 { 12 } else { 4 }
            },
            0x05 | 0x0D | 0x15 | 0x1D | 0x25 | 0x2D | 0x35 | 0x3D => {
                proof {
                    lemma_bit_bounds();
                }
                let idx = (opcode >> 3u8) & 0x07;
                let v = self.get_reg(memory, idx);
                let res = self.alu_dec(v);
                self.set_reg(memory, idx, res);
                if idx == 6 { 12 } else { 4 }
            },
            0x06 | 0x0E | 0x16 | 0x1E | 0x26 | 0x2E | 0x36 | 0x3E => {
                proof {
                    lemma_bit_bounds();
                }
                let idx = (opcode >> 3u8) & 0x07;
                let v = self.fetch_byte(memory);
                self.set_reg(memory, idx, v);
                if idx == 6 { 12 } else { 8 }
            },
            0x07 | 0x0F | 0x17 | 0x1F => {
                self.rotate_a(opcode);
                4
            },
            0x08 => self.store_sp(memory),
            0x09 | 0x19 | 0x29 | 0x39 => {
                self.add_hl_op(opcode);
                8
            },
            0x0A => {
                let addr = self.bc();
                self.a = memory.read_byte(addr);
                8
            },
            0x1A => {
                let addr = self.de();
                self.a = memory.read_byte(addr);
                8
            },
            0x10 => {
                self.pc = self.pc.wrapping_add(1);
                self.stopped = true;
                4
            },
            0x18 => self.jr(memory, true),
            0x20 => {
                let c = !self.flag_z();
                self.jr(memory, c)
            },
            0x28 => {
                let c = self.flag_z();
                self.jr(memory, c)
            },
            0x30 => {
                let c = !self.flag_c();
                self.jr(memory, c)
            },
            0x38 => {
                let c = self.flag_c();
                self.jr(memory, c)
            },
            0x27 => {
                self.alu_daa();
                4
            },
            0x2F => {
                // CPL
                let z = self.flag_z();
                let c = self.flag_c();
                self.a = !self.a;
                self.set_flags(z, true, true, c);
                4
            },
            0x37 => {
                // SCF
                let z = self.flag_z();
                self.set_flags(z, false, false, true);
                4
            },
            _ => {
                // 0x3F: CCF
                let z = self.flag_z();
                let c = self.flag_c();
                self.set_flags(z, false, false, !c);
                4
            },
        }
    }

    /// Opcodes 0xC0..0xFF: stack, jumps and calls, immediates, I/O page access.
    #[verifier::rlimit(100)]
    #[verifier::spinoff_prover]
    fn exec_block3(&mut self, memory: &mut Memory, opcode: u8) -> (r: u32)
        requires
            old(self).wf(),
            old(memory).wf(),
            0xC0 <= opcode,
            !is_illegal(opcode),
        ensures
            final(self).wf(),
            final(memory).wf(),
            exec_post(*old(self), old(memory), opcode, *final(self), final(memory), r),
            4 <= r <= 24,
    {
        reveal(exec_post);
        match opcode {
            0xC0 => {
                let c = !self.flag_z();
                self.ret(memory, c)
            },
            0xC8 => {
                let c = self.flag_z();
                self.ret(memory, c)
            },
            0xD0 => {
                let c = !self.flag_c();
                self.ret(memory, c)
            },
            0xD8 => {
                let c = self.flag_c();
                self.ret(memory, c)
            },
            0xC9 => {
                self.ret(memory, true);
                16
            },
            0xD9 => {
                self.ret(memory, true);
                self.ime = true;
                16
            },
            0xC1 => {
                proof {
                    lemma_pair_bytes();
                }
                let v = self.pop(memory);
                self.set_bc(v);
                12
            },
            0xD1 => {
                proof {
                    lemma_pair_bytes();
                }
                let v = self.pop(memory);
                self.set_de(v);
                12
            },
            0xE1 => {
                proof {
                    lemma_pair_bytes();
                }
                let v = self.pop(memory);
                self.set_hl(v);
                12
            },
            0xF1 => {
                let v = self.pop(memory);
                self.set_af(v);
                proof {
                    lemma_pair_bytes();
                }
                12
            },
            0xC5 => {
                let v = self.bc();
                self.push(memory, v);
                16
            },
            0xD5 => {
                let v = self.de();
                self.push(memory, v);
                16
            },
            0xE5 => {
                let v = self.hl();
                self.push(memory, v);
                16
            },
            0xF5 => {
                let v = self.af();
                self.push(memory, v);
                16
            },
            0xC2 => {
                let c = !self.flag_z();
                self.jp(memory, c)
            },
            0xCA => {
                let c = self.flag_z();
                self.jp(memory, c)
            },
            0xD2 => {
                let c = !self.flag_c();
                self.jp(memory, c)
            },
            0xDA => {
                let c = self.flag_c();
                self.jp(memory, c)
            },
            0xC3 => self.jp(memory, true),
            0xE9 => {
                self.pc = self.hl();
                4
            },
            0xC4 => {
                let c = !self.flag_z();
                self.call(memory, c)
            },
            0xCC => {
                let c = self.flag_z();
                self.call(memory, c)
            },
            0xD4 => {
                let c = !self.flag_c();
                self.call(memory, c)
            },
            0xDC => {
                let c = self.flag_c();
                self.call(memory, c)
            },
            0xCD => self.call(memory, true),
            0xC6 | 0xCE | 0xD6 | 0xDE | 0xE6 | 0xEE | 0xF6 | 0xFE => {
                proof {
                    lemma_bit_bounds();
                }
                let v = self.fetch_byte(memory);
                self.alu((opcode >> 3u8) & 0x07, v);
                8
            },
            0xC7 | 0xCF | 0xD7 | 0xDF | 0xE7 | 0xEF | 0xF7 | 0xFF => {
                let vector = (opcode - 0xC7) as u16;
                self.rst(memory, vector)
            },
            0xCB => self.execute_cb(memory),
            0xE0 => {
                let offset = self.fetch_byte(memory) as u16;
                memory.write_byte(0xFF00 + offset, self.a);
                12
            },
            0xF0 => {
                let offset = self.fetch_byte(memory) as u16;
                self.a = memory.read_byte(0xFF00 + offset);
                12
            },
            0xE2 => {
                let addr = 0xFF00 + self.c as u16;
                memory.write_byte(addr, self.a);
                8
            },
            0xF2 => {
                let addr = 0xFF00 + self.c as u16;
                self.a = memory.read_byte(addr);
                8
            },
            0xEA => {
                let addr = self.fetch_word(memory);
                memory.write_byte(addr, self.a);
                16
            },
            0xFA => {
                let addr = self.fetch_word(memory);
                self.a = memory.read_byte(addr);
                16
            },
            0xE8 => {
                let b = self.fetch_byte(memory);
                self.sp = self.alu_add_sp(signed_offset(b));
                16
            },
            0xF8 => {
                let b = self.fetch_byte(memory);
                let res = self.alu_add_sp(signed_offset(b));
                self.set_hl(res);
                12
            },
            0xF9 => {
                self.sp = self.hl();
                8
            },
            0xF3 => {
                self.ime = false;
                4
            },
            _ => {
                // 0xFB: EI, effective after the next instruction.
                self.ime_pending = true;
                4
            },
        }
    }

    /// Executes one instruction (or one idle cycle while halted) and returns the T-cycles it took.
    /// An undefined opcode stops the processor and records where it was met.
    #[verifier::rlimit(100)]
    #[verifier::spinoff_prover]
    pub fn step(&mut self, memory: &mut Memory) -> (r: u32)
        requires
            old(self).wf(),
            old(memory).wf(),
        ensures
            final(self).wf(),
            final(memory).wf(),
            step_post(*old(self), old(memory), *final(self), final(memory), r),
            4 <= r <= 24,
    {
        if self.fault.is_some() {
            return 4;
        }
        if self.ime_pending {
            self.ime = true;
            self.ime_pending = false;
        }
        if self.halted {
            return 4;
        }
        let pc = self.pc;
        let opcode = memory.read_byte(pc);
        if is_illegal_opcode(opcode) {
            self.fault = Some(IllegalOpcode { pc, opcode });
            return 4;
        }
        self.pc = self.pc.wrapping_add(1);
        if opcode < 0x40 {
            self.exec_block0(memory, opcode)
        } else if opcode < 0x80 {
            self.exec_load(memory, opcode)
        } else if opcode < 0xC0 {
            self.exec_alu(memory, opcode)
        } else {
            self.exec_block3(memory, opcode)
        }
    }
}

} // verus!
