use vstd::prelude::*;

use crate::alu::{
    dcr_flags, inr_flags, lemma_add_flags, lemma_ana_flags, lemma_dcr_flags, lemma_inr_flags,
    lemma_logic_flags, lemma_sub_flags, lemma_with_flag_auto, rotate_left,
};
use crate::instruction::{decode_spec, AluOp, Instr, Pair, Reg, StackPair};
use crate::memory::lemma_pair_high_low;
use crate::registers::{even_parity, has_flag, lemma_pair_bytes, with_flag, Flag, Registers};
use crate::semantics::{
    alu_state, canonical_flags, hl, imm8, lemma_with_flags, lemma_with_reg, pair_value,
    pop_state, push_state, reg_value, stack_pair_value, state_wf, step, top_word, with_a_carry,
    with_flags, with_reg, CpuState,
};

verus! {

/// The state after executing `op` `n` times in a row.
pub open spec fn repeat_step(s: CpuState, op: u8, n: nat) -> CpuState
    decreases n,
{
    if n == 0 {
        s
    } else {
        step(repeat_step(s, op, (n - 1) as nat), op).0
    }
}

/// A word pushed is the word popped, whatever ran in between, as long as it left SP and
/// the two bytes at SP as the push left them; the pop brings SP back to where it was.
pub proof fn lemma_push_pop(s: CpuState, v: u16, t: CpuState)
    requires
        state_wf(s),
        t.sp == push_state(s, v).sp,
        t.mem[t.sp as int] == push_state(s, v).mem[t.sp as int],
        t.mem[(t.sp + 1) % 0x10000] == push_state(s, v).mem[(t.sp + 1) % 0x10000],
    ensures
        top_word(t) == v,
        pop_state(t).sp == s.sp,
{
    lemma_pair_high_low(v);
}

/// PUSH of a pair followed by POP of the same pair leaves the registers, SP and PC as
/// they were; for PSW the flags come back in their canonical form.
pub proof fn lemma_push_then_pop_pair(s: CpuState, p: StackPair, push_op: u8, pop_op: u8)
    requires
        state_wf(s),
        decode_spec(push_op) == Instr::Push(p),
        decode_spec(pop_op) == Instr::Pop(p),
    ensures
        ({
            let u = step(step(s, push_op).0, pop_op).0;
            &&& u.sp == s.sp
            &&& u.pc == s.pc
            &&& p != StackPair::PSW ==> u.regs == s.regs
            &&& p == StackPair::PSW ==> u.regs == (Registers {
                f: canonical_flags(s.regs.f),
                ..s.regs
            })
        }),
{
    let v = stack_pair_value(s, p);
    let t = step(s, push_op).0;
    assert(t == push_state(s, v));
    lemma_push_pop(s, v, t);
    lemma_pair_high_low(v);
    lemma_pair_bytes(s.regs.b, s.regs.c);
    lemma_pair_bytes(s.regs.d, s.regs.e);
    lemma_pair_bytes(s.regs.h, s.regs.l);
    lemma_pair_bytes(s.regs.a, canonical_flags(s.regs.f));
    assert(canonical_flags(canonical_flags(s.regs.f)) == canonical_flags(s.regs.f)) by {
        let f = s.regs.f;
        assert(((f & 0xd7) | 0x02) & 0xd7 | 0x02 == (f & 0xd7) | 0x02) by (bit_vector);
    }
}

/// `MOV r,r` changes nothing.
pub proof fn lemma_mov_same(s: CpuState, op: u8, r: Reg)
    requires
        state_wf(s),
        decode_spec(op) == Instr::Mov(r, r),
    ensures
        step(s, op).0 == s,
{
    if r == Reg::M {
        assert(s.mem.update(hl(s) as int, s.mem[hl(s) as int]) =~= s.mem);
    }
}

/// `XCHG` twice changes nothing.
pub proof fn lemma_xchg_twice(s: CpuState)
    ensures
        step(step(s, 0xeb).0, 0xeb).0 == s,
{
    reveal(decode_spec);
    assert(decode_spec(0xeb) == Instr::Xchg);
}

/// `XCHG` swaps DE and HL and keeps the flags.
pub proof fn lemma_xchg_keeps_flags(s: CpuState)
    ensures
        step(s, 0xeb).0.regs.f == s.regs.f,
        pair_value(step(s, 0xeb).0, Pair::DE) == hl(s),
        hl(step(s, 0xeb).0) == pair_value(s, Pair::DE),
{
    reveal(decode_spec);
    assert(decode_spec(0xeb) == Instr::Xchg);
}

/// `INR r` followed by `DCR r` brings back the operand and A, and leaves C as it was.
pub proof fn lemma_inr_then_dcr(s: CpuState, r: Reg, inr_op: u8, dcr_op: u8)
    requires
        state_wf(s),
        decode_spec(inr_op) == Instr::Inr(r),
        decode_spec(dcr_op) == Instr::Dcr(r),
    ensures
        ({
            let t = step(s, inr_op).0;
            let u = step(t, dcr_op).0;
            &&& reg_value(u, r) == reg_value(s, r)
            &&& u.regs.a == s.regs.a
            &&& has_flag(t.regs.f, Flag::C) == has_flag(s.regs.f, Flag::C)
            &&& has_flag(u.regs.f, Flag::C) == has_flag(s.regs.f, Flag::C)
        }),
{
    let f = s.regs.f;
    let x = reg_value(s, r);
    let s1 = with_flags(s, inr_flags(f, x));
    let t = with_reg(s1, r, ((x + 1) % 256) as u8);
    assert(step(s, inr_op).0 == t);
    lemma_with_flags(s, inr_flags(f, x), r);
    lemma_with_reg(s1, r, ((x + 1) % 256) as u8);
    let y = reg_value(t, r);
    let t1 = with_flags(t, dcr_flags(t.regs.f, y));
    let u = with_reg(t1, r, ((y + 255) % 256) as u8);
    assert(step(t, dcr_op).0 == u);
    lemma_with_flags(t, dcr_flags(t.regs.f, y), r);
    lemma_with_reg(t1, r, ((y + 255) % 256) as u8);
    lemma_inr_flags(f, x);
    lemma_dcr_flags(t.regs.f, y);
}

/// The result that `o` computes from A = `a`, the operand `x` and carry-in `c`; for
/// `CMP` the difference that it discards.
pub open spec fn alu_value(o: AluOp, a: u8, x: u8, c: int) -> int {
    match o {
        AluOp::Add | AluOp::Adc => (a + x + c) % 256,
        AluOp::Sub | AluOp::Sbb | AluOp::Cmp => (a - x - c) % 256,
        AluOp::Ana => (a & x) as int,
        AluOp::Xra => (a ^ x) as int,
        AluOp::Ora => (a | x) as int,
    }
}

/// Each flag of `g` is what its definition gives for `o` on A = `a`, operand `x` and the
/// flags `f` before: S, Z, P from the result; A the carry out of bit 3 for additions, the
/// borrow for subtractions, bit 3 of either operand for `ANA`, clear for `XRA` and `ORA`;
/// C the carry out of bit 7, the borrow, or clear for the logical operations.
pub open spec fn alu_flags_defined(o: AluOp, a: u8, x: u8, f: u8, g: u8) -> bool {
    let c: int = if (o == AluOp::Adc || o == AluOp::Sbb) && has_flag(f, Flag::C) {
        1
    } else {
        0
    };
    let r = alu_value(o, a, x, c);
    &&& has_flag(g, Flag::S) == (r >= 0x80)
    &&& has_flag(g, Flag::Z) == (r == 0)
    &&& has_flag(g, Flag::P) == even_parity(r as u8)
    &&& has_flag(g, Flag::A) == match o {
        AluOp::Add | AluOp::Adc => a % 16 + x % 16 + c > 0x0f,
        AluOp::Sub | AluOp::Sbb | AluOp::Cmp => a % 16 - x % 16 - c < 0,
        AluOp::Ana => (a | x) & 0x08 != 0,
        AluOp::Xra | AluOp::Ora => false,
    }
    &&& has_flag(g, Flag::C) == match o {
        AluOp::Add | AluOp::Adc => a + x + c > 0xff,
        AluOp::Sub | AluOp::Sbb | AluOp::Cmp => a < x + c,
        AluOp::Ana | AluOp::Xra | AluOp::Ora => false,
    }
}

/// After an arithmetic, logical or compare instruction, on a register, on memory or on an
/// immediate byte, every flag meets its definition and A holds the result (or is kept,
/// for `CMP` and `CPI`).
pub proof fn lemma_alu_step_flags(s: CpuState, op: u8, o: AluOp)
    requires
        decode_spec(op) matches Instr::Alu(q, _) && q == o || decode_spec(op) == Instr::AluImm(o),
    ensures
        ({
            let x = match decode_spec(op) {
                Instr::Alu(_, r) => reg_value(s, r),
                _ => imm8(s),
            };
            let t = step(s, op).0;
            let c: int = if (o == AluOp::Adc || o == AluOp::Sbb) && has_flag(s.regs.f, Flag::C) {
                1
            } else {
                0
            };
            &&& alu_flags_defined(o, s.regs.a, x, s.regs.f, t.regs.f)
            &&& t.regs.a == if o == AluOp::Cmp {
                s.regs.a as int
            } else {
                alu_value(o, s.regs.a, x, c)
            }
        }),
{
    let x = match decode_spec(op) {
        Instr::Alu(_, r) => reg_value(s, r),
        _ => imm8(s),
    };
    let a = s.regs.a;
    let f = s.regs.f;
    let cin = has_flag(f, Flag::C);
    assert(step(s, op).0.regs == alu_state(s, o, x).regs);
    match o {
        AluOp::Add => lemma_add_flags(f, a, x, false),
        AluOp::Adc => lemma_add_flags(f, a, x, cin),
        AluOp::Sub => lemma_sub_flags(f, a, x, false),
        AluOp::Sbb => lemma_sub_flags(f, a, x, cin),
        AluOp::Cmp => lemma_sub_flags(f, a, x, false),
        AluOp::Ana => lemma_ana_flags(f, a, x),
        AluOp::Xra => lemma_logic_flags(f, a ^ x),
        AluOp::Ora => lemma_logic_flags(f, a | x),
    }
}

/// After `INR` or `DCR` the flags S, Z, A, P meet their definitions for the new value of
/// the operand, and C is kept.
pub proof fn lemma_step_flags(s: CpuState, op: u8, r: Reg)
    requires
        state_wf(s),
        decode_spec(op) == Instr::Inr(r) || decode_spec(op) == Instr::Dcr(r),
    ensures
        ({
            let t = step(s, op).0;
            let x = reg_value(s, r);
            let v = reg_value(t, r);
            let up = decode_spec(op) == Instr::Inr(r);
            &&& v == if up { (x + 1) % 256 } else { (x + 255) % 256 }
            &&& has_flag(t.regs.f, Flag::S) == (v >= 0x80)
            &&& has_flag(t.regs.f, Flag::Z) == (v == 0)
            &&& has_flag(t.regs.f, Flag::P) == even_parity(v)
            &&& has_flag(t.regs.f, Flag::A) == if up {
                x % 16 + 1 > 0x0f
            } else {
                v % 16 != 0x0f
            }
            &&& has_flag(t.regs.f, Flag::C) == has_flag(s.regs.f, Flag::C)
        }),
{
    let f = s.regs.f;
    let x = reg_value(s, r);
    lemma_inr_flags(f, x);
    lemma_dcr_flags(f, x);
    if decode_spec(op) == Instr::Inr(r) {
        lemma_with_flags(s, inr_flags(f, x), r);
        lemma_with_reg(with_flags(s, inr_flags(f, x)), r, ((x + 1) % 256) as u8);
    } else {
        lemma_with_flags(s, dcr_flags(f, x), r);
        lemma_with_reg(with_flags(s, dcr_flags(f, x)), r, ((x + 255) % 256) as u8);
    }
}

/// `DAD` sets C exactly when the sum overflows sixteen bits, leaves every other flag, and
/// leaves the sum modulo 0x10000 in HL.
pub proof fn lemma_dad_carry(s: CpuState, op: u8, p: Pair)
    requires
        decode_spec(op) == Instr::Dad(p),
    ensures
        ({
            let t = step(s, op).0;
            let sum = hl(s) + pair_value(s, p);
            &&& t.regs.f == with_flag(s.regs.f, Flag::C, sum > 0xffff)
            &&& has_flag(t.regs.f, Flag::C) == (sum > 0xffff)
            &&& forall|g: Flag| g != Flag::C ==> has_flag(t.regs.f, g) == has_flag(s.regs.f, g)
            &&& hl(t) == sum % 0x10000
        }),
{
    broadcast use lemma_with_flag_auto;

    let sum = hl(s) + pair_value(s, p);
    lemma_pair_high_low((sum % 0x10000) as u16);
}

/// `CMP` leaves A alone and sets the flags exactly as `SUB` of the same operand would;
/// likewise `CPI` and `SUI`.
pub proof fn lemma_cmp_is_sub(s: CpuState, cmp_op: u8, sub_op: u8)
    requires
        (decode_spec(cmp_op) matches Instr::Alu(AluOp::Cmp, r) && decode_spec(sub_op)
            == Instr::Alu(AluOp::Sub, r)) || (decode_spec(cmp_op) == Instr::AluImm(AluOp::Cmp)
            && decode_spec(sub_op) == Instr::AluImm(AluOp::Sub)),
    ensures
        step(s, cmp_op).0.regs.a == s.regs.a,
        step(s, cmp_op).0.regs.f == step(s, sub_op).0.regs.f,
{
}

/// Whether `o` is one of the logical operations `ANA`, `XRA`, `ORA`.
pub open spec fn is_logic(o: AluOp) -> bool {
    o == AluOp::Ana || o == AluOp::Xra || o == AluOp::Ora
}

/// `ANA`, `XRA` and `ORA`, and their immediate forms, clear C.
pub proof fn lemma_logic_clears_carry(s: CpuState, op: u8)
    requires
        (decode_spec(op) matches Instr::Alu(o, _) && is_logic(o))
            || (decode_spec(op) matches Instr::AluImm(o) && is_logic(o)),
    ensures
        !has_flag(step(s, op).0.regs.f, Flag::C),
{
    let a = s.regs.a;
    let f = s.regs.f;
    match decode_spec(op) {
        Instr::Alu(_, r) => {
            let x = reg_value(s, r);
            lemma_ana_flags(f, a, x);
            lemma_logic_flags(f, a ^ x);
            lemma_logic_flags(f, a | x);
        },
        _ => {
            let x = crate::semantics::imm8(s);
            lemma_ana_flags(f, a, x);
            lemma_logic_flags(f, a ^ x);
            lemma_logic_flags(f, a | x);
        },
    }
}

proof fn lemma_rotate_left_bits(x: u8)
    ensures
        rotate_left(x) == (x << 1) | (x >> 7),
{
    assert(((x % 128) * 2 + x / 128) as u8 == (x << 1) | (x >> 7)) by (bit_vector);
}

/// The state after one `RLC`.
proof fn lemma_rlc_once(s: CpuState)
    ensures
        step(s, 0x07).0 == with_a_carry(s, rotate_left(s.regs.a), s.regs.a >= 0x80),
{
    reveal(decode_spec);
    assert(decode_spec(0x07) == Instr::Rlc);
}

/// Eight `RLC` in a row bring A back and leave in C the bit 0 that A started with; no
/// other flag changes.
pub proof fn lemma_rlc_eight(s: CpuState)
    ensures
        ({
            let t = repeat_step(s, 0x07, 8);
            &&& t.regs.a == s.regs.a
            &&& has_flag(t.regs.f, Flag::C) == (s.regs.a % 2 == 1)
            &&& forall|g: Flag| g != Flag::C ==> has_flag(t.regs.f, g) == has_flag(s.regs.f, g)
            &&& t.pc == s.pc && t.sp == s.sp && t.mem == s.mem && t.inte == s.inte
        }),
{
    broadcast use lemma_with_flag_auto;

    let s0 = s;
    let s1 = repeat_step(s, 0x07, 1);
    let s2 = repeat_step(s, 0x07, 2);
    let s3 = repeat_step(s, 0x07, 3);
    let s4 = repeat_step(s, 0x07, 4);
    let s5 = repeat_step(s, 0x07, 5);
    let s6 = repeat_step(s, 0x07, 6);
    let s7 = repeat_step(s, 0x07, 7);
    let s8 = repeat_step(s, 0x07, 8);
    assert(repeat_step(s, 0x07, 0) == s0);
    lemma_rlc_once(s0);
    lemma_rlc_once(s1);
    lemma_rlc_once(s2);
    lemma_rlc_once(s3);
    lemma_rlc_once(s4);
    lemma_rlc_once(s5);
    lemma_rlc_once(s6);
    lemma_rlc_once(s7);
    let a = s.regs.a;
    let r1 = s1.regs.a;
    let r2 = s2.regs.a;
    let r3 = s3.regs.a;
    let r4 = s4.regs.a;
    let r5 = s5.regs.a;
    let r6 = s6.regs.a;
    let r7 = s7.regs.a;
    let r8 = s8.regs.a;
    lemma_rotate_left_bits(a);
    lemma_rotate_left_bits(r1);
    lemma_rotate_left_bits(r2);
    lemma_rotate_left_bits(r3);
    lemma_rotate_left_bits(r4);
    lemma_rotate_left_bits(r5);
    lemma_rotate_left_bits(r6);
    lemma_rotate_left_bits(r7);
    assert(r8 == a && (r7 >= 0x80) == (a % 2 == 1)) by (bit_vector)
        requires
            r1 == (a << 1) | (a >> 7),
            r2 == (r1 << 1) | (r1 >> 7),
            r3 == (r2 << 1) | (r2 >> 7),
            r4 == (r3 << 1) | (r3 >> 7),
            r5 == (r4 << 1) | (r4 >> 7),
            r6 == (r5 << 1) | (r5 >> 7),
            r7 == (r6 << 1) | (r6 >> 7),
            r8 == (r7 << 1) | (r7 >> 7),
    ;
}

} // verus!
