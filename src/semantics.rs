use vstd::prelude::*;

use crate::alu::{
    add_flags, add_result, ana_flags, daa_carry, daa_correction, dcr_flags, inr_flags,
    logic_flags, rotate_left, rotate_right, shift_left_in, shift_right_in, sub_flags, sub_result,
};
use crate::cpu::Event;
use crate::instruction::{decode_spec, AluOp, Cond, Instr, Pair, Reg, StackPair};
use crate::memory::{word_at, write_word};
use crate::registers::{has_flag, high, low, pair, with_flag, Flag, Registers};

verus! {

/// The architectural state of the processor: registers, memory, program counter,
/// stack pointer and the interrupt-enable latch.
pub struct CpuState {
    pub regs: Registers,
    pub mem: Seq<u8>,
    pub pc: u16,
    pub sp: u16,
    pub inte: bool,
}

/// The state is well formed when memory covers the whole address space.
pub open spec fn state_wf(s: CpuState) -> bool {
    s.mem.len() == 0x10000
}

pub open spec fn hl(s: CpuState) -> u16 {
    pair(s.regs.h, s.regs.l)
}

/// `a + n` modulo 0x10000.
pub open spec fn add16(a: u16, n: int) -> u16 {
    ((a + n) % 0x10000) as u16
}

/// The byte after the opcode.
pub open spec fn imm8(s: CpuState) -> u8 {
    s.mem[s.pc as int]
}

/// The little-endian word after the opcode.
pub open spec fn imm16(s: CpuState) -> u16 {
    word_at(s.mem, s.pc as int)
}

/// `s` with the program counter moved past `n` operand bytes.
pub open spec fn advance(s: CpuState, n: int) -> CpuState {
    CpuState { pc: add16(s.pc, n), ..s }
}

pub open spec fn with_flags(s: CpuState, f: u8) -> CpuState {
    CpuState { regs: Registers { f: f, ..s.regs }, ..s }
}

pub open spec fn reg_value(s: CpuState, r: Reg) -> u8 {
    match r {
        Reg::B => s.regs.b,
        Reg::C => s.regs.c,
        Reg::D => s.regs.d,
        Reg::E => s.regs.e,
        Reg::H => s.regs.h,
        Reg::L => s.regs.l,
        Reg::M => s.mem[hl(s) as int],
        Reg::A => s.regs.a,
    }
}

pub open spec fn with_reg(s: CpuState, r: Reg, v: u8) -> CpuState {
    match r {
        Reg::B => CpuState { regs: Registers { b: v, ..s.regs }, ..s },
        Reg::C => CpuState { regs: Registers { c: v, ..s.regs }, ..s },
        Reg::D => CpuState { regs: Registers { d: v, ..s.regs }, ..s },
        Reg::E => CpuState { regs: Registers { e: v, ..s.regs }, ..s },
        Reg::H => CpuState { regs: Registers { h: v, ..s.regs }, ..s },
        Reg::L => CpuState { regs: Registers { l: v, ..s.regs }, ..s },
        Reg::M => CpuState { mem: s.mem.update(hl(s) as int, v), ..s },
        Reg::A => CpuState { regs: Registers { a: v, ..s.regs }, ..s },
    }
}

pub open spec fn pair_value(s: CpuState, p: Pair) -> u16 {
    match p {
        Pair::BC => pair(s.regs.b, s.regs.c),
        Pair::DE => pair(s.regs.d, s.regs.e),
        Pair::HL => hl(s),
        Pair::SP => s.sp,
    }
}

pub open spec fn with_pair(s: CpuState, p: Pair, v: u16) -> CpuState {
    match p {
        Pair::BC => CpuState { regs: Registers { b: high(v), c: low(v), ..s.regs }, ..s },
        Pair::DE => CpuState { regs: Registers { d: high(v), e: low(v), ..s.regs }, ..s },
        Pair::HL => CpuState { regs: Registers { h: high(v), l: low(v), ..s.regs }, ..s },
        Pair::SP => CpuState { sp: v, ..s },
    }
}

/// The flags byte as the stack holds it: bit 1 set, bits 3 and 5 clear.
pub open spec fn canonical_flags(f: u8) -> u8 {
    (f & 0xd7) | 0x02
}

/// The word that PUSH stores for a stack pair.
pub open spec fn stack_pair_value(s: CpuState, p: StackPair) -> u16 {
    match p {
        StackPair::BC => pair(s.regs.b, s.regs.c),
        StackPair::DE => pair(s.regs.d, s.regs.e),
        StackPair::HL => hl(s),
        StackPair::PSW => pair(s.regs.a, canonical_flags(s.regs.f)),
    }
}

/// `s` with the word `v` that POP loads placed in a stack pair.
pub open spec fn with_stack_pair(s: CpuState, p: StackPair, v: u16) -> CpuState {
    match p {
        StackPair::BC => with_pair(s, Pair::BC, v),
        StackPair::DE => with_pair(s, Pair::DE, v),
        StackPair::HL => with_pair(s, Pair::HL, v),
        StackPair::PSW => CpuState {
            regs: Registers { a: high(v), f: canonical_flags(low(v)), ..s.regs },
            ..s
        },
    }
}

/// Whether condition `c` holds of the flags byte `f`.
pub open spec fn cond_holds(f: u8, c: Cond) -> bool {
    match c {
        Cond::NZ => !has_flag(f, Flag::Z),
        Cond::Z => has_flag(f, Flag::Z),
        Cond::NC => !has_flag(f, Flag::C),
        Cond::C => has_flag(f, Flag::C),
        Cond::PO => !has_flag(f, Flag::P),
        Cond::PE => has_flag(f, Flag::P),
        Cond::P => !has_flag(f, Flag::S),
        Cond::M => has_flag(f, Flag::S),
    }
}

/// `s` after pushing `v`: SP goes down by two and the word is stored there.
pub open spec fn push_state(s: CpuState, v: u16) -> CpuState {
    let sp = add16(s.sp, -2);
    CpuState { sp: sp, mem: write_word(s.mem, sp as int, v), ..s }
}

/// The word on top of the stack.
pub open spec fn top_word(s: CpuState) -> u16 {
    word_at(s.mem, s.sp as int)
}

/// `s` after popping: SP goes up by two.
pub open spec fn pop_state(s: CpuState) -> CpuState {
    CpuState { sp: add16(s.sp, 2), ..s }
}

/// `s` after a call to the address in the operand: the address of the next instruction
/// is pushed and the program counter jumps.
pub open spec fn call_state(s: CpuState) -> CpuState {
    let next = advance(s, 2);
    CpuState { pc: imm16(s), ..push_state(next, next.pc) }
}

/// `s` after a return: the program counter is popped.
pub open spec fn ret_state(s: CpuState) -> CpuState {
    CpuState { pc: top_word(s), ..pop_state(s) }
}

/// The accumulator and flags after `op` on A and the operand `x`.
pub open spec fn alu_spec(op: AluOp, a: u8, x: u8, f: u8) -> (u8, u8) {
    let cin = has_flag(f, Flag::C);
    match op {
        AluOp::Add => (add_result(a, x, false), add_flags(f, a, x, false)),
        AluOp::Adc => (add_result(a, x, cin), add_flags(f, a, x, cin)),
        AluOp::Sub => (sub_result(a, x, false), sub_flags(f, a, x, false)),
        AluOp::Sbb => (sub_result(a, x, cin), sub_flags(f, a, x, cin)),
        AluOp::Ana => (a & x, ana_flags(f, a, x)),
        AluOp::Xra => (a ^ x, logic_flags(f, a ^ x)),
        AluOp::Ora => (a | x, logic_flags(f, a | x)),
        AluOp::Cmp => (a, sub_flags(f, a, x, false)),
    }
}

/// `s` after `op` on A and the operand `x`.
pub open spec fn alu_state(s: CpuState, op: AluOp, x: u8) -> CpuState {
    let (a, f) = alu_spec(op, s.regs.a, x, s.regs.f);
    CpuState { regs: Registers { a: a, f: f, ..s.regs }, ..s }
}

/// `s` with A set to `a` and flag C to `c`.
pub open spec fn with_a_carry(s: CpuState, a: u8, c: bool) -> CpuState {
    with_flags(with_reg(s, Reg::A, a), with_flag(s.regs.f, Flag::C, c))
}

/// What executing `i` does to `s`, with the program counter already past the opcode, and
/// the event reported.
pub open spec fn execute_spec(s: CpuState, i: Instr) -> (CpuState, Event) {
    match i {
        Instr::Nop | Instr::Lxi(..) | Instr::Stax(..) | Instr::Ldax(..) | Instr::Shld | Instr::Lhld
            | Instr::Sta | Instr::Lda | Instr::Mvi(..) | Instr::Mov(..) => load_store_spec(s, i),
        Instr::Inx(..) | Instr::Dcx(..) => pair_step_spec(s, i),
        Instr::Dad(..) => dad_spec(s, i),
        Instr::Inr(..) | Instr::Dcr(..) => step_spec(s, i),
        Instr::Rlc | Instr::Rrc | Instr::Ral | Instr::Rar | Instr::Daa | Instr::Cma | Instr::Stc
            | Instr::Cmc | Instr::Alu(..) | Instr::AluImm(..) => accumulator_spec(s, i),
        Instr::Ret | Instr::RetIf(..) | Instr::Jmp | Instr::JmpIf(..) | Instr::Call
            | Instr::CallIf(..) | Instr::Rst(..) | Instr::Pchl => branch_spec(s, i),
        Instr::Pop(..) | Instr::Push(..) | Instr::Xthl | Instr::Xchg | Instr::Sphl | Instr::Out
            | Instr::In | Instr::Hlt | Instr::Di | Instr::Ei => stack_io_spec(s, i),
    }
}

/// Loads, stores and moves.
pub open spec fn load_store_spec(s: CpuState, i: Instr) -> (CpuState, Event) {
    let a = s.regs.a;
    let f = s.regs.f;
    match i {
        Instr::Nop => (s, Event::Normal(4)),
        Instr::Lxi(p) => (with_pair(advance(s, 2), p, imm16(s)), Event::Normal(10)),
        Instr::Stax(p) => (
            CpuState { mem: s.mem.update(pair_value(s, p) as int, a), ..s },
            Event::Normal(7),
        ),
        Instr::Ldax(p) => (with_reg(s, Reg::A, s.mem[pair_value(s, p) as int]), Event::Normal(7)),
        Instr::Shld => (
            CpuState { mem: write_word(s.mem, imm16(s) as int, hl(s)), ..advance(s, 2) },
            Event::Normal(16),
        ),
        Instr::Lhld => (
            with_pair(advance(s, 2), Pair::HL, word_at(s.mem, imm16(s) as int)),
            Event::Normal(16),
        ),
        Instr::Sta => (
            CpuState { mem: s.mem.update(imm16(s) as int, a), ..advance(s, 2) },
            Event::Normal(13),
        ),
        Instr::Lda => (
            with_reg(advance(s, 2), Reg::A, s.mem[imm16(s) as int]),
            Event::Normal(13),
        ),
        Instr::Mvi(r) => (
            with_reg(advance(s, 1), r, imm8(s)),
            Event::Normal(if r == Reg::M { 10 } else { 7 }),
        ),
        Instr::Mov(d, r) => (
            with_reg(s, d, reg_value(s, r)),
            Event::Normal(if d == Reg::M || r == Reg::M { 7 } else { 5 }),
        ),
        // an instruction of another family
        _ => (s, Event::Normal(4)),
    }
}

/// Increments and decrements of register pairs.
pub open spec fn pair_step_spec(s: CpuState, i: Instr) -> (CpuState, Event) {
    let a = s.regs.a;
    let f = s.regs.f;
    match i {
        Instr::Inx(p) => (with_pair(s, p, add16(pair_value(s, p), 1)), Event::Normal(5)),
        Instr::Dcx(p) => (with_pair(s, p, add16(pair_value(s, p), -1)), Event::Normal(5)),
        // an instruction of another family
        _ => (s, Event::Normal(4)),
    }
}

/// Double-length addition.
pub open spec fn dad_spec(s: CpuState, i: Instr) -> (CpuState, Event) {
    let a = s.regs.a;
    let f = s.regs.f;
    match i {
        Instr::Dad(p) => {
            let sum = hl(s) + pair_value(s, p);
            (
                with_pair(
                    with_flags(s, with_flag(f, Flag::C, sum > 0xffff)),
                    Pair::HL,
                    (sum % 0x10000) as u16,
                ),
                Event::Normal(10),
            )
        },
        // an instruction of another family
        _ => (s, Event::Normal(4)),
    }
}

/// Increments and decrements of eight-bit operands.
pub open spec fn step_spec(s: CpuState, i: Instr) -> (CpuState, Event) {
    let a = s.regs.a;
    let f = s.regs.f;
    match i {
        Instr::Inr(r) => {
            let x = reg_value(s, r);
            (
                with_reg(with_flags(s, inr_flags(f, x)), r, ((x + 1) % 256) as u8),
                Event::Normal(if r == Reg::M { 10 } else { 5 }),
            )
        },
        Instr::Dcr(r) => {
            let x = reg_value(s, r);
            (
                with_reg(with_flags(s, dcr_flags(f, x)), r, ((x + 255) % 256) as u8),
                Event::Normal(if r == Reg::M { 10 } else { 5 }),
            )
        },
        // an instruction of another family
        _ => (s, Event::Normal(4)),
    }
}

/// Operations on the accumulator and the carry.
pub open spec fn accumulator_spec(s: CpuState, i: Instr) -> (CpuState, Event) {
    let a = s.regs.a;
    let f = s.regs.f;
    match i {
        Instr::Rlc => (with_a_carry(s, rotate_left(a), a >= 0x80), Event::Normal(4)),
        Instr::Rrc => (with_a_carry(s, rotate_right(a), a % 2 == 1), Event::Normal(4)),
        Instr::Ral => (
            with_a_carry(s, shift_left_in(a, has_flag(f, Flag::C)), a >= 0x80),
            Event::Normal(4),
        ),
        Instr::Rar => (
            with_a_carry(s, shift_right_in(a, has_flag(f, Flag::C)), a % 2 == 1),
            Event::Normal(4),
        ),
        Instr::Daa => {
            let corr = daa_correction(a, f);
            (
                with_flags(
                    with_reg(s, Reg::A, add_result(a, corr, false)),
                    with_flag(add_flags(f, a, corr, false), Flag::C, daa_carry(a, f)),
                ),
                Event::Normal(4),
            )
        },
        Instr::Cma => (with_reg(s, Reg::A, !a), Event::Normal(4)),
        Instr::Stc => (with_flags(s, with_flag(f, Flag::C, true)), Event::Normal(4)),
        Instr::Cmc => (
            with_flags(s, with_flag(f, Flag::C, !has_flag(f, Flag::C))),
            Event::Normal(4),
        ),
        Instr::Alu(op, r) => (
            alu_state(s, op, reg_value(s, r)),
            Event::Normal(if r == Reg::M { 7 } else { 4 }),
        ),
        Instr::AluImm(op) => (alu_state(advance(s, 1), op, imm8(s)), Event::Normal(7)),
        // an instruction of another family
        _ => (s, Event::Normal(4)),
    }
}

/// Jumps, calls, returns and restarts.
pub open spec fn branch_spec(s: CpuState, i: Instr) -> (CpuState, Event) {
    let a = s.regs.a;
    let f = s.regs.f;
    match i {
        Instr::Ret => (ret_state(s), Event::Normal(10)),
        Instr::RetIf(c) => if cond_holds(f, c) {
            (ret_state(s), Event::Normal(11))
        } else {
            (s, Event::Normal(5))
        },
        Instr::Jmp => (CpuState { pc: imm16(s), ..s }, Event::Normal(10)),
        Instr::JmpIf(c) => if cond_holds(f, c) {
            (CpuState { pc: imm16(s), ..s }, Event::Normal(10))
        } else {
            (advance(s, 2), Event::Normal(10))
        },
        Instr::Call => (call_state(s), Event::Normal(17)),
        Instr::CallIf(c) => if cond_holds(f, c) {
            (call_state(s), Event::Normal(17))
        } else {
            (advance(s, 2), Event::Normal(11))
        },
        Instr::Rst(n) => (
            CpuState { pc: (n * 8) as u16, ..push_state(s, s.pc) },
            Event::Normal(11),
        ),
        Instr::Pchl => (CpuState { pc: hl(s), ..s }, Event::Normal(5)),
        // an instruction of another family
        _ => (s, Event::Normal(4)),
    }
}

/// Stack, exchange, input/output and interrupt control.
pub open spec fn stack_io_spec(s: CpuState, i: Instr) -> (CpuState, Event) {
    let a = s.regs.a;
    let f = s.regs.f;
    match i {
        Instr::Pop(p) => (with_stack_pair(pop_state(s), p, top_word(s)), Event::Normal(10)),
        Instr::Push(p) => (push_state(s, stack_pair_value(s, p)), Event::Normal(11)),
        Instr::Xthl => (
            CpuState {
                mem: write_word(s.mem, s.sp as int, hl(s)),
                ..with_pair(s, Pair::HL, top_word(s))
            },
            Event::Normal(18),
        ),
        Instr::Xchg => (
            CpuState {
                regs: Registers { d: s.regs.h, e: s.regs.l, h: s.regs.d, l: s.regs.e, ..s.regs },
                ..s
            },
            Event::Normal(5),
        ),
        Instr::Sphl => (CpuState { sp: hl(s), ..s }, Event::Normal(5)),
        Instr::Out => (advance(s, 1), Event::Output(imm8(s), a, 10)),
        Instr::In => (advance(s, 1), Event::Input(imm8(s), 10)),
        Instr::Hlt => (s, Event::Halt(7)),
        Instr::Di => (CpuState { inte: false, ..s }, Event::Normal(4)),
        Instr::Ei => (CpuState { inte: true, ..s }, Event::Normal(4)),
        // an instruction of another family
        _ => (s, Event::Normal(4)),
    }
}

/// Writing an operand and reading it back gives the value written; only that operand
/// changes among A, the flags and memory's size.
pub proof fn lemma_with_reg(s: CpuState, r: Reg, v: u8)
    requires
        state_wf(s),
    ensures
        reg_value(with_reg(s, r, v), r) == v,
        with_reg(s, r, v).regs.f == s.regs.f,
        r != Reg::A ==> with_reg(s, r, v).regs.a == s.regs.a,
        state_wf(with_reg(s, r, v)),
{
}

/// Changing the flags changes no operand.
pub proof fn lemma_with_flags(s: CpuState, f: u8, r: Reg)
    ensures
        reg_value(with_flags(s, f), r) == reg_value(s, r),
        with_flags(s, f).regs.a == s.regs.a,
        with_flags(s, f).regs.f == f,
        state_wf(s) ==> state_wf(with_flags(s, f)),
{
}

/// What `exec(op)` does to `s`, and the event it reports.
pub open spec fn step(s: CpuState, op: u8) -> (CpuState, Event) {
    execute_spec(s, decode_spec(op))
}

/// `s` after fetching an opcode: the program counter moves on by one.
pub open spec fn fetch_state(s: CpuState) -> CpuState {
    advance(s, 1)
}

} // verus!
