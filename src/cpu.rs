use vstd::prelude::*;

use crate::alu::{
    add_flags, add_result, ana_flags, carry_in, daa_carry, daa_correction, dcr_flags, inr_flags,
    logic_flags, sub_flags, sub_result,
};
use crate::device::Device;
use crate::instruction::{decode, AluOp, Cond, Instr, Pair, Reg, StackPair};
use crate::memory::{Memory, Memory8080, MEMORY_SIZE};
use crate::registers::{
    has_flag, lemma_flags_from_szp, lemma_pair_bytes, pair, Flag, Registers, SZP_MASK,
};
use crate::semantics::{
    accumulator_spec, advance, alu_state, branch_spec, call_state, cond_holds, dad_spec,
    execute_spec, fetch_state, imm16, imm8, load_store_spec, pair_step_spec, pair_value,
    pop_state, push_state, reg_value, ret_state, stack_io_spec, stack_pair_value, step, step_spec,
    top_word, with_flags, with_pair, with_reg, with_stack_pair, CpuState,
};

verus! {

pub type ClockCycles = u32;

pub type Port = u8;

/// What one instruction did, with its cost in clock cycles.
#[derive(Clone, Copy, Debug, PartialEq, Eq, Structural)]
pub enum Event {
    /// `OUT port`: the port and the byte of A sent to it.
    Output(Port, u8, ClockCycles),
    /// `HLT`: no further fetch until an interrupt is accepted.
    Halt(ClockCycles),
    /// Ordinary completion.
    Normal(ClockCycles),
    /// `IN port`: the machine reads the port and stores the byte in A before the next fetch.
    Input(Port, ClockCycles),
}

/// The stack pointer of a new processor.
pub const INITIAL_SP: u16 = 0xf000;

/// The processor: registers, memory, program counter, stack pointer and the
/// interrupt-enable latch.
pub struct CPU {
    pub regs: Registers,
    pub memory: Memory8080,
    pub pc: u16,
    pub sp: u16,
    /// Interrupts are accepted only while this is set.
    pub inter: bool,
}

impl View for CPU {
    type V = CpuState;

    open spec fn view(&self) -> CpuState {
        CpuState {
            regs: self.regs,
            mem: self.memory.memory@,
            pc: self.pc,
            sp: self.sp,
            inte: self.inter,
        }
    }
}

/// A new processor over the memory image `mem`: registers zero, flags 0x02, PC zero,
/// SP at `INITIAL_SP`, interrupts disabled.
pub open spec fn initial_state(s: CpuState, mem: Seq<u8>) -> bool {
    &&& s.mem == mem
    &&& s.regs.a == 0 && s.regs.b == 0 && s.regs.c == 0 && s.regs.d == 0
    &&& s.regs.e == 0 && s.regs.h == 0 && s.regs.l == 0 && s.regs.f == 0x02
    &&& s.pc == 0
    &&& s.sp == INITIAL_SP
    &&& !s.inte
}

impl CPU {
    /// A processor over zeroed memory.
    pub fn new_empty() -> (cpu: Self)
        ensures
            initial_state(cpu@, cpu@.mem),
            cpu@.mem.len() == MEMORY_SIZE,
            forall|i: int| 0 <= i < MEMORY_SIZE ==> cpu@.mem[i] == 0,
    {
        CPU {
            regs: Registers::new(),
            memory: Memory8080::new_empty(),
            pc: 0,
            sp: INITIAL_SP,
            inter: false,
        }
    }

    /// A processor over the memory image `memory`.
    pub fn new(memory: [u8; 0x10000]) -> (cpu: Self)
        ensures
            initial_state(cpu@, memory@),
    {
        CPU {
            regs: Registers::new(),
            memory: Memory8080::new(memory),
            pc: 0,
            sp: INITIAL_SP,
            inter: false,
        }
    }

    /// Accepts an interrupt when they are enabled: disables them, pushes PC and jumps to
    /// `addr`. Does nothing and returns `None` when they are disabled.
    pub fn inter_handle(&mut self, addr: u16) -> (r: Option<Event>)
        ensures
            old(self).inter ==> r == Some(Event::Normal(17)) && final(self)@ == (CpuState {
                pc: addr,
                inte: false,
                ..push_state(old(self)@, old(self).pc)
            }),
            !old(self).inter ==> r.is_none() && final(self)@ == old(self)@,
    {
        if self.inter {
            self.inter = false;
            self.push(self.pc);
            self.pc = addr;
            return Some(Event::Normal(17));
        }
        None
    }

    /// The byte at the address in HL.
    pub fn get_m(&self) -> (r: u8)
        ensures
            r == reg_value(self@, Reg::M),
    {
        self.memory.read(self.regs.get_hl() as usize)
    }

    /// Stores `data` at the address in HL.
    pub fn set_m(&mut self, data: u8)
        ensures
            final(self)@ == with_reg(old(self)@, Reg::M, data),
    {
        let addr = self.regs.get_hl();
        self.memory.write(addr as usize, data);
    }

    /// The operand `r`.
    fn get_reg(&self, r: Reg) -> (v: u8)
        ensures
            v == reg_value(self@, r),
    {
        match r {
            Reg::B => self.regs.b,
            Reg::C => self.regs.c,
            Reg::D => self.regs.d,
            Reg::E => self.regs.e,
            Reg::H => self.regs.h,
            Reg::L => self.regs.l,
            Reg::M => self.get_m(),
            Reg::A => self.regs.a,
        }
    }

    /// Stores `v` in the operand `r`.
    fn set_reg(&mut self, r: Reg, v: u8)
        ensures
            final(self)@ == with_reg(old(self)@, r, v),
    {
        match r {
            Reg::B => self.regs.b = v,
            Reg::C => self.regs.c = v,
            Reg::D => self.regs.d = v,
            Reg::E => self.regs.e = v,
            Reg::H => self.regs.h = v,
            Reg::L => self.regs.l = v,
            Reg::M => self.set_m(v),
            Reg::A => self.regs.a = v,
        }
    }

    fn get_pair(&self, p: Pair) -> (v: u16)
        ensures
            v == pair_value(self@, p),
    {
        match p {
            Pair::BC => self.regs.get_bc(),
            Pair::DE => self.regs.get_de(),
            Pair::HL => self.regs.get_hl(),
            Pair::SP => self.sp,
        }
    }

    fn set_pair(&mut self, p: Pair, v: u16)
        ensures
            final(self)@ == with_pair(old(self)@, p, v),
    {
        match p {
            Pair::BC => self.regs.set_bc(v),
            Pair::DE => self.regs.set_de(v),
            Pair::HL => self.regs.set_hl(v),
            Pair::SP => self.sp = v,
        }
    }

    /// Whether condition `c` holds of the flags.
    fn condition(&self, c: Cond) -> (r: bool)
        ensures
            r == cond_holds(self.regs.f, c),
    {
        match c {
            Cond::NZ => !self.regs.get_flag(Flag::Z),
            Cond::Z => self.regs.get_flag(Flag::Z),
            Cond::NC => !self.regs.get_flag(Flag::C),
            Cond::C => self.regs.get_flag(Flag::C),
            Cond::PO => !self.regs.get_flag(Flag::P),
            Cond::PE => self.regs.get_flag(Flag::P),
            Cond::P => !self.regs.get_flag(Flag::S),
            Cond::M => self.regs.get_flag(Flag::S),
        }
    }

    /// Reads the byte operand at PC and moves PC past it.
    fn read_imm8(&mut self) -> (v: u8)
        ensures
            v == imm8(old(self)@),
            final(self)@ == advance(old(self)@, 1),
    {
        let v = self.memory.read(self.pc as usize);
        self.pc = self.pc.wrapping_add(1);
        v
    }

    /// Reads the word operand at PC and moves PC past it.
    fn read_imm16(&mut self) -> (v: u16)
        ensures
            v == imm16(old(self)@),
            final(self)@ == advance(old(self)@, 2),
    {
        let v = self.memory.read16(self.pc as usize);
        self.pc = self.pc.wrapping_add(2);
        v
    }

    /// Stores A at `addr`.
    fn stax(&mut self, addr: u16)
        ensures
            final(self)@ == (CpuState {
                mem: old(self)@.mem.update(addr as int, old(self).regs.a),
                ..old(self)@
            }),
    {
        self.memory.write(addr as usize, self.regs.a);
    }

    /// `n + 1`, wrapping, with S, Z, A, P set from it and C kept.
    fn inr(&mut self, n: u8) -> (r: u8)
        ensures
            r == (n + 1) % 256,
            final(self)@ == with_flags(old(self)@, inr_flags(old(self).regs.f, n)),
    {
        let r = n.wrapping_add(1);
        self.regs.update_flags_from(r as usize, SZP_MASK);
        self.regs.set_flag(Flag::A, n % 16 + 1 > 15);
        proof {
            lemma_flags_from_szp(old(self).regs.f, r);
        }
        r
    }

    /// `n - 1`, wrapping, with S, Z, A, P set from it and C kept.
    fn dcr(&mut self, n: u8) -> (r: u8)
        ensures
            r == (n + 255) % 256,
            final(self)@ == with_flags(old(self)@, dcr_flags(old(self).regs.f, n)),
    {
        let r = n.wrapping_sub(1);
        self.regs.update_flags_from(r as usize, SZP_MASK);
        self.regs.set_flag(Flag::A, r % 16 != 15);
        proof {
            lemma_flags_from_szp(old(self).regs.f, r);
        }
        r
    }

    /// `x + y + cin`, wrapping, with all five flags set from the addition.
    fn add_with_carry(&mut self, x: u8, y: u8, cin: bool) -> (r: u8)
        ensures
            r == add_result(x, y, cin),
            final(self)@ == with_flags(old(self)@, add_flags(old(self).regs.f, x, y, cin)),
    {
        let c: u8 = if cin { 1 } else { 0 };
        let r = x.wrapping_add(y).wrapping_add(c);
        self.regs.update_flags_from(r as usize, SZP_MASK);
        self.regs.set_flag(Flag::A, x % 16 + y % 16 + c > 15);
        self.regs.set_flag(Flag::C, (x as u16) + (y as u16) + (c as u16) > 0xff);
        proof {
            lemma_flags_from_szp(old(self).regs.f, r);
        }
        r
    }

    /// `x - y - cin`, wrapping, with all five flags set from the subtraction.
    fn sub_with_borrow(&mut self, x: u8, y: u8, cin: bool) -> (r: u8)
        ensures
            r == sub_result(x, y, cin),
            final(self)@ == with_flags(old(self)@, sub_flags(old(self).regs.f, x, y, cin)),
    {
        let c: u8 = if cin { 1 } else { 0 };
        let r = x.wrapping_sub(y).wrapping_sub(c);
        self.regs.update_flags_from(r as usize, SZP_MASK);
        self.regs.set_flag(Flag::A, x % 16 < y % 16 + c);
        self.regs.set_flag(Flag::C, (x as u16) < (y as u16) + (c as u16));
        proof {
            lemma_flags_from_szp(old(self).regs.f, r);
            assert(carry_in(cin) == c);
        }
        r
    }

    fn add(&mut self, regm1: u8, regm2: u8) -> (r: u8)
        ensures
            r == add_result(regm1, regm2, false),
            final(self)@ == with_flags(
                old(self)@,
                add_flags(old(self).regs.f, regm1, regm2, false),
            ),
    {
        self.add_with_carry(regm1, regm2, false)
    }

    fn adc(&mut self, regm1: u8, regm2: u8) -> (r: u8)
        ensures
            ({
                let cin = has_flag(old(self).regs.f, Flag::C);
                &&& r == add_result(regm1, regm2, cin)
                &&& final(self)@ == with_flags(
                    old(self)@,
                    add_flags(old(self).regs.f, regm1, regm2, cin),
                )
            }),
    {
        let cin = self.regs.get_flag(Flag::C);
        self.add_with_carry(regm1, regm2, cin)
    }

    fn sub(&mut self, regm1: u8, regm2: u8) -> (r: u8)
        ensures
            r == sub_result(regm1, regm2, false),
            final(self)@ == with_flags(
                old(self)@,
                sub_flags(old(self).regs.f, regm1, regm2, false),
            ),
    {
        self.sub_with_borrow(regm1, regm2, false)
    }

    fn sbb(&mut self, regm1: u8, regm2: u8) -> (r: u8)
        ensures
            ({
                let cin = has_flag(old(self).regs.f, Flag::C);
                &&& r == sub_result(regm1, regm2, cin)
                &&& final(self)@ == with_flags(
                    old(self)@,
                    sub_flags(old(self).regs.f, regm1, regm2, cin),
                )
            }),
    {
        let cin = self.regs.get_flag(Flag::C);
        self.sub_with_borrow(regm1, regm2, cin)
    }

    fn ana(&mut self, regm1: u8, regm2: u8) -> (r: u8)
        ensures
            r == regm1 & regm2,
            final(self)@ == with_flags(old(self)@, ana_flags(old(self).regs.f, regm1, regm2)),
    {
        let r = regm1 & regm2;
        self.regs.update_flags_from(r as usize, SZP_MASK);
        self.regs.set_flag(Flag::A, (regm1 | regm2) & 0x08 != 0);
        self.regs.set_flag(Flag::C, false);
        proof {
            lemma_flags_from_szp(old(self).regs.f, r);
        }
        r
    }

    fn xra(&mut self, regm1: u8, regm2: u8) -> (r: u8)
        ensures
            r == regm1 ^ regm2,
            final(self)@ == with_flags(old(self)@, logic_flags(old(self).regs.f, regm1 ^ regm2)),
    {
        let r = regm1 ^ regm2;
        self.logic_result(r);
        r
    }

    fn ora(&mut self, regm1: u8, regm2: u8) -> (r: u8)
        ensures
            r == regm1 | regm2,
            final(self)@ == with_flags(old(self)@, logic_flags(old(self).regs.f, regm1 | regm2)),
    {
        let r = regm1 | regm2;
        self.logic_result(r);
        r
    }

    /// Sets the flags for the result `r` of an exclusive or inclusive or.
    fn logic_result(&mut self, r: u8)
        ensures
            final(self)@ == with_flags(old(self)@, logic_flags(old(self).regs.f, r)),
    {
        self.regs.update_flags_from(r as usize, SZP_MASK);
        self.regs.set_flag(Flag::A, false);
        self.regs.set_flag(Flag::C, false);
        proof {
            lemma_flags_from_szp(old(self).regs.f, r);
        }
    }

    /// Sets the flags as `sub` would, without keeping the difference.
    fn cmp(&mut self, regm1: u8, regm2: u8)
        ensures
            final(self)@ == with_flags(
                old(self)@,
                sub_flags(old(self).regs.f, regm1, regm2, false),
            ),
    {
        self.sub(regm1, regm2);
    }

    /// Applies `op` to A and `x`.
    fn alu(&mut self, op: AluOp, x: u8)
        ensures
            final(self)@ == alu_state(old(self)@, op, x),
    {
        let a = self.regs.a;
        match op {
            AluOp::Add => self.regs.a = self.add(a, x),
            AluOp::Adc => self.regs.a = self.adc(a, x),
            AluOp::Sub => self.regs.a = self.sub(a, x),
            AluOp::Sbb => self.regs.a = self.sbb(a, x),
            AluOp::Ana => self.regs.a = self.ana(a, x),
            AluOp::Xra => self.regs.a = self.xra(a, x),
            AluOp::Ora => self.regs.a = self.ora(a, x),
            AluOp::Cmp => self.cmp(a, x),
        }
    }

    /// Jumps to the address operand when `cond` holds; otherwise skips it.
    fn jmp(&mut self, cond: bool)
        ensures
            cond ==> final(self)@ == (CpuState { pc: imm16(old(self)@), ..old(self)@ }),
            !cond ==> final(self)@ == advance(old(self)@, 2),
    {
        if cond {
            let addr = self.memory.read16(self.pc as usize);
            self.pc = addr;
        } else {
            self.pc = self.pc.wrapping_add(2);
        }
    }

    /// Calls the address operand when `cond` holds; otherwise skips it.
    fn call(&mut self, cond: bool) -> (ev: Event)
        ensures
            cond ==> final(self)@ == call_state(old(self)@) && ev == Event::Normal(17),
            !cond ==> final(self)@ == advance(old(self)@, 2) && ev == Event::Normal(11),
    {
        if cond {
            let addr = self.memory.read16(self.pc as usize);
            self.push(self.pc.wrapping_add(2));
            self.pc = addr;
            Event::Normal(17)
        } else {
            self.pc = self.pc.wrapping_add(2);
            Event::Normal(11)
        }
    }

    /// Returns when `cond` holds.
    fn ret(&mut self, cond: bool) -> (ev: Event)
        ensures
            cond ==> final(self)@ == ret_state(old(self)@) && ev == Event::Normal(11),
            !cond ==> final(self)@ == old(self)@ && ev == Event::Normal(5),
    {
        if cond {
            self.pc = self.pop();
            Event::Normal(11)
        } else {
            Event::Normal(5)
        }
    }

    /// Moves SP down by two and stores `data` there, little-endian.
    pub fn push(&mut self, data: u16)
        ensures
            final(self)@ == push_state(old(self)@, data),
    {
        self.sp = self.sp.wrapping_sub(2);
        self.memory.write16(self.sp as usize, data);
    }

    /// Loads the word at SP and moves SP up by two.
    pub fn pop(&mut self) -> (data: u16)
        ensures
            data == top_word(old(self)@),
            final(self)@ == pop_state(old(self)@),
    {
        let data = self.memory.read16(self.sp as usize);
        self.sp = self.sp.wrapping_add(2);
        data
    }

    /// Pushes PC and jumps to `addr`.
    fn rst(&mut self, addr: u16)
        ensures
            final(self)@ == (CpuState { pc: addr, ..push_state(old(self)@, old(self).pc) }),
    {
        self.push(self.pc);
        self.pc = addr;
    }

    fn get_stack_pair(&self, p: StackPair) -> (v: u16)
        ensures
            v == stack_pair_value(self@, p),
    {
        match p {
            StackPair::BC => self.regs.get_bc(),
            StackPair::DE => self.regs.get_de(),
            StackPair::HL => self.regs.get_hl(),
            StackPair::PSW => (self.regs.a as u16) * 256 + (((self.regs.f & 0xd7) | 0x02) as u16),
        }
    }

    fn set_stack_pair(&mut self, p: StackPair, v: u16)
        ensures
            final(self)@ == with_stack_pair(old(self)@, p, v),
    {
        match p {
            StackPair::BC => self.regs.set_bc(v),
            StackPair::DE => self.regs.set_de(v),
            StackPair::HL => self.regs.set_hl(v),
            StackPair::PSW => {
                self.regs.set_af(v);
                self.regs.f = (self.regs.f & 0xd7) | 0x02;
            },
        }
    }

    /// Reads the opcode at PC and moves PC on by one.
    pub fn fetch(&mut self) -> (op: u8)
        ensures
            op == old(self)@.mem[old(self).pc as int],
            final(self)@ == fetch_state(old(self)@),
    {
        let op = self.memory.read(self.pc as usize);
        self.pc = self.pc.wrapping_add(1);
        op
    }

    /// Executes the opcode `op`, whose operands, if any, start at PC.
    pub fn exec(&mut self, op: u8) -> (ev: Event)
        ensures
            (final(self)@, ev) == step(old(self)@, op),
            final(self).pc <= 0xffff && final(self).sp <= 0xffff,
    {
        let ins = decode(op);
        self.execute(ins)
    }

    /// Executes the decoded instruction `ins`.
    fn execute(&mut self, ins: Instr) -> (ev: Event)
        ensures
            (final(self)@, ev) == execute_spec(old(self)@, ins),
    {
        match ins {
            Instr::Nop | Instr::Lxi(..) | Instr::Stax(..) | Instr::Ldax(..) | Instr::Shld
                | Instr::Lhld | Instr::Sta | Instr::Lda | Instr::Mvi(..) | Instr::Mov(..)
                => self.exec_load_store(ins),
            Instr::Inx(..) | Instr::Dcx(..) => self.exec_pair_step(ins),
            Instr::Dad(p) => self.dad(p),
            Instr::Inr(..) | Instr::Dcr(..) => self.exec_step(ins),
            Instr::Rlc | Instr::Rrc | Instr::Ral | Instr::Rar | Instr::Daa | Instr::Cma | Instr::Stc
                | Instr::Cmc | Instr::Alu(..) | Instr::AluImm(..) => self.exec_accumulator(ins),
            Instr::Ret | Instr::RetIf(..) | Instr::Jmp | Instr::JmpIf(..) | Instr::Call
                | Instr::CallIf(..) | Instr::Rst(..) | Instr::Pchl => self.exec_branch(ins),
            Instr::Pop(..) | Instr::Push(..) | Instr::Xthl | Instr::Xchg | Instr::Sphl | Instr::Out
                | Instr::In | Instr::Hlt | Instr::Di | Instr::Ei => self.exec_stack_io(ins),
        }
    }

    /// Loads, stores and moves.
    fn exec_load_store(&mut self, ins: Instr) -> (ev: Event)
        requires
            ins is Nop || ins is Lxi || ins is Stax || ins is Ldax || ins is Shld || ins is Lhld
                || ins is Sta || ins is Lda || ins is Mvi || ins is Mov,
        ensures
            (final(self)@, ev) == load_store_spec(old(self)@, ins),
    {
        match ins {
            Instr::Nop => Event::Normal(4),
            Instr::Lxi(p) => {
                let data = self.read_imm16();
                self.set_pair(p, data);
                Event::Normal(10)
            },
            Instr::Stax(p) => {
                let addr = self.get_pair(p);
                self.stax(addr);
                Event::Normal(7)
            },
            Instr::Ldax(p) => {
                let addr = self.get_pair(p);
                self.regs.a = self.memory.read(addr as usize);
                Event::Normal(7)
            },
            Instr::Shld => {
                let addr = self.read_imm16();
                let data = self.regs.get_hl();
                self.memory.write16(addr as usize, data);
                Event::Normal(16)
            },
            Instr::Lhld => {
                let addr = self.read_imm16();
                let data = self.memory.read16(addr as usize);
                self.regs.set_hl(data);
                Event::Normal(16)
            },
            Instr::Sta => {
                let addr = self.read_imm16();
                self.memory.write(addr as usize, self.regs.a);
                Event::Normal(13)
            },
            Instr::Lda => {
                let addr = self.read_imm16();
                self.regs.a = self.memory.read(addr as usize);
                Event::Normal(13)
            },
            Instr::Mvi(r) => {
                let data = self.read_imm8();
                self.set_reg(r, data);
                Event::Normal(if r == Reg::M { 10 } else { 7 })
            },
            Instr::Mov(d, r) => {
                let v = self.get_reg(r);
                self.set_reg(d, v);
                Event::Normal(if d == Reg::M || r == Reg::M { 7 } else { 5 })
            },
            // excluded by `requires`
            _ => Event::Normal(4),
        }
    }

    /// Increments and decrements of register pairs.
    fn exec_pair_step(&mut self, ins: Instr) -> (ev: Event)
        requires
            ins is Inx || ins is Dcx,
        ensures
            (final(self)@, ev) == pair_step_spec(old(self)@, ins),
    {
        match ins {
            Instr::Inx(p) => {
                let v = self.get_pair(p);
                self.set_pair(p, v.wrapping_add(1));
                Event::Normal(5)
            },
            Instr::Dcx(p) => {
                let v = self.get_pair(p);
                self.set_pair(p, v.wrapping_sub(1));
                Event::Normal(5)
            },
            // excluded by `requires`
            _ => Event::Normal(4),
        }
    }

    /// Adds the pair `p` to HL; only C changes, set on a carry out of bit 15.
    fn dad(&mut self, p: Pair) -> (ev: Event)
        ensures
            (final(self)@, ev) == dad_spec(old(self)@, Instr::Dad(p)),
    {
        let ghost s = self@;
        let hl = self.regs.get_hl();
        let v = self.get_pair(p);
        let carry = (hl as u32) + (v as u32) > 0xffff;
        let sum = hl.wrapping_add(v);
        assert(sum == (hl + v) % 0x10000);
        self.regs.set_flag(Flag::C, carry);
        let ghost t = self@;
        assert(t == with_flags(s, crate::registers::with_flag(s.regs.f, Flag::C, hl + v > 0xffff)));
        self.regs.set_hl(sum);
        assert(self@ == with_pair(t, Pair::HL, sum));
        Event::Normal(10)
    }

    /// Increments and decrements of eight-bit operands.
    fn exec_step(&mut self, ins: Instr) -> (ev: Event)
        requires
            ins is Inr || ins is Dcr,
        ensures
            (final(self)@, ev) == step_spec(old(self)@, ins),
    {
        match ins {
            Instr::Inr(r) => {
                let x = self.get_reg(r);
                let n = self.inr(x);
                self.set_reg(r, n);
                Event::Normal(if r == Reg::M { 10 } else { 5 })
            },
            Instr::Dcr(r) => {
                let x = self.get_reg(r);
                let n = self.dcr(x);
                self.set_reg(r, n);
                Event::Normal(if r == Reg::M { 10 } else { 5 })
            },
            // excluded by `requires`
            _ => Event::Normal(4),
        }
    }

    /// Operations on the accumulator and the carry.
    fn exec_accumulator(&mut self, ins: Instr) -> (ev: Event)
        requires
            ins is Rlc || ins is Rrc || ins is Ral || ins is Rar || ins is Daa || ins is Cma
                || ins is Stc || ins is Cmc || ins is Alu || ins is AluImm,
        ensures
            (final(self)@, ev) == accumulator_spec(old(self)@, ins),
    {
        match ins {
            Instr::Rlc => {
                let a = self.regs.a;
                self.regs.a = (a % 128) * 2 + a / 128;
                self.regs.set_flag(Flag::C, a >= 0x80);
                Event::Normal(4)
            },
            Instr::Rrc => {
                let a = self.regs.a;
                self.regs.a = a / 2 + (a % 2) * 128;
                self.regs.set_flag(Flag::C, a % 2 == 1);
                Event::Normal(4)
            },
            Instr::Ral => {
                let a = self.regs.a;
                let c: u8 = if self.regs.get_flag(Flag::C) { 1 } else { 0 };
                self.regs.a = (a % 128) * 2 + c;
                self.regs.set_flag(Flag::C, a >= 0x80);
                Event::Normal(4)
            },
            Instr::Rar => {
                let a = self.regs.a;
                let c: u8 = if self.regs.get_flag(Flag::C) { 0x80 } else { 0 };
                self.regs.a = a / 2 + c;
                self.regs.set_flag(Flag::C, a % 2 == 1);
                Event::Normal(4)
            },
            Instr::Daa => {
                self.daa();
                Event::Normal(4)
            },
            Instr::Cma => {
                self.regs.a = !self.regs.a;
                Event::Normal(4)
            },
            Instr::Stc => {
                self.regs.set_flag(Flag::C, true);
                Event::Normal(4)
            },
            Instr::Cmc => {
                let carry = self.regs.get_flag(Flag::C);
                self.regs.set_flag(Flag::C, !carry);
                Event::Normal(4)
            },
            Instr::Alu(op, r) => {
                let x = self.get_reg(r);
                self.alu(op, x);
                Event::Normal(if r == Reg::M { 7 } else { 4 })
            },
            Instr::AluImm(op) => {
                let x = self.read_imm8();
                self.alu(op, x);
                Event::Normal(7)
            },
            // excluded by `requires`
            _ => Event::Normal(4),
        }
    }

    /// Jumps, calls, returns and restarts.
    fn exec_branch(&mut self, ins: Instr) -> (ev: Event)
        requires
            ins is Ret || ins is RetIf || ins is Jmp || ins is JmpIf || ins is Call || ins is CallIf
                || ins is Rst || ins is Pchl,
        ensures
            (final(self)@, ev) == branch_spec(old(self)@, ins),
    {
        match ins {
            Instr::Ret => {
                self.pc = self.pop();
                Event::Normal(10)
            },
            Instr::RetIf(c) => {
                let taken = self.condition(c);
                self.ret(taken)
            },
            Instr::Jmp => {
                self.jmp(true);
                Event::Normal(10)
            },
            Instr::JmpIf(c) => {
                let taken = self.condition(c);
                self.jmp(taken);
                Event::Normal(10)
            },
            Instr::Call => self.call(true),
            Instr::CallIf(c) => {
                let taken = self.condition(c);
                self.call(taken)
            },
            Instr::Rst(n) => {
                self.rst((n as u16) * 8);
                Event::Normal(11)
            },
            Instr::Pchl => {
                self.pc = self.regs.get_hl();
                Event::Normal(5)
            },
            // excluded by `requires`
            _ => Event::Normal(4),
        }
    }

    /// Stack, exchange, input/output and interrupt control.
    fn exec_stack_io(&mut self, ins: Instr) -> (ev: Event)
        requires
            ins is Pop || ins is Push || ins is Xthl || ins is Xchg || ins is Sphl || ins is Out
                || ins is In || ins is Hlt || ins is Di || ins is Ei,
        ensures
            (final(self)@, ev) == stack_io_spec(old(self)@, ins),
    {
        match ins {
            Instr::Pop(p) => {
                let data = self.pop();
                self.set_stack_pair(p, data);
                Event::Normal(10)
            },
            Instr::Push(p) => {
                let data = self.get_stack_pair(p);
                self.push(data);
                Event::Normal(11)
            },
            Instr::Xthl => {
                let data = self.memory.read16(self.sp as usize);
                let hl = self.regs.get_hl();
                self.memory.write16(self.sp as usize, hl);
                self.regs.set_hl(data);
                Event::Normal(18)
            },
            Instr::Xchg => {
                let tmp = self.regs.get_hl();
                let de = self.regs.get_de();
                self.regs.set_hl(de);
                self.regs.set_de(tmp);
                proof {
                    lemma_pair_bytes(old(self).regs.d, old(self).regs.e);
                    lemma_pair_bytes(old(self).regs.h, old(self).regs.l);
                }
                Event::Normal(5)
            },
            Instr::Sphl => {
                self.sp = self.regs.get_hl();
                Event::Normal(5)
            },
            Instr::Out => {
                let port = self.read_imm8();
                Event::Output(port, self.regs.a, 10)
            },
            Instr::In => {
                let port = self.read_imm8();
                Event::Input(port, 10)
            },
            Instr::Hlt => Event::Halt(7),
            Instr::Di => {
                self.inter = false;
                Event::Normal(4)
            },
            Instr::Ei => {
                self.inter = true;
                Event::Normal(4)
            },
            // excluded by `requires`
            _ => Event::Normal(4),
        }
    }

    /// Decimal-adjusts A after a BCD addition.
    fn daa(&mut self)
        ensures
            ({
                let s = old(self)@;
                let corr = daa_correction(s.regs.a, s.regs.f);
                final(self)@ == with_flags(
                    with_reg(s, Reg::A, add_result(s.regs.a, corr, false)),
                    crate::registers::with_flag(
                        add_flags(s.regs.f, s.regs.a, corr, false),
                        Flag::C,
                        daa_carry(s.regs.a, s.regs.f),
                    ),
                )
            }),
    {
        let a = self.regs.a;
        let hi = a / 16;
        let lo = a % 16;
        let mut correction: u8 = 0;
        let mut carry = self.regs.get_flag(Flag::C);
        if lo > 9 || self.regs.get_flag(Flag::A) {
            correction = correction + 0x06;
        }
        if hi > 9 || carry || (hi >= 9 && lo > 9) {
            correction = correction + 0x60;
            carry = true;
        }
        self.regs.a = self.add(a, correction);
        self.regs.set_flag(Flag::C, carry);
    }
}

impl Device<Event> for CPU {
    fn fetch(&mut self) -> u8 {
        CPU::fetch(self)
    }

    fn exec(&mut self, op: u8) -> Event {
        CPU::exec(self, op)
    }
}

} // verus!
