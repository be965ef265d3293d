use vstd::prelude::*;
use vstd::string::StringExecFns;

use crate::instruction::{decode, AluOp, Cond, Instr, Pair, Reg, StackPair};
use crate::memory::{word_at, Memory, MEMORY_SIZE};

verus! {

/// The lowercase hexadecimal digit for `d`, as text.
pub open spec fn digit_text(d: int) -> Seq<char> {
    if d == 0 {
        "0"@
    } else if d == 1 {
        "1"@
    } else if d == 2 {
        "2"@
    } else if d == 3 {
        "3"@
    } else if d == 4 {
        "4"@
    } else if d == 5 {
        "5"@
    } else if d == 6 {
        "6"@
    } else if d == 7 {
        "7"@
    } else if d == 8 {
        "8"@
    } else if d == 9 {
        "9"@
    } else if d == 10 {
        "a"@
    } else if d == 11 {
        "b"@
    } else if d == 12 {
        "c"@
    } else if d == 13 {
        "d"@
    } else if d == 14 {
        "e"@
    } else {
        "f"@
    }
}

pub open spec fn pair_name(x: Pair) -> Seq<char> {
    match x {
        Pair::BC => "B"@,
        Pair::DE => "D"@,
        Pair::HL => "H"@,
        Pair::SP => "SP"@,
    }
}

pub open spec fn stack_pair_name(x: StackPair) -> Seq<char> {
    match x {
        StackPair::BC => "B"@,
        StackPair::DE => "D"@,
        StackPair::HL => "H"@,
        StackPair::PSW => "PSW"@,
    }
}

pub open spec fn cond_name(x: Cond) -> Seq<char> {
    match x {
        Cond::NZ => "NZ"@,
        Cond::Z => "Z"@,
        Cond::NC => "NC"@,
        Cond::C => "C"@,
        Cond::PO => "PO"@,
        Cond::PE => "PE"@,
        Cond::P => "P"@,
        Cond::M => "M"@,
    }
}

pub open spec fn alu_name(x: AluOp) -> Seq<char> {
    match x {
        AluOp::Add => "ADD"@,
        AluOp::Adc => "ADC"@,
        AluOp::Sub => "SUB"@,
        AluOp::Sbb => "SBB"@,
        AluOp::Ana => "ANA"@,
        AluOp::Xra => "XRA"@,
        AluOp::Ora => "ORA"@,
        AluOp::Cmp => "CMP"@,
    }
}

pub open spec fn alu_imm_name(x: AluOp) -> Seq<char> {
    match x {
        AluOp::Add => "ADI"@,
        AluOp::Adc => "ACI"@,
        AluOp::Sub => "SUI"@,
        AluOp::Sbb => "SBI"@,
        AluOp::Ana => "ANI"@,
        AluOp::Xra => "XRI"@,
        AluOp::Ora => "ORI"@,
        AluOp::Cmp => "CPI"@,
    }
}

pub open spec fn reg_name(x: Reg) -> Seq<char> {
    match x {
        Reg::B => "B"@,
        Reg::C => "C"@,
        Reg::D => "D"@,
        Reg::E => "E"@,
        Reg::H => "H"@,
        Reg::L => "L"@,
        Reg::M => "M"@,
        Reg::A => "A"@,
    }
}


/// `n` in lowercase hexadecimal, without leading zeros.
pub open spec fn hex(n: nat) -> Seq<char>
    decreases n,
{
    if n < 16 {
        digit_text(n as int)
    } else {
        hex(n / 16) + digit_text((n % 16) as int)
    }
}

/// An immediate value: `0x` and its digits.
pub open spec fn imm_text(v: u16) -> Seq<char> {
    "0x"@ + hex(v as nat)
}

/// A memory address: `$(0x...)`.
pub open spec fn addr_text(v: u16) -> Seq<char> {
    "$(0x"@ + hex(v as nat) + ")"@
}

/// An eight-bit operand; `M` is shown as the address in HL, `rp`.
pub open spec fn operand_text(r: Reg, rp: u16) -> Seq<char> {
    if r == Reg::M {
        addr_text(rp)
    } else {
        reg_name(r)
    }
}

/// The assembly text of `i`, given the byte and the word after the opcode and HL.
pub open spec fn instr_text(i: Instr, imm8: u8, imm16: u16, rp: u16) -> Seq<char> {
    match i {
        Instr::Nop => "NOP"@,
        Instr::Lxi(p) => "LXI "@ + pair_name(p) + ", "@ + imm_text(imm16),
        Instr::Stax(p) => "STAX "@ + pair_name(p),
        Instr::Ldax(p) => "LDAX "@ + pair_name(p),
        Instr::Shld => "SHLD "@ + addr_text(imm16),
        Instr::Lhld => "LHLD "@ + addr_text(imm16),
        Instr::Sta => "STA "@ + addr_text(imm16),
        Instr::Lda => "LDA "@ + addr_text(imm16),
        Instr::Inx(p) => "INX "@ + pair_name(p),
        Instr::Dcx(p) => "DCX "@ + pair_name(p),
        Instr::Inr(r) => "INR "@ + operand_text(r, rp),
        Instr::Dcr(r) => "DCR "@ + operand_text(r, rp),
        Instr::Mvi(r) => "MVI "@ + operand_text(r, rp) + ", "@ + imm_text(imm8 as u16),
        Instr::Dad(p) => "DAD "@ + pair_name(p),
        Instr::Rlc => "RLC"@,
        Instr::Rrc => "RRC"@,
        Instr::Ral => "RAL"@,
        Instr::Rar => "RAR"@,
        Instr::Daa => "DAA"@,
        Instr::Cma => "CMA"@,
        Instr::Stc => "STC"@,
        Instr::Cmc => "CMC"@,
        Instr::Mov(d, s) => "MOV "@ + operand_text(d, rp) + ", "@ + operand_text(s, rp),
        Instr::Hlt => "HLT"@,
        Instr::Alu(op, r) => alu_name(op) + " "@ + operand_text(r, rp),
        Instr::AluImm(op) => alu_imm_name(op) + " "@ + imm_text(imm8 as u16),
        Instr::Ret => "RET"@,
        Instr::RetIf(c) => "R"@ + cond_name(c),
        Instr::Jmp => "JMP "@ + addr_text(imm16),
        Instr::JmpIf(c) => "J"@ + cond_name(c) + " "@ + addr_text(imm16),
        Instr::Call => "CALL "@ + addr_text(imm16),
        Instr::CallIf(c) => "C"@ + cond_name(c) + " "@ + addr_text(imm16),
        Instr::Pop(q) => "POP "@ + stack_pair_name(q),
        Instr::Push(q) => "PUSH "@ + stack_pair_name(q),
        Instr::Rst(n) => "RST "@ + hex(n as nat),
        Instr::Out => "OUT "@ + imm_text(imm8 as u16),
        Instr::In => "IN "@ + imm_text(imm8 as u16),
        Instr::Xthl => "XTHL"@,
        Instr::Xchg => "XCHG"@,
        Instr::Di => "DI"@,
        Instr::Ei => "EI"@,
        Instr::Pchl => "PCHL"@,
        Instr::Sphl => "SPHL"@,
    }
}

/// One line of a listing: the address in hexadecimal, four spaces, the instruction.
pub open spec fn listing_line(pc: u16, i: Instr, imm8: u8, imm16: u16, rp: u16) -> Seq<char> {
    hex(pc as nat) + "    "@ + instr_text(i, imm8, imm16, rp)
}

/// Prints instructions as assembly text, one line each, over the opcode chart of `decode`.
pub struct Disassembler {}

fn digit(d: u16) -> (t: &'static str)
    requires
        d < 16,
    ensures
        t@ == digit_text(d as int),
{
    if d == 0 {
        "0"
    } else if d == 1 {
        "1"
    } else if d == 2 {
        "2"
    } else if d == 3 {
        "3"
    } else if d == 4 {
        "4"
    } else if d == 5 {
        "5"
    } else if d == 6 {
        "6"
    } else if d == 7 {
        "7"
    } else if d == 8 {
        "8"
    } else if d == 9 {
        "9"
    } else if d == 10 {
        "a"
    } else if d == 11 {
        "b"
    } else if d == 12 {
        "c"
    } else if d == 13 {
        "d"
    } else if d == 14 {
        "e"
    } else {
        "f"
    }
}

fn pair_str(x: Pair) -> (t: &'static str)
    ensures
        t@ == pair_name(x),
{
    match x {
        Pair::BC => "B",
        Pair::DE => "D",
        Pair::HL => "H",
        Pair::SP => "SP",
    }
}

fn stack_pair_str(x: StackPair) -> (t: &'static str)
    ensures
        t@ == stack_pair_name(x),
{
    match x {
        StackPair::BC => "B",
        StackPair::DE => "D",
        StackPair::HL => "H",
        StackPair::PSW => "PSW",
    }
}

fn cond_str(x: Cond) -> (t: &'static str)
    ensures
        t@ == cond_name(x),
{
    match x {
        Cond::NZ => "NZ",
        Cond::Z => "Z",
        Cond::NC => "NC",
        Cond::C => "C",
        Cond::PO => "PO",
        Cond::PE => "PE",
        Cond::P => "P",
        Cond::M => "M",
    }
}

fn alu_str(x: AluOp) -> (t: &'static str)
    ensures
        t@ == alu_name(x),
{
    match x {
        AluOp::Add => "ADD",
        AluOp::Adc => "ADC",
        AluOp::Sub => "SUB",
        AluOp::Sbb => "SBB",
        AluOp::Ana => "ANA",
        AluOp::Xra => "XRA",
        AluOp::Ora => "ORA",
        AluOp::Cmp => "CMP",
    }
}

fn alu_imm_str(x: AluOp) -> (t: &'static str)
    ensures
        t@ == alu_imm_name(x),
{
    match x {
        AluOp::Add => "ADI",
        AluOp::Adc => "ACI",
        AluOp::Sub => "SUI",
        AluOp::Sbb => "SBI",
        AluOp::Ana => "ANI",
        AluOp::Xra => "XRI",
        AluOp::Ora => "ORI",
        AluOp::Cmp => "CPI",
    }
}

fn reg_str(x: Reg) -> (t: &'static str)
    ensures
        t@ == reg_name(x),
{
    match x {
        Reg::B => "B",
        Reg::C => "C",
        Reg::D => "D",
        Reg::E => "E",
        Reg::H => "H",
        Reg::L => "L",
        Reg::M => "M",
        Reg::A => "A",
    }
}

/// `a` followed by `b`.
fn join(a: String, b: &str) -> (r: String)
    ensures
        r@ == a@ + b@,
{
    let mut a = a;
    a.append(b);
    a
}

fn hex_text(n: u16) -> (t: String)
    ensures
        t@ == hex(n as nat),
    decreases n,
{
    if n < 16 {
        digit(n).to_owned()
    } else {
        join(hex_text(n / 16), digit(n % 16))
    }
}

fn imm(v: u16) -> (t: String)
    ensures
        t@ == imm_text(v),
{
    join("0x".to_owned(), hex_text(v).as_str())
}

fn addr(v: u16) -> (t: String)
    ensures
        t@ == addr_text(v),
{
    join(join("$(0x".to_owned(), hex_text(v).as_str()), ")")
}

fn operand(r: Reg, rp: u16) -> (t: String)
    ensures
        t@ == operand_text(r, rp),
{
    if r == Reg::M {
        addr(rp)
    } else {
        reg_str(r).to_owned()
    }
}

/// `head` followed by `tail`.
fn named(head: &str, tail: String) -> (t: String)
    ensures
        t@ == head@ + tail@,
{
    join(head.to_owned(), tail.as_str())
}

/// The assembly text of `i`.
fn instruction(i: Instr, imm8: u8, imm16: u16, rp: u16) -> (t: String)
    ensures
        t@ == instr_text(i, imm8, imm16, rp),
{
    match i {
        Instr::Nop => "NOP".to_owned(),
        Instr::Lxi(p) => {
            let first = join(named("LXI ", pair_str(p).to_owned()), ", ");
            join(first, imm(imm16).as_str())
        },
        Instr::Stax(p) => named("STAX ", pair_str(p).to_owned()),
        Instr::Ldax(p) => named("LDAX ", pair_str(p).to_owned()),
        Instr::Shld => named("SHLD ", addr(imm16)),
        Instr::Lhld => named("LHLD ", addr(imm16)),
        Instr::Sta => named("STA ", addr(imm16)),
        Instr::Lda => named("LDA ", addr(imm16)),
        Instr::Inx(p) => named("INX ", pair_str(p).to_owned()),
        Instr::Dcx(p) => named("DCX ", pair_str(p).to_owned()),
        Instr::Inr(r) => named("INR ", operand(r, rp)),
        Instr::Dcr(r) => named("DCR ", operand(r, rp)),
        Instr::Mvi(r) => join(join(named("MVI ", operand(r, rp)), ", "), imm(imm8 as u16).as_str()),
        Instr::Dad(p) => named("DAD ", pair_str(p).to_owned()),
        Instr::Rlc => "RLC".to_owned(),
        Instr::Rrc => "RRC".to_owned(),
        Instr::Ral => "RAL".to_owned(),
        Instr::Rar => "RAR".to_owned(),
        Instr::Daa => "DAA".to_owned(),
        Instr::Cma => "CMA".to_owned(),
        Instr::Stc => "STC".to_owned(),
        Instr::Cmc => "CMC".to_owned(),
        Instr::Mov(d, s) => {
            let first = join(named("MOV ", operand(d, rp)), ", ");
            join(first, operand(s, rp).as_str())
        },
        Instr::Hlt => "HLT".to_owned(),
        Instr::Alu(op, r) => join(join(alu_str(op).to_owned(), " "), operand(r, rp).as_str()),
        Instr::AluImm(op) => join(join(alu_imm_str(op).to_owned(), " "), imm(imm8 as u16).as_str()),
        Instr::Ret => "RET".to_owned(),
        Instr::RetIf(c) => named("R", cond_str(c).to_owned()),
        Instr::Jmp => named("JMP ", addr(imm16)),
        Instr::JmpIf(c) => {
            let first = join(named("J", cond_str(c).to_owned()), " ");
            join(first, addr(imm16).as_str())
        },
        Instr::Call => named("CALL ", addr(imm16)),
        Instr::CallIf(c) => {
            let first = join(named("C", cond_str(c).to_owned()), " ");
            join(first, addr(imm16).as_str())
        },
        Instr::Pop(q) => named("POP ", stack_pair_str(q).to_owned()),
        Instr::Push(q) => named("PUSH ", stack_pair_str(q).to_owned()),
        Instr::Rst(n) => named("RST ", hex_text(n as u16)),
        Instr::Out => named("OUT ", imm(imm8 as u16)),
        Instr::In => named("IN ", imm(imm8 as u16)),
        Instr::Xthl => "XTHL".to_owned(),
        Instr::Xchg => "XCHG".to_owned(),
        Instr::Di => "DI".to_owned(),
        Instr::Ei => "EI".to_owned(),
        Instr::Pchl => "PCHL".to_owned(),
        Instr::Sphl => "SPHL".to_owned(),
    }
}

impl Disassembler {
    /// The line for the opcode `op` at address `pc`, whose operands follow it in
    /// `memory`; `rp` is HL, the address that an `M` operand names.
    pub fn disassemble<Mem: Memory>(
        &self,
        memory: &Mem,
        pc: &u16,
        op: &u8,
        rp: &u16,
    ) -> (line: String)
        requires
            memory.bytes().len() == MEMORY_SIZE,
        ensures
            ({
                let next = (*pc + 1) % 0x10000;
                line@ == listing_line(
                    *pc,
                    crate::instruction::decode_spec(*op),
                    memory.bytes()[next],
                    word_at(memory.bytes(), next),
                    *rp,
                )
            }),
    {
        let next = pc.wrapping_add(1) as usize;
        let imm8 = memory.read(next);
        let imm16 = memory.read16(next);
        let ins = decode(*op);
        join(join(hex_text(*pc), "    "), instruction(ins, imm8, imm16, *rp).as_str())
    }

    /// A disassembler; the opcode chart it reads is `decode`.
    pub fn new() -> (d: Self) {
        Disassembler {}
    }
}

} // verus!
