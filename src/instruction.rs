use vstd::prelude::*;

verus! {

/// An eight-bit operand: a register, or `M`, the byte at the address in HL.
#[derive(Clone, Copy, Debug, PartialEq, Eq, Structural)]
pub enum Reg {
    B,
    C,
    D,
    E,
    H,
    L,
    M,
    A,
}

/// A register pair as named by the load, increment and add instructions.
#[derive(Clone, Copy, Debug, PartialEq, Eq, Structural)]
pub enum Pair {
    BC,
    DE,
    HL,
    SP,
}

/// A register pair as named by the stack instructions; PSW is A with the flags byte.
#[derive(Clone, Copy, Debug, PartialEq, Eq, Structural)]
pub enum StackPair {
    BC,
    DE,
    HL,
    PSW,
}

/// A condition for a conditional jump, call or return.
#[derive(Clone, Copy, Debug, PartialEq, Eq, Structural)]
pub enum Cond {
    /// Z clear.
    NZ,
    /// Z set.
    Z,
    /// C clear.
    NC,
    /// C set.
    C,
    /// P clear (parity odd).
    PO,
    /// P set (parity even).
    PE,
    /// S clear (plus).
    P,
    /// S set (minus).
    M,
}

/// An operation of the arithmetic and logic group, applied to A and an operand.
#[derive(Clone, Copy, Debug, PartialEq, Eq, Structural)]
pub enum AluOp {
    Add,
    Adc,
    Sub,
    Sbb,
    Ana,
    Xra,
    Ora,
    Cmp,
}

/// A decoded instruction. Immediate operands follow the opcode in memory and are not
/// part of it.
#[derive(Clone, Copy, Debug, PartialEq, Eq, Structural)]
pub enum Instr {
    Nop,
    Lxi(Pair),
    Stax(Pair),
    Ldax(Pair),
    Shld,
    Lhld,
    Sta,
    Lda,
    Inx(Pair),
    Dcx(Pair),
    Inr(Reg),
    Dcr(Reg),
    Mvi(Reg),
    Dad(Pair),
    Rlc,
    Rrc,
    Ral,
    Rar,
    Daa,
    Cma,
    Stc,
    Cmc,
    /// Destination, then source.
    Mov(Reg, Reg),
    Hlt,
    Alu(AluOp, Reg),
    AluImm(AluOp),
    Ret,
    RetIf(Cond),
    Jmp,
    JmpIf(Cond),
    Call,
    CallIf(Cond),
    Pop(StackPair),
    Push(StackPair),
    /// Restart at address 8 times the number.
    Rst(u8),
    Out,
    In,
    Xthl,
    Xchg,
    Di,
    Ei,
    Pchl,
    Sphl,
}

/// The operand that the three-bit field `i` names.
pub open spec fn reg_field(i: int) -> Reg {
    if i == 0 {
        Reg::B
    } else if i == 1 {
        Reg::C
    } else if i == 2 {
        Reg::D
    } else if i == 3 {
        Reg::E
    } else if i == 4 {
        Reg::H
    } else if i == 5 {
        Reg::L
    } else if i == 6 {
        Reg::M
    } else {
        Reg::A
    }
}

/// The register pair that the two-bit field `i` names.
pub open spec fn pair_field(i: int) -> Pair {
    if i == 0 {
        Pair::BC
    } else if i == 1 {
        Pair::DE
    } else if i == 2 {
        Pair::HL
    } else {
        Pair::SP
    }
}

/// The stack register pair that the two-bit field `i` names.
pub open spec fn stack_pair_field(i: int) -> StackPair {
    if i == 0 {
        StackPair::BC
    } else if i == 1 {
        StackPair::DE
    } else if i == 2 {
        StackPair::HL
    } else {
        StackPair::PSW
    }
}

/// The condition that the three-bit field `i` names.
pub open spec fn cond_field(i: int) -> Cond {
    if i == 0 {
        Cond::NZ
    } else if i == 1 {
        Cond::Z
    } else if i == 2 {
        Cond::NC
    } else if i == 3 {
        Cond::C
    } else if i == 4 {
        Cond::PO
    } else if i == 5 {
        Cond::PE
    } else if i == 6 {
        Cond::P
    } else {
        Cond::M
    }
}

/// The arithmetic or logic operation that the three-bit field `i` names.
pub open spec fn alu_field(i: int) -> AluOp {
    if i == 0 {
        AluOp::Add
    } else if i == 1 {
        AluOp::Adc
    } else if i == 2 {
        AluOp::Sub
    } else if i == 3 {
        AluOp::Sbb
    } else if i == 4 {
        AluOp::Ana
    } else if i == 5 {
        AluOp::Xra
    } else if i == 6 {
        AluOp::Ora
    } else {
        AluOp::Cmp
    }
}

/// The instruction that opcode `op` encodes, read from its bit fields: the opcode is
/// `xx yyy zzz`, and `yyy` is also read as a pair `pp` and a bit `q`.
///
/// The undocumented encodings decode as their documented twins: 0x08, 0x10, 0x18, 0x20,
/// 0x28, 0x30, 0x38 as NOP, 0xCB as JMP, 0xD9 as RET, 0xDD, 0xED, 0xFD as CALL.
#[verifier::opaque]
pub open spec fn decode_spec(op: u8) -> Instr {
    let x = op as int / 64;
    let y = (op as int / 8) % 8;
    let z = op as int % 8;
    let p = y / 2;
    let q = y % 2;
    if x == 0 {
        if z == 0 {
            Instr::Nop
        } else if z == 1 {
            if q == 0 {
                Instr::Lxi(pair_field(p))
            } else {
                Instr::Dad(pair_field(p))
            }
        } else if z == 2 {
            if q == 0 {
                if p <= 1 {
                    Instr::Stax(pair_field(p))
                } else if p == 2 {
                    Instr::Shld
                } else {
                    Instr::Sta
                }
            } else {
                if p <= 1 {
                    Instr::Ldax(pair_field(p))
                } else if p == 2 {
                    Instr::Lhld
                } else {
                    Instr::Lda
                }
            }
        } else if z == 3 {
            if q == 0 {
                Instr::Inx(pair_field(p))
            } else {
                Instr::Dcx(pair_field(p))
            }
        } else if z == 4 {
            Instr::Inr(reg_field(y))
        } else if z == 5 {
            Instr::Dcr(reg_field(y))
        } else if z == 6 {
            Instr::Mvi(reg_field(y))
        } else if y == 0 {
            Instr::Rlc
        } else if y == 1 {
            Instr::Rrc
        } else if y == 2 {
            Instr::Ral
        } else if y == 3 {
            Instr::Rar
        } else if y == 4 {
            Instr::Daa
        } else if y == 5 {
            Instr::Cma
        } else if y == 6 {
            Instr::Stc
        } else {
            Instr::Cmc
        }
    } else if x == 1 {
        if y == 6 && z == 6 {
            Instr::Hlt
        } else {
            Instr::Mov(reg_field(y), reg_field(z))
        }
    } else if x == 2 {
        Instr::Alu(alu_field(y), reg_field(z))
    } else if z == 0 {
        Instr::RetIf(cond_field(y))
    } else if z == 1 {
        if q == 0 {
            Instr::Pop(stack_pair_field(p))
        } else if p <= 1 {
            Instr::Ret
        } else if p == 2 {
            Instr::Pchl
        } else {
            Instr::Sphl
        }
    } else if z == 2 {
        Instr::JmpIf(cond_field(y))
    } else if z == 3 {
        if y <= 1 {
            Instr::Jmp
        } else if y == 2 {
            Instr::Out
        } else if y == 3 {
            Instr::In
        } else if y == 4 {
            Instr::Xthl
        } else if y == 5 {
            Instr::Xchg
        } else if y == 6 {
            Instr::Di
        } else {
            Instr::Ei
        }
    } else if z == 4 {
        Instr::CallIf(cond_field(y))
    } else if z == 5 {
        if q == 0 {
            Instr::Push(stack_pair_field(p))
        } else {
            Instr::Call
        }
    } else if z == 6 {
        Instr::AluImm(alu_field(y))
    } else {
        Instr::Rst(y as u8)
    }
}

/// Decodes an opcode through the opcode chart, written out one entry per byte value.
pub fn decode(op: u8) -> (i: Instr)
    ensures
        i == decode_spec(op),
{
    reveal(decode_spec);
    match op {
            0x00 => Instr::Nop,
            0x01 => Instr::Lxi(Pair::BC),
            0x02 => Instr::Stax(Pair::BC),
            0x03 => Instr::Inx(Pair::BC),
            0x04 => Instr::Inr(Reg::B),
            0x05 => Instr::Dcr(Reg::B),
            0x06 => Instr::Mvi(Reg::B),
            0x07 => Instr::Rlc,
            0x08 => Instr::Nop,
            0x09 => Instr::Dad(Pair::BC),
            0x0a => Instr::Ldax(Pair::BC),
            0x0b => Instr::Dcx(Pair::BC),
            0x0c => Instr::Inr(Reg::C),
            0x0d => Instr::Dcr(Reg::C),
            0x0e => Instr::Mvi(Reg::C),
            0x0f => Instr::Rrc,
            0x10 => Instr::Nop,
            0x11 => Instr::Lxi(Pair::DE),
            0x12 => Instr::Stax(Pair::DE),
            0x13 => Instr::Inx(Pair::DE),
            0x14 => Instr::Inr(Reg::D),
            0x15 => Instr::Dcr(Reg::D),
            0x16 => Instr::Mvi(Reg::D),
            0x17 => Instr::Ral,
            0x18 => Instr::Nop,
            0x19 => Instr::Dad(Pair::DE),
            0x1a => Instr::Ldax(Pair::DE),
            0x1b => Instr::Dcx(Pair::DE),
            0x1c => Instr::Inr(Reg::E),
            0x1d => Instr::Dcr(Reg::E),
            0x1e => Instr::Mvi(Reg::E),
            0x1f => Instr::Rar,
            0x20 => Instr::Nop,
            0x21 => Instr::Lxi(Pair::HL),
            0x22 => Instr::Shld,
            0x23 => Instr::Inx(Pair::HL),
            0x24 => Instr::Inr(Reg::H),
            0x25 => Instr::Dcr(Reg::H),
            0x26 => Instr::Mvi(Reg::H),
            0x27 => Instr::Daa,
            0x28 => Instr::Nop,
            0x29 => Instr::Dad(Pair::HL),
            0x2a => Instr::Lhld,
            0x2b => Instr::Dcx(Pair::HL),
            0x2c => Instr::Inr(Reg::L),
            0x2d => Instr::Dcr(Reg::L),
            0x2e => Instr::Mvi(Reg::L),
            0x2f => Instr::Cma,
            0x30 => Instr::Nop,
            0x31 => Instr::Lxi(Pair::SP),
            0x32 => Instr::Sta,
            0x33 => Instr::Inx(Pair::SP),
            0x34 => Instr::Inr(Reg::M),
            0x35 => Instr::Dcr(Reg::M),
            0x36 => Instr::Mvi(Reg::M),
            0x37 => Instr::Stc,
            0x38 => Instr::Nop,
            0x39 => Instr::Dad(Pair::SP),
            0x3a => Instr::Lda,
            0x3b => Instr::Dcx(Pair::SP),
            0x3c => Instr::Inr(Reg::A),
            0x3d => Instr::Dcr(Reg::A),
            0x3e => Instr::Mvi(Reg::A),
            0x3f => Instr::Cmc,
            0x40 => Instr::Mov(Reg::B, Reg::B),
            0x41 => Instr::Mov(Reg::B, Reg::C),
            0x42 => Instr::Mov(Reg::B, Reg::D),
            0x43 => Instr::Mov(Reg::B, Reg::E),
            0x44 => Instr::Mov(Reg::B, Reg::H),
            0x45 => Instr::Mov(Reg::B, Reg::L),
            0x46 => Instr::Mov(Reg::B, Reg::M),
            0x47 => Instr::Mov(Reg::B, Reg::A),
            0x48 => Instr::Mov(Reg::C, Reg::B),
            0x49 => Instr::Mov(Reg::C, Reg::C),
            0x4a => Instr::Mov(Reg::C, Reg::D),
            0x4b => Instr::Mov(Reg::C, Reg::E),
            0x4c => Instr::Mov(Reg::C, Reg::H),
            0x4d => Instr::Mov(Reg::C, Reg::L),
            0x4e => Instr::Mov(Reg::C, Reg::M),
            0x4f => Instr::Mov(Reg::C, Reg::A),
            0x50 => Instr::Mov(Reg::D, Reg::B),
            0x51 => Instr::Mov(Reg::D, Reg::C),
            0x52 => Instr::Mov(Reg::D, Reg::D),
            0x53 => Instr::Mov(Reg::D, Reg::E),
            0x54 => Instr::Mov(Reg::D, Reg::H),
            0x55 => Instr::Mov(Reg::D, Reg::L),
            0x56 => Instr::Mov(Reg::D, Reg::M),
            0x57 => Instr::Mov(Reg::D, Reg::A),
            0x58 => Instr::Mov(Reg::E, Reg::B),
            0x59 => Instr::Mov(Reg::E, Reg::C),
            0x5a => Instr::Mov(Reg::E, Reg::D),
            0x5b => Instr::Mov(Reg::E, Reg::E),
            0x5c => Instr::Mov(Reg::E, Reg::H),
            0x5d => Instr::Mov(Reg::E, Reg::L),
            0x5e => Instr::Mov(Reg::E, Reg::M),
            0x5f => Instr::Mov(Reg::E, Reg::A),
            0x60 => Instr::Mov(Reg::H, Reg::B),
            0x61 => Instr::Mov(Reg::H, Reg::C),
            0x62 => Instr::Mov(Reg::H, Reg::D),
            0x63 => Instr::Mov(Reg::H, Reg::E),
            0x64 => Instr::Mov(Reg::H, Reg::H),
            0x65 => Instr::Mov(Reg::H, Reg::L),
            0x66 => Instr::Mov(Reg::H, Reg::M),
            0x67 => Instr::Mov(Reg::H, Reg::A),
            0x68 => Instr::Mov(Reg::L, Reg::B),
            0x69 => Instr::Mov(Reg::L, Reg::C),
            0x6a => Instr::Mov(Reg::L, Reg::D),
            0x6b => Instr::Mov(Reg::L, Reg::E),
            0x6c => Instr::Mov(Reg::L, Reg::H),
            0x6d => Instr::Mov(Reg::L, Reg::L),
            0x6e => Instr::Mov(Reg::L, Reg::M),
            0x6f => Instr::Mov(Reg::L, Reg::A),
            0x70 => Instr::Mov(Reg::M, Reg::B),
            0x71 => Instr::Mov(Reg::M, Reg::C),
            0x72 => Instr::Mov(Reg::M, Reg::D),
            0x73 => Instr::Mov(Reg::M, Reg::E),
            0x74 => Instr::Mov(Reg::M, Reg::H),
            0x75 => Instr::Mov(Reg::M, Reg::L),
            0x76 => Instr::Hlt,
            0x77 => Instr::Mov(Reg::M, Reg::A),
            0x78 => Instr::Mov(Reg::A, Reg::B),
            0x79 => Instr::Mov(Reg::A, Reg::C),
            0x7a => Instr::Mov(Reg::A, Reg::D),
            0x7b => Instr::Mov(Reg::A, Reg::E),
            0x7c => Instr::Mov(Reg::A, Reg::H),
            0x7d => Instr::Mov(Reg::A, Reg::L),
            0x7e => Instr::Mov(Reg::A, Reg::M),
            0x7f => Instr::Mov(Reg::A, Reg::A),
            0x80 => Instr::Alu(AluOp::Add, Reg::B),
            0x81 => Instr::Alu(AluOp::Add, Reg::C),
            0x82 => Instr::Alu(AluOp::Add, Reg::D),
            0x83 => Instr::Alu(AluOp::Add, Reg::E),
            0x84 => Instr::Alu(AluOp::Add, Reg::H),
            0x85 => Instr::Alu(AluOp::Add, Reg::L),
            0x86 => Instr::Alu(AluOp::Add, Reg::M),
            0x87 => Instr::Alu(AluOp::Add, Reg::A),
            0x88 => Instr::Alu(AluOp::Adc, Reg::B),
            0x89 => Instr::Alu(AluOp::Adc, Reg::C),
            0x8a => Instr::Alu(AluOp::Adc, Reg::D),
            0x8b => Instr::Alu(AluOp::Adc, Reg::E),
            0x8c => Instr::Alu(AluOp::Adc, Reg::H),
            0x8d => Instr::Alu(AluOp::Adc, Reg::L),
            0x8e => Instr::Alu(AluOp::Adc, Reg::M),
            0x8f => Instr::Alu(AluOp::Adc, Reg::A),
            0x90 => Instr::Alu(AluOp::Sub, Reg::B),
            0x91 => Instr::Alu(AluOp::Sub, Reg::C),
            0x92 => Instr::Alu(AluOp::Sub, Reg::D),
            0x93 => Instr::Alu(AluOp::Sub, Reg::E),
            0x94 => Instr::Alu(AluOp::Sub, Reg::H),
            0x95 => Instr::Alu(AluOp::Sub, Reg::L),
            0x96 => Instr::Alu(AluOp::Sub, Reg::M),
            0x97 => Instr::Alu(AluOp::Sub, Reg::A),
            0x98 => Instr::Alu(AluOp::Sbb, Reg::B),
            0x99 => Instr::Alu(AluOp::Sbb, Reg::C),
            0x9a => Instr::Alu(AluOp::Sbb, Reg::D),
            0x9b => Instr::Alu(AluOp::Sbb, Reg::E),
            0x9c => Instr::Alu(AluOp::Sbb, Reg::H),
            0x9d => Instr::Alu(AluOp::Sbb, Reg::L),
            0x9e => Instr::Alu(AluOp::Sbb, Reg::M),
            0x9f => Instr::Alu(AluOp::Sbb, Reg::A),
            0xa0 => Instr::Alu(AluOp::Ana, Reg::B),
            0xa1 => Instr::Alu(AluOp::Ana, Reg::C),
            0xa2 => Instr::Alu(AluOp::Ana, Reg::D),
            0xa3 => Instr::Alu(AluOp::Ana, Reg::E),
            0xa4 => Instr::Alu(AluOp::Ana, Reg::H),
            0xa5 => Instr::Alu(AluOp::Ana, Reg::L),
            0xa6 => Instr::Alu(AluOp::Ana, Reg::M),
            0xa7 => Instr::Alu(AluOp::Ana, Reg::A),
            0xa8 => Instr::Alu(AluOp::Xra, Reg::B),
            0xa9 => Instr::Alu(AluOp::Xra, Reg::C),
            0xaa => Instr::Alu(AluOp::Xra, Reg::D),
            0xab => Instr::Alu(AluOp::Xra, Reg::E),
            0xac => Instr::Alu(AluOp::Xra, Reg::H),
            0xad => Instr::Alu(AluOp::Xra, Reg::L),
            0xae => Instr::Alu(AluOp::Xra, Reg::M),
            0xaf => Instr::Alu(AluOp::Xra, Reg::A),
            0xb0 => Instr::Alu(AluOp::Ora, Reg::B),
            0xb1 => Instr::Alu(AluOp::Ora, Reg::C),
            0xb2 => Instr::Alu(AluOp::Ora, Reg::D),
            0xb3 => Instr::Alu(AluOp::Ora, Reg::E),
            0xb4 => Instr::Alu(AluOp::Ora, Reg::H),
            0xb5 => Instr::Alu(AluOp::Ora, Reg::L),
            0xb6 => Instr::Alu(AluOp::Ora, Reg::M),
            0xb7 => Instr::Alu(AluOp::Ora, Reg::A),
            0xb8 => Instr::Alu(AluOp::Cmp, Reg::B),
            0xb9 => Instr::Alu(AluOp::Cmp, Reg::C),
            0xba => Instr::Alu(AluOp::Cmp, Reg::D),
            0xbb => Instr::Alu(AluOp::Cmp, Reg::E),
            0xbc => Instr::Alu(AluOp::Cmp, Reg::H),
            0xbd => Instr::Alu(AluOp::Cmp, Reg::L),
            0xbe => Instr::Alu(AluOp::Cmp, Reg::M),
            0xbf => Instr::Alu(AluOp::Cmp, Reg::A),
            0xc0 => Instr::RetIf(Cond::NZ),
            0xc1 => Instr::Pop(StackPair::BC),
            0xc2 => Instr::JmpIf(Cond::NZ),
            0xc3 => Instr::Jmp,
            0xc4 => Instr::CallIf(Cond::NZ),
            0xc5 => Instr::Push(StackPair::BC),
            0xc6 => Instr::AluImm(AluOp::Add),
            0xc7 => Instr::Rst(0),
            0xc8 => Instr::RetIf(Cond::Z),
            0xc9 => Instr::Ret,
            0xca => Instr::JmpIf(Cond::Z),
            0xcb => Instr::Jmp,
            0xcc => Instr::CallIf(Cond::Z),
            0xcd => Instr::Call,
            0xce => Instr::AluImm(AluOp::Adc),
            0xcf => Instr::Rst(1),
            0xd0 => Instr::RetIf(Cond::NC),
            0xd1 => Instr::Pop(StackPair::DE),
            0xd2 => Instr::JmpIf(Cond::NC),
            0xd3 => Instr::Out,
            0xd4 => Instr::CallIf(Cond::NC),
            0xd5 => Instr::Push(StackPair::DE),
            0xd6 => Instr::AluImm(AluOp::Sub),
            0xd7 => Instr::Rst(2),
            0xd8 => Instr::RetIf(Cond::C),
            0xd9 => Instr::Ret,
            0xda => Instr::JmpIf(Cond::C),
            0xdb => Instr::In,
            0xdc => Instr::CallIf(Cond::C),
            0xdd => Instr::Call,
            0xde => Instr::AluImm(AluOp::Sbb),
            0xdf => Instr::Rst(3),
            0xe0 => Instr::RetIf(Cond::PO),
            0xe1 => Instr::Pop(StackPair::HL),
            0xe2 => Instr::JmpIf(Cond::PO),
            0xe3 => Instr::Xthl,
            0xe4 => Instr::CallIf(Cond::PO),
            0xe5 => Instr::Push(StackPair::HL),
            0xe6 => Instr::AluImm(AluOp::Ana),
            0xe7 => Instr::Rst(4),
            0xe8 => Instr::RetIf(Cond::PE),
            0xe9 => Instr::Pchl,
            0xea => Instr::JmpIf(Cond::PE),
            0xeb => Instr::Xchg,
            0xec => Instr::CallIf(Cond::PE),
            0xed => Instr::Call,
            0xee => Instr::AluImm(AluOp::Xra),
            0xef => Instr::Rst(5),
            0xf0 => Instr::RetIf(Cond::P),
            0xf1 => Instr::Pop(StackPair::PSW),
            0xf2 => Instr::JmpIf(Cond::P),
            0xf3 => Instr::Di,
            0xf4 => Instr::CallIf(Cond::P),
            0xf5 => Instr::Push(StackPair::PSW),
            0xf6 => Instr::AluImm(AluOp::Ora),
            0xf7 => Instr::Rst(6),
            0xf8 => Instr::RetIf(Cond::M),
            0xf9 => Instr::Sphl,
            0xfa => Instr::JmpIf(Cond::M),
            0xfb => Instr::Ei,
            0xfc => Instr::CallIf(Cond::M),
            0xfd => Instr::Call,
            0xfe => Instr::AluImm(AluOp::Cmp),
            0xff => Instr::Rst(7),
    }
}

} // verus!
