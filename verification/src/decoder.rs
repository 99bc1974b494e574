use vstd::prelude::*;

use crate::registers::{
    base_of_bit, brx, index_of_bit, irx, reg, reg_of, AddrRegister, BaseRegister,
    IndexRegister, Reg,
};

verus! {

/// The source operand of a two-operand instruction.
#[derive(Debug, Clone, Copy, PartialEq, Eq, Structural)]
pub enum Operand {
    MaybeDst(DstOperand),
    Imm,
}

/// An operand that can also be written: a register or a memory location
/// reached through one of the addressing modes.
#[derive(Debug, Clone, Copy, PartialEq, Eq, Structural)]
pub enum DstOperand {
    /// `[disp]`
    DirectAddress,
    /// `[[disp]]`
    IndirectAddress,
    /// `[xa]`, `[xb]`, `[ba]`, `[bb]`
    RegisterAddress(AddrRegister),
    /// `[base + index]`
    RegSum(BaseRegister, IndexRegister),
    /// `[base + index+]`
    RegSumIncr(BaseRegister, IndexRegister),
    /// `[base + xa-]`
    RegSumDecr(BaseRegister),
    /// `[base + disp]`
    BasedAddr(BaseRegister),
    /// `[index + disp]`
    IndexedAddr(IndexRegister),
    /// `[base + index + disp]`
    BasedIndexedAddr(BaseRegister, IndexRegister),
    /// A register itself.
    Reg(Reg),
}

/// Operations with a source and a destination.
#[derive(Debug, Clone, Copy, PartialEq, Eq, Structural)]
pub enum TwoOp {
    Add,
    Adc,
    Sub,
    Sbb,
    And,
    Or,
    Xor,
    Cmp,
    Test,
    Mov,
}

/// Operations with one destination operand.
#[derive(Debug, Clone, Copy, PartialEq, Eq, Structural)]
pub enum OneOp {
    MovI,
    Push,
    Pop,
    Call,
    Jmp,
    Inc,
    Dec,
    Neg,
    Not,
    Shl,
    Shr,
    Sar,
}

/// Control flow instructions with no effective address.
///
/// I/O port addresses are placed on the bus directly, so they are not part
/// of the decoded instruction.
#[derive(Debug, Clone, Copy, PartialEq, Eq, Structural)]
pub enum CfNea {
    In,
    Out,
    Pushf,
    Popf,
    Ret,
    Iret,
    Hlt,
}

/// Conditional jumps relative to the program counter.
///
/// Offsets are placed on the bus directly, so they are not part of the
/// decoded instruction.
#[derive(Debug, Clone, Copy, PartialEq, Eq, Structural)]
pub enum Jcond {
    Jbe,
    /// Also JC
    Jb,
    Jle,
    Jl,
    /// Also JZ
    Je,
    Jo,
    Js,
    Jpe,
    Ja,
    /// Also JNC
    Jae,
    Jg,
    Jge,
    /// Also JNZ
    Jne,
    Jno,
    Jns,
    Jpo,
}

/// A decoded instruction.
#[allow(inconsistent_fields)]
#[derive(Debug, Clone, Copy, PartialEq, Eq, Structural)]
pub enum Decoded {
    TwoOp { op: TwoOp, src: Operand, dst: DstOperand },
    OneOp { op: OneOp, dst: DstOperand },
    CfNea(CfNea),
    Jcond(Jcond),
    Invalid,
}

// ---------------------------------------------------------------------------
// The fields of an instruction word.

/// Bits 3..0: the instruction class.
pub open spec fn class_field(i: u16) -> u16 {
    i % 16
}

/// Bits 6..4: the operation field.
pub open spec fn op_field(i: u16) -> u16 {
    (i / 16) % 8
}

/// Bits 7..4: the condition field of a conditional jump.
pub open spec fn cond_field(i: u16) -> u16 {
    (i / 16) % 16
}

/// Bit 7: the direction bit.
pub open spec fn dir_field(i: u16) -> u16 {
    (i / 128) % 2
}

/// Bits 9..8: the addressing mode of the `rm` operand.
pub open spec fn mode_field(i: u16) -> u16 {
    (i / 256) % 4
}

/// Bits 12..10, read with bit 12 as the least significant bit.
pub open spec fn rg_field(i: u16) -> u16 {
    ((i / 4096) % 2 + 2 * ((i / 2048) % 2) + 4 * ((i / 1024) % 2)) as u16
}

/// Bits 15..13, read with bit 15 as the least significant bit.
pub open spec fn rm_field(i: u16) -> u16 {
    ((i / 32768) % 2 + 2 * ((i / 16384) % 2) + 4 * ((i / 8192) % 2)) as u16
}

// ---------------------------------------------------------------------------
// The decoding tables.

/// Operation field of the two-operand classes.
pub open spec fn two_op_of(f: u16) -> Option<TwoOp> {
    if f == 0 {
        Some(TwoOp::Add)
    } else if f == 4 {
        Some(TwoOp::Adc)
    } else if f == 2 {
        Some(TwoOp::Sub)
    } else if f == 6 {
        Some(TwoOp::Sbb)
    } else if f == 1 {
        Some(TwoOp::And)
    } else if f == 5 {
        Some(TwoOp::Or)
    } else if f == 3 {
        Some(TwoOp::Xor)
    } else {
        None
    }
}

/// Operation field of the one-operand control flow class.
pub open spec fn ea_control_op_of(f: u16) -> Option<OneOp> {
    if f == 2 {
        Some(OneOp::Push)
    } else if f == 6 {
        Some(OneOp::Pop)
    } else if f == 1 {
        Some(OneOp::Call)
    } else if f == 5 {
        Some(OneOp::Jmp)
    } else {
        None
    }
}

/// Operation field of the one-operand arithmetic class.
pub open spec fn one_op_of(f: u16) -> Option<OneOp> {
    if f == 0 {
        Some(OneOp::Inc)
    } else if f == 4 {
        Some(OneOp::Dec)
    } else if f == 2 {
        Some(OneOp::Neg)
    } else if f == 6 {
        Some(OneOp::Not)
    } else if f == 1 {
        Some(OneOp::Shl)
    } else if f == 5 {
        Some(OneOp::Shr)
    } else if f == 3 {
        Some(OneOp::Sar)
    } else {
        None
    }
}

/// Operation field of the control flow class without effective address.
pub open spec fn control_of(f: u16) -> Option<CfNea> {
    if f == 0 {
        Some(CfNea::In)
    } else if f == 4 {
        Some(CfNea::Out)
    } else if f == 2 {
        Some(CfNea::Pushf)
    } else if f == 6 {
        Some(CfNea::Popf)
    } else if f == 1 {
        Some(CfNea::Ret)
    } else if f == 5 {
        Some(CfNea::Iret)
    } else if f == 3 {
        Some(CfNea::Hlt)
    } else {
        None
    }
}

/// Condition field of a conditional jump.
pub open spec fn condition_of(f: u16) -> Jcond {
    if f == 0 {
        Jcond::Jbe
    } else if f == 8 {
        Jcond::Jb
    } else if f == 4 {
        Jcond::Jle
    } else if f == 12 {
        Jcond::Jl
    } else if f == 2 {
        Jcond::Je
    } else if f == 10 {
        Jcond::Jo
    } else if f == 6 {
        Jcond::Js
    } else if f == 14 {
        Jcond::Jpe
    } else if f == 1 {
        Jcond::Ja
    } else if f == 9 {
        Jcond::Jae
    } else if f == 5 {
        Jcond::Jg
    } else if f == 13 {
        Jcond::Jge
    } else if f == 3 {
        Jcond::Jne
    } else if f == 11 {
        Jcond::Jno
    } else if f == 7 {
        Jcond::Jns
    } else {
        Jcond::Jpo
    }
}

/// The operand named by an addressing mode `m` and an `rm` field.
pub open spec fn operand_of(m: u16, rm: u16) -> DstOperand {
    let b1 = base_of_bit((rm / 2) % 2);
    let i0 = index_of_bit(rm % 2);
    let b0 = base_of_bit(rm % 2);
    if m == 3 {
        DstOperand::Reg(reg_of(rm))
    } else if m == 1 {
        if rm < 4 {
            DstOperand::BasedIndexedAddr(b1, i0)
        } else if rm < 6 {
            DstOperand::IndexedAddr(i0)
        } else {
            DstOperand::BasedAddr(b0)
        }
    } else if m == 2 {
        if rm < 4 {
            DstOperand::RegSumIncr(b1, i0)
        } else if rm < 6 {
            DstOperand::RegSumDecr(b0)
        } else if rm < 7 {
            DstOperand::DirectAddress
        } else {
            DstOperand::IndirectAddress
        }
    } else {
        if rm < 4 {
            DstOperand::RegSum(b1, i0)
        } else if rm < 6 {
            DstOperand::RegisterAddress(AddrRegister::Index(i0))
        } else {
            DstOperand::RegisterAddress(AddrRegister::Base(b0))
        }
    }
}

/// The `rm` operand of an instruction word.
pub open spec fn rm_operand(i: u16) -> DstOperand {
    operand_of(mode_field(i), rm_field(i))
}

/// The `rg` operand of an instruction word: always a register.
pub open spec fn rg_operand(i: u16) -> DstOperand {
    DstOperand::Reg(reg_of(rg_field(i)))
}

/// The source of a two-operand instruction without immediate: the `rm`
/// operand when the direction bit is set, the `rg` operand otherwise.
pub open spec fn source_of(i: u16) -> Operand {
    if dir_field(i) == 1 {
        Operand::MaybeDst(rm_operand(i))
    } else {
        Operand::MaybeDst(rg_operand(i))
    }
}

/// The destination of a two-operand instruction without immediate: the
/// other one of the two operands.
pub open spec fn destination_of(i: u16) -> DstOperand {
    if dir_field(i) == 1 {
        rg_operand(i)
    } else {
        rm_operand(i)
    }
}

/// What an instruction word means.
///
/// | class  | meaning                                                       |
/// |--------|---------------------------------------------------------------|
/// | `0000` | push, pop, call, jmp on `rm`; `mov` when the operation is 0    |
/// | `1000` | inc, dec, neg, not, shl, shr, sar on `rm`                      |
/// | `0100` | `movi` to `rm` when the operation is 0                         |
/// | `0010` | `cmp` (sub) and `test` (and) between `rg` and `rm`             |
/// | `1010` | the two-operand operations between `rg` and `rm`               |
/// | `0110` | `cmp` (sub) and `test` (and) of `rm` with an immediate         |
/// | `1110` | the two-operand operations of `rm` with an immediate           |
/// | `0001` | in, out, pushf, popf, ret, iret, hlt                           |
/// | `1001` | the conditional jumps                                         |
///
/// Every other word, and every unassigned operation in a class, is `Invalid`.
pub open spec fn decoded(i: u16) -> Decoded {
    let class = class_field(i);
    let f = op_field(i);
    let rm = rm_operand(i);
    let src = source_of(i);
    let dst = destination_of(i);
    if class == 0 {
        match ea_control_op_of(f) {
            Some(x) => Decoded::OneOp { op: x, dst: rm },
            None => if f == 0 {
                Decoded::TwoOp { op: TwoOp::Mov, src, dst }
            } else {
                Decoded::Invalid
            },
        }
    } else if class == 8 {
        match one_op_of(f) {
            Some(x) => Decoded::OneOp { op: x, dst: rm },
            None => Decoded::Invalid,
        }
    } else if class == 4 {
        if f == 0 {
            Decoded::OneOp { op: OneOp::MovI, dst: rm }
        } else {
            Decoded::Invalid
        }
    } else if class == 2 {
        match two_op_of(f) {
            Some(TwoOp::Sub) => Decoded::TwoOp { op: TwoOp::Cmp, src, dst },
            Some(TwoOp::And) => Decoded::TwoOp { op: TwoOp::Test, src, dst },
            _ => Decoded::Invalid,
        }
    } else if class == 10 {
        match two_op_of(f) {
            Some(x) => Decoded::TwoOp { op: x, src, dst },
            None => Decoded::Invalid,
        }
    } else if class == 6 {
        match two_op_of(f) {
            Some(TwoOp::Sub) => Decoded::TwoOp { op: TwoOp::Cmp, src: Operand::Imm, dst: rm },
            Some(TwoOp::And) => Decoded::TwoOp { op: TwoOp::Test, src: Operand::Imm, dst: rm },
            _ => Decoded::Invalid,
        }
    } else if class == 14 {
        match two_op_of(f) {
            Some(x) => Decoded::TwoOp { op: x, src: Operand::Imm, dst: rm },
            None => Decoded::Invalid,
        }
    } else if class == 1 {
        match control_of(f) {
            Some(x) => Decoded::CfNea(x),
            None => Decoded::Invalid,
        }
    } else if class == 9 {
        Decoded::Jcond(condition_of(cond_field(i)))
    } else {
        Decoded::Invalid
    }
}

// ---------------------------------------------------------------------------
// Field extraction with shifts and masks.

/// The shift-and-mask forms of the fields are the fields, within their widths.
pub proof fn lemma_fields(i: u16)
    ensures
        i & 0xf == class_field(i),
        (i >> 4u16) & 7 == op_field(i),
        (i >> 4u16) & 0xf == cond_field(i),
        (i >> 7u16) & 1 == dir_field(i),
        (i >> 8u16) & 3 == mode_field(i),
        ((i >> 12u16) & 1) | (((i >> 11u16) & 1) << 1u16) | (((i >> 10u16) & 1) << 2u16)
            == rg_field(i),
        ((i >> 15u16) & 1) | (((i >> 14u16) & 1) << 1u16) | (((i >> 13u16) & 1) << 2u16)
            == rm_field(i),
        class_field(i) < 16,
        op_field(i) < 8,
        cond_field(i) < 16,
        cond_field(i) == op_field(i) + 8 * dir_field(i),
        dir_field(i) < 2,
        mode_field(i) < 4,
        rg_field(i) < 8,
        rm_field(i) < 8,
{
    assert(i & 0xf == i % 16) by (bit_vector);
    assert((i >> 4u16) & 7 == (i / 16) % 8) by (bit_vector);
    assert((i >> 4u16) & 0xf == (i / 16) % 16) by (bit_vector);
    assert((i >> 7u16) & 1 == (i / 128) % 2) by (bit_vector);
    assert((i >> 8u16) & 3 == (i / 256) % 4) by (bit_vector);
    assert((i / 16) % 16 == (i / 16) % 8 + 8 * ((i / 128) % 2)) by (bit_vector);
    assert(((i >> 12u16) & 1) | (((i >> 11u16) & 1) << 1u16) | (((i >> 10u16) & 1) << 2u16)
        == (i / 4096) % 2 + 2 * ((i / 2048) % 2) + 4 * ((i / 1024) % 2)) by (bit_vector);
    assert(((i >> 15u16) & 1) | (((i >> 14u16) & 1) << 1u16) | (((i >> 13u16) & 1) << 2u16)
        == (i / 32768) % 2 + 2 * ((i / 16384) % 2) + 4 * ((i / 8192) % 2)) by (bit_vector);
}

/// The low bit and the middle bit of a three-bit field.
proof fn lemma_small_bits(rm: u16)
    requires
        rm < 8,
    ensures
        rm & 1 == rm % 2,
        (rm >> 1u16) & 1 == (rm / 2) % 2,
{
    assert(rm & 1 == rm % 2) by (bit_vector);
    assert((rm >> 1u16) & 1 == (rm / 2) % 2) by (bit_vector);
}

// ---------------------------------------------------------------------------
// The decoder.

/// Decodes the operation field of the two-operand classes.
pub fn twop(i: u16) -> (r: Option<TwoOp>)
    requires
        i < 8,
    ensures
        r == two_op_of(i),
{
    match i {
        0b000 => Some(TwoOp::Add),
        0b100 => Some(TwoOp::Adc),
        0b010 => Some(TwoOp::Sub),
        0b110 => Some(TwoOp::Sbb),
        0b001 => Some(TwoOp::And),
        0b101 => Some(TwoOp::Or),
        0b011 => Some(TwoOp::Xor),
        _ => None,
    }
}

/// Decodes the operation field of the one-operand control flow class.
pub fn eacfg(i: u16) -> (r: Option<OneOp>)
    requires
        i < 8,
    ensures
        r == ea_control_op_of(i),
{
    match i {
        0b010 => Some(OneOp::Push),
        0b110 => Some(OneOp::Pop),
        0b001 => Some(OneOp::Call),
        0b101 => Some(OneOp::Jmp),
        _ => None,
    }
}

/// Decodes the operation field of the one-operand arithmetic class.
pub fn oop(i: u16) -> (r: Option<OneOp>)
    requires
        i < 8,
    ensures
        r == one_op_of(i),
{
    match i {
        0b000 => Some(OneOp::Inc),
        0b100 => Some(OneOp::Dec),
        0b010 => Some(OneOp::Neg),
        0b110 => Some(OneOp::Not),
        0b001 => Some(OneOp::Shl),
        0b101 => Some(OneOp::Shr),
        0b011 => Some(OneOp::Sar),
        _ => None,
    }
}

/// Decodes the operation field of the control flow class without
/// effective address.
pub fn neacf(i: u16) -> (r: Option<CfNea>)
    requires
        i < 8,
    ensures
        r == control_of(i),
{
    match i {
        0b000 => Some(CfNea::In),
        0b100 => Some(CfNea::Out),
        0b010 => Some(CfNea::Pushf),
        0b110 => Some(CfNea::Popf),
        0b001 => Some(CfNea::Ret),
        0b101 => Some(CfNea::Iret),
        0b011 => Some(CfNea::Hlt),
        _ => None,
    }
}

/// Decodes the condition field of a conditional jump.
pub fn jcond(i: u16) -> (r: Jcond)
    requires
        i < 16,
    ensures
        r == condition_of(i),
{
    match i {
        0b0000 => Jcond::Jbe,
        0b1000 => Jcond::Jb,
        0b0100 => Jcond::Jle,
        0b1100 => Jcond::Jl,
        0b0010 => Jcond::Je,
        0b1010 => Jcond::Jo,
        0b0110 => Jcond::Js,
        0b1110 => Jcond::Jpe,
        0b0001 => Jcond::Ja,
        0b1001 => Jcond::Jae,
        0b0101 => Jcond::Jg,
        0b1101 => Jcond::Jge,
        0b0011 => Jcond::Jne,
        0b1011 => Jcond::Jno,
        0b0111 => Jcond::Jns,
        _ => Jcond::Jpo,
    }
}

/// Decodes the mode and `rm` fields of an instruction word in one go.
pub fn mod_rm(i: u16) -> (r: DstOperand)
    ensures
        r == rm_operand(i),
        r == operand_of(mode_field(i), rm_field(i)),
{
    proof {
        lemma_fields(i);
    }
    let rm: u16 = ((i >> 15u16) & 1) | (((i >> 14u16) & 1) << 1u16) | (((i >> 13u16) & 1) << 2u16);
    let m: u16 = (i >> 8u16) & 3;
    proof {
        lemma_small_bits(rm);
    }
    let r0: u16 = rm & 1;
    let r1: u16 = (rm >> 1u16) & 1;
    if m == 0b11 {
        DstOperand::Reg(reg(rm))
    } else if m == 0b01 {
        if rm < 0b100 {
            DstOperand::BasedIndexedAddr(brx(r1), irx(r0))
        } else if rm < 0b110 {
            DstOperand::IndexedAddr(irx(r0))
        } else {
            DstOperand::BasedAddr(brx(r0))
        }
    } else if m == 0b10 {
        if rm < 0b100 {
            DstOperand::RegSumIncr(brx(r1), irx(r0))
        } else if rm < 0b110 {
            DstOperand::RegSumDecr(brx(r0))
        } else if rm < 0b111 {
            DstOperand::DirectAddress
        } else {
            DstOperand::IndirectAddress
        }
    } else {
        if rm < 0b100 {
            DstOperand::RegSum(brx(r1), irx(r0))
        } else if rm < 0b110 {
            DstOperand::RegisterAddress(AddrRegister::Index(irx(r0)))
        } else {
            DstOperand::RegisterAddress(AddrRegister::Base(brx(r0)))
        }
    }
}

/// Decodes an instruction word.
pub fn decode(i: u16) -> (d: Decoded)
    ensures
        d == decoded(i),
{
    proof {
        lemma_fields(i);
    }
    let rm = mod_rm(i);
    let rg_raw: u16 = ((i >> 12u16) & 1) | (((i >> 11u16) & 1) << 1u16) | (((i >> 10u16) & 1)
        << 2u16);
    let rg = DstOperand::Reg(reg(rg_raw));
    let (src, dst) = if (i >> 7u16) & 1 == 1 {
        (Operand::MaybeDst(rm), rg)
    } else {
        (Operand::MaybeDst(rg), rm)
    };
    let f: u16 = (i >> 4u16) & 7;
    match i & 0xf {
        // EA + one operand + no immediate + control flow
        0b0000 => {
            if let Some(x) = eacfg(f) {
                return Decoded::OneOp { op: x, dst: rm };
            } else if f == 0 {
                return Decoded::TwoOp { op: TwoOp::Mov, src, dst };
            }
        },
        // EA + one operand + no immediate + operation
        0b1000 => {
            if let Some(x) = oop(f) {
                return Decoded::OneOp { op: x, dst: rm };
            }
        },
        0b0100 => {
            if f == 0b000 {
                return Decoded::OneOp { op: OneOp::MovI, dst: rm };
            }
        },
        // EA, two operands, no immediate, result not saved
        0b0010 => {
            if let Some(x) = twop(f) {
                match x {
                    TwoOp::Sub => {
                        return Decoded::TwoOp { op: TwoOp::Cmp, src, dst };
                    },
                    TwoOp::And => {
                        return Decoded::TwoOp { op: TwoOp::Test, src, dst };
                    },
                    _ => {},
                }
            }
        },
        0b1010 => {
            if let Some(x) = twop(f) {
                return Decoded::TwoOp { op: x, src, dst };
            }
        },
        0b0110 => {
            if let Some(x) = twop(f) {
                match x {
                    TwoOp::Sub => {
                        return Decoded::TwoOp { op: TwoOp::Cmp, src: Operand::Imm, dst: rm };
                    },
                    TwoOp::And => {
                        return Decoded::TwoOp { op: TwoOp::Test, src: Operand::Imm, dst: rm };
                    },
                    _ => {},
                }
            }
        },
        0b1110 => {
            if let Some(x) = twop(f) {
                return Decoded::TwoOp { op: x, src: Operand::Imm, dst: rm };
            }
        },
        // control flow without effective address
        0b0001 => {
            if let Some(x) = neacf(f) {
                return Decoded::CfNea(x);
            }
        },
        0b1001 => {
            return Decoded::Jcond(jcond((i >> 4u16) & 0xf));
        },
        _ => {},
    }
    Decoded::Invalid
}

// ---------------------------------------------------------------------------
// Default values.

impl Default for Operand {
    fn default() -> (r: Self)
        ensures
            r == Operand::Imm,
    {
        Self::Imm
    }
}

impl Default for DstOperand {
    fn default() -> (r: Self)
        ensures
            r == DstOperand::Reg(Reg::RA),
    {
        Self::Reg(Reg::default())
    }
}

impl Default for TwoOp {
    fn default() -> (r: Self)
        ensures
            r == TwoOp::Add,
    {
        TwoOp::Add
    }
}

impl Default for OneOp {
    fn default() -> (r: Self)
        ensures
            r == OneOp::MovI,
    {
        OneOp::MovI
    }
}

impl Default for CfNea {
    fn default() -> (r: Self)
        ensures
            r == CfNea::Hlt,
    {
        CfNea::Hlt
    }
}

impl Default for Jcond {
    fn default() -> (r: Self)
        ensures
            r == Jcond::Jbe,
    {
        Jcond::Jbe
    }
}

impl Default for Decoded {
    fn default() -> (r: Self)
        ensures
            r == Decoded::Invalid,
    {
        Decoded::Invalid
    }
}

} // verus!
