use vstd::prelude::*;

use crate::decoder::{
    class_field, cond_field, condition_of, decoded, dir_field, mode_field, op_field,
    operand_of, rg_field, rm_field, rm_operand, Decoded, DstOperand, Jcond, Operand, TwoOp,
};
use crate::registers::{reg_number, reg_of, AddrRegister, BaseRegister, IndexRegister, Reg};

verus! {

// ---------------------------------------------------------------------------
// Inverse encodings, used to state that the decoding tables are one to one.

/// The number of a base register in a one-bit field.
pub open spec fn base_bit(b: BaseRegister) -> u16 {
    match b {
        BaseRegister::BA => 0,
        BaseRegister::BB => 1,
    }
}

/// The number of an index register in a one-bit field.
pub open spec fn index_bit(x: IndexRegister) -> u16 {
    match x {
        IndexRegister::XA => 0,
        IndexRegister::XB => 1,
    }
}

/// The addressing mode and `rm` field that encode an operand.
pub open spec fn operand_encoding(d: DstOperand) -> (u16, u16) {
    match d {
        DstOperand::Reg(r) => (3, reg_number(r)),
        DstOperand::BasedIndexedAddr(b, x) => (1, (2 * base_bit(b) + index_bit(x)) as u16),
        DstOperand::IndexedAddr(x) => (1, (4 + index_bit(x)) as u16),
        DstOperand::BasedAddr(b) => (1, (6 + base_bit(b)) as u16),
        DstOperand::RegSumIncr(b, x) => (2, (2 * base_bit(b) + index_bit(x)) as u16),
        DstOperand::RegSumDecr(b) => (2, (4 + base_bit(b)) as u16),
        DstOperand::DirectAddress => (2, 6),
        DstOperand::IndirectAddress => (2, 7),
        DstOperand::RegSum(b, x) => (0, (2 * base_bit(b) + index_bit(x)) as u16),
        DstOperand::RegisterAddress(AddrRegister::Index(x)) => (0, (4 + index_bit(x)) as u16),
        DstOperand::RegisterAddress(AddrRegister::Base(b)) => (0, (6 + base_bit(b)) as u16),
    }
}

/// The condition field that encodes a conditional jump.
pub open spec fn condition_code(c: Jcond) -> u16 {
    match c {
        Jcond::Jbe => 0,
        Jcond::Jb => 8,
        Jcond::Jle => 4,
        Jcond::Jl => 12,
        Jcond::Je => 2,
        Jcond::Jo => 10,
        Jcond::Js => 6,
        Jcond::Jpe => 14,
        Jcond::Ja => 1,
        Jcond::Jae => 9,
        Jcond::Jg => 5,
        Jcond::Jge => 13,
        Jcond::Jne => 3,
        Jcond::Jno => 11,
        Jcond::Jns => 7,
        Jcond::Jpo => 15,
    }
}

/// A decoded instruction with the roles of its two non-immediate operands
/// exchanged; every other instruction is left as it is.
pub open spec fn with_direction_flipped(d: Decoded) -> Decoded {
    match d {
        Decoded::TwoOp { op, src: Operand::MaybeDst(a), dst } => Decoded::TwoOp {
            op,
            src: Operand::MaybeDst(dst),
            dst: a,
        },
        _ => d,
    }
}

/// What a two-operand instruction becomes when its result is not saved:
/// a subtraction is a comparison, a conjunction is a test, and nothing else
/// has such a form.
pub open spec fn without_saving(d: Decoded) -> Decoded {
    match d {
        Decoded::TwoOp { op: TwoOp::Sub, src, dst } => Decoded::TwoOp { op: TwoOp::Cmp, src, dst },
        Decoded::TwoOp { op: TwoOp::And, src, dst } => Decoded::TwoOp {
            op: TwoOp::Test,
            src,
            dst,
        },
        _ => Decoded::Invalid,
    }
}

// ---------------------------------------------------------------------------
// Registers.

/// Register numbers and registers correspond one to one: every number below
/// 8 names a register whose number it is, and every register is named by its
/// number.
pub proof fn law_register_numbering(n: u16, r: Reg)
    ensures
        n < 8 ==> reg_number(reg_of(n)) == n,
        reg_number(r) < 8,
        reg_of(reg_number(r)) == r,
{
}

// ---------------------------------------------------------------------------
// Operands.

/// Decoding an addressing mode and an `rm` field and encoding the result
/// gives back the mode and the field.
proof fn lemma_operand_round_trip(m: u16, rm: u16)
    requires
        m < 4,
        rm < 8,
    ensures
        operand_encoding(operand_of(m, rm)) == (m, rm),
{
    assert(rm == 0 || rm == 1 || rm == 2 || rm == 3 || rm == 4 || rm == 5 || rm == 6 || rm
        == 7);
}

/// Every operand has an encoding: an addressing mode and an `rm` field
/// within their widths that decode to it.
pub proof fn law_every_operand_is_encodable(d: DstOperand)
    ensures
        operand_encoding(d).0 < 4,
        operand_encoding(d).1 < 8,
        operand_of(operand_encoding(d).0, operand_encoding(d).1) == d,
{
}

/// The operand encoding is unambiguous: two addressing modes and `rm` fields
/// that decode to the same operand are the same mode and field.
pub proof fn law_operand_encoding_is_unambiguous(m1: u16, rm1: u16, m2: u16, rm2: u16)
    requires
        m1 < 4,
        rm1 < 8,
        m2 < 4,
        rm2 < 8,
        operand_of(m1, rm1) == operand_of(m2, rm2),
    ensures
        m1 == m2,
        rm1 == rm2,
{
    lemma_operand_round_trip(m1, rm1);
    lemma_operand_round_trip(m2, rm2);
}

/// Two instruction words have the same `rm` operand exactly when they agree
/// on the addressing mode and on the `rm` field.
pub proof fn law_rm_operand_fields(i: u16, j: u16)
    ensures
        rm_operand(i) == rm_operand(j) <==> (mode_field(i) == mode_field(j) && rm_field(i)
            == rm_field(j)),
{
    crate::decoder::lemma_fields(i);
    crate::decoder::lemma_fields(j);
    if rm_operand(i) == rm_operand(j) {
        law_operand_encoding_is_unambiguous(mode_field(i), rm_field(i), mode_field(j), rm_field(j));
    }
}

// ---------------------------------------------------------------------------
// Instruction words.

/// The fields of a word other than the direction bit do not change when
/// bit 7 is flipped.
proof fn lemma_flip_bit7(i: u16)
    ensures
        class_field(i ^ 0x80u16) == class_field(i),
        op_field(i ^ 0x80u16) == op_field(i),
        mode_field(i ^ 0x80u16) == mode_field(i),
        rg_field(i ^ 0x80u16) == rg_field(i),
        rm_field(i ^ 0x80u16) == rm_field(i),
        dir_field(i ^ 0x80u16) == 1 - dir_field(i),
{
    assert((i ^ 0x80u16) % 16 == i % 16) by (bit_vector);
    assert(((i ^ 0x80u16) / 16) % 8 == (i / 16) % 8) by (bit_vector);
    assert(((i ^ 0x80u16) / 256) % 4 == (i / 256) % 4) by (bit_vector);
    assert(((i ^ 0x80u16) / 1024) == (i / 1024)) by (bit_vector);
    assert(((i ^ 0x80u16) / 128) % 2 == 1 - (i / 128) % 2) by (bit_vector);
}

/// The direction bit only chooses which operand is the source: for every
/// word that is not a conditional jump, flipping bit 7 exchanges the source
/// and the destination of a two-operand instruction without immediate and
/// leaves every other decoding as it is.  (In a conditional jump, bit 7 is
/// part of the condition.)
pub proof fn law_direction_bit(i: u16)
    requires
        class_field(i) != 9,
    ensures
        decoded(i ^ 0x80u16) == with_direction_flipped(decoded(i)),
{
    lemma_flip_bit7(i);
    crate::decoder::lemma_fields(i);
}

/// Flipping bit 7 twice gives back the same decoding.
pub proof fn law_direction_flip_is_involution(d: Decoded)
    ensures
        with_direction_flipped(with_direction_flipped(d)) == d,
{
}

/// Setting bit 3 of a word turns classes 0010 and 0110 into classes 1010
/// and 1110, and leaves every other field as it is.
proof fn lemma_set_bit3(i: u16)
    requires
        i % 16 == 2 || i % 16 == 6,
    ensures
        class_field(i | 8u16) == class_field(i) + 8,
        op_field(i | 8u16) == op_field(i),
        dir_field(i | 8u16) == dir_field(i),
        mode_field(i | 8u16) == mode_field(i),
        rg_field(i | 8u16) == rg_field(i),
        rm_field(i | 8u16) == rm_field(i),
{
    assert((i % 16 == 2 || i % 16 == 6) ==> (i | 8u16) % 16 == i % 16 + 8) by (bit_vector);
    assert(((i | 8u16) / 16) % 8 == (i / 16) % 8) by (bit_vector);
    assert(((i | 8u16) / 128) % 2 == (i / 128) % 2) by (bit_vector);
    assert(((i | 8u16) / 256) % 4 == (i / 256) % 4) by (bit_vector);
    assert(((i | 8u16) / 1024) == (i / 1024)) by (bit_vector);
}

/// The classes 0010 and 0110 are the classes 1010 and 1110 without saving
/// the result: each of their words decodes to the comparison or test that
/// the word with bit 3 set decodes to as a subtraction or conjunction, and
/// to `Invalid` where that word is any other operation.
pub proof fn law_compare_and_test_do_not_save(i: u16)
    requires
        class_field(i) == 2 || class_field(i) == 6,
    ensures
        decoded(i) == without_saving(decoded(i | 8u16)),
{
    lemma_set_bit3(i);
    crate::decoder::lemma_fields(i);
}

/// The one-operand forms and the immediate forms always operate on the
/// operand named by the addressing mode and the `rm` field.
pub proof fn law_single_operand_is_rm(i: u16)
    ensures
        decoded(i) matches Decoded::OneOp { dst, .. } ==> dst == rm_operand(i),
        decoded(i) matches Decoded::TwoOp { src: Operand::Imm, dst, .. } ==> dst
            == rm_operand(i),
{
}

/// Every word of class 1001 is a conditional jump, and two such words decode
/// to the same jump exactly when their condition fields are equal.
pub proof fn law_jump_conditions(i: u16, j: u16)
    requires
        class_field(i) == 9,
        class_field(j) == 9,
    ensures
        decoded(i) == Decoded::Jcond(condition_of(cond_field(i))),
        decoded(i) == decoded(j) <==> cond_field(i) == cond_field(j),
{
    crate::decoder::lemma_fields(i);
    crate::decoder::lemma_fields(j);
    let a = cond_field(i);
    let b = cond_field(j);
    assert(condition_code(condition_of(a)) == a);
    assert(condition_code(condition_of(b)) == b);
}

/// Every conditional jump has a condition field that decodes to it.
pub proof fn law_every_condition_is_encodable(c: Jcond)
    ensures
        condition_code(c) < 16,
        condition_of(condition_code(c)) == c,
{
}

} // verus!
