use vstd::prelude::*;

use crate::decoder::{
    class_field, cond_field, condition_of, control_of, decoded, dir_field, ea_control_op_of,
    mode_field, one_op_of, op_field, rg_field, rm_field, rm_operand, two_op_of, CfNea, Decoded,
    DstOperand, Jcond, OneOp, Operand, TwoOp,
};
use crate::registers::reg_of;

verus! {

// ---------------------------------------------------------------------------
// Fields are stored with their bits reversed, and each operation field picks
// an operation by its place in the list of the operation type.

/// A three-bit field read with its bits in the opposite order.
pub open spec fn reversed3(f: int) -> int {
    (f % 2) * 4 + ((f / 2) % 2) * 2 + (f / 4) % 2
}

/// A four-bit field read with its bits in the opposite order.
pub open spec fn reversed4(f: int) -> int {
    (f % 2) * 8 + ((f / 2) % 2) * 4 + ((f / 4) % 2) * 2 + (f / 8) % 2
}

/// The place of a two-operand operation in the order `TwoOp` lists them.
pub open spec fn two_op_place(x: TwoOp) -> int {
    match x {
        TwoOp::Add => 0,
        TwoOp::Adc => 1,
        TwoOp::Sub => 2,
        TwoOp::Sbb => 3,
        TwoOp::And => 4,
        TwoOp::Or => 5,
        TwoOp::Xor => 6,
        TwoOp::Cmp => 7,
        TwoOp::Test => 8,
        TwoOp::Mov => 9,
    }
}

/// The place of a one-operand operation in the order `OneOp` lists them.
pub open spec fn one_op_place(x: OneOp) -> int {
    match x {
        OneOp::MovI => 0,
        OneOp::Push => 1,
        OneOp::Pop => 2,
        OneOp::Call => 3,
        OneOp::Jmp => 4,
        OneOp::Inc => 5,
        OneOp::Dec => 6,
        OneOp::Neg => 7,
        OneOp::Not => 8,
        OneOp::Shl => 9,
        OneOp::Shr => 10,
        OneOp::Sar => 11,
    }
}

/// The place of a control flow instruction in the order `CfNea` lists them.
pub open spec fn control_place(x: CfNea) -> int {
    match x {
        CfNea::In => 0,
        CfNea::Out => 1,
        CfNea::Pushf => 2,
        CfNea::Popf => 3,
        CfNea::Ret => 4,
        CfNea::Iret => 5,
        CfNea::Hlt => 6,
    }
}

/// The place of a conditional jump in the order `Jcond` lists them.
pub open spec fn condition_place(x: Jcond) -> int {
    match x {
        Jcond::Jbe => 0,
        Jcond::Jb => 1,
        Jcond::Jle => 2,
        Jcond::Jl => 3,
        Jcond::Je => 4,
        Jcond::Jo => 5,
        Jcond::Js => 6,
        Jcond::Jpe => 7,
        Jcond::Ja => 8,
        Jcond::Jae => 9,
        Jcond::Jg => 10,
        Jcond::Jge => 11,
        Jcond::Jne => 12,
        Jcond::Jno => 13,
        Jcond::Jns => 14,
        Jcond::Jpo => 15,
    }
}

/// The operation field of the two-operand classes, read bit-reversed, is
/// the place of the operation among Add, Adc, Sub, Sbb, And, Or, Xor; the
/// one value past them names none.
pub proof fn law_two_op_field(f: u16)
    requires
        f < 8,
    ensures
        two_op_of(f) is Some <==> reversed3(f as int) < 7,
        two_op_of(f) matches Some(x) ==> two_op_place(x) == reversed3(f as int),
{
    assert(f == 0 || f == 1 || f == 2 || f == 3 || f == 4 || f == 5 || f == 6 || f == 7);
}

/// The operation field of the one-operand control flow class, read
/// bit-reversed and less one, is the place of Push, Pop, Call or Jmp.
pub proof fn law_ea_control_field(f: u16)
    requires
        f < 8,
    ensures
        ea_control_op_of(f) is Some <==> 2 <= reversed3(f as int) <= 5,
        ea_control_op_of(f) matches Some(x) ==> one_op_place(x) == reversed3(f as int) - 1,
{
    assert(f == 0 || f == 1 || f == 2 || f == 3 || f == 4 || f == 5 || f == 6 || f == 7);
}

/// The operation field of the one-operand arithmetic class, read
/// bit-reversed, counts Inc, Dec, Neg, Not, Shl, Shr, Sar.
pub proof fn law_one_op_field(f: u16)
    requires
        f < 8,
    ensures
        one_op_of(f) is Some <==> reversed3(f as int) < 7,
        one_op_of(f) matches Some(x) ==> one_op_place(x) == reversed3(f as int) + 5,
{
    assert(f == 0 || f == 1 || f == 2 || f == 3 || f == 4 || f == 5 || f == 6 || f == 7);
}

/// The operation field of the control flow class, read bit-reversed, is the
/// place of the instruction among In, Out, Pushf, Popf, Ret, Iret, Hlt.
pub proof fn law_control_field(f: u16)
    requires
        f < 8,
    ensures
        control_of(f) is Some <==> reversed3(f as int) < 7,
        control_of(f) matches Some(x) ==> control_place(x) == reversed3(f as int),
{
    assert(f == 0 || f == 1 || f == 2 || f == 3 || f == 4 || f == 5 || f == 6 || f == 7);
}

/// The condition field, read bit-reversed, is the place of the jump.
pub proof fn law_condition_field(f: u16)
    requires
        f < 16,
    ensures
        condition_place(condition_of(f)) == reversed4(f as int),
{
    assert(f == 0 || f == 1 || f == 2 || f == 3 || f == 4 || f == 5 || f == 6 || f == 7 || f
        == 8 || f == 9 || f == 10 || f == 11 || f == 12 || f == 13 || f == 14 || f == 15);
}

/// Where each field lies in the word: class in bits 3..0, operation in bits
/// 6..4, direction in bit 7, mode in bits 9..8, `rg` in bits 12..10 with bit
/// 12 least significant, `rm` in bits 15..13 with bit 15 least significant.
pub proof fn law_field_positions(i: u16)
    ensures
        class_field(i) == (i & 0xf),
        op_field(i) == ((i >> 4u16) & 7),
        dir_field(i) == ((i >> 7u16) & 1),
        mode_field(i) == ((i >> 8u16) & 3),
        rg_field(i) % 2 == ((i >> 12u16) & 1),
        (rg_field(i) / 2) % 2 == ((i >> 11u16) & 1),
        rg_field(i) / 4 == ((i >> 10u16) & 1),
        rm_field(i) % 2 == ((i >> 15u16) & 1),
        (rm_field(i) / 2) % 2 == ((i >> 14u16) & 1),
        rm_field(i) / 4 == ((i >> 13u16) & 1),
{
    assert(class_field(i) == (i & 0xf)) by (bit_vector);
    assert(op_field(i) == ((i >> 4u16) & 7)) by (bit_vector);
    assert(dir_field(i) == ((i >> 7u16) & 1)) by (bit_vector);
    assert(mode_field(i) == ((i >> 8u16) & 3)) by (bit_vector);
    assert(rg_field(i) % 2 == ((i >> 12u16) & 1)) by (bit_vector);
    assert((rg_field(i) / 2) % 2 == ((i >> 11u16) & 1)) by (bit_vector);
    assert(rg_field(i) / 4 == ((i >> 10u16) & 1)) by (bit_vector);
    assert(rm_field(i) % 2 == ((i >> 15u16) & 1)) by (bit_vector);
    assert((rm_field(i) / 2) % 2 == ((i >> 14u16) & 1)) by (bit_vector);
    assert(rm_field(i) / 4 == ((i >> 13u16) & 1)) by (bit_vector);
}

/// The place of the operation of a decoded instruction, if it has one.
pub open spec fn operation_place(d: Decoded) -> int {
    match d {
        Decoded::TwoOp { op, .. } => two_op_place(op),
        Decoded::OneOp { op, .. } => one_op_place(op),
        Decoded::CfNea(x) => control_place(x),
        Decoded::Jcond(x) => condition_place(x),
        Decoded::Invalid => -1,
    }
}

/// What each instruction class decodes to, in terms of the bit-reversed
/// operation field `r`:
///
/// * 1010 and 1110: the two-operand operation at place `r` (Add .. Xor) for
///   `r < 7`, whatever the operands; 1110 takes an immediate and acts on the
///   `rm` operand; otherwise `Invalid`;
/// * 0010 and 0110: `Cmp` for Sub (`r == 2`) and `Test` for And (`r == 4`),
///   1010 and 1110 give the same operands; otherwise `Invalid`;
/// * 1000: the one-operand operation at place `r + 5` (Inc .. Sar) for
///   `r < 7`, on the `rm` operand;
/// * 0000: Push, Pop, Call, Jmp (place `r - 1`) for `2 <= r <= 5` on the
///   `rm` operand, `Mov` for the operation field 0;
/// * 0100: `MovI` on the `rm` operand for the operation field 0;
/// * 0001: the control flow instruction at place `r` for `r < 7`;
/// * 1001: the jump at the bit-reversed condition field's place;
/// * every other class: `Invalid`.
pub proof fn law_decoding_by_class(i: u16)
    ensures
        ({
            let c = class_field(i);
            let r = reversed3(op_field(i) as int);
            let d = decoded(i);
            &&& (c == 10 || c == 14) ==> (d is TwoOp <==> r < 7) && (d is Invalid <==> r >= 7)
            &&& (c == 10 || c == 14) && r < 7 ==> operation_place(d) == r
            &&& c == 14 && r < 7 ==> d->src == Operand::Imm && d->TwoOp_dst == rm_operand(i)
            &&& d is TwoOp && (c == 10 || c == 2 || c == 0) && dir_field(i) == 1 ==> d->src
                == Operand::MaybeDst(rm_operand(i)) && d->TwoOp_dst == DstOperand::Reg(
                reg_of(rg_field(i)),
            )
            &&& d is TwoOp && (c == 10 || c == 2 || c == 0) && dir_field(i) == 0 ==> d->src
                == Operand::MaybeDst(DstOperand::Reg(reg_of(rg_field(i)))) && d->TwoOp_dst
                == rm_operand(i)
            &&& (c == 2 || c == 6) ==> (d is TwoOp <==> (r == 2 || r == 4)) && (d is Invalid
                <==> !(r == 2 || r == 4))
            &&& (c == 2 || c == 6) && r == 2 ==> d->TwoOp_op == TwoOp::Cmp
            &&& (c == 2 || c == 6) && r == 4 ==> d->TwoOp_op == TwoOp::Test
            &&& c == 6 && (r == 2 || r == 4) ==> d->src == Operand::Imm && d->TwoOp_dst
                == rm_operand(i)
            &&& c == 8 ==> (d is OneOp <==> r < 7) && (d is Invalid <==> r >= 7)
            &&& c == 8 && r < 7 ==> operation_place(d) == r + 5 && d->OneOp_dst == rm_operand(i)
            &&& c == 0 && 2 <= r <= 5 ==> d is OneOp && operation_place(d) == r - 1
                && d->OneOp_dst == rm_operand(i)
            &&& c == 0 && op_field(i) == 0 ==> d is TwoOp && d->TwoOp_op == TwoOp::Mov
            &&& c == 0 && op_field(i) != 0 && !(2 <= r <= 5) ==> d is Invalid
            &&& c == 4 && op_field(i) == 0 ==> d == (Decoded::OneOp {
                op: OneOp::MovI,
                dst: rm_operand(i),
            })
            &&& c == 4 && op_field(i) != 0 ==> d is Invalid
            &&& c == 1 ==> (d is CfNea <==> r < 7) && (d is Invalid <==> r >= 7)
            &&& c == 1 && r < 7 ==> operation_place(d) == r
            &&& c == 9 ==> d is Jcond && operation_place(d) == reversed4(cond_field(i) as int)
            &&& (c == 3 || c == 5 || c == 7 || c == 11 || c == 12 || c == 13 || c == 15)
                ==> d is Invalid
        }),
{
    crate::decoder::lemma_fields(i);
    law_two_op_field(op_field(i));
    law_ea_control_field(op_field(i));
    law_one_op_field(op_field(i));
    law_control_field(op_field(i));
    law_condition_field(cond_field(i));
    let f = op_field(i);
    assert(f == 0 || f == 1 || f == 2 || f == 3 || f == 4 || f == 5 || f == 6 || f == 7);
}

/// The operation of a two-operand word does not depend on its operands:
/// two words of the same class and operation field decode to the same
/// operation, or both to `Invalid`, whatever their mode, direction, `rm`
/// and `rg` fields.  The immediate class 1110 decodes to the same operation
/// as the class 1010.
pub proof fn law_operation_ignores_operands(i: u16, j: u16)
    requires
        class_field(i) == 10 || class_field(i) == 14,
        class_field(j) == 10 || class_field(j) == 14,
        op_field(i) == op_field(j),
    ensures
        decoded(i) is Invalid <==> decoded(j) is Invalid,
        decoded(i) is TwoOp ==> decoded(j) is TwoOp && decoded(i)->TwoOp_op == decoded(j)->TwoOp_op,
{
    law_decoding_by_class(i);
    law_decoding_by_class(j);
    crate::decoder::lemma_fields(i);
    crate::decoder::lemma_fields(j);
    law_two_op_field(op_field(i));
}

} // verus!
