use skel_cd::decoder::{
    decode, eacfg, jcond, mod_rm, neacf, oop, twop, CfNea, Decoded, DstOperand, Jcond, OneOp,
    Operand, TwoOp,
};
use skel_cd::machine::{hex, CpuDefault};
use skel_cd::registers::{
    artr, brx, irx, btr, itr, reg, AddrRegister, BaseRegister, IndexRegister, Reg,
};

/// Builds an instruction word from its fields, each given with its most
/// significant bit first as a plain number.
fn word(rm: u16, rg: u16, mode: u16, dir: u16, op: u16, class: u16) -> u16 {
    let rev3 = |v: u16| ((v & 1) << 2) | (v & 2) | ((v >> 2) & 1);
    (rev3(rm) << 13) | (rev3(rg) << 10) | (mode << 8) | (dir << 7) | (op << 4) | class
}

#[test]
fn register_numbers() {
    let expected = [Reg::RA, Reg::RB, Reg::RC, Reg::SP, Reg::XA, Reg::XB, Reg::BA, Reg::BB];
    for n in 0..8u16 {
        assert_eq!(reg(n), expected[n as usize]);
    }
}

#[test]
fn address_register_names() {
    assert_eq!(btr(BaseRegister::BA), Reg::BA);
    assert_eq!(btr(BaseRegister::BB), Reg::BB);
    assert_eq!(itr(IndexRegister::XA), Reg::XA);
    assert_eq!(itr(IndexRegister::XB), Reg::XB);
    assert_eq!(artr(AddrRegister::Base(BaseRegister::BB)), Reg::BB);
    assert_eq!(artr(AddrRegister::Index(IndexRegister::XA)), Reg::XA);
    assert_eq!(irx(0), IndexRegister::XA);
    assert_eq!(irx(1), IndexRegister::XB);
    assert_eq!(brx(0), BaseRegister::BA);
    assert_eq!(brx(1), BaseRegister::BB);
}

#[test]
fn operation_tables() {
    assert_eq!(twop(0b100), Some(TwoOp::Adc));
    assert_eq!(twop(0b111), None);
    assert_eq!(eacfg(0b101), Some(OneOp::Jmp));
    assert_eq!(eacfg(0b000), None);
    assert_eq!(oop(0b011), Some(OneOp::Sar));
    assert_eq!(oop(0b111), None);
    assert_eq!(neacf(0b011), Some(CfNea::Hlt));
    assert_eq!(neacf(0b111), None);
    assert_eq!(jcond(0b1111), Jcond::Jpo);
    assert_eq!(jcond(0b0011), Jcond::Jne);
}

#[test]
fn register_mode_names_the_rm_register() {
    // mode 11: the operand is the register numbered by the rm field
    assert_eq!(mod_rm(word(6, 0, 3, 0, 0, 0)), DstOperand::Reg(Reg::BA));
    assert_eq!(mod_rm(word(3, 0, 3, 0, 0, 0)), DstOperand::Reg(Reg::SP));
}

#[test]
fn operand_encoding_is_unambiguous() {
    let mut seen: Vec<DstOperand> = Vec::new();
    for mode in 0..4u16 {
        for rm in 0..8u16 {
            let d = mod_rm(word(rm, 5, mode, 1, 3, 7));
            assert!(!seen.contains(&d));
            seen.push(d);
        }
    }
    assert_eq!(seen.len(), 32);
}

#[test]
fn rm_operand_ignores_other_fields() {
    assert_eq!(mod_rm(0xE308), mod_rm(0xE3F7));
    assert_eq!(mod_rm(0x0200), DstOperand::RegSumIncr(BaseRegister::BA, IndexRegister::XA));
}

#[test]
fn direction_bit_swaps_operands() {
    // ADD RA, [BA+XB]
    let d = decode(0x808A);
    assert_eq!(
        decode(0x808A ^ 0x80),
        match d {
            Decoded::TwoOp { op, src: Operand::MaybeDst(a), dst } => Decoded::TwoOp {
                op,
                src: Operand::MaybeDst(dst),
                dst: a,
            },
            other => other,
        }
    );
    assert_eq!(
        decode(0x000A),
        Decoded::TwoOp {
            op: TwoOp::Add,
            src: Operand::MaybeDst(DstOperand::Reg(Reg::RA)),
            dst: DstOperand::RegSum(BaseRegister::BA, IndexRegister::XA),
        }
    );
    // immediate and one-operand forms do not depend on the direction bit
    assert_eq!(decode(0x210E), decode(0x210E ^ 0x80));
    assert_eq!(decode(0x0008), decode(0x0088));
}

#[test]
fn compare_is_subtraction_without_saving() {
    // CMP BA, [BB+XB+Depls] and the SUB with the same operands
    assert_eq!(
        decode(0xCDAA),
        Decoded::TwoOp {
            op: TwoOp::Sub,
            src: Operand::MaybeDst(DstOperand::BasedIndexedAddr(
                BaseRegister::BB,
                IndexRegister::XB
            )),
            dst: DstOperand::Reg(Reg::BA),
        }
    );
    assert_eq!(
        decode(0xCDA2),
        Decoded::TwoOp {
            op: TwoOp::Cmp,
            src: Operand::MaybeDst(DstOperand::BasedIndexedAddr(
                BaseRegister::BB,
                IndexRegister::XB
            )),
            dst: DstOperand::Reg(Reg::BA),
        }
    );
    // an ADD has no form without saving
    assert_eq!(decode(0x0002), Decoded::Invalid);
    assert_eq!(decode(0x0006), Decoded::Invalid);
    // TEST [BA+XB+Depls], X against AND [BA+XB+Depls], X
    assert_eq!(
        decode(0x811E),
        Decoded::TwoOp {
            op: TwoOp::And,
            src: Operand::Imm,
            dst: DstOperand::BasedIndexedAddr(BaseRegister::BA, IndexRegister::XB),
        }
    );
}

#[test]
fn jump_conditions_are_distinct() {
    let mut seen: Vec<Decoded> = Vec::new();
    for c in 0..16u16 {
        let d = decode(0xFF09 | (c << 4));
        assert!(matches!(d, Decoded::Jcond(_)));
        assert!(!seen.contains(&d));
        seen.push(d);
    }
}

#[test]
fn unassigned_words_are_invalid() {
    for class in [0b0011u16, 0b0101, 0b0111, 0b1011, 0b1100, 0b1101, 0b1111] {
        for op in 0..8u16 {
            assert_eq!(decode(word(2, 3, 1, 1, op, class)), Decoded::Invalid);
        }
    }
    assert_eq!(decode(0x0040), Decoded::Invalid); // class 0000, operation 100
    assert_eq!(decode(0x0014), Decoded::Invalid); // class 0100, operation 001
    assert_eq!(decode(0x0078), Decoded::Invalid); // class 1000, operation 111
    assert_eq!(decode(0x0071), Decoded::Invalid); // class 0001, operation 111
    assert_eq!(decode(0x007A), Decoded::Invalid); // class 1010, operation 111
    assert_eq!(decode(0x0066), Decoded::Invalid); // class 0110, SBB has no compare form
}

#[test]
fn default_values() {
    assert_eq!(Decoded::default(), Decoded::Invalid);
    assert_eq!(Operand::default(), Operand::Imm);
    assert_eq!(DstOperand::default(), DstOperand::Reg(Reg::RA));
    assert_eq!(AddrRegister::default(), AddrRegister::Base(BaseRegister::BA));
    assert_eq!(BaseRegister::default(), BaseRegister::BA);
    assert_eq!(IndexRegister::default(), IndexRegister::XA);
    assert_eq!(TwoOp::default(), TwoOp::Add);
    assert_eq!(OneOp::default(), OneOp::MovI);
    assert_eq!(CfNea::default(), CfNea::Hlt);
    assert_eq!(Jcond::default(), Jcond::Jbe);
    let init = CpuDefault::default();
    assert_eq!(init.regs, [0u128; 8]);
    assert_eq!((init.T1, init.T2, init.MA, init.IR, init.PC, init.FR), (0, 0, 0, 0, 0, 0));
    assert_eq!(init.state, 0);
}

#[test]
fn hex_text() {
    assert_eq!(hex(0x0031), "0031");
    assert_eq!(hex(0), "0000");
    assert_eq!(hex(0x69), "0069");
    assert_eq!(hex(0xFFFF), "FFFF");
    assert_eq!(hex(0xABCDE), "ABCDE");
    assert_eq!(hex(u128::MAX), "F".repeat(32));
    assert_eq!(hex(0x1234), format!("{:04X}", 0x1234));
}
