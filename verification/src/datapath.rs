use vstd::prelude::*;

use crate::decoder::{decode, decoded, Decoded};
use crate::registers::Reg;

verus! {

/// The control signals of one clock cycle that the datapath reads.
///
/// The signals that only select the arithmetic unit's operation and carry
/// are not here: the arithmetic unit's result is handed to `top_kernel`.
#[derive(Clone, Copy, Debug)]
pub struct Signals {
    pub rf_sel: Reg,
    pub rf_oe: bool,
    pub rf_we: bool,
    pub t1_oe: bool,
    pub t1_we: bool,
    pub t2_oe: bool,
    pub t2_we: bool,
    pub ma_oe: bool,
    pub ma_we: bool,
    pub ram_oe: bool,
    pub ram_we: bool,
    pub alu_oe: bool,
    pub pc_we: bool,
    pub pc_oe: bool,
    pub ir_we: bool,
    pub ir_oe: bool,
    pub fr_oe: bool,
    pub fr_we: bool,
    pub fr_sel_bus: bool,
}

/// The current outputs of the processor's storage elements.
#[derive(Clone, Copy, Debug)]
pub struct Outputs {
    /// What the register file drives onto the bus (0 when it does not drive).
    pub regs: u16,
    /// The value held in T1 (an operand of the arithmetic unit).
    pub t1: u16,
    /// The value held in T2 (an operand of the arithmetic unit).
    pub t2: u16,
    /// The value held in the memory address register.
    pub ma: u16,
    /// What the program counter drives onto the bus (0 when it does not drive).
    pub pc: u16,
    /// The instruction register.
    pub ir: u16,
    /// The flags register.
    pub fr: u16,
    /// What the memory drives onto the bus (0 when it does not drive).
    pub ram: u16,
}

/// The inputs of a bus register for the next clock edge.
#[derive(Clone, Copy, Debug, PartialEq, Eq)]
pub struct RegisterInput {
    pub oe: bool,
    pub we: bool,
    pub data_in: u16,
}

/// The inputs of the memory for the next clock edge.
#[derive(Clone, Copy, Debug, PartialEq, Eq)]
pub struct RamInput {
    pub oe: bool,
    pub we: bool,
    pub data_in: u16,
    /// The ten-bit word address.
    pub address: u16,
}

/// What the datapath computes in one clock cycle: the bus and the inputs of
/// every storage element for the next clock edge.
#[derive(Clone, Copy, Debug)]
pub struct Next {
    pub bus: u16,
    pub t1: RegisterInput,
    pub t2: RegisterInput,
    pub ma: RegisterInput,
    pub pc: RegisterInput,
    pub regs: RegisterInput,
    pub rf_sel: Reg,
    pub ram: RamInput,
    /// The decoded instruction register, which the control unit always sees.
    pub decoded: Decoded,
    /// The flags register, which the control unit always sees (it reads the
    /// individual flags out of it).
    pub flags: u16,
    /// The operands handed to the arithmetic unit: the values held in T1
    /// and T2, which do not go through the bus.
    pub alu_t1: u16,
    pub alu_t2: u16,
    pub ir: u16,
    pub fr: u16,
}

/// What the instruction register puts on the bus: its high byte, whose bits
/// are stored with bit 15 as the least significant one, sign-extended from
/// bit 8 to sixteen bits.
pub open spec fn ir_bus_value(ir: u16) -> u16 {
    let low = (ir / 32768) % 2 + 2 * ((ir / 16384) % 2) + 4 * ((ir / 8192) % 2) + 8 * ((ir
        / 4096) % 2) + 16 * ((ir / 2048) % 2) + 32 * ((ir / 1024) % 2) + 64 * ((ir / 512) % 2)
        + 128 * ((ir / 256) % 2);
    if (ir / 256) % 2 == 1 {
        (low + 0xff00) as u16
    } else {
        low as u16
    }
}

/// The value on the bus: the OR of every source that drives it.
pub open spec fn bus_value(s: Signals, q: Outputs, alu_res: u16) -> u16 {
    (if s.fr_oe {
        q.fr
    } else {
        0u16
    }) | (if s.ir_oe {
        ir_bus_value(q.ir)
    } else {
        0u16
    }) | q.pc | q.regs | q.ram | (if s.alu_oe {
        alu_res
    } else {
        0u16
    })
}

/// The next flags register: unchanged unless written; written from the bus,
/// it keeps bits 4..0 of the bus, otherwise it takes the arithmetic unit's
/// flags.
pub open spec fn next_flags(s: Signals, q: Outputs, bus: u16, alu_fr: u16) -> u16 {
    if !s.fr_we {
        q.fr
    } else if s.fr_sel_bus {
        bus % 32
    } else {
        alu_fr
    }
}

/// What the instruction register puts on the bus when it drives it.
pub fn ir_to_bus(ir: u16) -> (v: u16)
    ensures
        v == ir_bus_value(ir),
{
    let s: u16 = (ir >> 8u16) & 1;
    let v: u16 = ((ir >> 15u16) & 1) | (((ir >> 14u16) & 1) << 1u16) | (((ir >> 13u16) & 1)
        << 2u16) | (((ir >> 12u16) & 1) << 3u16) | (((ir >> 11u16) & 1) << 4u16) | (((ir
        >> 10u16) & 1) << 5u16) | (((ir >> 9u16) & 1) << 6u16) | (s << 7u16) | (if s == 1 {
        0xff00u16
    } else {
        0u16
    });
    assert(v == ir_bus_value(ir)) by (bit_vector)
        requires
            s == (ir >> 8u16) & 1,
            v == ((ir >> 15u16) & 1) | (((ir >> 14u16) & 1) << 1u16) | (((ir >> 13u16) & 1)
                << 2u16) | (((ir >> 12u16) & 1) << 3u16) | (((ir >> 11u16) & 1) << 4u16) | (((
            ir >> 10u16) & 1) << 5u16) | (((ir >> 9u16) & 1) << 6u16) | (s << 7u16) | (if s
                == 1 {
                0xff00u16
            } else {
                0u16
            }),
    ;
    v
}

/// One clock cycle of the processor's datapath: the bus, and the inputs of
/// the registers, the memory, the instruction and flags registers and the
/// control unit for the next clock edge.
///
/// `alu_res` and `alu_fr` are the arithmetic unit's result and its flags in
/// flags-register form, for the operands `n.alu_t1` and `n.alu_t2` (the
/// values of T1 and T2) with the cycle's carry and operation signals.
pub fn top_kernel(s: &Signals, q: &Outputs, alu_res: u16, alu_fr: u16) -> (n: Next)
    ensures
        n.bus == bus_value(*s, *q, alu_res),
        n.t1 == (RegisterInput { oe: s.t1_oe, we: s.t1_we, data_in: n.bus }),
        n.t2 == (RegisterInput { oe: s.t2_oe, we: s.t2_we, data_in: n.bus }),
        n.ma == (RegisterInput { oe: s.ma_oe, we: s.ma_we, data_in: n.bus }),
        n.pc == (RegisterInput { oe: s.pc_oe, we: s.pc_we, data_in: n.bus }),
        n.regs == (RegisterInput { oe: s.rf_oe, we: s.rf_we, data_in: n.bus }),
        n.rf_sel == s.rf_sel,
        n.ram == (RamInput { oe: s.ram_oe, we: s.ram_we, data_in: n.bus, address: q.ma % 1024 }),
        n.decoded == decoded(q.ir),
        n.flags == q.fr,
        n.alu_t1 == q.t1,
        n.alu_t2 == q.t2,
        n.ir == (if s.ir_we {
            n.bus
        } else {
            q.ir
        }),
        n.fr == next_flags(*s, *q, n.bus, alu_fr),
{
    let bus: u16 = (if s.fr_oe {
        q.fr
    } else {
        0
    }) | (if s.ir_oe {
        ir_to_bus(q.ir)
    } else {
        0
    }) | q.pc | q.regs | q.ram | (if s.alu_oe {
        alu_res
    } else {
        0
    });
    let ma: u16 = q.ma;
    let address: u16 = ma & 0x3ff;
    assert(address == ma % 1024) by (bit_vector)
        requires
            address == ma & 0x3ff,
    ;
    let fr: u16 = if s.fr_we {
        // from the bus, anything outside the flag bits is ignored
        if s.fr_sel_bus {
            let f: u16 = bus & 0x1f;
            assert(f == bus % 32) by (bit_vector)
                requires
                    f == bus & 0x1f,
            ;
            f
        } else {
            alu_fr
        }
    } else {
        q.fr
    };
    Next {
        bus,
        t1: RegisterInput { oe: s.t1_oe, we: s.t1_we, data_in: bus },
        t2: RegisterInput { oe: s.t2_oe, we: s.t2_we, data_in: bus },
        ma: RegisterInput { oe: s.ma_oe, we: s.ma_we, data_in: bus },
        pc: RegisterInput { oe: s.pc_oe, we: s.pc_we, data_in: bus },
        regs: RegisterInput { oe: s.rf_oe, we: s.rf_we, data_in: bus },
        rf_sel: s.rf_sel,
        ram: RamInput { oe: s.ram_oe, we: s.ram_we, data_in: bus, address },
        decoded: decode(q.ir),
        flags: q.fr,
        alu_t1: q.t1,
        alu_t2: q.t2,
        ir: if s.ir_we {
            bus
        } else {
            q.ir
        },
        fr,
    }
}

// ---------------------------------------------------------------------------
// Laws of the datapath.

/// Every source that drives the bus has all its bits on the bus.
pub proof fn law_bus_carries_every_driver(s: Signals, q: Outputs, alu_res: u16)
    ensures
        bus_value(s, q, alu_res) & q.pc == q.pc,
        bus_value(s, q, alu_res) & q.regs == q.regs,
        bus_value(s, q, alu_res) & q.ram == q.ram,
        s.fr_oe ==> bus_value(s, q, alu_res) & q.fr == q.fr,
        s.alu_oe ==> bus_value(s, q, alu_res) & alu_res == alu_res,
        s.ir_oe ==> bus_value(s, q, alu_res) & ir_bus_value(q.ir) == ir_bus_value(q.ir),
{
    let b = bus_value(s, q, alu_res);
    let a: u16 = if s.fr_oe {
        q.fr
    } else {
        0u16
    };
    let c: u16 = if s.ir_oe {
        ir_bus_value(q.ir)
    } else {
        0u16
    };
    let e: u16 = if s.alu_oe {
        alu_res
    } else {
        0u16
    };
    let p = q.pc;
    let r = q.regs;
    let m = q.ram;
    assert(b == a | c | p | r | m | e);
    assert((a | c | p | r | m | e) & p == p) by (bit_vector);
    assert((a | c | p | r | m | e) & r == r) by (bit_vector);
    assert((a | c | p | r | m | e) & m == m) by (bit_vector);
    assert((a | c | p | r | m | e) & a == a) by (bit_vector);
    assert((a | c | p | r | m | e) & c == c) by (bit_vector);
    assert((a | c | p | r | m | e) & e == e) by (bit_vector);
}

/// With no source driving it, the bus is zero.
pub proof fn law_idle_bus_is_zero(s: Signals, q: Outputs, alu_res: u16)
    requires
        !s.fr_oe,
        !s.ir_oe,
        !s.alu_oe,
        q.pc == 0,
        q.regs == 0,
        q.ram == 0,
    ensures
        bus_value(s, q, alu_res) == 0,
{
    assert(0u16 | 0u16 | 0u16 | 0u16 | 0u16 | 0u16 == 0u16) by (bit_vector);
}

/// A flags register written from the bus keeps only bits 4..0.
pub proof fn law_flags_from_bus_are_five_bits(s: Signals, q: Outputs, bus: u16, alu_fr: u16)
    requires
        s.fr_we,
        s.fr_sel_bus,
    ensures
        next_flags(s, q, bus, alu_fr) < 32,
{
}

/// What the instruction register puts on the bus is a sign-extended byte:
/// its nine top bits are all equal to bit 8 of the instruction register.
pub proof fn law_ir_value_is_sign_extended(ir: u16)
    ensures
        (ir / 256) % 2 == 1 ==> ir_bus_value(ir) >= 0xff80,
        (ir / 256) % 2 == 0 ==> ir_bus_value(ir) < 0x80,
{
}


/// Bit `k` of what the instruction register puts on the bus is bit `15 - k`
/// of the instruction register for `k < 8`, and bit 8 of the instruction
/// register for every higher bit.
pub proof fn law_ir_bus_bits(ir: u16)
    ensures
        forall|k: u16| k < 8 ==> (#[trigger] (ir_bus_value(ir) >> k) & 1) == ((ir >> ((15 - k) as u16)) & 1),
        forall|k: u16| 8 <= k < 16 ==> (#[trigger] (ir_bus_value(ir) >> k) & 1) == ((ir >> 8u16) & 1),
{
    let v = ir_bus_value(ir);
    let s: u16 = (ir >> 8u16) & 1;
    assert(v == ((ir >> 15u16) & 1) | (((ir >> 14u16) & 1) << 1u16) | (((ir >> 13u16) & 1)
        << 2u16) | (((ir >> 12u16) & 1) << 3u16) | (((ir >> 11u16) & 1) << 4u16) | (((ir
        >> 10u16) & 1) << 5u16) | (((ir >> 9u16) & 1) << 6u16) | (s << 7u16) | (if s == 1 {
        0xff00u16
    } else {
        0u16
    })) by (bit_vector)
        requires
            v == ir_bus_value(ir),
            s == (ir >> 8u16) & 1,
    ;
    assert forall|k: u16| k < 8 implies (#[trigger] (v >> k) & 1) == ((ir >> ((15 - k) as u16)) & 1) by {
        assert(k < 8 ==> (v >> k) & 1 == (ir >> ((15 - k) as u16)) & 1) by (bit_vector)
            requires
                s == (ir >> 8u16) & 1,
                v == ((ir >> 15u16) & 1) | (((ir >> 14u16) & 1) << 1u16) | (((ir >> 13u16) & 1)
                    << 2u16) | (((ir >> 12u16) & 1) << 3u16) | (((ir >> 11u16) & 1) << 4u16) | (((
                ir >> 10u16) & 1) << 5u16) | (((ir >> 9u16) & 1) << 6u16) | (s << 7u16) | (if s
                    == 1 {
                    0xff00u16
                } else {
                    0u16
                }),
        ;
    }
    assert forall|k: u16| 8 <= k < 16 implies (#[trigger] (v >> k) & 1) == ((ir >> 8u16) & 1) by {
        assert(8 <= k < 16 ==> (v >> k) & 1 == s) by (bit_vector)
            requires
                s == (ir >> 8u16) & 1,
                v == ((ir >> 15u16) & 1) | (((ir >> 14u16) & 1) << 1u16) | (((ir >> 13u16) & 1)
                    << 2u16) | (((ir >> 12u16) & 1) << 3u16) | (((ir >> 11u16) & 1) << 4u16) | (((
                ir >> 10u16) & 1) << 5u16) | (((ir >> 9u16) & 1) << 6u16) | (s << 7u16) | (if s
                    == 1 {
                    0xff00u16
                } else {
                    0u16
                }),
        ;
    }
}

/// The bus carries nothing but what its drivers drive: every value that
/// holds all the enabled drivers' bits holds all the bus's bits.
pub proof fn law_bus_has_no_other_bits(s: Signals, q: Outputs, alu_res: u16, x: u16)
    requires
        x & q.pc == q.pc,
        x & q.regs == q.regs,
        x & q.ram == q.ram,
        s.fr_oe ==> x & q.fr == q.fr,
        s.alu_oe ==> x & alu_res == alu_res,
        s.ir_oe ==> x & ir_bus_value(q.ir) == ir_bus_value(q.ir),
    ensures
        bus_value(s, q, alu_res) & x == bus_value(s, q, alu_res),
{
    let a: u16 = if s.fr_oe {
        q.fr
    } else {
        0u16
    };
    let c: u16 = if s.ir_oe {
        ir_bus_value(q.ir)
    } else {
        0u16
    };
    let e: u16 = if s.alu_oe {
        alu_res
    } else {
        0u16
    };
    let p = q.pc;
    let r = q.regs;
    let m = q.ram;
    assert(x & 0u16 == 0u16) by (bit_vector);
    assert(x & a == a && x & c == c && x & e == e);
    assert((a | c | p | r | m | e) & x == (a | c | p | r | m | e)) by (bit_vector)
        requires
            x & a == a,
            x & c == c,
            x & p == p,
            x & r == r,
            x & m == m,
            x & e == e,
    ;
}

/// The next flags register: unchanged unless written; written from the bus
/// it is the bus's bits 4..0 and nothing else; written otherwise it is the
/// arithmetic unit's flags.
pub proof fn law_next_flags(s: Signals, q: Outputs, bus: u16, alu_fr: u16)
    ensures
        !s.fr_we ==> next_flags(s, q, bus, alu_fr) == q.fr,
        s.fr_we && s.fr_sel_bus ==> next_flags(s, q, bus, alu_fr) == bus & 0x1f,
        s.fr_we && !s.fr_sel_bus ==> next_flags(s, q, bus, alu_fr) == alu_fr,
{
    assert(bus % 32 == bus & 0x1f) by (bit_vector);
}

} // verus!
