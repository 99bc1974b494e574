use vstd::prelude::*;

verus! {

/// The eight general registers of the processor, in the order of their
/// three-bit register numbers 0 to 7.
#[derive(Debug, Clone, Copy, PartialEq, Eq, Structural)]
pub enum Reg {
    RA,
    RB,
    RC,
    SP,
    XA,
    XB,
    BA,
    BB,
}

/// Base registers usable in an effective address.
#[derive(Debug, Clone, Copy, PartialEq, Eq, Structural)]
pub enum BaseRegister {
    BA,
    BB,
}

/// Index registers usable in an effective address.
#[derive(Debug, Clone, Copy, PartialEq, Eq, Structural)]
pub enum IndexRegister {
    XA,
    XB,
}

/// A register that holds a whole address.
#[derive(Debug, Clone, Copy, PartialEq, Eq, Structural)]
pub enum AddrRegister {
    Base(BaseRegister),
    Index(IndexRegister),
}

/// The register named by a three-bit register number.
pub open spec fn reg_of(n: u16) -> Reg
    recommends
        n < 8,
{
    if n == 0 {
        Reg::RA
    } else if n == 1 {
        Reg::RB
    } else if n == 2 {
        Reg::RC
    } else if n == 3 {
        Reg::SP
    } else if n == 4 {
        Reg::XA
    } else if n == 5 {
        Reg::XB
    } else if n == 6 {
        Reg::BA
    } else {
        Reg::BB
    }
}

/// The three-bit number of a register: the inverse of `reg_of`.
pub open spec fn reg_number(r: Reg) -> u16 {
    match r {
        Reg::RA => 0,
        Reg::RB => 1,
        Reg::RC => 2,
        Reg::SP => 3,
        Reg::XA => 4,
        Reg::XB => 5,
        Reg::BA => 6,
        Reg::BB => 7,
    }
}

/// The general register that a base register is.
pub open spec fn base_reg(b: BaseRegister) -> Reg {
    match b {
        BaseRegister::BA => Reg::BA,
        BaseRegister::BB => Reg::BB,
    }
}

/// The general register that an index register is.
pub open spec fn index_reg(x: IndexRegister) -> Reg {
    match x {
        IndexRegister::XA => Reg::XA,
        IndexRegister::XB => Reg::XB,
    }
}

/// The general register that an address register is.
pub open spec fn addr_reg(a: AddrRegister) -> Reg {
    match a {
        AddrRegister::Base(b) => base_reg(b),
        AddrRegister::Index(x) => index_reg(x),
    }
}

/// The base register selected by one bit: `BB` for 1, `BA` otherwise.
pub open spec fn base_of_bit(b: u16) -> BaseRegister {
    if b == 1 {
        BaseRegister::BB
    } else {
        BaseRegister::BA
    }
}

/// The index register selected by one bit: `XB` for 1, `XA` otherwise.
pub open spec fn index_of_bit(b: u16) -> IndexRegister {
    if b == 1 {
        IndexRegister::XB
    } else {
        IndexRegister::XA
    }
}

/// Decodes a three-bit register number.
pub fn reg(n: u16) -> (r: Reg)
    requires
        n < 8,
    ensures
        r == reg_of(n),
        reg_number(r) == n,
{
    match n {
        0 => Reg::RA,
        1 => Reg::RB,
        2 => Reg::RC,
        3 => Reg::SP,
        4 => Reg::XA,
        5 => Reg::XB,
        6 => Reg::BA,
        _ => Reg::BB,
    }
}

/// The general register that a base register names.
pub fn btr(i: BaseRegister) -> (r: Reg)
    ensures
        r == base_reg(i),
        r == Reg::BA || r == Reg::BB,
        (r == Reg::BA) == (i == BaseRegister::BA),
{
    match i {
        BaseRegister::BA => Reg::BA,
        BaseRegister::BB => Reg::BB,
    }
}

/// The general register that an index register names.
pub fn itr(i: IndexRegister) -> (r: Reg)
    ensures
        r == index_reg(i),
        r == Reg::XA || r == Reg::XB,
        (r == Reg::XA) == (i == IndexRegister::XA),
{
    match i {
        IndexRegister::XA => Reg::XA,
        IndexRegister::XB => Reg::XB,
    }
}

/// The general register that an address register names.
pub fn artr(i: AddrRegister) -> (r: Reg)
    ensures
        r == addr_reg(i),
        i matches AddrRegister::Base(b) ==> r == base_reg(b),
        i matches AddrRegister::Index(x) ==> r == index_reg(x),
{
    match i {
        AddrRegister::Base(b) => btr(b),
        AddrRegister::Index(i) => itr(i),
    }
}

/// Selects the index register named by a one-bit field.
pub fn irx(i: u16) -> (r: IndexRegister)
    requires
        i < 2,
    ensures
        r == index_of_bit(i),
        (r == IndexRegister::XB) == (i == 1),
{
    if i == 1 {
        IndexRegister::XB
    } else {
        IndexRegister::XA
    }
}

/// Selects the base register named by a one-bit field.
pub fn brx(i: u16) -> (r: BaseRegister)
    requires
        i < 2,
    ensures
        r == base_of_bit(i),
        (r == BaseRegister::BB) == (i == 1),
{
    if i == 1 {
        BaseRegister::BB
    } else {
        BaseRegister::BA
    }
}

impl Default for Reg {
    /// The register numbered 0.
    fn default() -> (r: Self)
        ensures
            r == Reg::RA,
    {
        Reg::RA
    }
}

impl Default for BaseRegister {
    fn default() -> (r: Self)
        ensures
            r == BaseRegister::BA,
    {
        BaseRegister::BA
    }
}

impl Default for IndexRegister {
    fn default() -> (r: Self)
        ensures
            r == IndexRegister::XA,
    {
        IndexRegister::XA
    }
}

impl Default for AddrRegister {
    fn default() -> (r: Self)
        ensures
            r == AddrRegister::Base(BaseRegister::BA),
    {
        Self::Base(BaseRegister::default())
    }
}

} // verus!
