use vstd::prelude::*;

verus! {

/// The values a processor starts from: the eight general registers, the
/// internal registers and the control unit's state, each given as a plain
/// number.
///
/// The control unit's states are numbered by whoever drives the control
/// unit, with 0 standing for its default (start) state.
#[allow(non_snake_case)]
#[derive(Clone, Debug)]
pub struct CpuDefault {
    pub regs: [u128; 8],
    pub T1: u128,
    pub T2: u128,
    pub MA: u128,
    pub IR: u128,
    pub PC: u128,
    pub FR: u128,
    pub state: u16,
}

impl Default for CpuDefault {
    /// Every register starts at zero.
    fn default() -> (r: Self)
        ensures
            forall|k: int| 0 <= k < 8 ==> r.regs[k] == 0,
            r.T1 == 0,
            r.T2 == 0,
            r.MA == 0,
            r.IR == 0,
            r.PC == 0,
            r.FR == 0,
            r.state == 0,
    {
        CpuDefault {
            regs: [0, 0, 0, 0, 0, 0, 0, 0],
            T1: 0,
            T2: 0,
            MA: 0,
            IR: 0,
            PC: 0,
            FR: 0,
            state: 0,
        }
    }
}

// ---------------------------------------------------------------------------
// Hexadecimal text.

/// The upper-case hexadecimal digit of a value below 16.
pub open spec fn hex_digit(d: int) -> char {
    if d == 0 {
        '0'
    } else if d == 1 {
        '1'
    } else if d == 2 {
        '2'
    } else if d == 3 {
        '3'
    } else if d == 4 {
        '4'
    } else if d == 5 {
        '5'
    } else if d == 6 {
        '6'
    } else if d == 7 {
        '7'
    } else if d == 8 {
        '8'
    } else if d == 9 {
        '9'
    } else if d == 10 {
        'A'
    } else if d == 11 {
        'B'
    } else if d == 12 {
        'C'
    } else if d == 13 {
        'D'
    } else if d == 14 {
        'E'
    } else {
        'F'
    }
}

/// The upper-case hexadecimal digits of a number, most significant first,
/// without leading zeros (zero itself is the one digit `0`).
pub open spec fn hex_digits(n: nat) -> Seq<char>
    decreases n,
{
    if n < 16 {
        seq![hex_digit(n as int)]
    } else {
        hex_digits(n / 16).push(hex_digit((n % 16) as int))
    }
}

/// The digits of a number, padded on the left with zeros to at least four.
pub open spec fn hex_text(n: nat) -> Seq<char> {
    let ds = hex_digits(n);
    if ds.len() < 4 {
        Seq::new((4 - ds.len()) as nat, |k: int| '0') + ds
    } else {
        ds
    }
}

/// The text of digit values stored least significant first.
pub open spec fn text_of_reversed(ds: Seq<u8>) -> Seq<char> {
    Seq::new(ds.len(), |k: int| hex_digit(ds[ds.len() - 1 - k] as int))
}

/// The one-character text of a hexadecimal digit.
fn hex_digit_str(d: u8) -> (s: &'static str)
    requires
        d < 16,
    ensures
        s@ == seq![hex_digit(d as int)],
{
    match d {
        0 => {
            proof {
                reveal_strlit("0");
            }
            "0"
        },
        1 => {
            proof {
                reveal_strlit("1");
            }
            "1"
        },
        2 => {
            proof {
                reveal_strlit("2");
            }
            "2"
        },
        3 => {
            proof {
                reveal_strlit("3");
            }
            "3"
        },
        4 => {
            proof {
                reveal_strlit("4");
            }
            "4"
        },
        5 => {
            proof {
                reveal_strlit("5");
            }
            "5"
        },
        6 => {
            proof {
                reveal_strlit("6");
            }
            "6"
        },
        7 => {
            proof {
                reveal_strlit("7");
            }
            "7"
        },
        8 => {
            proof {
                reveal_strlit("8");
            }
            "8"
        },
        9 => {
            proof {
                reveal_strlit("9");
            }
            "9"
        },
        10 => {
            proof {
                reveal_strlit("A");
            }
            "A"
        },
        11 => {
            proof {
                reveal_strlit("B");
            }
            "B"
        },
        12 => {
            proof {
                reveal_strlit("C");
            }
            "C"
        },
        13 => {
            proof {
                reveal_strlit("D");
            }
            "D"
        },
        14 => {
            proof {
                reveal_strlit("E");
            }
            "E"
        },
        _ => {
            proof {
                reveal_strlit("F");
            }
            "F"
        },
    }
}

/// A number in upper-case hexadecimal, padded with zeros to at least four
/// digits.
pub fn hex(i: u128) -> (s: String)
    ensures
        s@ == hex_text(i as nat),
{
    let mut n: u128 = i;
    // digit values, least significant first
    let mut digits: Vec<u8> = Vec::new();
    while n >= 16
        invariant
            hex_digits(i as nat) == hex_digits(n as nat) + text_of_reversed(digits@),
            forall|k: int| 0 <= k < digits.len() ==> digits[k] < 16,
        decreases n,
    {
        let d: u8 = (n % 16) as u8;
        let ghost old_digits = digits@;
        proof {
            assert(text_of_reversed(old_digits.push(d)) =~= seq![hex_digit(d as int)]
                + text_of_reversed(old_digits));
            assert(hex_digits(n as nat) == hex_digits((n / 16) as nat).push(hex_digit(d as int)));
            assert(hex_digits((n / 16) as nat).push(hex_digit(d as int)) + text_of_reversed(
                old_digits,
            ) =~= hex_digits((n / 16) as nat) + (seq![hex_digit(d as int)] + text_of_reversed(
                old_digits,
            )));
        }
        digits.push(d);
        n = n / 16;
    }
    let last: u8 = n as u8;
    proof {
        let old_digits = digits@;
        assert(text_of_reversed(old_digits.push(last)) =~= seq![hex_digit(last as int)]
            + text_of_reversed(old_digits));
    }
    digits.push(last);
    assert(hex_digits(i as nat) =~= text_of_reversed(digits@));

    let mut s = String::new();
    let len = digits.len();
    let mut pad: usize = 0;
    if len < 4 {
        pad = 4 - len;
    }
    let mut k: usize = 0;
    while k < pad
        invariant
            k <= pad,
            s@ =~= Seq::new(k as nat, |j: int| '0'),
        decreases pad - k,
    {
        proof {
            reveal_strlit("0");
        }
        s.append("0");
        k = k + 1;
    }
    let ghost padding = s@;
    let mut m: usize = len;
    while m > 0
        invariant
            m <= len,
            len == digits.len(),
            forall|j: int| 0 <= j < digits.len() ==> digits[j] < 16,
            s@ =~= padding + text_of_reversed(digits@).subrange(0, (len - m) as int),
        decreases m,
    {
        let piece = hex_digit_str(digits[m - 1]);
        let ghost before = s@;
        s.append(piece);
        m = m - 1;
        assert(text_of_reversed(digits@).subrange(0, (len - m) as int) =~= text_of_reversed(
            digits@,
        ).subrange(0, (len - m - 1) as int).push(hex_digit(digits@[m as int] as int)));
    }
    assert(text_of_reversed(digits@).subrange(0, len as int) =~= text_of_reversed(digits@));
    s
}


// ---------------------------------------------------------------------------
// The processor's storage.

/// The processor's storage as plain values: the eight general registers,
/// the internal registers, the control unit's state (numbered as in
/// `CpuDefault`) and the memory words.
#[derive(Clone, Debug)]
pub struct CpuState {
    pub regs: [u16; 8],
    pub t1: u16,
    pub t2: u16,
    pub ma: u16,
    pub pc: u16,
    pub ir: u16,
    pub fr: u16,
    pub control: u16,
    pub ram: Vec<u16>,
}

/// The start state of the processor with the given memory contents: T1
/// holds 5, every other register holds 0 and the control unit is in its
/// default state.
pub fn cpu_default(ram: Vec<u16>) -> (c: CpuState)
    ensures
        forall|k: int| 0 <= k < 8 ==> c.regs[k] == 0,
        c.t1 == 5,
        c.t2 == 0,
        c.ma == 0,
        c.pc == 0,
        c.ir == 0,
        c.fr == 0,
        c.control == 0,
        c.ram@ == ram@,
{
    CpuState {
        regs: [0, 0, 0, 0, 0, 0, 0, 0],
        t1: 5,
        t2: 0,
        ma: 0,
        pc: 0,
        ir: 0,
        fr: 0,
        control: 0,
        ram,
    }
}

/// Whether every start value fits in a sixteen-bit register.
pub open spec fn fits_registers(init: CpuDefault) -> bool {
    &&& forall|k: int| 0 <= k < 8 ==> init.regs[k] < 0x10000
    &&& init.T1 < 0x10000
    &&& init.T2 < 0x10000
    &&& init.MA < 0x10000
    &&& init.IR < 0x10000
    &&& init.PC < 0x10000
    &&& init.FR < 0x10000
}

/// The processor started from the given register values and control unit
/// state, with the given memory contents.  A register start value must fit
/// in sixteen bits.
pub fn cpu_new(init: &CpuDefault, ram: Vec<u16>) -> (c: CpuState)
    requires
        fits_registers(*init),
    ensures
        forall|k: int| 0 <= k < 8 ==> c.regs[k] == init.regs[k],
        c.t1 == init.T1,
        c.t2 == init.T2,
        c.ma == init.MA,
        c.pc == init.PC,
        c.ir == init.IR,
        c.fr == init.FR,
        c.control == init.state,
        c.ram@ == ram@,
{
    let r = &init.regs;
    assert(r[0] < 0x10000 && r[1] < 0x10000 && r[2] < 0x10000 && r[3] < 0x10000);
    assert(r[4] < 0x10000 && r[5] < 0x10000 && r[6] < 0x10000 && r[7] < 0x10000);
    let regs: [u16; 8] = [
        r[0] as u16,
        r[1] as u16,
        r[2] as u16,
        r[3] as u16,
        r[4] as u16,
        r[5] as u16,
        r[6] as u16,
        r[7] as u16,
    ];
    let c = CpuState {
        regs,
        t1: init.T1 as u16,
        t2: init.T2 as u16,
        ma: init.MA as u16,
        pc: init.PC as u16,
        ir: init.IR as u16,
        fr: init.FR as u16,
        control: init.state,
        ram,
    };
    assert(c.regs@ =~= seq![r[0] as u16, r[1] as u16, r[2] as u16, r[3] as u16, r[4] as u16, r[5] as u16, r[6] as u16, r[7] as u16]);
    c
}

// ---------------------------------------------------------------------------
// Running the processor clock by clock.

/// The most clock cycles one instruction may take.
pub const MAX_STEPS: u32 = 10000;

/// What to do after a clock cycle while running to the next instruction.
#[derive(Clone, Copy, Debug, PartialEq, Eq, Structural)]
pub enum InstrProgress {
    /// The control unit is at Decode: the next instruction has begun.
    Reached,
    /// Take another clock cycle; the cycle count becomes the given value.
    StepAgain(u32),
    /// The instruction took too many clock cycles.
    TooLong,
}

/// What to do after a clock cycle while running until an operand load is done.
#[derive(Clone, Copy, Debug, PartialEq, Eq, Structural)]
pub enum LoadProgress {
    /// The load is done.
    Loaded,
    /// The control unit reached Decode without a load.
    NoLoad,
    /// Take another clock cycle; the cycle count becomes the given value.
    StepAgain(u32),
    /// The instruction took too many clock cycles.
    TooLong,
}

/// The decision after clock cycle number `steps` (counted from 0) of a run to
/// the next instruction: stop at Decode, and give up once more than
/// `MAX_STEPS` cycles would be counted.
pub fn next_instr_progress(steps: u32, at_decode: bool) -> (r: InstrProgress)
    requires
        steps <= MAX_STEPS,
    ensures
        at_decode ==> r == InstrProgress::Reached,
        !at_decode && steps + 1 > MAX_STEPS ==> r == InstrProgress::TooLong,
        !at_decode && steps + 1 <= MAX_STEPS ==> r == InstrProgress::StepAgain(
            (steps + 1) as u32,
        ),
{
    if at_decode {
        InstrProgress::Reached
    } else if steps + 1 > MAX_STEPS {
        InstrProgress::TooLong
    } else {
        InstrProgress::StepAgain(steps + 1)
    }
}

/// The decision after clock cycle number `steps` (counted from 0) of a run
/// until an operand load is done: reaching Decode first means there was no
/// load; a done load stops the run; more than `MAX_STEPS` cycles give up.
pub fn load_progress(steps: u32, at_decode: bool, load_done: bool) -> (r: LoadProgress)
    requires
        steps <= MAX_STEPS,
    ensures
        at_decode ==> r == LoadProgress::NoLoad,
        !at_decode && load_done ==> r == LoadProgress::Loaded,
        !at_decode && !load_done && steps + 1 > MAX_STEPS ==> r == LoadProgress::TooLong,
        !at_decode && !load_done && steps + 1 <= MAX_STEPS ==> r == LoadProgress::StepAgain(
            (steps + 1) as u32,
        ),
{
    if at_decode {
        LoadProgress::NoLoad
    } else if load_done {
        LoadProgress::Loaded
    } else if steps + 1 > MAX_STEPS {
        LoadProgress::TooLong
    } else {
        LoadProgress::StepAgain(steps + 1)
    }
}


// ---------------------------------------------------------------------------
// Laws of the hexadecimal text.

/// Whether a character is an upper-case hexadecimal digit.
pub open spec fn is_upper_hex_digit(c: char) -> bool {
    ('0' <= c && c <= '9') || ('A' <= c && c <= 'F')
}

/// The value of an upper-case hexadecimal digit character.
pub open spec fn digit_value(c: char) -> int {
    if '0' <= c && c <= '9' {
        c as int - '0' as int
    } else {
        c as int - 'A' as int + 10
    }
}

/// The number that a text of hexadecimal digits writes, most significant
/// digit first.
pub open spec fn hex_value(s: Seq<char>) -> int
    decreases s.len(),
{
    if s.len() == 0 {
        0
    } else {
        hex_value(s.drop_last()) * 16 + digit_value(s.last())
    }
}

/// Each value below 16 is written as the digit character of that value:
/// `0`..`9` for 0 to 9 and `A`..`F` for 10 to 15.
pub proof fn law_hex_digit_characters(d: int)
    requires
        0 <= d < 16,
    ensures
        is_upper_hex_digit(hex_digit(d)),
        digit_value(hex_digit(d)) == d,
        d < 10 ==> hex_digit(d) as int == '0' as int + d,
        d >= 10 ==> hex_digit(d) as int == 'A' as int + d - 10,
{
    assert(d == 0 || d == 1 || d == 2 || d == 3 || d == 4 || d == 5 || d == 6 || d == 7 || d
        == 8 || d == 9 || d == 10 || d == 11 || d == 12 || d == 13 || d == 14 || d == 15);
}

/// Reading back the digits of a number gives the number; every character is
/// an upper-case hexadecimal digit, and there is no leading zero.
pub proof fn law_hex_digits_read_back(n: nat)
    ensures
        hex_value(hex_digits(n)) == n,
        hex_digits(n).len() >= 1,
        forall|k: int| 0 <= k < hex_digits(n).len() ==> is_upper_hex_digit(#[trigger] hex_digits(n)[k]),
        n >= 16 ==> hex_digits(n)[0] != '0',
    decreases n,
{
    if n < 16 {
        law_hex_digit_characters(n as int);
        assert(hex_digits(n).drop_last() =~= Seq::<char>::empty());
        assert(hex_value(Seq::<char>::empty()) == 0);
        assert(hex_digits(n).last() == hex_digit(n as int));
    } else {
        law_hex_digits_read_back(n / 16);
        law_hex_digit_characters((n % 16) as int);
        let s = hex_digits(n);
        assert(s.drop_last() =~= hex_digits(n / 16));
        assert(s.last() == hex_digit((n % 16) as int));
        assert((n / 16) * 16 + n % 16 == n);
        assert(hex_value(s) == hex_value(hex_digits(n / 16)) * 16 + digit_value(hex_digit((n % 16) as int)));
        assert(s[0] == hex_digits(n / 16)[0]);
        if n / 16 < 16 {
            law_hex_digit_characters((n / 16) as int);
            assert(n / 16 != 0);
        }
    }
}

/// Zeros in front of a text of digits do not change the number it writes.
proof fn lemma_leading_zeros(z: nat, s: Seq<char>)
    ensures
        hex_value(Seq::new(z, |k: int| '0') + s) == hex_value(s),
    decreases s.len() + z,
{
    let zs = Seq::new(z, |k: int| '0');
    if s.len() == 0 {
        assert(zs + s =~= zs);
        if z > 0 {
            lemma_leading_zeros((z - 1) as nat, s);
            assert(zs.drop_last() =~= Seq::new((z - 1) as nat, |k: int| '0'));
            assert(Seq::new((z - 1) as nat, |k: int| '0') + s =~= Seq::new((z - 1) as nat, |k: int| '0'));
        }
    } else {
        lemma_leading_zeros(z, s.drop_last());
        assert((zs + s).drop_last() =~= zs + s.drop_last());
        assert((zs + s).last() == s.last());
    }
}

/// The text of a number reads back as the number: it is at least four
/// upper-case hexadecimal digits, the digits of the number with zeros in
/// front of them only to make four.
pub proof fn law_hex_text_reads_back(n: nat)
    ensures
        hex_value(hex_text(n)) == n,
        hex_text(n).len() >= 4,
        hex_text(n).len() == if hex_digits(n).len() < 4 {
            4
        } else {
            hex_digits(n).len()
        },
        forall|k: int| 0 <= k < hex_text(n).len() ==> is_upper_hex_digit(#[trigger] hex_text(n)[k]),
{
    law_hex_digits_read_back(n);
    let ds = hex_digits(n);
    if ds.len() < 4 {
        lemma_leading_zeros((4 - ds.len()) as nat, ds);
        let t = hex_text(n);
        assert forall|k: int| 0 <= k < t.len() implies is_upper_hex_digit(#[trigger] t[k]) by {
            if k >= 4 - ds.len() {
                assert(t[k] == ds[k - (4 - ds.len())]);
            }
        }
    }
}

} // verus!
