use skel_cd::datapath::{ir_to_bus, top_kernel, Outputs, RamInput, RegisterInput, Signals};
use skel_cd::decoder::decode;
use skel_cd::machine::{
    cpu_default, cpu_new, load_progress, next_instr_progress, CpuDefault, InstrProgress,
    LoadProgress,
};
use skel_cd::registers::Reg;
use skel_cd::viewer::{viewer_start, viewer_step, Run, ViewerAction, ViewerEvent, ViewerKey};

fn quiet() -> Signals {
    Signals {
        rf_sel: Reg::RA,
        rf_oe: false,
        rf_we: false,
        t1_oe: false,
        t1_we: false,
        t2_oe: false,
        t2_we: false,
        ma_oe: false,
        ma_we: false,
        ram_oe: false,
        ram_we: false,
        alu_oe: false,
        pc_we: false,
        pc_oe: false,
        ir_we: false,
        ir_oe: false,
        fr_oe: false,
        fr_we: false,
        fr_sel_bus: false,
    }
}

fn outputs() -> Outputs {
    Outputs { regs: 0, t1: 0x1111, t2: 0x2222, ma: 0x1432, pc: 0, ir: 0x0308, fr: 0x0015, ram: 0 }
}

#[test]
fn ir_displacement_is_sign_extended() {
    assert_eq!(ir_to_bus(0x0000), 0x0000);
    assert_eq!(ir_to_bus(0x8000), 0x0001);
    assert_eq!(ir_to_bus(0xC000), 0x0003);
    assert_eq!(ir_to_bus(0x0100), 0xFF80);
    // -3, as in `jc -3`
    assert_eq!(ir_to_bus(0xBF00), 0xFFFD);
    // the low byte of the instruction register never reaches the bus
    assert_eq!(ir_to_bus(0xBFFF), 0xFFFD);
}

#[test]
fn bus_is_the_or_of_its_drivers() {
    let mut s = quiet();
    let mut q = outputs();
    assert_eq!(top_kernel(&s, &q, 0x4000, 0).bus, 0);
    q.pc = 0x0100;
    q.ram = 0x0002;
    q.regs = 0x0030;
    assert_eq!(top_kernel(&s, &q, 0x4000, 0).bus, 0x0132);
    s.alu_oe = true;
    s.fr_oe = true;
    assert_eq!(top_kernel(&s, &q, 0x4000, 0).bus, 0x4137);
    s.ir_oe = true;
    q.ir = 0x8000;
    assert_eq!(top_kernel(&s, &q, 0x4000, 0).bus, 0x4137);
    q.ir = 0x0100;
    assert_eq!(top_kernel(&s, &q, 0x4000, 0).bus, 0xFFB7);
}

#[test]
fn register_inputs_follow_the_signals() {
    let mut s = quiet();
    s.t1_we = true;
    s.ma_oe = true;
    s.ram_we = true;
    s.rf_sel = Reg::XB;
    let mut q = outputs();
    q.regs = 0x00AA;
    let n = top_kernel(&s, &q, 0, 0);
    assert_eq!(n.t1, RegisterInput { oe: false, we: true, data_in: 0x00AA });
    assert_eq!(n.t2, RegisterInput { oe: false, we: false, data_in: 0x00AA });
    assert_eq!(n.ma, RegisterInput { oe: true, we: false, data_in: 0x00AA });
    assert_eq!(n.ram, RamInput { oe: false, we: true, data_in: 0x00AA, address: 0x032 });
    assert_eq!(n.rf_sel, Reg::XB);
    assert_eq!(n.decoded, decode(0x0308));
    assert_eq!(n.flags, 0x0015);
    assert_eq!((n.alu_t1, n.alu_t2), (0x1111, 0x2222));
}

#[test]
fn instruction_and_flags_registers() {
    let mut s = quiet();
    let mut q = outputs();
    q.ram = 0x0031;
    let n = top_kernel(&s, &q, 0xFFFF, 0x0003);
    assert_eq!((n.ir, n.fr), (0x0308, 0x0015));
    s.ir_we = true;
    s.fr_we = true;
    let n = top_kernel(&s, &q, 0xFFFF, 0x0003);
    assert_eq!((n.ir, n.fr), (0x0031, 0x0003));
    s.fr_sel_bus = true;
    q.ram = 0xFFF6;
    let n = top_kernel(&s, &q, 0xFFFF, 0x0003);
    assert_eq!(n.fr, 0x0016);
}

#[test]
fn stepping_decisions() {
    assert_eq!(next_instr_progress(0, true), InstrProgress::Reached);
    assert_eq!(next_instr_progress(0, false), InstrProgress::StepAgain(1));
    assert_eq!(next_instr_progress(9999, false), InstrProgress::StepAgain(10000));
    assert_eq!(next_instr_progress(10000, false), InstrProgress::TooLong);
    assert_eq!(load_progress(3, true, true), LoadProgress::NoLoad);
    assert_eq!(load_progress(3, false, true), LoadProgress::Loaded);
    assert_eq!(load_progress(3, false, false), LoadProgress::StepAgain(4));
    assert_eq!(load_progress(10000, false, false), LoadProgress::TooLong);
}

#[test]
fn start_states() {
    let c = cpu_default(vec![0x0031, 0x0042]);
    assert_eq!(c.regs, [0u16; 8]);
    assert_eq!((c.t1, c.t2, c.ma, c.pc, c.ir, c.fr, c.control), (5, 0, 0, 0, 0, 0, 0));
    assert_eq!(c.ram, vec![0x0031, 0x0042]);
    let mut init = CpuDefault::default();
    for i in 0..8 {
        init.regs[i] = i as u128 + 1;
    }
    init.PC = 1;
    init.FR = 0x1F;
    init.state = 3;
    let c = cpu_new(&init, vec![]);
    assert_eq!(c.regs, [1, 2, 3, 4, 5, 6, 7, 8]);
    assert_eq!((c.t1, c.pc, c.fr, c.control), (0, 1, 0x1F, 3));
}

fn key(c: char) -> ViewerEvent {
    ViewerEvent::Key(ViewerKey::Char(c))
}

#[test]
fn viewer_arrows_move_one_clock_cycle() {
    let v = viewer_start(0x0010, true);
    let (v, a) = viewer_step(v, ViewerEvent::Key(ViewerKey::Right));
    assert_eq!(a, ViewerAction::Step);
    assert_eq!(v.run(), Run::Right);
    let (v, a) = viewer_step(v, ViewerEvent::Recorded { ma: 0x1402, stop: false });
    assert_eq!(a, ViewerAction::Redraw);
    assert_eq!((v.shown_index(), v.peek(), v.peek_buf()), (1, 0x1402, 0x0002));
    let (v, a) = viewer_step(v, key('d'));
    assert_eq!(a, ViewerAction::Dump(1));
    let (v, a) = viewer_step(v, ViewerEvent::Key(ViewerKey::Right));
    assert_eq!(a, ViewerAction::Step);
    let (v, _) = viewer_step(v, ViewerEvent::Recorded { ma: 0x0030, stop: false });
    assert_eq!((v.shown_index(), v.recorded()), (2, 3));
    let (v, a) = viewer_step(v, ViewerEvent::Key(ViewerKey::Left));
    assert_eq!(a, ViewerAction::Redraw);
    assert_eq!((v.shown_index(), v.peek()), (1, 0x1402));
    let (v, _) = viewer_step(v, ViewerEvent::Key(ViewerKey::Left));
    assert_eq!((v.shown_index(), v.peek()), (0, 0x0010));
    let (v, _) = viewer_step(v, ViewerEvent::Key(ViewerKey::Left));
    assert_eq!((v.shown_index(), v.peek()), (0, 0x0010));
    // moving right inside the record takes no clock cycle
    let (v, a) = viewer_step(v, ViewerEvent::Key(ViewerKey::Right));
    assert_eq!(a, ViewerAction::Redraw);
    assert_eq!((v.shown_index(), v.peek()), (1, 0x1402));
}

#[test]
fn viewer_runs_to_next_and_previous_instruction() {
    let v = viewer_start(1, true);
    let (mut v, mut a) = viewer_step(v, key('n'));
    let mut cycles = 0;
    while a == ViewerAction::Step {
        cycles += 1;
        // the fourth recorded cycle is the next Decode
        let ev = ViewerEvent::Recorded { ma: 10 + cycles, stop: cycles == 4 };
        (v, a) = viewer_step(v, ev);
    }
    assert_eq!(a, ViewerAction::Redraw);
    assert_eq!(cycles, 4);
    assert_eq!((v.shown_index(), v.peek()), (4, 14));
    let (v, a) = viewer_step(v, key('p'));
    assert_eq!(a, ViewerAction::Redraw);
    assert_eq!((v.shown_index(), v.peek()), (0, 1));
}

#[test]
fn viewer_peek_typing_dump_and_quit() {
    let v = viewer_start(0x0020, false);
    let (v, _) = viewer_step(v, key('/'));
    assert!(v.waiting());
    let (v, _) = viewer_step(v, key('7'));
    let (v, _) = viewer_step(v, key('f'));
    let (v, a) = viewer_step(v, key('d'));
    assert_eq!(a, ViewerAction::Redraw);
    let (v, _) = viewer_step(v, key('e'));
    // ten bits are kept
    assert_eq!(v.peek_buf(), 0x3DE);
    let (v, _) = viewer_step(v, key('\n'));
    assert_eq!((v.peek(), v.waiting()), (0x3DE, false));
    let (v, a) = viewer_step(v, key('x'));
    assert_eq!(a, ViewerAction::Redraw);
    let (v, a) = viewer_step(v, key('d'));
    assert_eq!(a, ViewerAction::Dump(0));
    let (_, a) = viewer_step(v, key('q'));
    assert_eq!(a, ViewerAction::Quit);
}
