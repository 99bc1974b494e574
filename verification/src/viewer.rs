use vstd::prelude::*;

use crate::machine::MAX_STEPS;

verus! {

/// A key pressed in the interactive simulator.
#[derive(Clone, Copy, Debug, PartialEq, Eq, Structural)]
pub enum ViewerKey {
    Left,
    Right,
    Char(char),
    Other,
}

/// A run that waits for the simulator to take a clock cycle.
#[derive(Clone, Copy, Debug, PartialEq, Eq, Structural)]
pub enum Run {
    /// No run is under way.
    Idle,
    /// A step to the right waits for the next cycle.
    Right,
    /// A run to the next instruction waits for the next cycle, after `steps`
    /// states were passed.
    Forward { steps: u32 },
}

/// What the simulator's driver tells the viewer.
#[derive(Clone, Copy, Debug, PartialEq, Eq, Structural)]
pub enum ViewerEvent {
    /// A key was pressed.
    Key(ViewerKey),
    /// The simulator took a clock cycle and recorded the new state, whose
    /// memory address register is `ma` and which is a stop state (Decode,
    /// Reset or Hlt) when `stop` holds.
    Recorded { ma: u16, stop: bool },
}

/// What the viewer asks its driver to do next.
#[derive(Clone, Copy, Debug, PartialEq, Eq, Structural)]
pub enum ViewerAction {
    /// Show the recorded state `shown_index()`, then wait for a key.
    Redraw,
    /// Take a clock cycle, record the new state and report it with
    /// `ViewerEvent::Recorded`.
    Step,
    /// Write the memory of the recorded state with this index to the dump
    /// file, then show the recorded state `shown_index()` and wait for a key.
    Dump(usize),
    /// Stop.
    Quit,
}

/// What the viewer is, as mathematical values.
pub struct ViewerModel {
    /// The position in the record; it can be one past the last recorded
    /// state after a run to the next instruction that was cut short.
    pub position: int,
    /// The memory address looked up in the display.
    pub peek: u16,
    /// The memory address being typed.
    pub peek_buf: u16,
    /// Whether an address is being typed.
    pub waiting: bool,
    pub run: Run,
    /// The memory address register of each recorded state.
    pub mas: Seq<u16>,
    /// Whether each recorded state is a stop state.
    pub stops: Seq<bool>,
}

impl ViewerModel {
    /// The viewer's invariant.
    pub open spec fn wf(self) -> bool {
        &&& 1 <= self.mas.len()
        &&& self.stops.len() == self.mas.len()
        &&& 0 <= self.position <= self.mas.len()
        &&& self.peek_buf <= 0x3ff
        &&& self.run is Right ==> self.position >= self.mas.len() - 1
        &&& self.run matches Run::Forward { steps } ==> self.position == self.mas.len() && steps
            < MAX_STEPS
    }

    /// The index of the recorded state on display.
    pub open spec fn shown(self) -> int {
        if self.position < self.mas.len() {
            self.position
        } else {
            self.mas.len() - 1
        }
    }
}

/// The state of the interactive simulator's viewer.
///
/// The driver keeps the recorded states themselves; the viewer keeps what it
/// decides by: the memory address register of each recorded state and
/// whether it is a stop state.
#[derive(Debug)]
pub struct ViewerState {
    position: usize,
    peek: u16,
    peek_buf: u16,
    waiting: bool,
    run: Run,
    mas: Vec<u16>,
    stops: Vec<bool>,
}

impl View for ViewerState {
    type V = ViewerModel;

    closed spec fn view(&self) -> ViewerModel {
        ViewerModel {
            position: self.position as int,
            peek: self.peek,
            peek_buf: self.peek_buf,
            waiting: self.waiting,
            run: self.run,
            mas: self.mas@,
            stops: self.stops@,
        }
    }
}

impl ViewerState {
    #[verifier::type_invariant]
    spec fn inv(self) -> bool {
        self@.wf()
    }

    /// The index of the recorded state on display.
    pub fn shown_index(&self) -> (k: usize)
        ensures
            k == self@.shown(),
            k < self@.mas.len(),
    {
        proof {
            use_type_invariant(self);
        }
        if self.position >= self.mas.len() {
            self.mas.len() - 1
        } else {
            self.position
        }
    }

    /// The position in the record.
    pub fn position(&self) -> (k: usize)
        ensures
            k == self@.position,
    {
        self.position
    }

    /// The memory address looked up in the display.
    pub fn peek(&self) -> (a: u16)
        ensures
            a == self@.peek,
    {
        self.peek
    }

    /// The memory address being typed.
    pub fn peek_buf(&self) -> (a: u16)
        ensures
            a == self@.peek_buf,
            a <= 0x3ff,
    {
        proof {
            use_type_invariant(self);
        }
        self.peek_buf
    }

    /// Whether an address is being typed.
    pub fn waiting(&self) -> (b: bool)
        ensures
            b == self@.waiting,
    {
        self.waiting
    }

    /// The run under way.
    pub fn run(&self) -> (r: Run)
        ensures
            r == self@.run,
    {
        self.run
    }

    /// The number of recorded states.
    pub fn recorded(&self) -> (n: usize)
        ensures
            n == self@.mas.len(),
            n >= 1,
    {
        proof {
            use_type_invariant(self);
        }
        self.mas.len()
    }
}

// ---------------------------------------------------------------------------
// The viewer's decisions as mathematics.

/// Whether a key types a hexadecimal digit of an address.
pub open spec fn is_hex_key(c: char) -> bool {
    ('0' <= c && c <= '9') || ('a' <= c && c <= 'f')
}

/// The value of a hexadecimal digit key.
pub open spec fn hex_key_value(c: char) -> int {
    if '0' <= c && c <= '9' {
        c as int - '0' as int
    } else {
        c as int - 'a' as int + 10
    }
}

/// A position moved one to the left, stopping at 0.
pub open spec fn one_left(i: int) -> int {
    if i > 0 {
        i - 1
    } else {
        0
    }
}

/// Where a run to the next instruction ends, from position `i` after `steps`
/// states: `(needs_step, position, steps, peek)`.  The run stops after
/// `MAX_STEPS` states, at the first stop state, whose address it looks up, or
/// when it reaches the end of the record, where it needs another cycle.
pub open spec fn forward_end(mas: Seq<u16>, stops: Seq<bool>, i: int, steps: int, peek: u16) -> (
    bool,
    int,
    int,
    u16,
)
    decreases mas.len() - i,
{
    if steps >= MAX_STEPS {
        (false, i, steps, peek)
    } else if i >= mas.len() || i < 0 {
        (true, i, steps, peek)
    } else if stops[i] {
        (false, i, steps, mas[i])
    } else {
        forward_end(mas, stops, i + 1, steps + 1, mas[i])
    }
}

/// Where a run back to the previous instruction ends, from position `i`
/// after `steps` states: `(position, steps, peek)`.  The run stops after
/// `MAX_STEPS` states or at the first stop state, and looks up the address
/// of every state it passes.
pub open spec fn backward_end(mas: Seq<u16>, stops: Seq<bool>, i: int, steps: int, peek: u16) -> (
    int,
    int,
    u16,
)
    decreases MAX_STEPS - steps,
{
    if steps >= MAX_STEPS {
        (i, steps, peek)
    } else if stops[i] {
        (i, steps, mas[i])
    } else {
        backward_end(mas, stops, one_left(i), steps + 1, mas[i])
    }
}

/// The viewer showing recorded state `k` and looking up its memory address
/// register, with no address being typed and no run under way.
pub open spec fn look_at(m: ViewerModel, k: int) -> ViewerModel {
    ViewerModel {
        position: k,
        peek: m.mas[k],
        peek_buf: m.mas[k] % 1024,
        waiting: false,
        run: Run::Idle,
        mas: m.mas,
        stops: m.stops,
    }
}

/// A run to the next instruction from position `i` after `steps` states.
pub open spec fn forward_run(m: ViewerModel, i: int, steps: int) -> (ViewerModel, ViewerAction) {
    let e = forward_end(m.mas, m.stops, i, steps, m.peek);
    let run = if e.0 {
        Run::Forward { steps: e.2 as u32 }
    } else {
        Run::Idle
    };
    (
        ViewerModel {
            position: e.1,
            peek: e.3,
            peek_buf: m.peek_buf,
            waiting: m.waiting,
            run,
            mas: m.mas,
            stops: m.stops,
        },
        if e.0 {
            ViewerAction::Step
        } else {
            ViewerAction::Redraw
        },
    )
}

/// Whether the driver may hand this event to the viewer now: a recorded
/// cycle exactly when the viewer asked for one.
pub open spec fn admissible(m: ViewerModel, ev: ViewerEvent) -> bool {
    ev is Recorded <==> !(m.run is Idle)
}

/// What the viewer does with one event.
///
/// * left arrow: show the state one clock cycle before the shown one
///   (stopping at the first) and look up its memory address register;
/// * right arrow: show the state one clock cycle after the shown one and
///   look up its memory address register, asking for a clock cycle first
///   when the record has no such state;
/// * `q`: quit; `/`: start typing an address; `\n`: look up the typed
///   address; hexadecimal digits while typing (`d` among them): shift the
///   digit into the typed address, which keeps ten bits;
/// * `n`: run forward to the next stop state, at most `MAX_STEPS` states,
///   asking for clock cycles as the record runs out; `p`: run backward to
///   the previous stop state, at most `MAX_STEPS` states;
/// * `d` (when not typing): dump the memory of the state shown;
/// * any other key: show the same state again.
pub open spec fn viewer_next(m: ViewerModel, ev: ViewerEvent) -> (ViewerModel, ViewerAction) {
    match ev {
        ViewerEvent::Recorded { ma, stop } => {
            let grown = ViewerModel { mas: m.mas.push(ma), stops: m.stops.push(stop), ..m };
            match m.run {
                Run::Forward { steps } => forward_run(grown, m.position, steps as int),
                _ => (look_at(grown, m.mas.len() as int), ViewerAction::Redraw),
            }
        },
        ViewerEvent::Key(ViewerKey::Left) => (
            look_at(m, one_left(m.shown())),
            ViewerAction::Redraw,
        ),
        ViewerEvent::Key(ViewerKey::Right) => if m.shown() + 1 < m.mas.len() {
            (look_at(m, m.shown() + 1), ViewerAction::Redraw)
        } else {
            (ViewerModel { run: Run::Right, ..m }, ViewerAction::Step)
        },
        ViewerEvent::Key(ViewerKey::Char(c)) => if c == 'q' {
            (m, ViewerAction::Quit)
        } else if c == '/' {
            (ViewerModel { waiting: true, peek_buf: 0, ..m }, ViewerAction::Redraw)
        } else if c == 'n' {
            let start = if m.position != m.mas.len() {
                m.position + 1
            } else {
                m.position
            };
            forward_run(ViewerModel { waiting: false, ..m }, start, 0)
        } else if c == 'p' {
            let e = backward_end(m.mas, m.stops, one_left(m.position), 0, m.peek);
            (ViewerModel { position: e.0, peek: e.2, waiting: false, ..m }, ViewerAction::Redraw)
        } else if m.waiting && is_hex_key(c) {
            (
                ViewerModel { peek_buf: ((m.peek_buf * 16 + hex_key_value(c)) % 1024) as u16, ..m },
                ViewerAction::Redraw,
            )
        } else if c == 'd' {
            (m, ViewerAction::Dump(m.shown() as usize))
        } else if c == '\n' {
            (ViewerModel { waiting: false, peek: m.peek_buf, ..m }, ViewerAction::Redraw)
        } else {
            (m, ViewerAction::Redraw)
        },
        ViewerEvent::Key(ViewerKey::Other) => (m, ViewerAction::Redraw),
    }
}

/// The viewer after a sequence of events.
pub open spec fn after_events(m: ViewerModel, evs: Seq<ViewerEvent>) -> ViewerModel
    decreases evs.len(),
{
    if evs.len() == 0 {
        m
    } else {
        after_events(viewer_next(m, evs[0]).0, evs.drop_first())
    }
}

/// Whether every event of a sequence is admissible when it comes.
pub open spec fn follows_protocol(m: ViewerModel, evs: Seq<ViewerEvent>) -> bool
    decreases evs.len(),
{
    evs.len() == 0 || (admissible(m, evs[0]) && follows_protocol(
        viewer_next(m, evs[0]).0,
        evs.drop_first(),
    ))
}

// ---------------------------------------------------------------------------
// The viewer.

/// The viewer after the simulator's first clock cycle was recorded.
pub fn viewer_start(ma: u16, stop: bool) -> (s: ViewerState)
    ensures
        s@ == (ViewerModel {
            position: 0,
            peek: 0,
            peek_buf: 0,
            waiting: false,
            run: Run::Idle,
            mas: seq![ma],
            stops: seq![stop],
        }),
{
    let mut mas: Vec<u16> = Vec::new();
    mas.push(ma);
    let mut stops: Vec<bool> = Vec::new();
    stops.push(stop);
    ViewerState { position: 0, peek: 0, peek_buf: 0, waiting: false, run: Run::Idle, mas, stops }
}

/// Runs forward from position `i` after `steps` states, as `forward_end`
/// says: `(needs_step, position, steps, peek)`.
fn run_forward(mas: &Vec<u16>, stops: &Vec<bool>, i0: usize, steps0: u32, peek0: u16) -> (r: (
    bool,
    usize,
    u32,
    u16,
))
    requires
        stops.len() == mas.len(),
        i0 <= mas.len(),
        steps0 <= MAX_STEPS,
    ensures
        (r.0, r.1 as int, r.2 as int, r.3) == forward_end(mas@, stops@, i0 as int, steps0 as int, peek0),
{
    let mut i = i0;
    let mut steps = steps0;
    let mut peek = peek0;
    let ghost end = forward_end(mas@, stops@, i as int, steps as int, peek);
    loop
        invariant
            end == forward_end(mas@, stops@, i0 as int, steps0 as int, peek0),
            stops.len() == mas.len(),
            i <= mas.len(),
            steps <= MAX_STEPS,
            end == forward_end(mas@, stops@, i as int, steps as int, peek),
        decreases mas.len() - i,
    {
        if steps >= MAX_STEPS {
            return (false, i, steps, peek);
        }
        if i == mas.len() {
            return (true, i, steps, peek);
        }
        peek = mas[i];
        if stops[i] {
            return (false, i, steps, peek);
        }
        i = i + 1;
        steps = steps + 1;
    }
}

/// Runs backward from position `i`, as `backward_end` says from 0 states:
/// `(position, steps, peek)`.
fn run_backward(mas: &Vec<u16>, stops: &Vec<bool>, i0: usize, peek0: u16) -> (r: (usize, u32, u16))
    requires
        stops.len() == mas.len(),
        i0 < mas.len(),
    ensures
        (r.0 as int, r.1 as int, r.2) == backward_end(mas@, stops@, i0 as int, 0, peek0),
{
    let mut i = i0;
    let mut steps: u32 = 0;
    let mut peek = peek0;
    let ghost end = backward_end(mas@, stops@, i as int, 0, peek);
    while steps < MAX_STEPS
        invariant
            end == backward_end(mas@, stops@, i0 as int, 0, peek0),
            stops.len() == mas.len(),
            i < mas.len(),
            steps <= MAX_STEPS,
            end == backward_end(mas@, stops@, i as int, steps as int, peek),
        decreases MAX_STEPS - steps,
    {
        peek = mas[i];
        if stops[i] {
            return (i, steps, peek);
        }
        if i > 0 {
            i = i - 1;
        }
        steps = steps + 1;
    }
    (i, steps, peek)
}

/// The value of a hexadecimal digit key.
fn hex_key(c: char) -> (r: Option<u16>)
    ensures
        is_hex_key(c) ==> r == Some(hex_key_value(c) as u16),
        !is_hex_key(c) ==> r is None,
{
    if '0' <= c && c <= '9' {
        Some((c as u32 - '0' as u32) as u16)
    } else if 'a' <= c && c <= 'f' {
        Some((c as u32 - 'a' as u32 + 10) as u16)
    } else {
        None
    }
}

/// The ten-bit memory word address of a sixteen-bit address.
fn word_address(a: u16) -> (w: u16)
    ensures
        w == a % 1024,
{
    let w: u16 = a & 0x3ff;
    assert(w == a % 1024) by (bit_vector)
        requires
            w == a & 0x3ff,
    ;
    w
}

/// Takes one event of the interactive simulator and decides what the viewer
/// shows and what the driver does next, as `viewer_next` says.
pub fn viewer_step(s: ViewerState, ev: ViewerEvent) -> (r: (ViewerState, ViewerAction))
    requires
        admissible(s@, ev),
    ensures
        (r.0@, r.1) == viewer_next(s@, ev),
        r.0@.wf(),
{
    proof {
        use_type_invariant(&s);
        reveal_with_fuel(forward_end, 1);
    }
    let ghost m = s@;
    let ViewerState { position, peek, peek_buf, waiting, run, mut mas, mut stops } = s;
    let len = mas.len();
    let shown: usize = if position >= len {
        len - 1
    } else {
        position
    };
    let r = match ev {
        ViewerEvent::Recorded { ma, stop } => {
            mas.push(ma);
            stops.push(stop);
            match run {
                Run::Forward { steps } => {
                    let (need, i, st, pk) = run_forward(&mas, &stops, position, steps, peek);
                    proof {
                        law_forward_run_ends(mas@, stops@, position as int, steps as int, peek);
                    }
                    let next_run = if need {
                        Run::Forward { steps: st }
                    } else {
                        Run::Idle
                    };
                    let action = if need {
                        ViewerAction::Step
                    } else {
                        ViewerAction::Redraw
                    };
                    (
                        ViewerState {
                            position: i,
                            peek: pk,
                            peek_buf,
                            waiting,
                            run: next_run,
                            mas,
                            stops,
                        },
                        action,
                    )
                },
                _ => {
                    // the step to the right that asked for this cycle
                    let pb = word_address(ma);
                    (
                        ViewerState {
                            position: len,
                            peek: ma,
                            peek_buf: pb,
                            waiting: false,
                            run: Run::Idle,
                            mas,
                            stops,
                        },
                        ViewerAction::Redraw,
                    )
                },
            }
        },
        ViewerEvent::Key(ViewerKey::Left) => {
            let k = if shown > 0 {
                shown - 1
            } else {
                0
            };
            let a = mas[k];
            let pb = word_address(a);
            (
                ViewerState {
                    position: k,
                    peek: a,
                    peek_buf: pb,
                    waiting: false,
                    run: Run::Idle,
                    mas,
                    stops,
                },
                ViewerAction::Redraw,
            )
        },
        ViewerEvent::Key(ViewerKey::Right) => {
            if shown + 1 < len {
                let a = mas[shown + 1];
                let pb = word_address(a);
                (
                    ViewerState {
                        position: shown + 1,
                        peek: a,
                        peek_buf: pb,
                        waiting: false,
                        run: Run::Idle,
                        mas,
                        stops,
                    },
                    ViewerAction::Redraw,
                )
            } else {
                (
                    ViewerState { position, peek, peek_buf, waiting, run: Run::Right, mas, stops },
                    ViewerAction::Step,
                )
            }
        },
        ViewerEvent::Key(ViewerKey::Char(c)) => {
            if c == 'q' {
                (
                    ViewerState { position, peek, peek_buf, waiting, run, mas, stops },
                    ViewerAction::Quit,
                )
            } else if c == '/' {
                (
                    ViewerState { position, peek, peek_buf: 0, waiting: true, run, mas, stops },
                    ViewerAction::Redraw,
                )
            } else if c == 'n' {
                let start = if position != len {
                    position + 1
                } else {
                    position
                };
                let (need, i, st, pk) = run_forward(&mas, &stops, start, 0, peek);
                proof {
                    law_forward_run_ends(mas@, stops@, start as int, 0, peek);
                }
                let next_run = if need {
                    Run::Forward { steps: st }
                } else {
                    Run::Idle
                };
                let action = if need {
                    ViewerAction::Step
                } else {
                    ViewerAction::Redraw
                };
                (
                    ViewerState {
                        position: i,
                        peek: pk,
                        peek_buf,
                        waiting: false,
                        run: next_run,
                        mas,
                        stops,
                    },
                    action,
                )
            } else if c == 'p' {
                let start = if position > 0 {
                    position - 1
                } else {
                    0
                };
                let (i, _st, pk) = run_backward(&mas, &stops, start, peek);
                proof {
                    law_backward_run_ends(mas@, stops@, start as int, 0, peek);
                }
                (
                    ViewerState { position: i, peek: pk, peek_buf, waiting: false, run, mas, stops },
                    ViewerAction::Redraw,
                )
            } else if waiting && hex_key(c).is_some() {
                let x: u16 = hex_key(c).unwrap();
                let b: u16 = peek_buf;
                let nb: u16 = ((b << 4u16) | x) & 0x3ff;
                assert(nb == (b * 16 + x) % 1024) by (bit_vector)
                    requires
                        b <= 0x3ff,
                        x < 16,
                        nb == ((b << 4u16) | x) & 0x3ff,
                ;
                (
                    ViewerState { position, peek, peek_buf: nb, waiting, run, mas, stops },
                    ViewerAction::Redraw,
                )
            } else if c == 'd' {
                (
                    ViewerState { position, peek, peek_buf, waiting, run, mas, stops },
                    ViewerAction::Dump(shown),
                )
            } else if c == '\n' {
                (
                    ViewerState { position, peek: peek_buf, peek_buf, waiting: false, run, mas, stops },
                    ViewerAction::Redraw,
                )
            } else {
                (
                    ViewerState { position, peek, peek_buf, waiting, run, mas, stops },
                    ViewerAction::Redraw,
                )
            }
        },
        ViewerEvent::Key(ViewerKey::Other) => (
            ViewerState { position, peek, peek_buf, waiting, run, mas, stops },
            ViewerAction::Redraw,
        ),
    };
    proof {
        use_type_invariant(&r.0);
    }
    r
}

// ---------------------------------------------------------------------------
// Laws of the viewer.

/// A run to the next instruction that starts inside the record stops for one
/// of three reasons: it needs another clock cycle at the end of the record,
/// before `MAX_STEPS` states were passed; it passed `MAX_STEPS` states; or it
/// found a stop state, whose memory address it looks up.  It never moves
/// backward or past the end of the record, and it passes one state per
/// position.
pub proof fn law_forward_run_ends(mas: Seq<u16>, stops: Seq<bool>, i: int, steps: int, peek: u16)
    requires
        0 <= i <= mas.len(),
        stops.len() == mas.len(),
        0 <= steps,
    ensures
        ({
            let e = forward_end(mas, stops, i, steps, peek);
            &&& i <= e.1 <= mas.len()
            &&& e.2 - steps == e.1 - i
            &&& forall|k: int| i <= k < e.1 ==> !stops[k]
            &&& e.0 ==> e.1 == mas.len() && e.2 < MAX_STEPS
            &&& !e.0 ==> e.2 >= MAX_STEPS || (e.1 < mas.len() && stops[e.1] && e.3 == mas[e.1])
        }),
    decreases mas.len() - i,
{
    if steps < MAX_STEPS && i < mas.len() && !stops[i] {
        law_forward_run_ends(mas, stops, i + 1, steps + 1, mas[i]);
    }
}

/// A run back to the previous instruction stays inside the record and never
/// moves forward; it stops at a stop state, whose memory address it looks
/// up, or once `MAX_STEPS` states were passed.
pub proof fn law_backward_run_ends(mas: Seq<u16>, stops: Seq<bool>, i: int, steps: int, peek: u16)
    requires
        0 <= i < mas.len(),
        stops.len() == mas.len(),
        0 <= steps <= MAX_STEPS,
    ensures
        ({
            let e = backward_end(mas, stops, i, steps, peek);
            &&& 0 <= e.0 <= i
            &&& forall|k: int| e.0 < k <= i ==> !stops[k]
            &&& e.1 <= MAX_STEPS
            &&& (e.1 < MAX_STEPS ==> stops[e.0] && e.2 == mas[e.0])
        }),
    decreases MAX_STEPS - steps,
{
    if steps < MAX_STEPS && !stops[i] {
        law_backward_run_ends(mas, stops, one_left(i), steps + 1, mas[i]);
    }
}

/// One admissible event keeps the viewer's invariant and only ever appends
/// to the record: one state for a recorded cycle, none for a key.
pub proof fn law_event_keeps_invariant(m: ViewerModel, ev: ViewerEvent)
    requires
        m.wf(),
        admissible(m, ev),
    ensures
        viewer_next(m, ev).0.wf(),
        ev matches ViewerEvent::Recorded { ma, stop } ==> viewer_next(m, ev).0.mas == m.mas.push(
            ma,
        ) && viewer_next(m, ev).0.stops == m.stops.push(stop),
        ev is Key ==> viewer_next(m, ev).0.mas == m.mas && viewer_next(m, ev).0.stops
            == m.stops,
{
    match ev {
        ViewerEvent::Recorded { ma, stop } => {
            if let Run::Forward { steps } = m.run {
                law_forward_run_ends(m.mas.push(ma), m.stops.push(stop), m.position, steps as int, m.peek);
            }
        },
        ViewerEvent::Key(ViewerKey::Char(c)) => {
            if c == 'n' {
                let start = if m.position != m.mas.len() {
                    m.position + 1
                } else {
                    m.position
                };
                law_forward_run_ends(m.mas, m.stops, start, 0, m.peek);
            } else if c == 'p' {
                law_backward_run_ends(m.mas, m.stops, one_left(m.position), 0, m.peek);
            }
        },
        _ => {},
    }
}

/// Over any sequence of events that follows the protocol, the viewer keeps
/// its invariant: at least one recorded state, a position at most one past
/// the record, a typed address of at most ten bits, a shown state inside the
/// record; and the record only grows by appending, never rewriting a
/// recorded state.
pub proof fn law_event_sequence(m: ViewerModel, evs: Seq<ViewerEvent>)
    requires
        m.wf(),
        follows_protocol(m, evs),
    ensures
        after_events(m, evs).wf(),
        0 <= after_events(m, evs).shown() < after_events(m, evs).mas.len(),
        after_events(m, evs).peek_buf <= 0x3ff,
        m.mas.len() <= after_events(m, evs).mas.len(),
        after_events(m, evs).mas.subrange(0, m.mas.len() as int) == m.mas,
        after_events(m, evs).stops.subrange(0, m.stops.len() as int) == m.stops,
    decreases evs.len(),
{
    if evs.len() > 0 {
        let n = viewer_next(m, evs[0]).0;
        law_event_keeps_invariant(m, evs[0]);
        law_event_sequence(n, evs.drop_first());
        let f = after_events(n, evs.drop_first());
        assert(f.mas.subrange(0, m.mas.len() as int) =~= f.mas.subrange(0, n.mas.len() as int).subrange(0, m.mas.len() as int));
        assert(f.stops.subrange(0, m.stops.len() as int) =~= f.stops.subrange(0, n.stops.len() as int).subrange(0, m.stops.len() as int));
    }
}

/// How each event moves the looked-up address and the typed address:
/// arrows, recorded cycles that finish a step, and the runs look up a
/// memory address register and stop the typing; `\n` looks up the typed
/// address and stops the typing; `/` starts typing from 0; a hexadecimal
/// digit while typing shifts into the typed address; every other key leaves
/// both addresses and the typing as they are.
pub proof fn law_peek_rules(m: ViewerModel, ev: ViewerEvent)
    requires
        m.wf(),
        admissible(m, ev),
    ensures
        ({
            let n = viewer_next(m, ev).0;
            &&& (ev == ViewerEvent::Key(ViewerKey::Left) || ev == ViewerEvent::Key(ViewerKey::Right)
                && n.run is Idle) ==> !n.waiting && n.peek == n.mas[n.position] && n.peek_buf
                == n.peek % 1024
            &&& (ev == ViewerEvent::Key(ViewerKey::Char('n')) || ev == ViewerEvent::Key(
                ViewerKey::Char('p'),
            )) ==> !n.waiting
            &&& ev == ViewerEvent::Key(ViewerKey::Char('\n')) ==> !n.waiting && n.peek == m.peek_buf
            &&& ev == ViewerEvent::Key(ViewerKey::Char('/')) ==> n.waiting && n.peek_buf == 0
                && n.peek == m.peek
            &&& (forall|c: char|
                ev == ViewerEvent::Key(ViewerKey::Char(c)) && is_hex_key(c) && m.waiting ==> n.waiting
                    && n.peek == m.peek && n.peek_buf == (m.peek_buf * 16 + hex_key_value(c))
                    % 1024)
            &&& (forall|c: char|
                ev == ViewerEvent::Key(ViewerKey::Char(c)) && c != 'n' && c != 'p' && c != '\n'
                    && c != '/' && !(is_hex_key(c) && m.waiting) ==> n.waiting == m.waiting
                    && n.peek == m.peek && n.peek_buf == m.peek_buf)
            &&& n.peek_buf <= 0x3ff
        }),
{
    law_event_keeps_invariant(m, ev);
}


/// A run to the next instruction ends at the nearest stop state at or after
/// where it starts, when it ends there before `MAX_STEPS` states: it passes
/// no stop state on the way, and a stop state at the start ends it at once.
/// A run that needs another cycle has passed no stop state up to the end of
/// the record.
pub proof fn law_forward_run_finds_nearest_stop(mas: Seq<u16>, stops: Seq<bool>, i: int, peek: u16)
    requires
        0 <= i <= mas.len(),
        stops.len() == mas.len(),
    ensures
        ({
            let e = forward_end(mas, stops, i, 0, peek);
            &&& !e.0 && e.2 < MAX_STEPS ==> stops[e.1] && e.3 == mas[e.1] && forall|k: int|
                i <= k < e.1 ==> !stops[k]
            &&& e.0 ==> forall|k: int| i <= k < mas.len() ==> !stops[k]
            &&& i < mas.len() && stops[i] ==> e.1 == i && !e.0 && e.3 == mas[i]
        }),
{
    law_forward_run_ends(mas, stops, i, 0, peek);
}

/// A run back to the previous instruction ends at the nearest stop state at
/// or before where it starts, when it ends before `MAX_STEPS` states: it
/// passes no stop state on the way, and a stop state at the start ends it at
/// once.
pub proof fn law_backward_run_finds_nearest_stop(mas: Seq<u16>, stops: Seq<bool>, i: int, peek: u16)
    requires
        0 <= i < mas.len(),
        stops.len() == mas.len(),
    ensures
        ({
            let e = backward_end(mas, stops, i, 0, peek);
            &&& e.1 < MAX_STEPS ==> stops[e.0] && e.2 == mas[e.0] && forall|k: int|
                e.0 < k <= i ==> !stops[k]
            &&& stops[i] ==> e.0 == i && e.2 == mas[i]
        }),
{
    law_backward_run_ends(mas, stops, i, 0, peek);
}

/// Each arrow moves the display by exactly one clock cycle: the left arrow
/// shows the state one cycle before the shown one (the first stays first),
/// the right arrow the state one cycle after it, taking a clock cycle first
/// when the record ends at the shown state; either way the shown state's
/// memory address register is looked up.  `d` dumps the memory of the shown
/// state.
pub proof fn law_arrows_move_one_cycle(m: ViewerModel, ma: u16, stop: bool)
    requires
        m.wf(),
        m.run is Idle,
    ensures
        ({
            let l = viewer_next(m, ViewerEvent::Key(ViewerKey::Left));
            &&& l.1 == ViewerAction::Redraw
            &&& l.0.shown() == if m.shown() > 0 {
                m.shown() - 1
            } else {
                0
            }
            &&& l.0.peek == m.mas[l.0.shown()]
        }),
        ({
            let r = viewer_next(m, ViewerEvent::Key(ViewerKey::Right));
            let after = viewer_next(r.0, ViewerEvent::Recorded { ma, stop });
            &&& m.shown() + 1 < m.mas.len() ==> r.1 == ViewerAction::Redraw && r.0.shown()
                == m.shown() + 1 && r.0.peek == m.mas[m.shown() + 1]
            &&& m.shown() + 1 == m.mas.len() ==> r.1 == ViewerAction::Step && after.1
                == ViewerAction::Redraw && after.0.shown() == m.shown() + 1 && after.0.peek == ma
                && after.0.mas == m.mas.push(ma)
        }),
        !m.waiting ==> viewer_next(m, ViewerEvent::Key(ViewerKey::Char('d'))).1 == ViewerAction::Dump(
            m.shown() as usize,
        ),
{
}


/// `n` moves past the shown position and stops at the nearest stop state
/// ahead, passing none; `p` moves to or before the position left of the
/// current one and stops at the nearest stop state behind it, passing none.
/// Both stop any address typing.
pub proof fn law_run_keys(m: ViewerModel)
    requires
        m.wf(),
        m.run is Idle,
    ensures
        ({
            let n = viewer_next(m, ViewerEvent::Key(ViewerKey::Char('n'))).0;
            &&& m.position < m.mas.len() ==> n.position > m.position
            &&& forall|k: int| m.position < k < n.position ==> !m.stops[k]
            &&& !n.waiting
            &&& n.mas == m.mas
        }),
        ({
            let p = viewer_next(m, ViewerEvent::Key(ViewerKey::Char('p'))).0;
            &&& 0 <= p.position <= one_left(m.position)
            &&& forall|k: int| p.position < k <= one_left(m.position) ==> !m.stops[k]
            &&& !p.waiting
        }),
{
    let start = if m.position != m.mas.len() {
        m.position + 1
    } else {
        m.position
    };
    law_forward_run_ends(m.mas, m.stops, start, 0, m.peek);
    law_backward_run_ends(m.mas, m.stops, one_left(m.position), 0, m.peek);
}

} // verus!
