use vstd::prelude::*;

use crate::command::{
    command_frames, down_frame, encode, memory_frame, memory_sequence, up_frame, Command,
    CommandSequence,
};
use crate::error::DeskError;
use crate::height::{
    clamped, composed_height, lemma_composed_range, loop_count, normalize, pulse_count,
    MAX_HEIGHT, MIN_HEIGHT,
};
use crate::scanner::{
    fresh_scan, scan_step, ScanState, ScanWindow, HEIGHT_LENGTH, HEIGHT_TYPE, MARKER,
};

verus! {

/// What the caller is to do next on the desk's behalf.
#[derive(Debug, Clone, Copy, PartialEq, Eq)]
pub enum Action {
    /// Raise the wake line, wait the settle delay, lower it; then answer `Done`.
    Wake,
    /// Write this frame to the serial line; then answer `Done`.
    Send(CommandSequence),
    /// Read one byte from the serial line; then answer `Byte`.
    Receive,
    /// The operation is over: the height read by a query, nothing for a
    /// motion, or why it failed. Nothing more is to be done.
    Finish(Result<Option<i32>, DeskError>),
}

/// What the caller reports back after carrying out an action.
#[derive(Debug, Clone, Copy, PartialEq, Eq)]
pub enum Event {
    /// The wake pulse or the write has been done.
    Done,
    /// This byte has been read.
    Byte(u8),
    /// The serial line or the wake line failed.
    Failed,
}

/// An action, as mathematical values.
pub ghost enum ActionModel {
    Wake,
    Send(Seq<u8>),
    Receive,
    Finish(Result<Option<int>, DeskError>),
}

/// Where an operation stands, as mathematical values.
pub ghost enum StageModel {
    /// A frame is being sent, `remaining` more times after the current one.
    Moving { frame: Seq<u8>, remaining: int },
    /// The wake pulse is under way; `target` is the height to go to once
    /// the current one is known, if any.
    Waking { target: Option<int> },
    /// The memory frame is being sent.
    Triggering { target: Option<int> },
    /// The desk's answer is being read.
    Scanning { scan: ScanState, target: Option<int> },
    /// The operation is over with this outcome.
    Over { outcome: Result<Option<int>, DeskError> },
}

/// The height of an outcome, as a mathematical integer.
pub open spec fn lift_finish(r: Result<Option<i32>, DeskError>) -> Result<Option<int>, DeskError> {
    match r {
        Ok(Some(h)) => Ok(Some(h as int)),
        Ok(None) => Ok(None),
        Err(e) => Err(e),
    }
}

/// An optional height, as a mathematical integer.
pub open spec fn lift_target(t: Option<i32>) -> Option<int> {
    match t {
        Some(h) => Some(h as int),
        None => None,
    }
}

/// Sending `frame` with `remaining` sends still owed: the next send, or the
/// end of the motion when none is owed.
pub open spec fn moving_next(frame: Seq<u8>, remaining: int) -> (StageModel, ActionModel) {
    if remaining > 0 {
        (StageModel::Moving { frame, remaining: remaining - 1 }, ActionModel::Send(frame))
    } else {
        (StageModel::Over { outcome: Ok(None) }, ActionModel::Finish(Ok(None)))
    }
}

/// The motion from height `current` to `target`: the up frame when the
/// difference is positive, else the down frame, as many times as the
/// difference takes.
pub open spec fn dispatch(target: int, current: int) -> (Seq<u8>, int) {
    let diff = target - current;
    (if diff > 0 { up_frame() } else { down_frame() }, pulse_count(Some(diff)))
}

/// How an operation starts. A command with a frame sends it its number of
/// times; `SetHeight` and `Query` start with the wake pulse, `SetHeight`
/// keeping its height brought into the travel range.
pub open spec fn start_spec(c: Command) -> (StageModel, ActionModel) {
    match command_frames(c) {
        Some(f) => moving_next(f.0, f.1),
        None => match c {
            Command::SetHeight { height } => (
                StageModel::Waking { target: Some(clamped(height as int)) },
                ActionModel::Wake,
            ),
            _ => (StageModel::Waking { target: None }, ActionModel::Wake),
        },
    }
}

/// The failed end of an operation.
pub open spec fn failed(e: DeskError) -> (StageModel, ActionModel) {
    (StageModel::Over { outcome: Err(e) }, ActionModel::Finish(Err(e)))
}

/// One step of an operation. A finished operation stays finished. A failure
/// of the lines ends it with `TransportFailure`, and so does an event that
/// does not answer the pending action. After the wake pulse the memory frame
/// is sent, after it the answer is read byte by byte. A height read ends a
/// query; for `SetHeight` it starts the motion to the target.
pub open spec fn step_spec(st: StageModel, e: Event) -> (StageModel, ActionModel) {
    match st {
        StageModel::Over { outcome } => (st, ActionModel::Finish(outcome)),
        StageModel::Moving { frame, remaining } => match e {
            Event::Done => moving_next(frame, remaining),
            _ => failed(DeskError::TransportFailure),
        },
        StageModel::Waking { target } => match e {
            Event::Done => (StageModel::Triggering { target }, ActionModel::Send(memory_frame())),
            _ => failed(DeskError::TransportFailure),
        },
        StageModel::Triggering { target } => match e {
            Event::Done => (StageModel::Scanning { scan: fresh_scan(), target }, ActionModel::Receive),
            _ => failed(DeskError::TransportFailure),
        },
        StageModel::Scanning { scan, target } => match e {
            Event::Byte(b) => {
                let (next, r) = scan_step(scan, b);
                match r {
                    None => (StageModel::Scanning { scan: next, target }, ActionModel::Receive),
                    Some(Err(err)) => failed(err),
                    Some(Ok(h)) => match target {
                        None => (
                            StageModel::Over { outcome: Ok(Some(h)) },
                            ActionModel::Finish(Ok(Some(h))),
                        ),
                        Some(t) => moving_next(dispatch(t, h).0, dispatch(t, h).1),
                    },
                }
            },
            _ => failed(DeskError::TransportFailure),
        },
    }
}

impl View for Action {
    type V = ActionModel;

    open spec fn view(&self) -> ActionModel {
        match *self {
            Action::Wake => ActionModel::Wake,
            Action::Send(f) => ActionModel::Send(f@),
            Action::Receive => ActionModel::Receive,
            Action::Finish(r) => ActionModel::Finish(lift_finish(r)),
        }
    }
}

#[derive(Clone, Copy)]
enum Stage {
    Moving { frame: CommandSequence, remaining: u64 },
    Waking { target: Option<i32> },
    Triggering { target: Option<i32> },
    Scanning { window: ScanWindow, target: Option<i32> },
    Over { outcome: Result<Option<i32>, DeskError> },
}

/// One operation on the desk, from its command to its outcome. It performs
/// no input or output itself: it says what to do next, and learns from the
/// caller how that went.
pub struct Session {
    stage: Stage,
}

/// Whether a target height lies in the desk's travel range.
pub open spec fn target_in_range(t: Option<i32>) -> bool {
    match t {
        Some(h) => MIN_HEIGHT <= h <= MAX_HEIGHT,
        None => true,
    }
}

impl View for Session {
    type V = StageModel;

    closed spec fn view(&self) -> StageModel {
        match self.stage {
            Stage::Moving { frame, remaining } => StageModel::Moving {
                frame: frame@,
                remaining: remaining as int,
            },
            Stage::Waking { target } => StageModel::Waking { target: lift_target(target) },
            Stage::Triggering { target } => StageModel::Triggering { target: lift_target(target) },
            Stage::Scanning { window, target } => StageModel::Scanning {
                scan: window@,
                target: lift_target(target),
            },
            Stage::Over { outcome } => StageModel::Over { outcome: lift_finish(outcome) },
        }
    }
}

impl Session {
    #[verifier::type_invariant]
    spec fn targets_in_range(self) -> bool {
        match self.stage {
            Stage::Waking { target } => target_in_range(target),
            Stage::Triggering { target } => target_in_range(target),
            Stage::Scanning { target, .. } => target_in_range(target),
            _ => true,
        }
    }

    fn moving(frame: CommandSequence, remaining: u64) -> (r: (Session, Action))
        ensures
            (r.0@, r.1@) == moving_next(frame@, remaining as int),
    {
        if remaining > 0 {
            (Session { stage: Stage::Moving { frame, remaining: remaining - 1 } }, Action::Send(frame))
        } else {
            (Session { stage: Stage::Over { outcome: Ok(None) } }, Action::Finish(Ok(None)))
        }
    }

    fn fail(e: DeskError) -> (r: (Session, Action))
        ensures
            (r.0@, r.1@) == failed(e),
    {
        (Session { stage: Stage::Over { outcome: Err(e) } }, Action::Finish(Err(e)))
    }

    /// Starts carrying out a command, with its first action.
    pub fn start(command: &Command) -> (r: (Session, Action))
        ensures
            (r.0@, r.1@) == start_spec(*command),
    {
        match encode(command) {
            Some((frame, count)) => Session::moving(frame, count),
            None => {
                let target = match *command {
                    Command::SetHeight { height } => Some(normalize(height)),
                    _ => None,
                };
                (Session { stage: Stage::Waking { target } }, Action::Wake)
            },
        }
    }

    /// Starts reading the desk's height, with its first action.
    pub fn query() -> (r: (Session, Action))
        ensures
            (r.0@, r.1@) == start_spec(Command::Query),
    {
        Session::start(&Command::Query)
    }

    /// Takes in how the last action went and returns the next one.
    pub fn step(&mut self, event: Event) -> (r: Action)
        ensures
            (final(self)@, r@) == step_spec(old(self)@, event),
    {
        proof {
            use_type_invariant(&*self);
        }
        let (next, action) = match self.stage {
            Stage::Over { outcome } => (Session { stage: Stage::Over { outcome } }, Action::Finish(outcome)),
            Stage::Moving { frame, remaining } => match event {
                Event::Done => Session::moving(frame, remaining),
                _ => Session::fail(DeskError::TransportFailure),
            },
            Stage::Waking { target } => match event {
                Event::Done => (
                    Session { stage: Stage::Triggering { target } },
                    Action::Send(memory_sequence()),
                ),
                _ => Session::fail(DeskError::TransportFailure),
            },
            Stage::Triggering { target } => match event {
                Event::Done => (
                    Session { stage: Stage::Scanning { window: ScanWindow::new(), target } },
                    Action::Receive,
                ),
                _ => Session::fail(DeskError::TransportFailure),
            },
            Stage::Scanning { window, target } => match event {
                Event::Byte(b) => {
                    let mut window = window;
                    let ghost before = window@;
                    let r = window.feed(b);
                    match r {
                        None => (Session { stage: Stage::Scanning { window, target } }, Action::Receive),
                        Some(Err(err)) => Session::fail(err),
                        Some(Ok(h)) => match target {
                            None => (
                                Session { stage: Stage::Over { outcome: Ok(Some(h)) } },
                                Action::Finish(Ok(Some(h))),
                            ),
                            Some(t) => {
                                proof {
                                    let hs = before.history;
                                    lemma_composed_range(hs[1], hs[0], b);
                                }
                                let diff = t - h;
                                let frame = if diff > 0 {
                                    let f: CommandSequence = [0x9b, 0x06, 0x02, 0x01, 0x00, 0xfc, 0xa0, 0x9d];
                                    assert(f@ =~= up_frame());
                                    f
                                } else {
                                    let f: CommandSequence = [0x9b, 0x06, 0x02, 0x02, 0x00, 0x0c, 0xa0, 0x9d];
                                    assert(f@ =~= down_frame());
                                    f
                                };
                                Session::moving(frame, loop_count(Some(diff)))
                            },
                        },
                    }
                },
                _ => Session::fail(DeskError::TransportFailure),
            },
        };
        *self = next;
        action
    }
}

/// The state after a series of events, with the action that each of them
/// brought.
pub open spec fn run(st: StageModel, events: Seq<Event>) -> (StageModel, Seq<ActionModel>)
    decreases events.len(),
{
    if events.len() == 0 {
        (st, Seq::empty())
    } else {
        let (next, a) = step_spec(st, events[0]);
        let (last, acts) = run(next, events.drop_first());
        (last, seq![a] + acts)
    }
}

/// `n` reports of a finished write.
pub open spec fn dones(n: nat) -> Seq<Event> {
    Seq::new(n, |i: int| Event::Done)
}

/// `n` times the same action.
pub open spec fn repeated(a: ActionModel, n: nat) -> Seq<ActionModel> {
    Seq::new(n, |i: int| a)
}

/// Running one event and then the rest.
pub proof fn lemma_run_cons(st: StageModel, e: Event, rest: Seq<Event>)
    ensures
        run(st, seq![e] + rest) == (
            run(step_spec(st, e).0, rest).0,
            seq![step_spec(st, e).1] + run(step_spec(st, e).0, rest).1,
        ),
{
    let events = seq![e] + rest;
    assert(events[0] == e);
    assert(events.drop_first() =~= rest);
}

/// A motion with `remaining` sends owed sends its frame that many more
/// times, one per finished write, and then ends.
pub proof fn lemma_moving_sends(frame: Seq<u8>, remaining: nat)
    ensures
        run(StageModel::Moving { frame, remaining: remaining as int }, dones(remaining + 1)) == (
            StageModel::Over { outcome: Ok(None) },
            repeated(ActionModel::Send(frame), remaining) + seq![ActionModel::Finish(Ok(None))],
        ),
    decreases remaining,
{
    let st = StageModel::Moving { frame, remaining: remaining as int };
    assert(dones(remaining + 1) =~= seq![Event::Done] + dones(remaining));
    lemma_run_cons(st, Event::Done, dones(remaining));
    if remaining == 0 {
        assert(dones(0) =~= Seq::<Event>::empty());
        assert(repeated(ActionModel::Send(frame), 0) + seq![ActionModel::Finish(Ok(None))]
            =~= seq![ActionModel::Finish(Ok(None))]);
    } else {
        let r = (remaining - 1) as nat;
        lemma_moving_sends(frame, r);
        assert(dones(remaining) == dones(r + 1));
        assert(seq![ActionModel::Send(frame)] + (repeated(ActionModel::Send(frame), r) + seq![
            ActionModel::Finish(Ok(None))]) =~= repeated(ActionModel::Send(frame), remaining)
            + seq![ActionModel::Finish(Ok(None))]);
    }
}

/// Setting a height, against a desk whose height report shows the digit
/// bytes `d0 d1 d2`: the session pulses the wake line, sends the memory
/// frame, reads the six bytes of the report, and then sends the up frame if
/// the target brought into the travel range lies above the height read,
/// else the down frame, exactly as many times as that difference takes;
/// then it ends with success.
pub proof fn lemma_set_height_run(height: i32, d0: u8, d1: u8, d2: u8)
    requires
        composed_height(d0, d1, d2) is Ok,
    ensures
        ({
            let current = composed_height(d0, d1, d2)->Ok_0;
            let motion = dispatch(clamped(height as int), current);
            let events = seq![Event::Done, Event::Done, Event::Byte(MARKER), Event::Byte(
                HEIGHT_LENGTH), Event::Byte(HEIGHT_TYPE), Event::Byte(d0), Event::Byte(d1),
                Event::Byte(d2)] + dones(motion.1 as nat);
            &&& start_spec(Command::SetHeight { height }).1 == ActionModel::Wake
            &&& run(start_spec(Command::SetHeight { height }).0, events) == (
                StageModel::Over { outcome: Ok(None) },
                seq![ActionModel::Send(memory_frame())] + repeated(ActionModel::Receive, 6)
                    + repeated(ActionModel::Send(motion.0), motion.1 as nat) + seq![
                    ActionModel::Finish(Ok(None))],
            )
        }),
{
    assert(0x9bu8 & 0x7fu8 == 0x1bu8) by (bit_vector);
    assert(0u8 & 0x7fu8 == 0u8) by (bit_vector);
    let current = composed_height(d0, d1, d2)->Ok_0;
    let motion = dispatch(clamped(height as int), current);
    let n = motion.1 as nat;
    let f = motion.0;
    let tail = dones(n);
    let st0 = start_spec(Command::SetHeight { height }).0;
    let st1 = step_spec(st0, Event::Done).0;
    let st2 = step_spec(st1, Event::Done).0;
    let st3 = step_spec(st2, Event::Byte(MARKER)).0;
    let st4 = step_spec(st3, Event::Byte(HEIGHT_LENGTH)).0;
    let st5 = step_spec(st4, Event::Byte(HEIGHT_TYPE)).0;
    let st6 = step_spec(st5, Event::Byte(d0)).0;
    let st7 = step_spec(st6, Event::Byte(d1)).0;
    let st8 = step_spec(st7, Event::Byte(d2)).0;
    let e7 = seq![Event::Byte(d2)] + tail;
    let e6 = seq![Event::Byte(d1)] + e7;
    let e5 = seq![Event::Byte(d0)] + e6;
    let e4 = seq![Event::Byte(HEIGHT_TYPE)] + e5;
    let e3 = seq![Event::Byte(HEIGHT_LENGTH)] + e4;
    let e2 = seq![Event::Byte(MARKER)] + e3;
    let e1 = seq![Event::Done] + e2;
    let e0 = seq![Event::Done] + e1;
    assert(seq![Event::Done, Event::Done, Event::Byte(MARKER), Event::Byte(HEIGHT_LENGTH),
        Event::Byte(HEIGHT_TYPE), Event::Byte(d0), Event::Byte(d1), Event::Byte(d2)] + tail
        =~= e0);
    lemma_run_cons(st0, Event::Done, e1);
    lemma_run_cons(st1, Event::Done, e2);
    lemma_run_cons(st2, Event::Byte(MARKER), e3);
    lemma_run_cons(st3, Event::Byte(HEIGHT_LENGTH), e4);
    lemma_run_cons(st4, Event::Byte(HEIGHT_TYPE), e5);
    lemma_run_cons(st5, Event::Byte(d0), e6);
    lemma_run_cons(st6, Event::Byte(d1), e7);
    lemma_run_cons(st7, Event::Byte(d2), tail);
    assert(step_spec(st7, Event::Byte(d2)) == moving_next(f, motion.1));
    let finish = seq![ActionModel::Finish(Ok(None))];
    let sends = repeated(ActionModel::Send(f), n);
    if n > 0 {
        let r = (n - 1) as nat;
        lemma_moving_sends(f, r);
        assert(tail == dones(r + 1));
        assert(seq![ActionModel::Send(f)] + (repeated(ActionModel::Send(f), r) + finish)
            =~= sends + finish);
    } else {
        assert(tail =~= Seq::<Event>::empty());
        assert(sends + finish =~= finish);
    }
    let receives = repeated(ActionModel::Receive, 6);
    assert(receives =~= seq![ActionModel::Receive, ActionModel::Receive, ActionModel::Receive,
        ActionModel::Receive, ActionModel::Receive, ActionModel::Receive]);
    let rest = run(st8, tail).1;
    assert(seq![ActionModel::Send(memory_frame())] + (seq![ActionModel::Receive] + (seq![
        ActionModel::Receive] + (seq![ActionModel::Receive] + (seq![ActionModel::Receive] + (seq![
        ActionModel::Receive] + (seq![ActionModel::Receive] + (seq![step_spec(st7, Event::Byte(d2)).1]
        + rest))))))) =~= seq![ActionModel::Send(memory_frame())] + receives + (seq![
        step_spec(st7, Event::Byte(d2)).1] + rest));
}

} // verus!
