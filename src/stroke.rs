use vstd::prelude::*;

use crate::keyboard::KeyboardKey;
use crate::mouse::MouseButton;
use crate::result::{InputError, InputResult};

verus! {

/// The longest single sleep of a watched hold, in microseconds.
pub const POLL_INTERVAL_US: u64 = 5000;

/// The key or button that a composite operation presses.
#[derive(Clone, Copy, Debug, PartialEq, Eq, Structural)]
pub enum Control {
    Key(KeyboardKey),
    Button(MouseButton),
}

/// The composite operations. Durations are in microseconds.
#[derive(Clone, Copy, Debug, PartialEq, Eq, Structural)]
pub enum Plan {
    /// Press, then release.
    Tap,
    /// Press, sleep for the whole duration, release.
    Hold(u64),
    /// Press, then watch the pointer until the duration has elapsed, release;
    /// pointer movement cancels the hold.
    WatchedHold(u64),
    /// Press, move the pointer by an offset, release.
    Drag(i32, i32),
}

/// Where a composite operation stands, named after what it waits for.
#[derive(Clone, Copy, Debug, PartialEq, Eq, Structural)]
pub enum Stage {
    Pressing,
    Moving,
    Sleeping,
    Locating,
    Pausing,
    Releasing,
    Finished,
}

/// What the backend is asked to do next.
pub enum Action {
    /// Press the control down.
    Press(Control),
    /// Let the control up.
    Release(Control),
    /// Move the pointer by an offset.
    MoveBy(i32, i32),
    /// Block for the given number of microseconds.
    Sleep(u64),
    /// Read the pointer position and the microseconds elapsed since the press.
    Locate,
    /// The operation is over, with this outcome.
    Finish(InputResult),
}

/// What the backend reports back after an action.
pub enum Event {
    /// A press, release or move completed with this outcome.
    Done(InputResult),
    /// A sleep is over.
    Slept,
    /// The pointer position (or the failure to read it), and the
    /// microseconds elapsed since the press.
    Located(Result<(i32, i32), InputError>, u64),
}

/// A composite operation in progress.
pub struct Stroke {
    pub control: Control,
    pub plan: Plan,
    pub stage: Stage,
    /// The pointer position recorded right after the press (watched holds).
    pub anchor: Option<(i32, i32)>,
    /// The first failure, reported once the control has been released.
    pub pending: Option<InputError>,
}

/// The operation's first state and its first action: every composite
/// operation starts by pressing its control.
pub open spec fn start_spec(control: Control, plan: Plan) -> (Stroke, Action) {
    (
        Stroke { control, plan, stage: Stage::Pressing, anchor: None, pending: None },
        Action::Press(control),
    )
}

/// The actions issued when the events `evs` are reported one after another,
/// from state `s` on; it stops at the first event that `s` does not expect.
pub open spec fn run(s: Stroke, evs: Seq<Event>) -> Seq<Action>
    decreases evs.len(),
{
    if evs.len() == 0 || !s.accepts(evs[0]) {
        seq![]
    } else {
        seq![s.next(evs[0]).1] + run(s.next(evs[0]).0, evs.drop_first())
    }
}

/// All actions of an operation, when the events `evs` answer them in turn.
pub open spec fn actions_of(control: Control, plan: Plan, evs: Seq<Event>) -> Seq<Action> {
    seq![start_spec(control, plan).1] + run(start_spec(control, plan).0, evs)
}

/// The sleep before the next look at the pointer: what is left of the
/// duration, at most one polling interval.
pub open spec fn pause_for(duration: u64, elapsed: u64) -> u64
    recommends
        elapsed <= duration,
{
    if duration - elapsed < POLL_INTERVAL_US {
        (duration - elapsed) as u64
    } else {
        POLL_INTERVAL_US
    }
}

impl Stroke {
    /// Whether the operation waits for an event of the kind of `e`.
    pub open spec fn accepts(&self, e: Event) -> bool {
        match self.stage {
            Stage::Pressing | Stage::Moving | Stage::Releasing => e is Done,
            Stage::Sleeping | Stage::Pausing => e is Slept,
            Stage::Locating => e is Located,
            Stage::Finished => false,
        }
    }

    /// Release the control, remembering `pending` as the outcome.
    pub open spec fn release_with(self, pending: Option<InputError>) -> (Stroke, Action) {
        (Stroke { stage: Stage::Releasing, pending, ..self }, Action::Release(self.control))
    }

    /// The next state and action after event `e`.
    pub open spec fn next(self, e: Event) -> (Stroke, Action) {
        match self.stage {
            Stage::Pressing => match e {
                Event::Done(Err(x)) => (
                    Stroke { stage: Stage::Finished, ..self },
                    Action::Finish(Err(x)),
                ),
                _ => match self.plan {
                    Plan::Tap => self.release_with(None),
                    Plan::Hold(d) => (Stroke { stage: Stage::Sleeping, ..self }, Action::Sleep(d)),
                    Plan::WatchedHold(_) => (
                        Stroke { stage: Stage::Locating, ..self },
                        Action::Locate,
                    ),
                    Plan::Drag(dx, dy) => (
                        Stroke { stage: Stage::Moving, ..self },
                        Action::MoveBy(dx, dy),
                    ),
                },
            },
            Stage::Moving => match e {
                Event::Done(Err(x)) => self.release_with(Some(x)),
                _ => self.release_with(None),
            },
            Stage::Sleeping => self.release_with(None),
            Stage::Locating => match e {
                Event::Located(Err(x), _) => self.release_with(Some(x)),
                Event::Located(Ok(p), t) => {
                    if self.anchor is Some && self.anchor != Some(p) {
                        self.release_with(Some(InputError::Interrupt))
                    } else {
                        let s = Stroke { anchor: Some(p), ..self };
                        match self.plan {
                            Plan::WatchedHold(d) => if t <= d {
                                (Stroke { stage: Stage::Pausing, ..s }, Action::Sleep(pause_for(d, t)))
                            } else {
                                s.release_with(None)
                            },
                            _ => s.release_with(None),
                        }
                    }
                },
                _ => (self, Action::Locate),
            },
            Stage::Pausing => (Stroke { stage: Stage::Locating, ..self }, Action::Locate),
            Stage::Releasing => match e {
                Event::Done(r) => (
                    Stroke { stage: Stage::Finished, pending: None, ..self },
                    Action::Finish(
                        match self.pending {
                            Some(x) => Err(x),
                            None => r,
                        },
                    ),
                ),
                _ => (self, Action::Locate),
            },
            Stage::Finished => (self, Action::Locate),
        }
    }

    /// Begins a composite operation on `control`.
    pub fn start(control: Control, plan: Plan) -> (r: (Stroke, Action))
        ensures
            r == start_spec(control, plan),
    {
        (
            Stroke { control, plan, stage: Stage::Pressing, anchor: None, pending: None },
            Action::Press(control),
        )
    }

    /// Whether the operation waits for an event of the kind of `e`.
    pub fn expects(&self, e: &Event) -> (r: bool)
        ensures
            r == self.accepts(*e),
    {
        match self.stage {
            Stage::Pressing | Stage::Moving | Stage::Releasing => matches!(e, Event::Done(_)),
            Stage::Sleeping | Stage::Pausing => matches!(e, Event::Slept),
            Stage::Locating => matches!(e, Event::Located(_, _)),
            Stage::Finished => false,
        }
    }

    /// Whether the operation is over.
    pub fn is_finished(&self) -> (r: bool)
        ensures
            r == (self.stage == Stage::Finished),
    {
        self.stage == Stage::Finished
    }

    /// Hands event `e` to the operation; returns its next state and action.
    pub fn step(self, e: Event) -> (r: (Stroke, Action))
        requires
            self.accepts(e),
        ensures
            r == self.next(e),
    {
        let Stroke { control, plan, stage, anchor, pending } = self;
        match stage {
            Stage::Pressing => match e {
                Event::Done(Err(x)) => (
                    Stroke { control, plan, stage: Stage::Finished, anchor, pending },
                    Action::Finish(Err(x)),
                ),
                _ => match plan {
                    Plan::Tap => (
                        Stroke { control, plan, stage: Stage::Releasing, anchor, pending: None },
                        Action::Release(control),
                    ),
                    Plan::Hold(d) => (
                        Stroke { control, plan, stage: Stage::Sleeping, anchor, pending },
                        Action::Sleep(d),
                    ),
                    Plan::WatchedHold(_) => (
                        Stroke { control, plan, stage: Stage::Locating, anchor, pending },
                        Action::Locate,
                    ),
                    Plan::Drag(dx, dy) => (
                        Stroke { control, plan, stage: Stage::Moving, anchor, pending },
                        Action::MoveBy(dx, dy),
                    ),
                },
            },
            Stage::Moving => {
                let pending = match e {
                    Event::Done(Err(x)) => Some(x),
                    _ => None,
                };
                (
                    Stroke { control, plan, stage: Stage::Releasing, anchor, pending },
                    Action::Release(control),
                )
            },
            Stage::Sleeping => (
                Stroke { control, plan, stage: Stage::Releasing, anchor, pending: None },
                Action::Release(control),
            ),
            Stage::Locating => match e {
                Event::Located(Err(x), _) => (
                    Stroke { control, plan, stage: Stage::Releasing, anchor, pending: Some(x) },
                    Action::Release(control),
                ),
                Event::Located(Ok(p), t) => {
                    let moved = match anchor {
                        Some(a) => a.0 != p.0 || a.1 != p.1,
                        None => false,
                    };
                    if moved {
                        (
                            Stroke {
                                control,
                                plan,
                                stage: Stage::Releasing,
                                anchor,
                                pending: Some(InputError::Interrupt),
                            },
                            Action::Release(control),
                        )
                    } else {
                        match plan {
                            Plan::WatchedHold(d) => if t <= d {
                                let left = d - t;
                                let pause = if left < POLL_INTERVAL_US {
                                    left
                                } else {
                                    POLL_INTERVAL_US
                                };
                                (
                                    Stroke {
                                        control,
                                        plan,
                                        stage: Stage::Pausing,
                                        anchor: Some(p),
                                        pending,
                                    },
                                    Action::Sleep(pause),
                                )
                            } else {
                                (
                                    Stroke {
                                        control,
                                        plan,
                                        stage: Stage::Releasing,
                                        anchor: Some(p),
                                        pending: None,
                                    },
                                    Action::Release(control),
                                )
                            },
                            _ => (
                                Stroke {
                                    control,
                                    plan,
                                    stage: Stage::Releasing,
                                    anchor: Some(p),
                                    pending: None,
                                },
                                Action::Release(control),
                            ),
                        }
                    }
                },
                _ => (Stroke { control, plan, stage, anchor, pending }, Action::Locate),
            },
            Stage::Pausing => (
                Stroke { control, plan, stage: Stage::Locating, anchor, pending },
                Action::Locate,
            ),
            Stage::Releasing => {
                let outcome = match pending {
                    Some(x) => Err(x),
                    None => match e {
                        Event::Done(r) => r,
                        _ => Ok(()),
                    },
                };
                (
                    Stroke { control, plan, stage: Stage::Finished, anchor, pending: None },
                    Action::Finish(outcome),
                )
            },
            Stage::Finished => (Stroke { control, plan, stage, anchor, pending }, Action::Locate),
        }
    }
}

/// Whether `e` is the kind of event that reports on action `a`.
pub open spec fn answers(a: Action, e: Event) -> bool {
    match a {
        Action::Press(_) | Action::Release(_) | Action::MoveBy(_, _) => e is Done,
        Action::Sleep(_) => e is Slept,
        Action::Locate => e is Located,
        Action::Finish(_) => false,
    }
}

/// A backend that answers each action with an event of the matching kind is
/// never out of step: the first action and every later one are answered by
/// events the operation accepts, and it asks for nothing more once finished.
pub proof fn actions_are_answerable(s: Stroke, e: Event, answer: Event, control: Control, plan: Plan)
    ensures
        answers(start_spec(control, plan).1, answer) ==> start_spec(control, plan).0.accepts(answer),
        s.accepts(e) && answers(s.next(e).1, answer) ==> s.next(e).0.accepts(answer),
        s.accepts(e) ==> (s.next(e).1 is Finish <==> s.next(e).0.stage == Stage::Finished),
{
}

/// A tap whose press and release both succeed presses the control, releases
/// it right after, and succeeds.
pub proof fn tap_presses_then_releases(control: Control)
    ensures
        actions_of(control, Plan::Tap, seq![Event::Done(Ok(())), Event::Done(Ok(()))])
            == seq![Action::Press(control), Action::Release(control), Action::Finish(Ok(()))],
{
    let evs = seq![Event::Done(Ok(())), Event::Done(Ok(()))];
    reveal_with_fuel(run, 3);
    assert(evs.drop_first().drop_first() =~= seq![]);
    assert(actions_of(control, Plan::Tap, evs) =~= seq![
        Action::Press(control),
        Action::Release(control),
        Action::Finish(Ok(())),
    ]);
}

/// A hold that is not watched presses the control, sleeps for the whole
/// duration, then releases it; with both primitives successful it succeeds.
pub proof fn hold_sleeps_between_press_and_release(control: Control, duration: u64)
    ensures
        actions_of(
            control,
            Plan::Hold(duration),
            seq![Event::Done(Ok(())), Event::Slept, Event::Done(Ok(()))],
        ) == seq![
            Action::Press(control),
            Action::Sleep(duration),
            Action::Release(control),
            Action::Finish(Ok(())),
        ],
{
    let evs = seq![Event::Done(Ok(())), Event::Slept, Event::Done(Ok(()))];
    reveal_with_fuel(run, 4);
    assert(evs.drop_first().drop_first().drop_first() =~= seq![]);
    assert(actions_of(control, Plan::Hold(duration), evs) =~= seq![
        Action::Press(control),
        Action::Sleep(duration),
        Action::Release(control),
        Action::Finish(Ok(())),
    ]);
}

/// A drag presses the control, moves the pointer by the offset, and releases
/// the control whatever the move reported; a failed move is the outcome,
/// otherwise the release's.
pub proof fn drag_releases_after_move(
    control: Control,
    dx: i32,
    dy: i32,
    moved: InputResult,
    released: InputResult,
)
    ensures
        actions_of(
            control,
            Plan::Drag(dx, dy),
            seq![Event::Done(Ok(())), Event::Done(moved), Event::Done(released)],
        ) == seq![
            Action::Press(control),
            Action::MoveBy(dx, dy),
            Action::Release(control),
            Action::Finish(if moved is Err { moved } else { released }),
        ],
{
    let evs = seq![Event::Done(Ok(())), Event::Done(moved), Event::Done(released)];
    reveal_with_fuel(run, 4);
    assert(evs.drop_first().drop_first().drop_first() =~= seq![]);
    let outcome = if moved is Err { moved } else { released };
    assert(actions_of(control, Plan::Drag(dx, dy), evs) =~= seq![
        Action::Press(control),
        Action::MoveBy(dx, dy),
        Action::Release(control),
        Action::Finish(outcome),
    ]);
}

/// A watched hold whose pointer has not moved when the duration is over
/// releases the control and succeeds.
pub proof fn stationary_hold_ends_after_duration(
    control: Control,
    duration: u64,
    p0: (i32, i32),
    t: u64,
)
    requires
        t > duration,
    ensures
        actions_of(
            control,
            Plan::WatchedHold(duration),
            seq![Event::Done(Ok(())), Event::Located(Ok(p0), t), Event::Done(Ok(()))],
        ) == seq![
            Action::Press(control),
            Action::Locate,
            Action::Release(control),
            Action::Finish(Ok(())),
        ],
{
    let evs = seq![Event::Done(Ok(())), Event::Located(Ok(p0), t), Event::Done(Ok(()))];
    reveal_with_fuel(run, 4);
    assert(evs.drop_first().drop_first().drop_first() =~= seq![]);
    assert(actions_of(control, Plan::WatchedHold(duration), evs) =~= seq![
        Action::Press(control),
        Action::Locate,
        Action::Release(control),
        Action::Finish(Ok(())),
    ]);
}

/// Whatever the operation, a failed press ends it with the press's error,
/// and nothing is released.
pub proof fn failed_press_ends_operation(
    control: Control,
    plan: Plan,
    evs: Seq<Event>,
    e: InputError,
)
    requires
        evs.len() > 0,
        evs[0] == Event::Done(Err(e)),
    ensures
        actions_of(control, plan, evs) == seq![Action::Press(control), Action::Finish(Err(e))],
{
    reveal_with_fuel(run, 2);
    let s1 = start_spec(control, plan).0.next(evs[0]).0;
    assert(s1.stage == Stage::Finished);
    assert(run(s1, evs.drop_first()) =~= seq![]);
    assert(actions_of(control, plan, evs) =~= seq![
        Action::Press(control),
        Action::Finish(Err(e)),
    ]);
}

proof fn finishes_after_release(s: Stroke, evs: Seq<Event>, control: Control)
    requires
        s.control == control,
        s.stage != Stage::Pressing,
    ensures
        forall|i: int|
            0 <= i < run(s, evs).len() && (#[trigger] run(s, evs)[i]) is Finish ==> {
                &&& i == 0 ==> s.stage == Stage::Releasing
                &&& i > 0 ==> run(s, evs)[i - 1] == Action::Release(control)
            },
    decreases evs.len(),
{
    if evs.len() > 0 && s.accepts(evs[0]) {
        let (s1, a) = s.next(evs[0]);
        let rest = evs.drop_first();
        assert(s1.stage == Stage::Releasing ==> a == Action::Release(control));
        assert(a is Finish ==> s.stage == Stage::Releasing);
        finishes_after_release(s1, rest, control);
        let r = run(s, evs);
        assert(r =~= seq![a] + run(s1, rest));
        assert forall|i: int| 0 <= i < r.len() && (#[trigger] r[i]) is Finish implies {
            &&& i == 0 ==> s.stage == Stage::Releasing
            &&& i > 0 ==> r[i - 1] == Action::Release(control)
        } by {
            if i > 0 {
                assert(r[i] == run(s1, rest)[i - 1]);
                if i > 1 {
                    assert(r[i - 1] == run(s1, rest)[i - 2]);
                }
            }
        }
    }
}

/// Cleanup before failure: an operation whose press did not fail ends only
/// right after releasing its control, whatever failed on the way.
pub proof fn pressed_control_released_before_finish(control: Control, plan: Plan, evs: Seq<Event>)
    ensures
        forall|i: int|
            0 <= i < actions_of(control, plan, evs).len()
                && (#[trigger] actions_of(control, plan, evs)[i]) is Finish ==> {
                ||| (i == 1 && evs[0] is Done && evs[0]->Done_0 is Err)
                ||| actions_of(control, plan, evs)[i - 1] == Action::Release(control)
            },
{
    let s0 = start_spec(control, plan).0;
    let acts = actions_of(control, plan, evs);
    if evs.len() > 0 && s0.accepts(evs[0]) {
        let (s1, a) = s0.next(evs[0]);
        let rest = evs.drop_first();
        finishes_after_release(s1, rest, control);
        assert(s1.stage == Stage::Releasing ==> a == Action::Release(control));
        assert(acts =~= seq![Action::Press(control), a] + run(s1, rest));
        assert forall|i: int| 0 <= i < acts.len() && (#[trigger] acts[i]) is Finish implies {
            ||| (i == 1 && evs[0] is Done && evs[0]->Done_0 is Err)
            ||| acts[i - 1] == Action::Release(control)
        } by {
            if i > 1 {
                assert(acts[i] == run(s1, rest)[i - 2]);
                if i > 2 {
                    assert(acts[i - 1] == run(s1, rest)[i - 3]);
                }
            }
        }
    } else {
        assert(acts =~= seq![Action::Press(control)]);
    }
}

/// Once a watched hold sees the pointer away from where it was after the
/// press, it releases the control and ends in `Interrupt`, whatever happens
/// afterwards: it never succeeds.
pub proof fn moved_pointer_interrupts_hold(s: Stroke, evs: Seq<Event>, p: (i32, i32), t: u64)
    requires
        s.plan is WatchedHold,
        s.stage == Stage::Locating,
        s.anchor is Some,
        s.anchor != Some(p),
        evs.len() > 0,
        evs[0] == Event::Located(Ok(p), t),
    ensures
        run(s, evs).len() <= 2,
        run(s, evs)[0] == Action::Release(s.control),
        run(s, evs).len() == 2 ==> run(s, evs)[1] == Action::Finish(Err(InputError::Interrupt)),
{
    reveal_with_fuel(run, 3);
    let s1 = s.next(evs[0]).0;
    assert(s1.stage == Stage::Releasing);
    assert(s1.pending == Some(InputError::Interrupt));
    let rest = evs.drop_first();
    if rest.len() > 0 && s1.accepts(rest[0]) {
        let s2 = s1.next(rest[0]).0;
        assert(s2.stage == Stage::Finished);
        assert(run(s2, rest.drop_first()) =~= seq![]);
    }
}

/// A watched hold whose events are all successful and whose pointer stays at
/// `p0` is in a state from which it can only succeed.
pub open spec fn stationary_hold(s: Stroke, control: Control, duration: u64, p0: (i32, i32)) -> bool {
    &&& s.control == control
    &&& s.plan == Plan::WatchedHold(duration)
    &&& s.pending is None
    &&& (s.anchor is Some ==> s.anchor == Some(p0))
}

/// The event reports a success, a finished sleep, or the pointer at `p0`.
pub open spec fn benign(e: Event, p0: (i32, i32)) -> bool {
    match e {
        Event::Done(r) => r == Ok::<(), InputError>(()),
        Event::Slept => true,
        Event::Located(pos, _) => pos == Ok::<(i32, i32), InputError>(p0),
    }
}

proof fn stationary_run(s: Stroke, evs: Seq<Event>, control: Control, duration: u64, p0: (i32, i32))
    requires
        stationary_hold(s, control, duration, p0),
        forall|i: int| 0 <= i < evs.len() ==> benign(#[trigger] evs[i], p0),
    ensures
        forall|i: int|
            0 <= i < run(s, evs).len() && (#[trigger] run(s, evs)[i]) is Finish ==> {
                &&& run(s, evs)[i] == Action::Finish(Ok(()))
                &&& i > 0 ==> run(s, evs)[i - 1] == Action::Release(control)
                &&& i == 0 ==> s.stage == Stage::Releasing
            },
    decreases evs.len(),
{
    if evs.len() == 0 || !s.accepts(evs[0]) {
    } else {
        let e = evs[0];
        assert(benign(e, p0));
        let (s1, a) = s.next(e);
        let rest = evs.drop_first();
        assert forall|i: int| 0 <= i < rest.len() implies benign(#[trigger] rest[i], p0) by {
            assert(rest[i] == evs[i + 1]);
        }
        assert(stationary_hold(s1, control, duration, p0));
        assert(s1.stage == Stage::Releasing ==> a == Action::Release(control));
        assert(a is Finish ==> a == Action::Finish(Ok(())) && s.stage == Stage::Releasing);
        stationary_run(s1, rest, control, duration, p0);
        let r = run(s, evs);
        assert(r =~= seq![a] + run(s1, rest));
        assert forall|i: int| 0 <= i < r.len() && (#[trigger] r[i]) is Finish implies {
            &&& r[i] == Action::Finish(Ok(()))
            &&& i > 0 ==> r[i - 1] == Action::Release(control)
            &&& i == 0 ==> s.stage == Stage::Releasing
        } by {
            if i > 0 {
                assert(r[i] == run(s1, rest)[i - 1]);
                if i > 1 {
                    assert(r[i - 1] == run(s1, rest)[i - 2]);
                }
            }
        }
    }
}

/// A watched hold during which the pointer never leaves the position it had
/// after the press, and whose primitives all succeed, can only end in
/// success, and only right after releasing the control.
pub proof fn stationary_hold_succeeds(control: Control, duration: u64, p0: (i32, i32), evs: Seq<Event>)
    requires
        forall|i: int| 0 <= i < evs.len() ==> benign(#[trigger] evs[i], p0),
    ensures
        forall|i: int|
            0 <= i < actions_of(control, Plan::WatchedHold(duration), evs).len()
                && (#[trigger] actions_of(control, Plan::WatchedHold(duration), evs)[i]) is Finish
                ==> {
                &&& actions_of(control, Plan::WatchedHold(duration), evs)[i] == Action::Finish(Ok(()))
                &&& actions_of(control, Plan::WatchedHold(duration), evs)[i - 1] == Action::Release(control)
            },
{
    let s = start_spec(control, Plan::WatchedHold(duration)).0;
    stationary_run(s, evs, control, duration, p0);
    let acts = actions_of(control, Plan::WatchedHold(duration), evs);
    assert forall|i: int| 0 <= i < acts.len() && (#[trigger] acts[i]) is Finish implies {
        &&& acts[i] == Action::Finish(Ok(()))
        &&& acts[i - 1] == Action::Release(control)
    } by {
        assert(i > 0);
        assert(acts[i] == run(s, evs)[i - 1]);
        if i > 1 {
            assert(acts[i - 1] == run(s, evs)[i - 2]);
        }
    }
}

} // verus!
