//! The translation loop: the state machine that drains controller
//! events, resolves them against the profile, integrates analog motion,
//! and decides which synthetic actions to emit.
//!
//! The loop itself performs no I/O: a driver polls the device backend,
//! feeds each event to `handle_event`, closes every polling cycle with
//! `end_cycle`, performs the returned emitter calls, and observes the
//! cancellation flag through `begin_cycle` at the top of every cycle.
//! `run_cycles` is that driver over a pre-recorded script of cycles, and
//! carries the loop's full contract.

use vstd::prelude::*;

use crate::action::MouseButtonOrKey;
use crate::binding::{spec_table_get, BindingTable};
use crate::input::{Button, StickAxis};
use crate::integrator::{
    spec_advance, spec_pixel_of, spec_velocity, spec_velocity_vertical, AnalogIntegrator,
    IntegratorView, AXIS_UNIT, SUBPIXELS_PER_PIXEL,
};
use crate::profile::Profile;
use crate::session::{resolve, spec_lookup, spec_resolve, SessionHandleMap};

verus! {

/// The observable states of the translation loop: not polling; actively
/// draining and emitting; cancellation requested, exiting at the next
/// poll boundary.
#[derive(Clone, Copy, PartialEq, Eq, Structural, Debug)]
pub enum LoopState {
    Idle,
    Running,
    Stopping,
}

/// What happened on a controller, as handed in by the device poller.
#[derive(Clone, Copy, PartialEq, Eq, Structural, Debug)]
pub enum EventKind {
    ButtonPressed(Button),
    ButtonReleased(Button),
    /// An axis moved; the sample is in deflection units, within one full
    /// deflection of zero.
    AxisChanged(StickAxis, i64),
}

/// One event from the device poller: which session handle it came from,
/// and what happened.
#[derive(Clone, Copy, PartialEq, Eq, Structural, Debug)]
pub struct ControllerEvent {
    pub session_handle: u64,
    pub kind: EventKind,
}

impl ControllerEvent {
    /// An axis sample never exceeds one full deflection.
    pub open spec fn wf(&self) -> bool {
        match self.kind {
            EventKind::AxisChanged(_, a) => -AXIS_UNIT <= a <= AXIS_UNIT,
            _ => true,
        }
    }
}

/// The ways the engine and its collaborators fail. All are fatal to the
/// operation they interrupt and surfaced synchronously to its caller;
/// none is retried, none is swallowed.
#[derive(Clone, Copy, PartialEq, Eq, Structural, Debug)]
pub enum EngineError {
    /// The emitter or poller backend was unavailable at start; the loop
    /// never entered Running.
    InitializationFailure,
    /// An event arrived for a session handle the session map does not
    /// hold, such as a controller connected after the loop started.
    /// Fatal to the whole loop.
    UnresolvedSessionHandle,
    /// A press, release or cursor move failed; fatal to the running
    /// session.
    ActionEmissionFailure,
    /// The shared profile's mutual exclusion was found poisoned; a
    /// generic internal error with no automatic recovery.
    SharedStateCorruption,
    /// Loading or saving a profile failed; surfaced to the caller of
    /// that operation only, never to a running loop.
    PersistenceFailure,
}

/// A call for the driver to make on the action emitter.
#[derive(Clone, Copy, PartialEq, Eq, Structural, Debug)]
pub enum EmitterCall {
    Press(MouseButtonOrKey),
    Release(MouseButtonOrKey),
    MoveCursor(i32, i32),
}

/// The ghost state of one activation of the loop.
pub struct SessionView {
    pub state: LoopState,
    pub smap: Seq<(u64, u128)>,
    pub integrator: IntegratorView,
}

impl SessionView {
    /// The integrator state is well formed.
    pub open spec fn wf(&self) -> bool {
        self.integrator.wf()
    }
}

/// What one event does to the session: an unresolved session handle
/// aborts the loop; otherwise the owning identity's table decides. A
/// digital event on a bound input asks for the bound action to be
/// pressed or released; on an unbound input, or for an identity the
/// profile no longer knows, nothing happens. An axis event on a stick
/// wired to the mouse updates the matching velocity; any other axis
/// event is ignored.
pub open spec fn spec_step_event(profile: Profile, s: SessionView, ev: ControllerEvent) -> (
    SessionView,
    Result<Option<EmitterCall>, EngineError>,
) {
    match spec_lookup(s.smap, ev.session_handle) {
        None => (
            SessionView { state: LoopState::Idle, ..s },
            Err(EngineError::UnresolvedSessionHandle),
        ),
        Some(d) => match profile.spec_table_for(d) {
            None => (s, Ok(None)),
            Some(t) => match ev.kind {
                EventKind::ButtonPressed(b) => (
                    s,
                    Ok(
                        match spec_table_get(t@, b) {
                            Some(a) => Some(EmitterCall::Press(a)),
                            None => None,
                        },
                    ),
                ),
                EventKind::ButtonReleased(b) => (
                    s,
                    Ok(
                        match spec_table_get(t@, b) {
                            Some(a) => Some(EmitterCall::Release(a)),
                            None => None,
                        },
                    ),
                ),
                EventKind::AxisChanged(axis, a) => (spec_axis_step(s, t, axis, a), Ok(None)),
            },
        },
    }
}

/// What an axis sample does to the integrator, given the owning table's
/// stick flags.
pub open spec fn spec_axis_step(s: SessionView, t: BindingTable, axis: StickAxis, a: i64) -> SessionView {
    match axis {
        StickAxis::LeftStickX => if t.left_stick_mouse() {
            SessionView {
                integrator: IntegratorView { vel_x: spec_velocity(a as int), ..s.integrator },
                ..s
            }
        } else {
            s
        },
        StickAxis::LeftStickY => if t.left_stick_mouse() {
            SessionView {
                integrator: IntegratorView {
                    vel_y: spec_velocity_vertical(a as int),
                    ..s.integrator
                },
                ..s
            }
        } else {
            s
        },
        StickAxis::RightStickX => if t.right_stick_mouse() {
            SessionView {
                integrator: IntegratorView { vel_x: spec_velocity(a as int), ..s.integrator },
                ..s
            }
        } else {
            s
        },
        StickAxis::RightStickY => if t.right_stick_mouse() {
            SessionView {
                integrator: IntegratorView {
                    vel_y: spec_velocity_vertical(a as int),
                    ..s.integrator
                },
                ..s
            }
        } else {
            s
        },
    }
}

/// What the end of a polling cycle does: if some velocity is nonzero the
/// position advances by the velocity and the cursor is moved to the new
/// absolute pixel; otherwise the stored position resynchronizes from the
/// reported cursor position and no move is made.
pub open spec fn spec_end_cycle(s: SessionView, os_cursor: Option<(i32, i32)>) -> (
    SessionView,
    Option<(int, int)>,
) {
    if s.integrator.vel_x != 0 || s.integrator.vel_y != 0 {
        let px = spec_advance(s.integrator.pos_x, s.integrator.vel_x);
        let py = spec_advance(s.integrator.pos_y, s.integrator.vel_y);
        (
            SessionView {
                integrator: IntegratorView { pos_x: px, pos_y: py, ..s.integrator },
                ..s
            },
            Some((spec_pixel_of(px), spec_pixel_of(py))),
        )
    } else {
        match os_cursor {
            Some(p) => (
                SessionView {
                    integrator: IntegratorView {
                        pos_x: p.0 * SUBPIXELS_PER_PIXEL,
                        pos_y: p.1 * SUBPIXELS_PER_PIXEL,
                        ..s.integrator
                    },
                    ..s
                },
                None,
            ),
            None => (
                SessionView {
                    integrator: IntegratorView {
                        pos_x: spec_pixel_of(s.integrator.pos_x) * SUBPIXELS_PER_PIXEL,
                        pos_y: spec_pixel_of(s.integrator.pos_y) * SUBPIXELS_PER_PIXEL,
                        ..s.integrator
                    },
                    ..s
                },
                None,
            ),
        }
    }
}

/// What observing the cancellation flag at the top of a cycle does: a
/// set flag moves the loop to Stopping and the cycle does not run.
pub open spec fn spec_begin_cycle(s: SessionView, cancel_requested: bool) -> (SessionView, bool) {
    if cancel_requested {
        (SessionView { state: LoopState::Stopping, ..s }, false)
    } else {
        (s, true)
    }
}

/// The outcome of draining one batch of queued events.
pub struct BatchOutcome {
    pub s: SessionView,
    pub calls: Seq<EmitterCall>,
    pub err: Option<EngineError>,
}

/// Draining a batch: events are handled in order; the first failure
/// aborts the drain. No partial event is ever left half-processed.
pub open spec fn spec_run_batch(
    profile: Profile,
    s: SessionView,
    events: Seq<ControllerEvent>,
) -> BatchOutcome
    decreases events.len(),
{
    if events.len() == 0 {
        BatchOutcome { s, calls: Seq::empty(), err: None }
    } else {
        let stepped = spec_step_event(profile, s, events.first());
        match stepped.1 {
            Err(e) => BatchOutcome { s: stepped.0, calls: Seq::empty(), err: Some(e) },
            Ok(out) => {
                let rest = spec_run_batch(profile, stepped.0, events.drop_first());
                let here = match out {
                    Some(c) => seq![c],
                    None => Seq::empty(),
                };
                BatchOutcome { s: rest.s, calls: here + rest.calls, err: rest.err }
            },
        }
    }
}

/// The outcome of running the loop over a script of cycles.
pub struct RunOutcome {
    pub s: SessionView,
    pub calls: Seq<EmitterCall>,
    pub cycles: nat,
    pub err: Option<EngineError>,
}

/// The loop over a pre-recorded script, from cycle `i` on: each cycle
/// first observes the cancellation flag — set from cycle `cancel_from`
/// on — and a set flag ends the loop (Stopping, then Idle) before any
/// further event is drained. An uncancelled cycle drains its whole
/// batch, then closes with the end-of-cycle cursor step against the
/// cycle's reported cursor position. A failure aborts the loop (Idle)
/// with that error.
pub open spec fn spec_run(
    profile: Profile,
    s: SessionView,
    batches: Seq<Vec<ControllerEvent>>,
    os_cursor: Seq<(i32, i32)>,
    cancel_from: int,
    i: int,
) -> RunOutcome
    decreases batches.len() - i,
{
    if i < 0 {
        RunOutcome { s, calls: Seq::empty(), cycles: 0, err: None }
    } else if i >= cancel_from {
        RunOutcome {
            s: SessionView { state: LoopState::Idle, ..s },
            calls: Seq::empty(),
            cycles: 0,
            err: None,
        }
    } else if i >= batches.len() {
        RunOutcome { s, calls: Seq::empty(), cycles: 0, err: None }
    } else {
        let b = spec_run_batch(profile, s, batches[i]@);
        match b.err {
            Some(e) => RunOutcome {
                s: b.s,
                calls: b.calls,
                cycles: 1,
                err: Some(e),
            },
            None => {
                let ended = spec_end_cycle(b.s, Some(os_cursor[i]));
                let here = b.calls + (match ended.1 {
                    Some(p) => seq![EmitterCall::MoveCursor(p.0 as i32, p.1 as i32)],
                    None => Seq::empty(),
                });
                let rest = spec_run(profile, ended.0, batches, os_cursor, cancel_from, i + 1);
                RunOutcome {
                    s: rest.s,
                    calls: here + rest.calls,
                    cycles: 1 + rest.cycles,
                    err: rest.err,
                }
            },
        }
    }
}

/// Cancellation latency: the flag, observed at the top of each polling
/// cycle, stops the loop at the first observation. From cycle `i` on, at
/// most the cycles before the observation point run — so after the flag
/// is set during a cycle, at most that one full drain-and-emit cycle
/// completes before the loop returns to Idle. When no failure intervenes
/// and the observation point lies within the script, exactly the cycles
/// before it run, each draining its whole batch — no event already
/// dequeued before cancellation is dropped — and the loop ends Idle.
pub proof fn lemma_cancellation_latency(
    profile: Profile,
    s: SessionView,
    batches: Seq<Vec<ControllerEvent>>,
    os_cursor: Seq<(i32, i32)>,
    cancel_from: int,
    i: int,
)
    requires
        i >= 0,
    ensures
        ({
            let outcome = spec_run(profile, s, batches, os_cursor, cancel_from, i);
            &&& i + outcome.cycles <= (if batches.len() > i {
                batches.len() as int
            } else {
                i
            })
            &&& i + outcome.cycles <= (if cancel_from > i {
                cancel_from
            } else {
                i
            })
            &&& (i <= cancel_from <= batches.len() && outcome.err is None) ==> i + outcome.cycles
                == cancel_from && outcome.s.state is Idle
        }),
    decreases batches.len() - i,
{
    if i >= cancel_from {
    } else if i >= batches.len() {
    } else {
        let b = spec_run_batch(profile, s, batches[i]@);
        match b.err {
            Some(e) => {},
            None => {
                let ended = spec_end_cycle(b.s, Some(os_cursor[i]));
                lemma_cancellation_latency(profile, ended.0, batches, os_cursor, cancel_from, i + 1);
            },
        }
    }
}

proof fn lemma_non_axis_preserves_integrator(
    profile: Profile,
    s: SessionView,
    events: Seq<ControllerEvent>,
)
    requires
        forall|k: int| 0 <= k < events.len() ==> !((#[trigger] events[k]).kind is AxisChanged),
    ensures
        spec_run_batch(profile, s, events).s.integrator == s.integrator,
    decreases events.len(),
{
    if events.len() == 0 {
    } else {
        let stepped = spec_step_event(profile, s, events.first());
        assert(!(events[0].kind is AxisChanged));
        assert(stepped.0.integrator == s.integrator);
        match stepped.1 {
            Err(e) => {},
            Ok(out) => {
                assert(forall|k: int|
                    0 <= k < events.drop_first().len() ==> !((#[trigger] events.drop_first()[
                        k
                    ]).kind is AxisChanged));
                lemma_non_axis_preserves_integrator(profile, stepped.0, events.drop_first());
            },
        }
    }
}

/// Drift correction: over a polling cycle in which no axis event
/// arrives and the integrator is neutral (both velocities zero, as when
/// the controller has been idle), the cycle drains without touching the
/// integrator, makes no cursor move, and the end-of-cycle step stores
/// exactly the cursor position the emitter reports — so motion of the
/// mouse by other means is never fought while the controller is neutral.
pub proof fn lemma_drift_correction(
    profile: Profile,
    s: SessionView,
    events: Seq<ControllerEvent>,
    os_cursor: (i32, i32),
)
    requires
        s.integrator.vel_x == 0,
        s.integrator.vel_y == 0,
        forall|k: int| 0 <= k < events.len() ==> !((#[trigger] events[k]).kind is AxisChanged),
    ensures
        ({
            let drained = spec_run_batch(profile, s, events);
            let ended = spec_end_cycle(drained.s, Some(os_cursor));
            &&& ended.1 is None
            &&& ended.0.integrator.pos_x == os_cursor.0 * SUBPIXELS_PER_PIXEL
            &&& ended.0.integrator.pos_y == os_cursor.1 * SUBPIXELS_PER_PIXEL
        }),
{
    lemma_non_axis_preserves_integrator(profile, s, events);
}

/// One activation of the translation loop: the session handle map and
/// the analog integrator, owned exclusively and privately by the loop,
/// plus the loop's state.
pub struct RemapSession {
    state: LoopState,
    smap: SessionHandleMap,
    integrator: AnalogIntegrator,
}

impl View for RemapSession {
    type V = SessionView;

    closed spec fn view(&self) -> SessionView {
        SessionView { state: self.state, smap: self.smap@, integrator: self.integrator@ }
    }
}

impl RemapSession {
    /// Starts an activation: builds the session handle map by resolving
    /// the currently connected devices against the profile, seeds the
    /// integrator from the current cursor pixel, and enters Running.
    pub fn start_session(
        profile: &Profile,
        devices: &Vec<(u64, u128)>,
        cursor: (i32, i32),
    ) -> (r: RemapSession)
        ensures
            r@.wf(),
            r@.state is Running,
            r@.smap == spec_resolve(*profile, devices@),
            r@.integrator.pos_x == cursor.0 * SUBPIXELS_PER_PIXEL,
            r@.integrator.pos_y == cursor.1 * SUBPIXELS_PER_PIXEL,
            r@.integrator.vel_x == 0,
            r@.integrator.vel_y == 0,
    {
        RemapSession {
            state: LoopState::Running,
            smap: resolve(profile, devices),
            integrator: AnalogIntegrator::seed(cursor.0, cursor.1),
        }
    }

    /// The loop's current state.
    pub fn state(&self) -> (r: LoopState)
        ensures
            r == self@.state,
    {
        self.state
    }

    /// The screen pixel the integrator's stored position lies on.
    pub fn cursor_pixels(&self) -> (r: (i32, i32))
        requires
            self@.wf(),
        ensures
            r.0 == spec_pixel_of(self@.integrator.pos_x),
            r.1 == spec_pixel_of(self@.integrator.pos_y),
    {
        self.integrator.position_pixels()
    }

    /// Handles one drained event, as `spec_step_event` says: the
    /// returned call, if any, is for the driver to perform on the
    /// emitter; an unresolved session handle aborts the loop.
    pub fn handle_event(&mut self, profile: &Profile, ev: ControllerEvent) -> (r: Result<
        Option<EmitterCall>,
        EngineError,
    >)
        requires
            profile.wf(),
            old(self)@.wf(),
            old(self)@.state is Running,
            ev.wf(),
        ensures
            final(self)@.wf(),
            final(self)@ == spec_step_event(*profile, old(self)@, ev).0,
            r == spec_step_event(*profile, old(self)@, ev).1,
    {
        match self.smap.lookup(ev.session_handle) {
            None => {
                self.state = LoopState::Idle;
                Err(EngineError::UnresolvedSessionHandle)
            },
            Some(d) => {
                match profile.find_table_index(d) {
                    None => Ok(None),
                    Some(ti) => {
                        proof {
                            profile.lemma_table_for(d, ti as int);
                        }
                        let t = profile.table_at(ti);
                        match ev.kind {
                            EventKind::ButtonPressed(b) => match t.get(b) {
                                Some(a) => Ok(Some(EmitterCall::Press(a))),
                                None => Ok(None),
                            },
                            EventKind::ButtonReleased(b) => match t.get(b) {
                                Some(a) => Ok(Some(EmitterCall::Release(a))),
                                None => Ok(None),
                            },
                            EventKind::AxisChanged(axis, a) => {
                                match axis {
                                    StickAxis::LeftStickX => {
                                        if t.use_left_stick_mouse() {
                                            self.integrator.set_horizontal(a);
                                        }
                                    },
                                    StickAxis::LeftStickY => {
                                        if t.use_left_stick_mouse() {
                                            self.integrator.set_vertical(a);
                                        }
                                    },
                                    StickAxis::RightStickX => {
                                        if t.use_right_stick_mouse() {
                                            self.integrator.set_horizontal(a);
                                        }
                                    },
                                    StickAxis::RightStickY => {
                                        if t.use_right_stick_mouse() {
                                            self.integrator.set_vertical(a);
                                        }
                                    },
                                }
                                Ok(None)
                            },
                        }
                    },
                }
            },
        }
    }

    /// Observes the cancellation flag at the top of a polling cycle:
    /// returns whether the cycle should run; a set flag moves the loop
    /// to Stopping.
    pub fn begin_cycle(&mut self, cancel_requested: bool) -> (r: bool)
        requires
            old(self)@.state is Running,
        ensures
            final(self)@ == spec_begin_cycle(old(self)@, cancel_requested).0,
            r == spec_begin_cycle(old(self)@, cancel_requested).1,
    {
        if cancel_requested {
            self.state = LoopState::Stopping;
            false
        } else {
            true
        }
    }

    /// Leaves the loop: the terminal observable state is Idle again.
    pub fn shut_down(&mut self)
        requires
            old(self)@.state is Stopping || old(self)@.state is Running,
        ensures
            final(self)@ == (SessionView { state: LoopState::Idle, ..old(self)@ }),
    {
        self.state = LoopState::Idle;
    }

    /// Closes a polling cycle, as `spec_end_cycle` says: either the
    /// cursor advances — the driver moves it to the returned absolute
    /// pixel — or the stored position resynchronizes from the reported
    /// cursor position (`None` if the report failed).
    pub fn end_cycle(&mut self, os_cursor: Option<(i32, i32)>) -> (r: Option<(i32, i32)>)
        requires
            old(self)@.wf(),
        ensures
            final(self)@.wf(),
            final(self)@ == spec_end_cycle(old(self)@, os_cursor).0,
            match r {
                Some(p) => spec_end_cycle(old(self)@, os_cursor).1 == Some(
                    (p.0 as int, p.1 as int),
                ),
                None => spec_end_cycle(old(self)@, os_cursor).1 is None,
            },
    {
        if self.integrator.cursor_active() {
            let p = self.integrator.advance();
            Some(p)
        } else {
            self.integrator.resync(os_cursor);
            None
        }
    }
}

/// Runs the translation loop over a pre-recorded script: `batches[i]`
/// holds the events drained in cycle `i`, `os_cursor[i]` the cursor
/// position the emitter reports at that cycle's end, and the
/// cancellation flag reads set from the top of cycle `cancel_from` on.
/// Returns the emitter calls made, the number of cycles that ran, and
/// how the loop ended, exactly as `spec_run` says.
pub fn run_cycles(
    session: &mut RemapSession,
    profile: &Profile,
    batches: &Vec<Vec<ControllerEvent>>,
    os_cursor: &Vec<(i32, i32)>,
    cancel_from: usize,
) -> (r: (Vec<EmitterCall>, usize, Result<(), EngineError>))
    requires
        profile.wf(),
        old(session)@.wf(),
        old(session)@.state is Running,
        os_cursor@.len() == batches@.len(),
        forall|i: int, j: int|
            0 <= i < batches@.len() && 0 <= j < batches@[i]@.len() ==> (
            #[trigger] batches@[i]@[j]).wf(),
    ensures
        ({
            let outcome = spec_run(
                *profile,
                old(session)@,
                batches@,
                os_cursor@,
                cancel_from as int,
                0,
            );
            &&& final(session)@ == outcome.s
            &&& r.0@ == outcome.calls
            &&& r.1 == outcome.cycles
            &&& (match r.2 {
                Ok(u) => outcome.err is None,
                Err(e) => outcome.err == Some(e),
            })
        }),
{
    let ghost s0 = session@;
    let mut calls: Vec<EmitterCall> = Vec::new();
    let mut i: usize = 0;
    while i < batches.len()
        invariant
            s0 == old(session)@,
            profile.wf(),
            session@.wf(),
            session@.state is Running,
            os_cursor@.len() == batches@.len(),
            i <= batches@.len(),
            forall|p: int, q: int|
                0 <= p < batches@.len() && 0 <= q < batches@[p]@.len() ==> (
                #[trigger] batches@[p]@[q]).wf(),
            ({
                let rest = spec_run(
                    *profile,
                    session@,
                    batches@,
                    os_cursor@,
                    cancel_from as int,
                    i as int,
                );
                let total = spec_run(
                    *profile,
                    s0,
                    batches@,
                    os_cursor@,
                    cancel_from as int,
                    0,
                );
                &&& total.s == rest.s
                &&& total.calls == calls@ + rest.calls
                &&& total.cycles == i + rest.cycles
                &&& total.err == rest.err
            }),
        decreases batches@.len() - i,
    {
        let ghost total = spec_run(*profile, s0, batches@, os_cursor@, cancel_from as int, 0);
        if i >= cancel_from {
            let ghost before_top = session@;
            session.begin_cycle(true);
            session.shut_down();
            proof {
                let rest = spec_run(
                    *profile,
                    before_top,
                    batches@,
                    os_cursor@,
                    cancel_from as int,
                    i as int,
                );
                assert(rest.s == (SessionView { state: LoopState::Idle, ..before_top }));
                assert(session@ == rest.s);
                assert(calls@ + rest.calls =~= calls@);
            }
            return (calls, i, Ok(()));
        }
        session.begin_cycle(false);
        let ghost sc = session@;
        let mut cycle_calls: Vec<EmitterCall> = Vec::new();
        let mut j: usize = 0;
        proof {
            assert(batches@[i as int]@.skip(0) =~= batches@[i as int]@);
        }
        while j < batches[i].len()
            invariant
                s0 == old(session)@,
                profile.wf(),
                session@.wf(),
                session@.state is Running,
                i < batches@.len(),
                os_cursor@.len() == batches@.len(),
                j <= batches@[i as int]@.len(),
                i < cancel_from,
                ({
                    let rest_i = spec_run(
                        *profile,
                        sc,
                        batches@,
                        os_cursor@,
                        cancel_from as int,
                        i as int,
                    );
                    let total = spec_run(
                        *profile,
                        s0,
                        batches@,
                        os_cursor@,
                        cancel_from as int,
                        0,
                    );
                    &&& total.s == rest_i.s
                    &&& total.calls == calls@ + rest_i.calls
                    &&& total.cycles == i + rest_i.cycles
                    &&& total.err == rest_i.err
                }),
                forall|q: int|
                    0 <= q < batches@[i as int]@.len() ==> (#[trigger] batches@[i as int]@[q]).wf(),
                ({
                    let brest = spec_run_batch(
                        *profile,
                        session@,
                        batches@[i as int]@.skip(j as int),
                    );
                    let btotal = spec_run_batch(*profile, sc, batches@[i as int]@);
                    &&& btotal.s == brest.s
                    &&& btotal.calls == cycle_calls@ + brest.calls
                    &&& btotal.err == brest.err
                }),
            decreases batches@[i as int]@.len() - j,
        {
            let ghost before = session@;
            proof {
                assert(batches@[i as int]@.skip(j as int).first() == batches@[i as int]@[j as int]);
                assert(batches@[i as int]@.skip(j as int).drop_first() =~= batches@[
                    i as int
                ]@.skip(j as int + 1));
            }
            let ev = batches[i][j];
            match session.handle_event(profile, ev) {
                Err(e) => {
                    proof {
                        let brest = spec_run_batch(
                            *profile,
                            before,
                            batches@[i as int]@.skip(j as int),
                        );
                        assert(brest.err == Some(e));
                        assert(brest.calls =~= Seq::<EmitterCall>::empty());
                        let btotal = spec_run_batch(*profile, sc, batches@[i as int]@);
                        assert(btotal.calls =~= cycle_calls@);
                        let rest = spec_run(
                            *profile,
                            sc,
                            batches@,
                            os_cursor@,
                            cancel_from as int,
                            i as int,
                        );
                        assert(rest.s == session@ && rest.calls == cycle_calls@ && rest.cycles
                            == 1 && rest.err == Some(e));
                        let t0 = spec_run(
                            *profile,
                            s0,
                            batches@,
                            os_cursor@,
                            cancel_from as int,
                            0,
                        );
                        assert(t0.s == rest.s && t0.calls == calls@ + rest.calls && t0.cycles == i
                            + rest.cycles && t0.err == rest.err);
                        assert(t0.calls =~= calls@ + cycle_calls@);
                    }
                    let mut out = calls;
                    out.append(&mut cycle_calls);
                    return (out, i + 1, Err(e));
                },
                Ok(Some(c)) => {
                    cycle_calls.push(c);
                    proof {
                        let brest1 = spec_run_batch(
                            *profile,
                            session@,
                            batches@[i as int]@.skip(j as int + 1),
                        );
                        let brest0 = spec_run_batch(
                            *profile,
                            before,
                            batches@[i as int]@.skip(j as int),
                        );
                        assert(brest0.calls =~= seq![c] + brest1.calls);
                        let btotal = spec_run_batch(*profile, sc, batches@[i as int]@);
                        assert(btotal.calls =~= cycle_calls@ + brest1.calls);
                    }
                },
                Ok(None) => {
                    proof {
                        let brest1 = spec_run_batch(
                            *profile,
                            session@,
                            batches@[i as int]@.skip(j as int + 1),
                        );
                        let brest0 = spec_run_batch(
                            *profile,
                            before,
                            batches@[i as int]@.skip(j as int),
                        );
                        assert(brest0.calls =~= Seq::<EmitterCall>::empty() + brest1.calls);
                    }
                },
            }
            j = j + 1;
        }
        proof {
            assert(batches@[i as int]@.skip(batches@[i as int]@.len() as int).len() == 0);
            let btotal = spec_run_batch(*profile, sc, batches@[i as int]@);
            assert(btotal.s == session@ && btotal.err is None);
            assert(btotal.calls =~= cycle_calls@);
        }
        let ghost s_drained = session@;
        let moved = session.end_cycle(Some(os_cursor[i]));
        match moved {
            Some(p) => {
                cycle_calls.push(EmitterCall::MoveCursor(p.0, p.1));
            },
            None => {},
        }
        calls.append(&mut cycle_calls);
        i = i + 1;
        proof {
            let rest_prev = spec_run(
                *profile,
                sc,
                batches@,
                os_cursor@,
                cancel_from as int,
                i - 1,
            );
            let rest = spec_run(
                *profile,
                session@,
                batches@,
                os_cursor@,
                cancel_from as int,
                i as int,
            );
            let btotal = spec_run_batch(*profile, sc, batches@[i - 1]@);
            let ended = spec_end_cycle(btotal.s, Some(os_cursor@[i - 1]));
            assert(session@ == ended.0);
            match ended.1 {
                Some(q) => {
                    assert(calls@ =~= (calls@ + rest.calls).take(calls@.len() as int));
                    assert(rest_prev.calls =~= (btotal.calls + seq![
                        EmitterCall::MoveCursor(q.0 as i32, q.1 as i32),
                    ]) + rest.calls);
                },
                None => {
                    assert(rest_prev.calls =~= (btotal.calls + Seq::<EmitterCall>::empty())
                        + rest.calls);
                },
            }
            assert(total.calls =~= calls@ + rest.calls);
        }
    }
    if cancel_from <= i {
        let ghost before_top = session@;
        session.begin_cycle(true);
        session.shut_down();
        proof {
            let rest = spec_run(
                *profile,
                before_top,
                batches@,
                os_cursor@,
                cancel_from as int,
                i as int,
            );
            assert(rest.s == (SessionView { state: LoopState::Idle, ..before_top }));
            assert(session@ == rest.s);
            assert(calls@ + rest.calls =~= calls@);
        }
        return (calls, i, Ok(()));
    }
    proof {
        let rest = spec_run(
            *profile,
            session@,
            batches@,
            os_cursor@,
            cancel_from as int,
            i as int,
        );
        assert(calls@ + rest.calls =~= calls@);
    }
    (calls, i, Ok(()))
}

} // verus!
