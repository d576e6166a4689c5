//! The orchestration state machine: what one polling tick decides, given
//! what the collaborators observed. The unverified shell performs the I/O of
//! each tick (reading the sensor and the clock, sending over HTTP, driving
//! the feedback devices) exactly as these decisions prescribe; the decisions
//! themselves are verified against `spec_tick`, the one-tick transition.

use vstd::prelude::*;
use crate::schedule::ScheduleCursor;

verus! {

/// Whether an alert has been sent for the current motion episode.
#[derive(PartialEq, Eq, Structural, Clone, Copy, Debug)]
pub enum DetectionState {
    Idle,
    Active,
}

/// The loop's mutable state, threaded through each tick: the detection
/// state, the elapsed-seconds value of the last heartbeat attempt, and the
/// schedule cursor.
pub struct LoopState {
    pub detection: DetectionState,
    pub heartbeat_last: u64,
    pub cursor: ScheduleCursor,
}

impl LoopState {
    /// The state at loop start: idle, with the heartbeat timer at zero and
    /// the cursor on the first computed firing instant.
    pub fn new(cursor: ScheduleCursor) -> (st: LoopState)
        ensures
            st.detection is Idle,
            st.heartbeat_last == 0,
            st.cursor == cursor,
    {
        LoopState { detection: DetectionState::Idle, heartbeat_last: 0, cursor }
    }
}

/// The heartbeat condition: the elapsed-seconds value sits on the interval
/// and differs from the value of the last attempt.
pub open spec fn heartbeat_due_spec(last: u64, elapsed: u64, interval: u64) -> bool
    recommends
        interval > 0,
{
    elapsed % interval == 0 && elapsed != last
}

/// Whether a heartbeat must be attempted on this tick.
pub fn heartbeat_due(st: &LoopState, elapsed: u64, interval: u64) -> (r: bool)
    requires
        interval > 0,
    ensures
        r == heartbeat_due_spec(st.heartbeat_last, elapsed, interval),
{
    elapsed % interval == 0 && elapsed != st.heartbeat_last
}

/// Marks the elapsed-seconds value whose heartbeat was just attempted,
/// whatever the attempt's outcome.
pub fn record_heartbeat_attempt(st: &mut LoopState, elapsed: u64)
    ensures
        final(st).heartbeat_last == elapsed,
        final(st).detection == old(st).detection,
        final(st).cursor == old(st).cursor,
{
    st.heartbeat_last = elapsed;
}

/// What the detection step does on a passing tick.
#[derive(PartialEq, Eq, Structural, Clone, Copy, Debug)]
pub enum DetectionAction {
    /// The sensor agrees with the current state: nothing to do.
    NoChange,
    /// Motion ended while active: power the feedback devices off.
    PowerOff,
    /// Motion started while idle: ensure connectivity and send the alert.
    SendAlert,
}

/// The detection decision as a function of state and sensor reading.
pub open spec fn detection_action_spec(d: DetectionState, motion: bool) -> DetectionAction {
    if !motion && d is Active {
        DetectionAction::PowerOff
    } else if motion && d is Idle {
        DetectionAction::SendAlert
    } else {
        DetectionAction::NoChange
    }
}

/// Decides the detection step for this tick's sensor reading.
pub fn detection_action(st: &LoopState, motion: bool) -> (r: DetectionAction)
    ensures
        r == detection_action_spec(st.detection, motion),
{
    if !motion && st.detection == DetectionState::Active {
        DetectionAction::PowerOff
    } else if motion && st.detection == DetectionState::Idle {
        DetectionAction::SendAlert
    } else {
        DetectionAction::NoChange
    }
}

/// Records that the feedback devices were powered off: the motion episode is
/// over.
pub fn apply_power_off(st: &mut LoopState)
    ensures
        final(st).detection is Idle,
        final(st).heartbeat_last == old(st).heartbeat_last,
        final(st).cursor == old(st).cursor,
{
    st.detection = DetectionState::Idle;
}

/// Records the outcome of an alert send: active on success, idle on failure
/// so the next passing tick retries the whole transition.
pub fn apply_alert_outcome(st: &mut LoopState, delivered: bool)
    ensures
        final(st).detection == (if delivered {
            DetectionState::Active
        } else {
            DetectionState::Idle
        }),
        final(st).heartbeat_last == old(st).heartbeat_last,
        final(st).cursor == old(st).cursor,
{
    st.detection = if delivered {
        DetectionState::Active
    } else {
        DetectionState::Idle
    };
}

/// Everything one tick observes from the collaborators: the elapsed seconds,
/// the wall-clock instant's text, the freshly computed next firing instant
/// (consulted only on a passing tick), the sensor reading, and what the
/// transport reports if asked to send.
pub struct TickEvent {
    pub elapsed_seconds: u64,
    pub now: String,
    pub next_fire: String,
    pub motion: bool,
    pub heartbeat_ok: bool,
    pub alert_ok: bool,
}

/// Everything one tick tells the collaborators to do.
pub struct TickActions {
    pub heartbeat_attempted: bool,
    pub heartbeat_failed: bool,
    pub gate_passed: bool,
    pub powered_off: bool,
    pub alert_attempted: bool,
    pub alert_succeeded: bool,
    pub alert_failed: bool,
}

/// The one-tick transition of the orchestration loop: the heartbeat check
/// first, then the schedule gate, then the detection step, exactly as the
/// polling loop performs them.
pub open spec fn spec_tick(st: LoopState, ev: TickEvent, interval: u64) -> (LoopState, TickActions)
    recommends
        interval > 0,
{
    let hb = heartbeat_due_spec(st.heartbeat_last, ev.elapsed_seconds, interval);
    let last1 = if hb {
        ev.elapsed_seconds
    } else {
        st.heartbeat_last
    };
    let gate = st.cursor.fires_on(ev.now@);
    let cursor1 = if gate {
        ScheduleCursor { next_fire: ev.next_fire, last_observed: ev.now }
    } else {
        st.cursor
    };
    let action = if gate {
        detection_action_spec(st.detection, ev.motion)
    } else {
        DetectionAction::NoChange
    };
    let detection1 = if action is PowerOff {
        DetectionState::Idle
    } else if action is SendAlert {
        if ev.alert_ok {
            DetectionState::Active
        } else {
            DetectionState::Idle
        }
    } else {
        st.detection
    };
    (
        LoopState { detection: detection1, heartbeat_last: last1, cursor: cursor1 },
        TickActions {
            heartbeat_attempted: hb,
            heartbeat_failed: hb && !ev.heartbeat_ok,
            gate_passed: gate,
            powered_off: action is PowerOff,
            alert_attempted: action is SendAlert,
            alert_succeeded: action is SendAlert && ev.alert_ok,
            alert_failed: action is SendAlert && !ev.alert_ok,
        },
    )
}

/// Performs one tick's decisions on the state, given the tick's
/// observations. This is the whole loop body with its I/O factored out: the
/// shell interleaves the real sends and feedback between the same steps, in
/// the same order, with the heartbeat check always first.
pub fn tick(st: &mut LoopState, ev: TickEvent, interval: u64) -> (a: TickActions)
    requires
        interval > 0,
    ensures
        *final(st) == spec_tick(*old(st), ev, interval).0,
        a == spec_tick(*old(st), ev, interval).1,
{
    let hb = heartbeat_due(st, ev.elapsed_seconds, interval);
    let hb_failed = hb && !ev.heartbeat_ok;
    if hb {
        record_heartbeat_attempt(st, ev.elapsed_seconds);
    }
    let gate = st.cursor.gate_passes(&ev.now);
    let mut powered_off = false;
    let mut alert_attempted = false;
    let mut alert_succeeded = false;
    let mut alert_failed = false;
    if gate {
        st.cursor.advance(ev.now, ev.next_fire);
        match detection_action(st, ev.motion) {
            DetectionAction::NoChange => {},
            DetectionAction::PowerOff => {
                apply_power_off(st);
                powered_off = true;
            },
            DetectionAction::SendAlert => {
                apply_alert_outcome(st, ev.alert_ok);
                alert_attempted = true;
                alert_succeeded = ev.alert_ok;
                alert_failed = !ev.alert_ok;
            },
        }
    }
    TickActions {
        heartbeat_attempted: hb,
        heartbeat_failed: hb_failed,
        gate_passed: gate,
        powered_off,
        alert_attempted,
        alert_succeeded,
        alert_failed,
    }
}

/// Law: the heartbeat is attempted at most once per distinct elapsed-seconds
/// value. Two consecutive ticks that observe the same elapsed second never
/// both attempt one, however fast the loop polls.
pub proof fn lemma_heartbeat_once_per_second(
    st: LoopState,
    e1: TickEvent,
    e2: TickEvent,
    interval: u64,
)
    requires
        interval > 0,
        e2.elapsed_seconds == e1.elapsed_seconds,
    ensures
        !(spec_tick(st, e1, interval).1.heartbeat_attempted && spec_tick(
            spec_tick(st, e1, interval).0,
            e2,
            interval,
        ).1.heartbeat_attempted),
{
}

/// Law: once the heartbeat timer holds an elapsed-seconds value, further
/// ticks observing that same value neither attempt a heartbeat nor move the
/// timer; with the law above, any run of polls inside one second attempts at
/// most one heartbeat.
pub proof fn lemma_heartbeat_not_repeated(st: LoopState, ev: TickEvent, interval: u64)
    requires
        interval > 0,
        st.heartbeat_last == ev.elapsed_seconds,
    ensures
        !spec_tick(st, ev, interval).1.heartbeat_attempted,
        spec_tick(st, ev, interval).0.heartbeat_last == st.heartbeat_last,
{
}

/// Law: a failed alert send leaves the loop idle, so a later passing tick
/// that still sees motion attempts the same transition again.
pub proof fn lemma_failed_alert_retried(
    st: LoopState,
    e1: TickEvent,
    e2: TickEvent,
    interval: u64,
)
    requires
        interval > 0,
        st.detection is Idle,
        st.cursor.fires_on(e1.now@),
        e1.motion,
        !e1.alert_ok,
        spec_tick(st, e1, interval).0.cursor.fires_on(e2.now@),
        e2.motion,
    ensures
        spec_tick(st, e1, interval).1.alert_attempted,
        spec_tick(st, e1, interval).1.alert_failed,
        spec_tick(st, e1, interval).0.detection is Idle,
        spec_tick(spec_tick(st, e1, interval).0, e2, interval).1.alert_attempted,
{
}

/// Law: a successful alert makes the loop active, and a later passing tick
/// without motion powers the outputs off and returns it to idle with no
/// network action.
pub proof fn lemma_detection_episode(st: LoopState, e1: TickEvent, e2: TickEvent, interval: u64)
    requires
        interval > 0,
        st.detection is Idle,
        st.cursor.fires_on(e1.now@),
        e1.motion,
        e1.alert_ok,
        spec_tick(st, e1, interval).0.cursor.fires_on(e2.now@),
        !e2.motion,
    ensures
        spec_tick(st, e1, interval).1.alert_succeeded,
        spec_tick(st, e1, interval).0.detection is Active,
        spec_tick(spec_tick(st, e1, interval).0, e2, interval).1.powered_off,
        !spec_tick(spec_tick(st, e1, interval).0, e2, interval).1.alert_attempted,
        spec_tick(spec_tick(st, e1, interval).0, e2, interval).0.detection is Idle,
{
}

} // verus!
