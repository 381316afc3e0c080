use vstd::prelude::*;

verus! {

/// Where the process-wide initialization of the backend stands.
#[derive(Clone, Copy, Debug, PartialEq, Eq, Structural)]
pub enum GateState {
    Uninitialized,
    /// One caller is running the native setup; the others wait.
    InProgress,
    Initialized,
    Failed,
}

/// What a caller brings to the initializer.
#[derive(Clone, Copy, Debug, PartialEq, Eq, Structural)]
pub enum GateEvent {
    /// A caller needs the backend initialized before going on.
    Touch,
    /// The caller that was told to run the native setup reports how it went.
    NativeInitFinished { ok: bool },
}

/// What the initializer tells the caller to do next.
#[derive(Clone, Copy, Debug, PartialEq, Eq, Structural)]
pub enum GateDecision {
    /// Run the native global setup now, then report it.
    RunNativeInit,
    /// Another caller is running the setup: wait and touch again.
    Wait,
    /// The backend is initialized: go on.
    Proceed,
    /// The setup failed: report an initialization error.
    Abort,
}

/// One transition of the initializer.
pub open spec fn gate_step(s: GateState, e: GateEvent) -> (GateState, GateDecision) {
    match e {
        GateEvent::Touch => match s {
            GateState::Uninitialized => (GateState::InProgress, GateDecision::RunNativeInit),
            GateState::InProgress => (GateState::InProgress, GateDecision::Wait),
            GateState::Initialized => (GateState::Initialized, GateDecision::Proceed),
            GateState::Failed => (GateState::Failed, GateDecision::Abort),
        },
        GateEvent::NativeInitFinished { ok } => match s {
            GateState::InProgress => if ok {
                (GateState::Initialized, GateDecision::Proceed)
            } else {
                (GateState::Failed, GateDecision::Abort)
            },
            GateState::Uninitialized => (GateState::Uninitialized, GateDecision::Wait),
            GateState::Initialized => (GateState::Initialized, GateDecision::Proceed),
            GateState::Failed => (GateState::Failed, GateDecision::Abort),
        },
    }
}

/// How many times the native setup is run when the events arrive in order.
pub open spec fn native_runs(s: GateState, events: Seq<GateEvent>) -> nat
    decreases events.len(),
{
    if events.len() == 0 {
        0
    } else {
        let (next, d) = gate_step(s, events[0]);
        (if d == GateDecision::RunNativeInit { 1nat } else { 0nat }) + native_runs(
            next,
            events.drop_first(),
        )
    }
}

/// The state of the initializer after the events, in order.
pub open spec fn state_after(s: GateState, events: Seq<GateEvent>) -> GateState
    decreases events.len(),
{
    if events.len() == 0 {
        s
    } else {
        state_after(gate_step(s, events[0]).0, events.drop_first())
    }
}

pub open spec fn has_touch(events: Seq<GateEvent>) -> bool {
    exists|i: int| 0 <= i < events.len() && events[i] == GateEvent::Touch
}

/// Evidence that the initializer was seen initialized; only the initializer hands it out.
pub struct InitToken {
    seen: (),
}

/// The process-wide, run-exactly-once initializer of the backend.
///
/// The embedding program keeps one behind a lock and feeds it events; every
/// decision is taken here.
pub struct GlobalInitGate {
    state: GateState,
}

impl GlobalInitGate {
    pub closed spec fn state(&self) -> GateState {
        self.state
    }

    pub fn new() -> (r: GlobalInitGate)
        ensures
            r.state() == GateState::Uninitialized,
    {
        GlobalInitGate { state: GateState::Uninitialized }
    }

    pub fn current(&self) -> (r: GateState)
        ensures
            r == self.state(),
    {
        self.state
    }

    /// Feeds one event to the initializer and returns what the caller must do.
    pub fn step(&mut self, e: GateEvent) -> (r: GateDecision)
        ensures
            (final(self).state(), r) == gate_step(old(self).state(), e),
    {
        let (next, d) = match e {
            GateEvent::Touch => match self.state {
                GateState::Uninitialized => (GateState::InProgress, GateDecision::RunNativeInit),
                GateState::InProgress => (GateState::InProgress, GateDecision::Wait),
                GateState::Initialized => (GateState::Initialized, GateDecision::Proceed),
                GateState::Failed => (GateState::Failed, GateDecision::Abort),
            },
            GateEvent::NativeInitFinished { ok } => match self.state {
                GateState::InProgress => if ok {
                    (GateState::Initialized, GateDecision::Proceed)
                } else {
                    (GateState::Failed, GateDecision::Abort)
                },
                GateState::Uninitialized => (GateState::Uninitialized, GateDecision::Wait),
                GateState::Initialized => (GateState::Initialized, GateDecision::Proceed),
                GateState::Failed => (GateState::Failed, GateDecision::Abort),
            },
        };
        self.state = next;
        d
    }

    /// Hands out evidence of initialization, exactly when it has happened.
    pub fn ready(&self) -> (r: Option<InitToken>)
        ensures
            r is Some <==> self.state() == GateState::Initialized,
    {
        match self.state {
            GateState::Initialized => Some(InitToken { seen: () }),
            _ => None,
        }
    }
}

/// Once the setup has been started, no later event starts it again.
pub proof fn lemma_no_rerun_after_start(s: GateState, events: Seq<GateEvent>)
    requires
        s != GateState::Uninitialized,
    ensures
        native_runs(s, events) == 0,
        state_after(s, events) != GateState::Uninitialized,
    decreases events.len(),
{
    if events.len() > 0 {
        lemma_no_rerun_after_start(gate_step(s, events[0]).0, events.drop_first());
    }
}

/// Whatever the order in which callers touch the initializer and report, the native
/// setup runs at most once, and exactly once as soon as anyone has touched it.
pub proof fn lemma_native_init_runs_once(events: Seq<GateEvent>)
    ensures
        native_runs(GateState::Uninitialized, events) == (if has_touch(events) { 1nat } else { 0nat }),
    decreases events.len(),
{
    if events.len() > 0 {
        let (next, d) = gate_step(GateState::Uninitialized, events[0]);
        let rest = events.drop_first();
        if events[0] == GateEvent::Touch {
            lemma_no_rerun_after_start(next, rest);
            assert(has_touch(events));
        } else {
            lemma_native_init_runs_once(rest);
            if has_touch(events) {
                let i = choose|i: int| 0 <= i < events.len() && events[i] == GateEvent::Touch;
                assert(rest[i - 1] == GateEvent::Touch);
            }
            if has_touch(rest) {
                let j = choose|j: int| 0 <= j < rest.len() && rest[j] == GateEvent::Touch;
                assert(events[j + 1] == GateEvent::Touch);
            }
        }
    }
}

/// Once the setup has failed, the initializer never reports success, and once it has
/// succeeded, it never reports failure.
pub proof fn lemma_outcome_is_final(s: GateState, events: Seq<GateEvent>)
    requires
        s == GateState::Failed || s == GateState::Initialized,
    ensures
        state_after(s, events) == s,
    decreases events.len(),
{
    if events.len() > 0 {
        lemma_outcome_is_final(gate_step(s, events[0]).0, events.drop_first());
    }
}

} // verus!
