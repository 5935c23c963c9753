use vstd::prelude::*;

verus! {

/// Minimum time from receiving a trigger to releasing the guard.
pub const COOLDOWN_MS: u64 = 200;

/// Pause after a show before the first enforcement attempt.
pub const SETTLE_MS: u64 = 50;

/// Pause between two enforcement attempts.
pub const RETRY_DELAY_MS: u64 = 25;

/// Number of enforcement attempts made after every show.
pub const ENFORCE_ATTEMPTS: u8 = 3;

/// Visibility of the overlay window as the coordinator records it.
#[derive(Clone, Copy, Debug, PartialEq, Eq, Structural)]
pub enum Visibility {
    Hidden,
    Showing,
    Visible,
}

/// Where the in-flight toggle sequence stands.
#[derive(Clone, Copy, Debug, PartialEq, Eq, Structural)]
pub enum Phase {
    /// No toggle in flight; the guard is free.
    Idle,
    /// A hide was requested; waiting for its result.
    Hiding,
    /// A show was requested; waiting for its result.
    Showing,
    /// Waiting out a delay before enforcement attempt number `k` (from 0).
    Pausing(u8),
    /// Enforcement attempt number `k` was requested; waiting for its result.
    Enforcing(u8),
    /// The sequence is over; the guard is released once the cooldown is over.
    Cooldown,
}

/// What the runtime reports to the coordinator.
#[derive(Clone, Copy, Debug, PartialEq, Eq, Structural)]
pub enum Event {
    /// The global hotkey fired.
    Trigger { now_ms: u64 },
    /// The last requested show, hide or enforcement finished.
    Completed { now_ms: u64, ok: bool },
    /// The last requested pause is over.
    Elapsed { now_ms: u64 },
}

/// What the coordinator asks the runtime to do next.
#[derive(Clone, Copy, Debug, PartialEq, Eq, Structural)]
pub enum Action {
    Nothing,
    Show,
    Hide,
    Enforce,
    /// Report `Elapsed` after this many milliseconds.
    Sleep { ms: u64 },
}

/// The toggle coordinator: the recorded visibility, the single-flight guard,
/// and the progress of the toggle sequence that holds it.
#[derive(Clone, Copy, Debug, PartialEq, Eq, Structural)]
pub struct Coordinator {
    pub visibility: Visibility,
    pub guard_held: bool,
    pub phase: Phase,
    /// When the trigger that took the guard arrived.
    pub started_at_ms: u64,
}

pub open spec fn event_time(e: Event) -> u64 {
    match e {
        Event::Trigger { now_ms } => now_ms,
        Event::Completed { now_ms, .. } => now_ms,
        Event::Elapsed { now_ms } => now_ms,
    }
}

/// The earliest time at which a guard taken at `t` may be released.
pub open spec fn release_time(t: u64) -> u64 {
    if t as int + COOLDOWN_MS as int > u64::MAX as int {
        u64::MAX
    } else {
        (t + COOLDOWN_MS) as u64
    }
}

pub open spec fn toggled(v: Visibility) -> Visibility {
    match v {
        Visibility::Visible => Visibility::Hidden,
        _ => Visibility::Visible,
    }
}

/// The visibility that the state is heading for: the one the in-flight
/// sequence aims at, or the recorded one when no show or hide is pending.
pub open spec fn target_visibility(c: Coordinator) -> Visibility {
    match c.phase {
        Phase::Hiding => Visibility::Hidden,
        Phase::Showing => Visibility::Visible,
        Phase::Pausing(_) => Visibility::Visible,
        Phase::Enforcing(_) => Visibility::Visible,
        _ => c.visibility,
    }
}

pub open spec fn is_transition(a: Action) -> bool {
    a == Action::Show || a == Action::Hide
}

/// Ends a sequence: wait until the cooldown measured from the trigger is over.
pub open spec fn finish(c: Coordinator, now: u64) -> (Coordinator, Action) {
    let rel = release_time(c.started_at_ms);
    (
        Coordinator { phase: Phase::Cooldown, ..c },
        Action::Sleep { ms: if now >= rel { 0 } else { (rel - now) as u64 } },
    )
}

/// One step of the coordinator: the next state and the action to perform.
pub open spec fn step(c: Coordinator, e: Event) -> (Coordinator, Action) {
    match e {
        Event::Trigger { now_ms } => if c.guard_held {
            (c, Action::Nothing)
        } else if c.visibility == Visibility::Visible {
            (Coordinator { guard_held: true, phase: Phase::Hiding, started_at_ms: now_ms, ..c }, Action::Hide)
        } else {
            (
                Coordinator {
                    visibility: Visibility::Showing,
                    guard_held: true,
                    phase: Phase::Showing,
                    started_at_ms: now_ms,
                },
                Action::Show,
            )
        },
        Event::Completed { now_ms, ok } => match c.phase {
            Phase::Hiding => finish(
                Coordinator { visibility: if ok { Visibility::Hidden } else { Visibility::Visible }, ..c },
                now_ms,
            ),
            Phase::Showing => if ok {
                (Coordinator { phase: Phase::Pausing(0), ..c }, Action::Sleep { ms: SETTLE_MS })
            } else {
                finish(Coordinator { visibility: Visibility::Hidden, ..c }, now_ms)
            },
            Phase::Enforcing(k) => if k + 1 < ENFORCE_ATTEMPTS {
                (Coordinator { phase: Phase::Pausing((k + 1) as u8), ..c }, Action::Sleep { ms: RETRY_DELAY_MS })
            } else {
                finish(Coordinator { visibility: Visibility::Visible, ..c }, now_ms)
            },
            _ => (c, Action::Nothing),
        },
        Event::Elapsed { now_ms } => match c.phase {
            Phase::Pausing(k) => (Coordinator { phase: Phase::Enforcing(k), ..c }, Action::Enforce),
            Phase::Cooldown => if now_ms >= release_time(c.started_at_ms) {
                (Coordinator { guard_held: false, phase: Phase::Idle, ..c }, Action::Nothing)
            } else {
                (c, Action::Sleep { ms: (release_time(c.started_at_ms) - now_ms) as u64 })
            },
            _ => (c, Action::Nothing),
        },
    }
}

impl Coordinator {
    /// The guard is held exactly while a sequence is in flight, and the
    /// recorded visibility agrees with the phase.
    pub open spec fn wf(self) -> bool {
        &&& self.guard_held == (self.phase != Phase::Idle)
        &&& match self.phase {
            Phase::Idle => self.visibility != Visibility::Showing,
            Phase::Hiding => self.visibility == Visibility::Visible,
            Phase::Showing => self.visibility == Visibility::Showing,
            Phase::Pausing(k) => self.visibility == Visibility::Showing && k < ENFORCE_ATTEMPTS,
            Phase::Enforcing(k) => self.visibility == Visibility::Showing && k < ENFORCE_ATTEMPTS,
            Phase::Cooldown => self.visibility != Visibility::Showing,
        }
    }

    /// A coordinator at process start: hidden, guard free.
    pub fn new() -> (r: Coordinator)
        ensures
            r.wf(),
            r.visibility == Visibility::Hidden,
            !r.guard_held,
            r.phase == Phase::Idle,
    {
        Coordinator { visibility: Visibility::Hidden, guard_held: false, phase: Phase::Idle, started_at_ms: 0 }
    }

    pub fn get_visibility(&self) -> (r: Visibility)
        ensures
            r == self.visibility,
    {
        self.visibility
    }

    pub fn set_visibility(&mut self, v: Visibility)
        ensures
            *final(self) == (Coordinator { visibility: v, ..*old(self) }),
    {
        self.visibility = v;
    }

    /// Whether the coordinator is well formed, as `handle` requires.
    pub fn is_well_formed(&self) -> (r: bool)
        ensures
            r == self.wf(),
    {
        let vis_ok = match self.phase {
            Phase::Idle => self.visibility != Visibility::Showing,
            Phase::Hiding => self.visibility == Visibility::Visible,
            Phase::Showing => self.visibility == Visibility::Showing,
            Phase::Pausing(k) => self.visibility == Visibility::Showing && k < ENFORCE_ATTEMPTS,
            Phase::Enforcing(k) => self.visibility == Visibility::Showing && k < ENFORCE_ATTEMPTS,
            Phase::Cooldown => self.visibility != Visibility::Showing,
        };
        vis_ok && self.guard_held == (self.phase != Phase::Idle)
    }

    pub fn is_guard_held(&self) -> (r: bool)
        ensures
            r == self.guard_held,
    {
        self.guard_held
    }

    /// Feeds one event to the coordinator and returns the action to perform.
    pub fn handle(&mut self, e: Event) -> (r: Action)
        requires
            old(self).wf(),
        ensures
            (*final(self), r) == step(*old(self), e),
            final(self).wf(),
    {
        match e {
            Event::Trigger { now_ms } => {
                if self.guard_held {
                    Action::Nothing
                } else if self.visibility == Visibility::Visible {
                    self.guard_held = true;
                    self.phase = Phase::Hiding;
                    self.started_at_ms = now_ms;
                    Action::Hide
                } else {
                    self.visibility = Visibility::Showing;
                    self.guard_held = true;
                    self.phase = Phase::Showing;
                    self.started_at_ms = now_ms;
                    Action::Show
                }
            },
            Event::Completed { now_ms, ok } => match self.phase {
                Phase::Hiding => {
                    self.visibility = if ok { Visibility::Hidden } else { Visibility::Visible };
                    self.finish(now_ms)
                },
                Phase::Showing => {
                    if ok {
                        self.phase = Phase::Pausing(0);
                        Action::Sleep { ms: SETTLE_MS }
                    } else {
                        self.visibility = Visibility::Hidden;
                        self.finish(now_ms)
                    }
                },
                Phase::Enforcing(k) => {
                    if k + 1 < ENFORCE_ATTEMPTS {
                        self.phase = Phase::Pausing(k + 1);
                        Action::Sleep { ms: RETRY_DELAY_MS }
                    } else {
                        self.visibility = Visibility::Visible;
                        self.finish(now_ms)
                    }
                },
                _ => Action::Nothing,
            },
            Event::Elapsed { now_ms } => match self.phase {
                Phase::Pausing(k) => {
                    self.phase = Phase::Enforcing(k);
                    Action::Enforce
                },
                Phase::Cooldown => {
                    let rel = release_at(self.started_at_ms);
                    if now_ms >= rel {
                        self.guard_held = false;
                        self.phase = Phase::Idle;
                        Action::Nothing
                    } else {
                        Action::Sleep { ms: rel - now_ms }
                    }
                },
                _ => Action::Nothing,
            },
        }
    }

    fn finish(&mut self, now_ms: u64) -> (r: Action)
        ensures
            (*final(self), r) == finish(*old(self), now_ms),
    {
        let rel = release_at(self.started_at_ms);
        self.phase = Phase::Cooldown;
        if now_ms >= rel {
            Action::Sleep { ms: 0 }
        } else {
            Action::Sleep { ms: rel - now_ms }
        }
    }
}

/// The time at which a guard taken at `t` may be released.
pub fn release_at(t: u64) -> (r: u64)
    ensures
        r == release_time(t),
{
    if t > u64::MAX - COOLDOWN_MS {
        u64::MAX
    } else {
        t + COOLDOWN_MS
    }
}

/// The state after feeding `evs` in order.
pub open spec fn run(c: Coordinator, evs: Seq<Event>) -> Coordinator
    decreases evs.len(),
{
    if evs.len() == 0 {
        c
    } else {
        step(run(c, evs.drop_last()), evs.last()).0
    }
}

/// How many shows and hides feeding `evs` in order requests.
pub open spec fn transitions(c: Coordinator, evs: Seq<Event>) -> nat
    decreases evs.len(),
{
    if evs.len() == 0 {
        0
    } else {
        transitions(c, evs.drop_last()) + if is_transition(step(run(c, evs.drop_last()), evs.last()).1) {
            1nat
        } else {
            0nat
        }
    }
}

/// Every show, hide and enforcement reported in `evs` succeeded.
pub open spec fn all_succeed(evs: Seq<Event>) -> bool {
    forall|i: int| 0 <= i < evs.len() ==> !(#[trigger] evs[i] matches Event::Completed { ok: false, .. })
}

/// `evs` makes exactly one successful toggle from `c` and ends with the guard free.
pub open spec fn one_toggle(c: Coordinator, evs: Seq<Event>) -> bool {
    &&& all_succeed(evs)
    &&& transitions(c, evs) == 1
    &&& !run(c, evs).guard_held
}

/// Feeding events keeps the coordinator well formed.
pub proof fn lemma_run_wf(c: Coordinator, evs: Seq<Event>)
    requires
        c.wf(),
    ensures
        run(c, evs).wf(),
    decreases evs.len(),
{
    if evs.len() > 0 {
        lemma_run_wf(c, evs.drop_last());
    }
}

/// A trigger that arrives while the guard is held changes nothing and asks
/// for nothing: no show, no hide, no enforcement.
pub proof fn lemma_trigger_while_held_is_dropped(c: Coordinator, now_ms: u64)
    requires
        c.guard_held,
    ensures
        step(c, Event::Trigger { now_ms }) == (c, Action::Nothing),
{
}

/// Feeding `a` and then `b` is feeding `a + b`.
pub proof fn lemma_run_concat(c: Coordinator, a: Seq<Event>, b: Seq<Event>)
    ensures
        run(c, a + b) == run(run(c, a), b),
        transitions(c, a + b) == transitions(c, a) + transitions(run(c, a), b),
    decreases b.len(),
{
    if b.len() == 0 {
        assert(a + b =~= a);
    } else {
        assert((a + b).drop_last() =~= a + b.drop_last());
        assert((a + b).last() == b.last());
        lemma_run_concat(c, a, b.drop_last());
    }
}

/// What holds after the first trigger of a burst: the guard is still held
/// by that trigger's sequence, heading for the toggled visibility.
pub open spec fn burst_inv(c: Coordinator, v0: Visibility, t0: u64) -> bool {
    &&& c.wf()
    &&& c.guard_held
    &&& c.started_at_ms == t0
    &&& target_visibility(c) == toggled(v0)
}

proof fn lemma_burst_prefix(c: Coordinator, t0: u64, rest: Seq<Event>)
    requires
        c.wf(),
        !c.guard_held,
        all_succeed(rest),
        forall|i: int| 0 <= i < rest.len() ==> event_time(#[trigger] rest[i]) < release_time(t0),
    ensures
        burst_inv(run(c, seq![Event::Trigger { now_ms: t0 }] + rest), c.visibility, t0),
        transitions(c, seq![Event::Trigger { now_ms: t0 }] + rest) == 1,
    decreases rest.len(),
{
    let first = seq![Event::Trigger { now_ms: t0 }];
    let evs = first + rest;
    if rest.len() == 0 {
        assert(evs =~= first);
        assert(first.drop_last() =~= Seq::<Event>::empty());
        assert(run(c, first.drop_last()) == c);
        assert(transitions(c, first.drop_last()) == 0);
        assert(transitions(c, evs) == 1);
    } else {
        let shorter = rest.drop_last();
        assert(evs.drop_last() =~= first + shorter);
        assert(evs.last() == rest.last());
        assert forall|i: int| 0 <= i < shorter.len() implies event_time(#[trigger] shorter[i]) < release_time(t0) by {
            assert(shorter[i] == rest[i]);
        }
        assert forall|i: int| 0 <= i < shorter.len() implies !(#[trigger] shorter[i] matches Event::Completed { ok: false, .. }) by {
            assert(shorter[i] == rest[i]);
        }
        lemma_burst_prefix(c, t0, shorter);
        assert(event_time(rest[rest.len() - 1]) < release_time(t0));
        assert(!(rest[rest.len() - 1] matches Event::Completed { ok: false, .. }));
        let prev = run(c, first + shorter);
        assert(!is_transition(step(prev, rest.last()).1));
        assert(transitions(c, evs) == transitions(c, first + shorter));
    }
}

/// A burst of triggers within one cooldown window toggles exactly once: after
/// the first trigger on a free guard, no event that arrives before the
/// cooldown is over requests another show or hide, and the coordinator heads
/// for the toggled visibility.
pub proof fn lemma_burst_toggles_once(c: Coordinator, t0: u64, rest: Seq<Event>)
    requires
        c.wf(),
        !c.guard_held,
        all_succeed(rest),
        forall|i: int| 0 <= i < rest.len() ==> event_time(#[trigger] rest[i]) < release_time(t0),
    ensures
        transitions(c, seq![Event::Trigger { now_ms: t0 }] + rest) == 1,
        run(c, seq![Event::Trigger { now_ms: t0 }] + rest).guard_held,
        target_visibility(run(c, seq![Event::Trigger { now_ms: t0 }] + rest)) == toggled(c.visibility),
{
    lemma_burst_prefix(c, t0, rest);
}

/// What holds along a run from a free guard: nothing has happened yet, or one
/// toggle happened and the state heads for (or has) the toggled visibility.
pub open spec fn single_inv(c0: Coordinator, c: Coordinator, n: nat) -> bool {
    &&& c.wf()
    &&& n == 0 ==> c == c0
    &&& n == 1 ==> {
        &&& c.guard_held ==> target_visibility(c) == toggled(c0.visibility)
        &&& !c.guard_held ==> c.visibility == toggled(c0.visibility)
    }
}

proof fn lemma_single_toggle_prefix(c: Coordinator, evs: Seq<Event>)
    requires
        c.wf(),
        !c.guard_held,
        all_succeed(evs),
    ensures
        single_inv(c, run(c, evs), transitions(c, evs)),
    decreases evs.len(),
{
    if evs.len() > 0 {
        let shorter = evs.drop_last();
        assert forall|i: int| 0 <= i < shorter.len() implies !(#[trigger] shorter[i] matches Event::Completed { ok: false, .. }) by {
            assert(shorter[i] == evs[i]);
        }
        lemma_single_toggle_prefix(c, shorter);
        assert(!(evs[evs.len() - 1] matches Event::Completed { ok: false, .. }));
    }
}

/// One successful toggle from a free guard flips the visibility.
pub proof fn lemma_one_toggle_flips(c: Coordinator, evs: Seq<Event>)
    requires
        c.wf(),
        !c.guard_held,
        one_toggle(c, evs),
    ensures
        run(c, evs).visibility == toggled(c.visibility),
        run(c, evs).wf(),
{
    lemma_single_toggle_prefix(c, evs);
}

/// Two successful toggles in a row, the guard released in between, bring the
/// window back to the visibility it started with.
pub proof fn lemma_toggle_round_trip(c: Coordinator, first: Seq<Event>, second: Seq<Event>)
    requires
        c.wf(),
        !c.guard_held,
        one_toggle(c, first),
        one_toggle(run(c, first), second),
    ensures
        run(c, first + second).visibility == c.visibility,
        !run(c, first + second).guard_held,
{
    lemma_one_toggle_flips(c, first);
    lemma_one_toggle_flips(run(c, first), second);
    lemma_run_concat(c, first, second);
}

} // verus!
