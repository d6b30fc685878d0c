use vstd::prelude::*;

verus! {

/// The kinds of termination request a node listens for.
#[derive(PartialEq, Eq, Structural, Clone, Copy, Debug)]
pub enum TerminationKind {
    /// An interrupt request (SIGINT on unix).
    Interrupt,
    /// A terminate request (SIGTERM on unix).
    Terminate,
    /// The generic interrupt of platforms without the distinction (ctrl-c).
    CtrlC,
}

/// The phases of shutdown, in the only order in which they are passed.
#[derive(PartialEq, Eq, Structural, Clone, Copy, Debug)]
pub enum Phase {
    /// The primary task and the termination listener are both active.
    Running,
    /// One of them finished first and the shutdown notification went out.
    RaceResolved,
    /// The notification was taken and the catalog is being cleared.
    Cleaning,
    /// The runtime was stopped.
    Halted,
}

/// What the shutdown coordinator is told.
#[derive(PartialEq, Eq, Structural, Clone, Copy, Debug)]
pub enum ShutdownEvent {
    /// The primary task ended, successfully or not.
    PrimaryEnded,
    /// A termination request of the given kind arrived.
    TerminationRequested(TerminationKind),
    /// The single-fire shutdown notification was received.
    NotificationReceived,
    /// `clear()` on the catalog returned.
    CleanupDone,
}

/// What the caller must do in answer to an event.
#[derive(PartialEq, Eq, Structural, Clone, Copy, Debug)]
pub enum ShutdownAction {
    /// Nothing: the event comes too late or out of turn.
    Ignore,
    /// Send the single-fire shutdown notification.
    Notify,
    /// Take the catalog's writer lock and call `clear()` on it.
    ClearCatalog,
    /// Stop the runtime, cancelling whatever still runs on it.
    HaltRuntime,
}

/// Whether an event is one of the two that can end normal operation.
pub open spec fn is_trigger(e: ShutdownEvent) -> bool {
    match e {
        ShutdownEvent::PrimaryEnded => true,
        ShutdownEvent::TerminationRequested(_) => true,
        _ => false,
    }
}

/// The position of a phase in the order `Running < RaceResolved < Cleaning < Halted`.
pub open spec fn phase_rank(p: Phase) -> nat {
    match p {
        Phase::Running => 0,
        Phase::RaceResolved => 1,
        Phase::Cleaning => 2,
        Phase::Halted => 3,
    }
}

/// The phase after an event.
pub open spec fn next_phase(p: Phase, e: ShutdownEvent) -> Phase {
    match (p, e) {
        (Phase::Running, ShutdownEvent::PrimaryEnded) => Phase::RaceResolved,
        (Phase::Running, ShutdownEvent::TerminationRequested(_)) => Phase::RaceResolved,
        (Phase::RaceResolved, ShutdownEvent::NotificationReceived) => Phase::Cleaning,
        (Phase::Cleaning, ShutdownEvent::CleanupDone) => Phase::Halted,
        _ => p,
    }
}

/// The action that answers an event in a phase.
pub open spec fn action_for(p: Phase, e: ShutdownEvent) -> ShutdownAction {
    match (p, e) {
        (Phase::Running, ShutdownEvent::PrimaryEnded) => ShutdownAction::Notify,
        (Phase::Running, ShutdownEvent::TerminationRequested(_)) => ShutdownAction::Notify,
        (Phase::RaceResolved, ShutdownEvent::NotificationReceived) => ShutdownAction::ClearCatalog,
        (Phase::Cleaning, ShutdownEvent::CleanupDone) => ShutdownAction::HaltRuntime,
        _ => ShutdownAction::Ignore,
    }
}

/// The actions taken, in order, when the events arrive in order starting from phase `p`.
pub open spec fn actions_of(p: Phase, evs: Seq<ShutdownEvent>) -> Seq<ShutdownAction>
    decreases evs.len(),
{
    if evs.len() == 0 {
        Seq::empty()
    } else {
        seq![action_for(p, evs[0])] + actions_of(next_phase(p, evs[0]), evs.drop_first())
    }
}

/// The phase reached after the events, starting from phase `p`.
pub open spec fn phase_after(p: Phase, evs: Seq<ShutdownEvent>) -> Phase
    decreases evs.len(),
{
    if evs.len() == 0 {
        p
    } else {
        phase_after(next_phase(p, evs[0]), evs.drop_first())
    }
}

/// How many times `a` stands in `s`.
pub open spec fn occurrences(s: Seq<ShutdownAction>, a: ShutdownAction) -> nat
    decreases s.len(),
{
    if s.len() == 0 {
        0
    } else {
        (if s[0] == a { 1nat } else { 0nat }) + occurrences(s.drop_first(), a)
    }
}

/// Whether some event of `evs` is a trigger.
pub open spec fn has_trigger(evs: Seq<ShutdownEvent>) -> bool {
    exists|i: int| 0 <= i < evs.len() && is_trigger(#[trigger] evs[i])
}

proof fn lemma_occurrences_cons(x: ShutdownAction, s: Seq<ShutdownAction>, a: ShutdownAction)
    ensures
        occurrences(seq![x] + s, a) == (if x == a { 1nat } else { 0nat }) + occurrences(s, a),
{
    assert((seq![x] + s).drop_first() =~= s);
}

proof fn lemma_actions_cons(p: Phase, evs: Seq<ShutdownEvent>, a: ShutdownAction)
    requires
        evs.len() > 0,
    ensures
        occurrences(actions_of(p, evs), a) == (if action_for(p, evs[0]) == a { 1nat } else { 0nat })
            + occurrences(actions_of(next_phase(p, evs[0]), evs.drop_first()), a),
{
    lemma_occurrences_cons(action_for(p, evs[0]), actions_of(next_phase(p, evs[0]), evs.drop_first()), a);
}

/// Phases never go back: after any events the phase is at least as far along as before.
pub proof fn lemma_phase_monotone(p: Phase, evs: Seq<ShutdownEvent>)
    ensures
        phase_rank(p) <= phase_rank(phase_after(p, evs)),
    decreases evs.len(),
{
    if evs.len() > 0 {
        lemma_phase_monotone(next_phase(p, evs[0]), evs.drop_first());
    }
}

/// Whatever events arrive, and however many termination requests among them, the catalog is
/// cleared at most once; and never again once cleaning has begun.
pub proof fn lemma_clear_at_most_once(p: Phase, evs: Seq<ShutdownEvent>)
    ensures
        occurrences(actions_of(p, evs), ShutdownAction::ClearCatalog) <= (if phase_rank(p) <= 1 { 1nat } else { 0nat }),
    decreases evs.len(),
{
    if evs.len() > 0 {
        lemma_actions_cons(p, evs, ShutdownAction::ClearCatalog);
        lemma_clear_at_most_once(next_phase(p, evs[0]), evs.drop_first());
    }
}

proof fn lemma_no_notify_after_race(p: Phase, evs: Seq<ShutdownEvent>)
    requires
        p != Phase::Running,
    ensures
        occurrences(actions_of(p, evs), ShutdownAction::Notify) == 0,
    decreases evs.len(),
{
    if evs.len() > 0 {
        lemma_actions_cons(p, evs, ShutdownAction::Notify);
        lemma_no_notify_after_race(next_phase(p, evs[0]), evs.drop_first());
    }
}

/// From a running node, the shutdown notification is sent exactly once if some trigger (the
/// primary task ending, or a termination request of any kind) arrives, and never otherwise.
pub proof fn lemma_notify_exactly_once(evs: Seq<ShutdownEvent>)
    ensures
        occurrences(actions_of(Phase::Running, evs), ShutdownAction::Notify) == (if has_trigger(evs) { 1nat } else { 0nat }),
    decreases evs.len(),
{
    if evs.len() > 0 {
        let rest = evs.drop_first();
        lemma_actions_cons(Phase::Running, evs, ShutdownAction::Notify);
        if is_trigger(evs[0]) {
            lemma_no_notify_after_race(Phase::RaceResolved, rest);
            assert(has_trigger(evs));
        } else {
            lemma_notify_exactly_once(rest);
            if has_trigger(evs) {
                let i = choose|i: int| 0 <= i < evs.len() && is_trigger(#[trigger] evs[i]);
                assert(rest[i - 1] == evs[i]);
            }
            if has_trigger(rest) {
                let i = choose|i: int| 0 <= i < rest.len() && is_trigger(#[trigger] rest[i]);
                assert(evs[i + 1] == rest[i]);
            }
        }
    } else {
        assert(!has_trigger(evs));
    }
}

proof fn lemma_clear_once_after_race(evs: Seq<ShutdownEvent>, j: int)
    requires
        0 <= j < evs.len(),
        evs[j] == ShutdownEvent::NotificationReceived,
    ensures
        occurrences(actions_of(Phase::RaceResolved, evs), ShutdownAction::ClearCatalog) == 1,
    decreases evs.len(),
{
    let rest = evs.drop_first();
    lemma_actions_cons(Phase::RaceResolved, evs, ShutdownAction::ClearCatalog);
    if evs[0] == ShutdownEvent::NotificationReceived {
        lemma_clear_at_most_once(Phase::Cleaning, rest);
    } else {
        assert(rest[j - 1] == evs[j]);
        lemma_clear_once_after_race(rest, j - 1);
    }
}

/// From a running node, once a trigger has arrived and the notification it caused has been
/// received, the catalog has been cleared exactly once, however many further triggers
/// (concurrent termination requests of either kind included) arrive around them.
pub proof fn lemma_clear_exactly_once(evs: Seq<ShutdownEvent>, i: int, j: int)
    requires
        0 <= i < j < evs.len(),
        is_trigger(evs[i]),
        evs[j] == ShutdownEvent::NotificationReceived,
    ensures
        occurrences(actions_of(Phase::Running, evs), ShutdownAction::ClearCatalog) == 1,
    decreases evs.len(),
{
    let rest = evs.drop_first();
    lemma_actions_cons(Phase::Running, evs, ShutdownAction::ClearCatalog);
    assert(rest[j - 1] == evs[j]);
    if is_trigger(evs[0]) {
        lemma_clear_once_after_race(rest, j - 1);
    } else {
        assert(rest[i - 1] == evs[i]);
        lemma_clear_exactly_once(rest, i - 1, j - 1);
    }
}

/// Decides, event by event, what the node does to shut down: it reacts to the first trigger
/// only, clears the catalog once the notification is taken, and halts after the clear.
pub struct ShutdownCoordinator {
    phase: Phase,
}

impl ShutdownCoordinator {
    /// The current phase.
    pub closed spec fn spec_phase(&self) -> Phase {
        self.phase
    }

    /// A coordinator in the `Running` phase.
    pub fn new() -> (r: Self)
        ensures
            r.spec_phase() == Phase::Running,
    {
        ShutdownCoordinator { phase: Phase::Running }
    }

    /// The current phase.
    pub fn phase(&self) -> (r: Phase)
        ensures
            r == self.spec_phase(),
    {
        self.phase
    }

    /// Whether the runtime has been halted.
    pub fn is_halted(&self) -> (r: bool)
        ensures
            r == (self.spec_phase() == Phase::Halted),
    {
        self.phase == Phase::Halted
    }

    /// Takes in one event and returns what the caller must do about it.
    pub fn handle(&mut self, e: ShutdownEvent) -> (a: ShutdownAction)
        ensures
            final(self).spec_phase() == next_phase(old(self).spec_phase(), e),
            a == action_for(old(self).spec_phase(), e),
    {
        let (p, a) = match (self.phase, e) {
            (Phase::Running, ShutdownEvent::PrimaryEnded) => (Phase::RaceResolved, ShutdownAction::Notify),
            (Phase::Running, ShutdownEvent::TerminationRequested(_)) => (
                Phase::RaceResolved,
                ShutdownAction::Notify,
            ),
            (Phase::RaceResolved, ShutdownEvent::NotificationReceived) => (
                Phase::Cleaning,
                ShutdownAction::ClearCatalog,
            ),
            (Phase::Cleaning, ShutdownEvent::CleanupDone) => (Phase::Halted, ShutdownAction::HaltRuntime),
            (p, _) => (p, ShutdownAction::Ignore),
        };
        self.phase = p;
        a
    }

    /// Takes in the events in order and returns the actions, one for each.
    pub fn handle_all(&mut self, evs: &Vec<ShutdownEvent>) -> (r: Vec<ShutdownAction>)
        ensures
            r@ == actions_of(old(self).spec_phase(), evs@),
            final(self).spec_phase() == phase_after(old(self).spec_phase(), evs@),
    {
        let ghost start = self.phase;
        let mut r: Vec<ShutdownAction> = Vec::new();
        let mut i: usize = 0;
        assert(evs@.subrange(0, evs@.len() as int) =~= evs@);
        assert(r@ + actions_of(start, evs@) =~= actions_of(start, evs@));
        while i < evs.len()
            invariant
                i <= evs@.len(),
                actions_of(start, evs@) == r@ + actions_of(self.phase, evs@.subrange(i as int, evs@.len() as int)),
                phase_after(start, evs@) == phase_after(self.phase, evs@.subrange(i as int, evs@.len() as int)),
            decreases evs@.len() - i,
        {
            let ghost rest = evs@.subrange(i as int, evs@.len() as int);
            assert(rest.drop_first() =~= evs@.subrange(i + 1, evs@.len() as int));
            let a = self.handle(evs[i]);
            r.push(a);
            i = i + 1;
            assert(actions_of(start, evs@) =~= r@ + actions_of(self.phase, evs@.subrange(i as int, evs@.len() as int)));
        }
        assert(evs@.subrange(i as int, evs@.len() as int) =~= Seq::<ShutdownEvent>::empty());
        assert(r@ + Seq::<ShutdownAction>::empty() =~= r@);
        r
    }
}

} // verus!
