//! Trace model of interleaved main-context and interrupt-context
//! execution. A trace is a sequence of observable events; a wellformed
//! trace is one in which every event obeys the runtime's discipline
//! (accesses only inside a critical section, handlers only when unmasked
//! and armed, arming only after population). The lemmas here prove the
//! concurrency claims of the design over all wellformed traces, and
//! `check_trace` is the executable mirror harnesses use to flag a
//! forbidden interleaving.

use vstd::prelude::*;

verus! {

/// One observable event of an execution.
#[derive(Clone, Copy, PartialEq, Eq, Structural, Debug)]
pub enum Event {
    /// Main context enters a critical section (masks all interrupts).
    MainEnter,
    /// Main context leaves its innermost critical section (restores the
    /// saved mask state).
    MainLeave,
    /// Main context touches the shared cell's contents.
    MainAccess,
    /// Main context stores the peripheral handle into the shared cell.
    Populate,
    /// Main context arms the interrupt source at the controller.
    Arm,
    /// Hardware vectors into the interrupt handler.
    IrqBegin,
    /// The handler touches the shared cell's contents.
    IrqAccess,
    /// The handler returns.
    IrqEnd,
}

/// The abstract state a trace steps through.
pub struct TraceState {
    /// How many main-context critical sections are open; interrupts are
    /// masked exactly when this is positive (or a handler runs).
    pub depth: nat,
    /// A handler is currently executing.
    pub in_irq: bool,
    /// The shared cell has been populated.
    pub populated: bool,
    /// The interrupt source has been armed at the controller.
    pub armed: bool,
}

/// The state before any event: no section open, no handler running,
/// nothing populated or armed.
pub open spec fn initial_state() -> TraceState {
    TraceState { depth: 0, in_irq: false, populated: false, armed: false }
}

/// Whether `e` may occur in state `s`: the discipline every run of the
/// runtime obeys. Main-context events cannot occur while a handler runs
/// (single core); accesses demand an open critical section or handler
/// context; a handler can begin only when interrupts are unmasked and its
/// source is armed; arming demands prior population.
pub open spec fn allowed(s: TraceState, e: Event) -> bool {
    match e {
        Event::MainEnter => !s.in_irq,
        Event::MainLeave => !s.in_irq && s.depth > 0,
        Event::MainAccess => !s.in_irq && s.depth > 0,
        Event::Populate => !s.in_irq && s.depth > 0,
        Event::Arm => !s.in_irq && s.populated,
        Event::IrqBegin => !s.in_irq && s.armed && s.depth == 0,
        Event::IrqAccess => s.in_irq,
        Event::IrqEnd => s.in_irq,
    }
}

/// The state after `e` occurs in state `s`.
pub open spec fn step(s: TraceState, e: Event) -> TraceState {
    match e {
        Event::MainEnter => TraceState { depth: s.depth + 1, ..s },
        Event::MainLeave => TraceState { depth: (s.depth - 1) as nat, ..s },
        Event::MainAccess => s,
        Event::Populate => TraceState { populated: true, ..s },
        Event::Arm => TraceState { armed: true, ..s },
        Event::IrqBegin => TraceState { in_irq: true, ..s },
        Event::IrqAccess => s,
        Event::IrqEnd => TraceState { in_irq: false, ..s },
    }
}

/// The state after the first `i` events of `t`.
pub open spec fn state_at(t: Seq<Event>, i: int) -> TraceState
    decreases i,
{
    if i <= 0 {
        initial_state()
    } else {
        step(state_at(t, i - 1), t[i - 1])
    }
}

/// A trace is wellformed when every event is allowed in the state its
/// prefix produced.
pub open spec fn wellformed(t: Seq<Event>) -> bool {
    forall|i: int| 0 <= i < t.len() ==> allowed(state_at(t, i), #[trigger] t[i])
}

/// The inductive invariant of wellformed traces: a running handler implies
/// no main-context section is open (it could only begin while unmasked)
/// and the source was armed, and an armed source implies a populated cell.
pub open spec fn state_inv(s: TraceState) -> bool {
    &&& s.in_irq ==> s.depth == 0
    &&& s.in_irq ==> s.armed
    &&& s.armed ==> s.populated
}

/// Every state a wellformed trace reaches satisfies the invariant.
pub proof fn lemma_state_inv(t: Seq<Event>, i: int)
    requires
        wellformed(t),
        0 <= i <= t.len(),
    ensures
        state_inv(state_at(t, i)),
    decreases i,
{
    if i > 0 {
        lemma_state_inv(t, i - 1);
        assert(allowed(state_at(t, i - 1), t[i - 1]));
    }
}

/// Mutual exclusion: in a wellformed trace, an interrupt-context access
/// can only happen while no main-context critical section is open, and a
/// main-context access only while no handler is running — so no two
/// accesses to the shared handle are ever in flight concurrently.
pub proof fn lemma_mutual_exclusion(t: Seq<Event>, i: int)
    requires
        wellformed(t),
        0 <= i < t.len(),
    ensures
        t[i] == Event::IrqAccess ==> state_at(t, i).in_irq && state_at(t, i).depth == 0,
        t[i] == Event::MainAccess ==> !state_at(t, i).in_irq && state_at(t, i).depth > 0,
{
    lemma_state_inv(t, i);
    assert(allowed(state_at(t, i), t[i]));
}

/// Population is permanent: only a `Populate` event makes the cell
/// populated, and nothing unmakes it, so a populated state has a
/// `Populate` event strictly before it.
pub proof fn lemma_populated_has_populate(t: Seq<Event>, j: int)
    requires
        0 <= j <= t.len(),
        state_at(t, j).populated,
    ensures
        exists|i: int| 0 <= i < j && t[i] == Event::Populate,
    decreases j,
{
    if j > 0 {
        if t[j - 1] == Event::Populate {
            assert(0 <= j - 1 < j && t[j - 1] == Event::Populate);
        } else {
            assert(state_at(t, j - 1).populated);
            lemma_populated_has_populate(t, j - 1);
            let i = choose|i: int| 0 <= i < j - 1 && t[i] == Event::Populate;
            assert(0 <= i < j && t[i] == Event::Populate);
        }
    }
}

/// Populate-before-arm: in a wellformed trace, every arm event is
/// strictly preceded by a populate event.
pub proof fn lemma_populate_before_arm(t: Seq<Event>, j: int)
    requires
        wellformed(t),
        0 <= j < t.len(),
        t[j] == Event::Arm,
    ensures
        exists|i: int| 0 <= i < j && t[i] == Event::Populate,
{
    assert(allowed(state_at(t, j), t[j]));
    lemma_populated_has_populate(t, j);
}

/// No handler ever finds the cell empty: an interrupt-context access in a
/// wellformed trace sees a populated cell, because the handler could only
/// begin once armed, and arming demanded population.
pub proof fn lemma_irq_access_sees_populated(t: Seq<Event>, i: int)
    requires
        wellformed(t),
        0 <= i < t.len(),
        t[i] == Event::IrqAccess,
    ensures
        state_at(t, i).populated,
{
    lemma_state_inv(t, i);
    assert(allowed(state_at(t, i), t[i]));
}

/// Executable mirror of the trace discipline: replay `events` from the
/// initial state and report whether every event was allowed. This is the
/// instrumented executor a harness drives interleavings through; it
/// returns false exactly on the traces the lemmas above exclude.
pub fn check_trace(events: &Vec<Event>) -> (ok: bool)
    ensures
        ok == wellformed(events@),
{
    let t = Ghost(events@);
    let mut depth: usize = 0;
    let mut in_irq = false;
    let mut populated = false;
    let mut armed = false;
    let mut i: usize = 0;
    while i < events.len()
        invariant
            i <= t@.len(),
            t@ == events@,
            depth == state_at(t@, i as int).depth,
            in_irq == state_at(t@, i as int).in_irq,
            populated == state_at(t@, i as int).populated,
            armed == state_at(t@, i as int).armed,
            depth <= i,
            forall|k: int| 0 <= k < i ==> allowed(state_at(t@, k), #[trigger] t@[k]),
        decreases t@.len() - i,
    {
        let e = events[i];
        let ok_here = match e {
            Event::MainEnter => !in_irq,
            Event::MainLeave => !in_irq && depth > 0,
            Event::MainAccess => !in_irq && depth > 0,
            Event::Populate => !in_irq && depth > 0,
            Event::Arm => !in_irq && populated,
            Event::IrqBegin => !in_irq && armed && depth == 0,
            Event::IrqAccess => in_irq,
            Event::IrqEnd => in_irq,
        };
        if !ok_here {
            assert(!allowed(state_at(t@, i as int), t@[i as int]));
            return false;
        }
        match e {
            Event::MainEnter => depth = depth + 1,
            Event::MainLeave => depth = depth - 1,
            Event::MainAccess => (),
            Event::Populate => populated = true,
            Event::Arm => armed = true,
            Event::IrqBegin => in_irq = true,
            Event::IrqAccess => (),
            Event::IrqEnd => in_irq = false,
        }
        i = i + 1;
    }
    true
}

} // verus!
