use vstd::prelude::*;

verus! {

/// The completion signal: a single-slot notification from the reading side to the writer.
/// Raising it records one pending wake-up, and no more than one; consuming it takes the
/// pending wake-up away.
#[derive(Clone, Copy, PartialEq, Eq, Debug)]
pub struct CompletionSignal {
    pending: bool,
}

impl CompletionSignal {
    /// Whether a wake-up is pending.
    pub closed spec fn is_pending(&self) -> bool {
        self.pending
    }

    /// A signal with nothing pending.
    pub fn new() -> (signal: CompletionSignal)
        ensures
            !signal.is_pending(),
    {
        CompletionSignal { pending: false }
    }

    /// Whether a wake-up is pending.
    pub fn pending(&self) -> (pending: bool)
        ensures
            pending == self.is_pending(),
    {
        self.pending
    }

    /// Records a wake-up. One that is already pending stays the only one.
    pub fn raise(&mut self)
        ensures
            final(self).is_pending(),
    {
        self.pending = true;
    }

    /// Takes the pending wake-up, if there is one, and tells whether there was.
    pub fn try_consume(&mut self) -> (taken: bool)
        ensures
            taken == old(self).is_pending(),
            !final(self).is_pending(),
    {
        let taken = self.pending;
        self.pending = false;
        taken
    }
}

/// Where writer and reading side stand towards each other: how many searches the writer
/// has started, how many signals it has consumed, how many signals the reading side has
/// raised, and whether a wake-up is pending.
pub struct Pacing {
    pub issued: nat,
    pub awaited: nat,
    pub raised: nat,
    pub pending: bool,
}

/// Nothing has happened yet.
pub open spec fn pacing_start() -> Pacing {
    Pacing { issued: 0, awaited: 0, raised: 0, pending: false }
}

/// The writer starts a search. It does so only when it has consumed a signal for every
/// search it started before.
pub open spec fn writer_starts_search(before: Pacing, after: Pacing) -> bool {
    &&& before.issued == before.awaited
    &&& after == Pacing { issued: before.issued + 1, ..before }
}

/// The writer consumes the signal it waited for. It can do so only while one is pending.
pub open spec fn writer_consumes_signal(before: Pacing, after: Pacing) -> bool {
    &&& before.pending
    &&& before.issued == before.awaited + 1
    &&& after == Pacing { awaited: before.awaited + 1, pending: false, ..before }
}

/// The reading side has collected the results of a search and raises the signal. The
/// engine concludes only searches that were started, one after the other, so this happens
/// only while a started search is not yet reported.
pub open spec fn reader_raises_signal(before: Pacing, after: Pacing) -> bool {
    &&& before.raised < before.issued
    &&& after == Pacing { raised: before.raised + 1, pending: true, ..before }
}

/// One step of either side.
pub open spec fn pacing_step(before: Pacing, after: Pacing) -> bool {
    ||| writer_starts_search(before, after)
    ||| writer_consumes_signal(before, after)
    ||| reader_raises_signal(before, after)
}

/// What holds at every moment: signals are consumed only after they were raised and raised
/// only for searches that were started, at most one search is outstanding, and a wake-up is
/// pending exactly while a raised signal has not been consumed.
pub open spec fn pacing_invariant(state: Pacing) -> bool {
    &&& state.awaited <= state.raised <= state.issued <= state.awaited + 1
    &&& state.pending == (state.raised == state.awaited + 1)
}

/// `states` is a run of the two sides from the start.
pub open spec fn is_run(states: Seq<Pacing>) -> bool {
    &&& states.len() > 0
    &&& states[0] == pacing_start()
    &&& forall|k: int| 0 <= k < states.len() - 1 ==> pacing_step(#[trigger] states[k], states[k + 1])
}

/// However the steps of writer and reading side interleave, at most one search is
/// outstanding at any moment, and no wake-up is lost or counted twice.
pub proof fn lemma_pacing_invariant_holds(states: Seq<Pacing>, at: int)
    requires
        is_run(states),
        0 <= at < states.len(),
    ensures
        pacing_invariant(states[at]),
    decreases at,
{
    if at > 0 {
        lemma_pacing_invariant_holds(states, at - 1);
        assert(pacing_step(states[at - 1], states[at - 1 + 1]));
    }
}

/// The writer never starts the search of position `i + 1` before the signal for position
/// `i` has been raised: when it starts its `n`-th search, counted from 0, the signals of all
/// `n` searches before it have been raised.
pub proof fn lemma_search_waits_for_signal(states: Seq<Pacing>, at: int)
    requires
        is_run(states),
        0 <= at < states.len() - 1,
        writer_starts_search(states[at], states[at + 1]),
    ensures
        states[at].raised == states[at].issued,
        states[at].awaited == states[at].issued,
        !states[at].pending,
{
    lemma_pacing_invariant_holds(states, at);
}

} // verus!
