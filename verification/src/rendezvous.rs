//! The join that address learning waits on: two things must have happened,
//! in whichever order, before the session goes on.

use vstd::prelude::*;

verus! {

/// One of the two things that address learning waits for.
#[derive(Clone, Copy, Debug, PartialEq, Eq, Structural)]
pub enum RendezvousSignal {
    /// The relay told this peer under which address it sees it.
    LearnedOwnAddress,
    /// This peer told the relay under which address it sees the relay.
    ToldRelayItsAddress,
}

/// Which of the two signals have arrived so far.
#[derive(Clone, Copy, Debug, PartialEq, Eq, Structural)]
pub struct RendezvousState {
    pub learned_own_address: bool,
    pub told_relay_its_address: bool,
}

impl RendezvousState {
    /// The state in which nothing has arrived.
    pub open spec fn spec_new() -> RendezvousState {
        RendezvousState { learned_own_address: false, told_relay_its_address: false }
    }

    /// Whether both signals have arrived.
    pub open spec fn spec_is_complete(&self) -> bool {
        self.learned_own_address && self.told_relay_its_address
    }

    /// Whether the given signal has arrived.
    pub open spec fn spec_has(&self, signal: RendezvousSignal) -> bool {
        match signal {
            RendezvousSignal::LearnedOwnAddress => self.learned_own_address,
            RendezvousSignal::ToldRelayItsAddress => self.told_relay_its_address,
        }
    }

    /// The state after a signal: that signal has arrived, the other is as before.
    pub open spec fn spec_observe(self, signal: RendezvousSignal) -> RendezvousState {
        match signal {
            RendezvousSignal::LearnedOwnAddress => RendezvousState {
                learned_own_address: true,
                ..self
            },
            RendezvousSignal::ToldRelayItsAddress => RendezvousState {
                told_relay_its_address: true,
                ..self
            },
        }
    }

    /// The state after a run of signals, taken from first to last.
    pub open spec fn spec_observe_all(self, signals: Seq<RendezvousSignal>) -> RendezvousState
        decreases signals.len(),
    {
        if signals.len() == 0 {
            self
        } else {
            self.spec_observe_all(signals.drop_last()).spec_observe(signals.last())
        }
    }

    #[verifier::when_used_as_spec(spec_new)]
    pub fn new() -> (state: RendezvousState)
        ensures
            state == RendezvousState::spec_new(),
    {
        RendezvousState { learned_own_address: false, told_relay_its_address: false }
    }

    #[verifier::when_used_as_spec(spec_is_complete)]
    pub fn is_complete(&self) -> (complete: bool)
        ensures
            complete == self.spec_is_complete(),
    {
        self.learned_own_address && self.told_relay_its_address
    }

    #[verifier::when_used_as_spec(spec_has)]
    pub fn has(&self, signal: RendezvousSignal) -> (arrived: bool)
        ensures
            arrived == self.spec_has(signal),
    {
        match signal {
            RendezvousSignal::LearnedOwnAddress => self.learned_own_address,
            RendezvousSignal::ToldRelayItsAddress => self.told_relay_its_address,
        }
    }

    #[verifier::when_used_as_spec(spec_observe)]
    pub fn observe(self, signal: RendezvousSignal) -> (next: RendezvousState)
        ensures
            next == self.spec_observe(signal),
    {
        match signal {
            RendezvousSignal::LearnedOwnAddress => RendezvousState {
                learned_own_address: true,
                told_relay_its_address: self.told_relay_its_address,
            },
            RendezvousSignal::ToldRelayItsAddress => RendezvousState {
                learned_own_address: self.learned_own_address,
                told_relay_its_address: true,
            },
        }
    }
}

/// A signal that has arrived stays arrived, and a signal arrives only by
/// being observed.
pub proof fn lemma_observe_all_has(
    start: RendezvousState,
    signals: Seq<RendezvousSignal>,
    signal: RendezvousSignal,
)
    ensures
        start.spec_observe_all(signals).spec_has(signal) <==> start.spec_has(signal)
            || signals.contains(signal),
    decreases signals.len(),
{
    if signals.len() > 0 {
        let before = signals.drop_last();
        lemma_observe_all_has(start, before, signal);
        if signals.contains(signal) {
            let i = choose|i: int| 0 <= i < signals.len() && signals[i] == signal;
            if i < before.len() {
                assert(before[i] == signal);
            }
        }
        if before.contains(signal) {
            let i = choose|i: int| 0 <= i < before.len() && before[i] == signal;
            assert(signals[i] == signal);
        }
        if signals.last() == signal {
            assert(signals[signals.len() - 1] == signal);
        }
    }
}

/// The join is complete exactly when both signals were observed, whatever
/// their order and however often each came.
pub proof fn lemma_join_completes_iff_both_observed(signals: Seq<RendezvousSignal>)
    ensures
        RendezvousState::spec_new().spec_observe_all(signals).spec_is_complete() <==> (
        signals.contains(RendezvousSignal::LearnedOwnAddress) && signals.contains(
            RendezvousSignal::ToldRelayItsAddress,
        )),
{
    let start = RendezvousState::spec_new();
    lemma_observe_all_has(start, signals, RendezvousSignal::LearnedOwnAddress);
    lemma_observe_all_has(start, signals, RendezvousSignal::ToldRelayItsAddress);
}

/// Two signals give the same state in either order, and a signal that comes
/// again changes nothing.
pub proof fn lemma_observe_commutes(
    state: RendezvousState,
    first: RendezvousSignal,
    second: RendezvousSignal,
)
    ensures
        state.spec_observe(first).spec_observe(second) == state.spec_observe(second).spec_observe(
            first,
        ),
        state.spec_observe(first).spec_observe(first) == state.spec_observe(first),
        first != second ==> state.spec_observe(first).spec_observe(second).spec_is_complete(),
        first != second ==> !RendezvousState::spec_new().spec_observe(first).spec_is_complete(),
{
}

} // verus!
