//! What holds of every session, whatever the engine reports and in whatever
//! order.

use crate::event::ActionView;
use crate::event::EventView;
use crate::rendezvous::RendezvousState;
use crate::session::run_spec;
use crate::session::step_spec;
use crate::state::stay;
use crate::state::ConfigView;
use crate::state::Party;
use crate::state::PhaseView;
use vstd::prelude::*;

verus! {

/// How many of the actions are of the given sort.
pub open spec fn count_of(actions: Seq<ActionView>, sort: spec_fn(ActionView) -> bool) -> nat
    decreases actions.len(),
{
    if actions.len() == 0 {
        0
    } else {
        count_of(actions.drop_last(), sort) + if sort(actions.last()) {
            1nat
        } else {
            0nat
        }
    }
}

/// The actions that ask for a run.
pub open spec fn run_requests() -> spec_fn(ActionView) -> bool {
    |action: ActionView| action is RunBenchmark
}

/// The actions that advertise an address of this peer.
pub open spec fn advertisements() -> spec_fn(ActionView) -> bool {
    |action: ActionView| action is AddExternalAddress
}

/// How many runs the actions ask for.
pub open spec fn runs_asked(actions: Seq<ActionView>) -> nat {
    count_of(actions, run_requests())
}

/// How many addresses the actions advertise.
pub open spec fn addresses_advertised(actions: Seq<ActionView>) -> nat {
    count_of(actions, advertisements())
}

/// How many runs a session in the given phase may still ask for: none once
/// it has asked for one or is over, one before.
pub open spec fn runs_left(phase: PhaseView) -> nat {
    match phase {
        PhaseView::Benchmarking { issued: true } => 0,
        PhaseView::Done(_) => 0,
        _ => 1,
    }
}

/// Counting two lists one behind the other gives the sum of their counts.
pub proof fn lemma_count_of_concat(
    first: Seq<ActionView>,
    second: Seq<ActionView>,
    sort: spec_fn(ActionView) -> bool,
)
    ensures
        count_of(first + second, sort) == count_of(first, sort) + count_of(second, sort),
    decreases second.len(),
{
    if second.len() == 0 {
        assert(first + second =~= first);
    } else {
        lemma_count_of_concat(first, second.drop_last(), sort);
        assert((first + second).drop_last() =~= first + second.drop_last());
        assert((first + second).last() == second.last());
    }
}

/// The count of a list of at most two actions.
pub proof fn lemma_count_of_few(a: ActionView, b: ActionView, sort: spec_fn(ActionView) -> bool)
    ensures
        count_of(Seq::empty(), sort) == 0,
        count_of(seq![a], sort) == if sort(a) {
            1nat
        } else {
            0nat
        },
        count_of(seq![a, b], sort) == (if sort(a) {
            1nat
        } else {
            0nat
        }) + (if sort(b) {
            1nat
        } else {
            0nat
        }),
{
    assert(seq![a, b].drop_last() =~= seq![a]);
    assert(seq![a, b].last() == b);
    assert(seq![a].drop_last() =~= Seq::<ActionView>::empty());
    assert(seq![a].last() == a);
}

/// A run of events one event longer is the shorter run, then one step.
pub proof fn lemma_run_unfold(
    config: ConfigView,
    phase: PhaseView,
    events: Seq<EventView>,
    event: EventView,
)
    ensures
        run_spec(config, phase, events.push(event)).0 == step_spec(
            config,
            run_spec(config, phase, events).0,
            event,
        ).0,
        run_spec(config, phase, events.push(event)).1 == run_spec(config, phase, events).1
            + step_spec(config, run_spec(config, phase, events).0, event).1,
{
    assert(events.push(event).drop_last() =~= events);
    assert(events.push(event).last() == event);
}

/// A session never goes back to an earlier phase.
pub proof fn lemma_step_goes_forward(config: ConfigView, phase: PhaseView, event: EventView)
    ensures
        phase.rank() <= step_spec(config, phase, event).0.rank(),
{
}

/// A session never goes back to an earlier phase, however many events come.
pub proof fn lemma_run_goes_forward(config: ConfigView, phase: PhaseView, events: Seq<EventView>)
    ensures
        phase.rank() <= run_spec(config, phase, events).0.rank(),
    decreases events.len(),
{
    if events.len() > 0 {
        lemma_run_goes_forward(config, phase, events.drop_last());
        lemma_step_goes_forward(
            config,
            run_spec(config, phase, events.drop_last()).0,
            events.last(),
        );
    }
}

/// A session that is over stays over, as it ended, and asks for nothing.
pub proof fn lemma_done_is_final(config: ConfigView, phase: PhaseView, events: Seq<EventView>)
    requires
        phase is Done,
    ensures
        run_spec(config, phase, events) == stay(phase),
    decreases events.len(),
{
    if events.len() > 0 {
        lemma_done_is_final(config, phase, events.drop_last());
        assert(Seq::<ActionView>::empty() + Seq::<ActionView>::empty() =~= Seq::<
            ActionView,
        >::empty());
    }
}

/// One event asks for at most as many runs as the phase has left, and what
/// it asks for is taken off what is left.
pub proof fn lemma_step_runs(config: ConfigView, phase: PhaseView, event: EventView)
    ensures
        runs_asked(step_spec(config, phase, event).1) + runs_left(
            step_spec(config, phase, event).0,
        ) <= runs_left(phase),
        config.party is Responder ==> runs_asked(step_spec(config, phase, event).1) == 0,
{
    let step = step_spec(config, phase, event);
    lemma_count_of_few(step.1[0], step.1[1], run_requests());
    if step.1.len() == 0 {
        assert(step.1 =~= Seq::<ActionView>::empty());
    } else if step.1.len() == 1 {
        assert(step.1 =~= seq![step.1[0]]);
    } else {
        assert(step.1.len() == 2);
        assert(step.1 =~= seq![step.1[0], step.1[1]]);
    }
}

/// A session asks for its run at most once, from whatever phase it is
/// taken up and whatever events come, also where the event that confirms the
/// path comes again. A session that has asked for its run, or is over, asks
/// for none.
pub proof fn lemma_run_asked_at_most_once(
    config: ConfigView,
    phase: PhaseView,
    events: Seq<EventView>,
)
    ensures
        runs_asked(run_spec(config, phase, events).1) + runs_left(
            run_spec(config, phase, events).0,
        ) <= runs_left(phase),
        runs_asked(run_spec(config, phase, events).1) <= 1,
        runs_left(phase) == 0 ==> runs_asked(run_spec(config, phase, events).1) == 0,
    decreases events.len(),
{
    if events.len() == 0 {
    } else {
        let before = run_spec(config, phase, events.drop_last());
        let last = step_spec(config, before.0, events.last());
        lemma_run_asked_at_most_once(config, phase, events.drop_last());
        lemma_step_runs(config, before.0, events.last());
        lemma_count_of_concat(before.1, last.1, run_requests());
    }
}

/// A responder never asks for a run.
pub proof fn lemma_responder_asks_for_no_run(
    config: ConfigView,
    phase: PhaseView,
    events: Seq<EventView>,
)
    requires
        config.party is Responder,
    ensures
        runs_asked(run_spec(config, phase, events).1) == 0,
    decreases events.len(),
{
    if events.len() == 0 {
    } else {
        let before = run_spec(config, phase, events.drop_last());
        let last = step_spec(config, before.0, events.last());
        lemma_responder_asks_for_no_run(config, phase, events.drop_last());
        lemma_step_runs(config, before.0, events.last());
        lemma_count_of_concat(before.1, last.1, run_requests());
    }
}

/// Whether the session has told the relay its address in the course of the
/// events.
pub open spec fn relay_was_told(events: Seq<EventView>) -> bool {
    exists|i: int| 0 <= i < events.len() && events[i] is ObservedAddressSent
}

/// Whether the session has learned its own address in the course of the
/// events.
pub open spec fn address_was_learned(events: Seq<EventView>) -> bool {
    exists|i: int| 0 <= i < events.len() && events[i] is ObservedAddressReceived
}

/// Whether address learning takes the event in without breaking off.
pub open spec fn passes_learning(event: EventView) -> bool {
    event is ObservedAddressSent || event is ObservedAddressReceived || event is NewListenAddress
        || event is Dialing || event is ConnectionEstablished || event is Heartbeat
}

/// What was observed in a run of events is what was observed before its
/// last event, or in that.
pub proof fn lemma_observed_unfold(events: Seq<EventView>)
    requires
        events.len() > 0,
    ensures
        relay_was_told(events) <==> relay_was_told(events.drop_last())
            || events.last() is ObservedAddressSent,
        address_was_learned(events) <==> address_was_learned(events.drop_last())
            || events.last() is ObservedAddressReceived,
{
    let before = events.drop_last();
    if relay_was_told(events) {
        let i = choose|i: int| 0 <= i < events.len() && events[i] is ObservedAddressSent;
        if i < before.len() {
            assert(before[i] is ObservedAddressSent);
        }
    }
    if relay_was_told(before) {
        let i = choose|i: int| 0 <= i < before.len() && before[i] is ObservedAddressSent;
        assert(events[i] is ObservedAddressSent);
    }
    if events.last() is ObservedAddressSent {
        assert(events[events.len() - 1] is ObservedAddressSent);
    }
    if address_was_learned(events) {
        let i = choose|i: int| 0 <= i < events.len() && events[i] is ObservedAddressReceived;
        if i < before.len() {
            assert(before[i] is ObservedAddressReceived);
        }
    }
    if address_was_learned(before) {
        let i = choose|i: int| 0 <= i < before.len() && before[i] is ObservedAddressReceived;
        assert(events[i] is ObservedAddressReceived);
    }
    if events.last() is ObservedAddressReceived {
        assert(events[events.len() - 1] is ObservedAddressReceived);
    }
}

/// Address learning is over exactly when both signals have been observed,
/// in whichever order they came and whatever passed between them. While it
/// goes on, its state says which of the two has come.
pub proof fn lemma_learning_completes_iff_both_observed(
    config: ConfigView,
    events: Seq<EventView>,
)
    requires
        forall|i: int| 0 <= i < events.len() ==> passes_learning(#[trigger] events[i]),
    ensures
        run_spec(config, PhaseView::LearningAddress(RendezvousState::spec_new()), events).0
            is LearningAddress <==> !(relay_was_told(events) && address_was_learned(events)),
        run_spec(config, PhaseView::LearningAddress(RendezvousState::spec_new()), events).0
            is LearningAddress ==> run_spec(
            config,
            PhaseView::LearningAddress(RendezvousState::spec_new()),
            events,
        ).0 == PhaseView::LearningAddress(
            RendezvousState {
                learned_own_address: address_was_learned(events),
                told_relay_its_address: relay_was_told(events),
            },
        ),
    decreases events.len(),
{
    let start = PhaseView::LearningAddress(RendezvousState::spec_new());
    if events.len() > 0 {
        let shorter = events.drop_last();
        assert forall|i: int| 0 <= i < shorter.len() implies passes_learning(
            #[trigger] shorter[i],
        ) by {
            assert(shorter[i] == events[i]);
        }
        lemma_learning_completes_iff_both_observed(config, shorter);
        lemma_observed_unfold(events);
        assert(passes_learning(events[events.len() - 1]));
        let before = run_spec(config, start, shorter);
        lemma_run_goes_forward(config, start, shorter);
        lemma_step_goes_forward(config, before.0, events.last());
    }
}

/// The two signals lead on to the rendezvous in either order, and one of
/// them alone does not. The address that the relay reported is advertised,
/// and the rendezvous is asked for with the signal that came second.
pub proof fn lemma_learning_in_either_order(config: ConfigView, address: Seq<u8>)
    ensures
        run_spec(
            config,
            PhaseView::LearningAddress(RendezvousState::spec_new()),
            seq![EventView::ObservedAddressSent, EventView::ObservedAddressReceived { address }],
        ) == (
            PhaseView::Rendezvousing,
            seq![
                ActionView::AddExternalAddress(address),
                crate::learning::rendezvous_action_spec(config),
            ],
        ),
        run_spec(
            config,
            PhaseView::LearningAddress(RendezvousState::spec_new()),
            seq![EventView::ObservedAddressReceived { address }, EventView::ObservedAddressSent],
        ) == (
            PhaseView::Rendezvousing,
            seq![
                ActionView::AddExternalAddress(address),
                crate::learning::rendezvous_action_spec(config),
            ],
        ),
        run_spec(
            config,
            PhaseView::LearningAddress(RendezvousState::spec_new()),
            seq![EventView::ObservedAddressSent],
        ).0 is LearningAddress,
        run_spec(
            config,
            PhaseView::LearningAddress(RendezvousState::spec_new()),
            seq![EventView::ObservedAddressReceived { address }],
        ).0 is LearningAddress,
{
    let start = PhaseView::LearningAddress(RendezvousState::spec_new());
    let sent = EventView::ObservedAddressSent;
    let received = EventView::ObservedAddressReceived { address };
    let none = Seq::<EventView>::empty();
    assert(run_spec(config, start, none) == stay(start));
    lemma_run_unfold(config, start, none, sent);
    lemma_run_unfold(config, start, none, received);
    assert(none.push(sent) =~= seq![sent]);
    assert(none.push(received) =~= seq![received]);
    lemma_run_unfold(config, start, seq![sent], received);
    lemma_run_unfold(config, start, seq![received], sent);
    assert(seq![sent].push(received) =~= seq![sent, received]);
    assert(seq![received].push(sent) =~= seq![received, sent]);
    let first = run_spec(config, start, seq![sent, received]);
    let second = run_spec(config, start, seq![received, sent]);
    let asked = seq![
        ActionView::AddExternalAddress(address),
        crate::learning::rendezvous_action_spec(config),
    ];
    assert(first.1 =~= asked);
    assert(second.1 =~= asked);
}

/// Whether a session in this phase has no path to the other peer yet, and
/// has not ended well either.
pub open spec fn before_path(phase: PhaseView) -> bool {
    match phase {
        PhaseView::Benchmarking { .. } => false,
        PhaseView::Done(result) => result is Err,
        _ => true,
    }
}

/// Where the session waits for a direct connection, a failed upgrade ends it
/// from the rendezvous on, with the failure as the cause, and nothing is
/// asked of the engine any more.
pub proof fn lemma_failed_upgrade_is_fatal(config: ConfigView, phase: PhaseView, error: Seq<char>)
    requires
        config.await_upgrade,
        phase is Rendezvousing || phase is AwaitingUpgrade || phase is Benchmarking,
    ensures
        step_spec(config, phase, EventView::HolePunchUpgradeFailed { error }) == crate::state::fail(
            crate::event::ErrorView::HolePunchFailure { cause: error },
        ),
{
}

/// Where the session waits for a direct connection, no run is asked for
/// before the upgrade has succeeded, and the measurement is not entered.
pub proof fn lemma_no_run_before_upgrade(
    config: ConfigView,
    phase: PhaseView,
    events: Seq<EventView>,
)
    requires
        config.await_upgrade,
        before_path(phase),
        forall|i: int| 0 <= i < events.len() ==> !(#[trigger] events[i] is HolePunchUpgradeSucceeded),
    ensures
        before_path(run_spec(config, phase, events).0),
        runs_asked(run_spec(config, phase, events).1) == 0,
    decreases events.len(),
{
    if events.len() > 0 {
        let shorter = events.drop_last();
        assert forall|i: int| 0 <= i < shorter.len() implies !(#[trigger] shorter[i]
            is HolePunchUpgradeSucceeded) by {
            assert(shorter[i] == events[i]);
        }
        lemma_no_run_before_upgrade(config, phase, shorter);
        let before = run_spec(config, phase, shorter);
        let last = step_spec(config, before.0, events.last());
        assert(!(events[events.len() - 1] is HolePunchUpgradeSucceeded));
        lemma_step_runs(config, before.0, events.last());
        lemma_count_of_concat(before.1, last.1, run_requests());
        assert(before_path(last.0));
        if runs_asked(last.1) > 0 {
            assert(runs_left(last.0) == 0);
        }
    }
}

/// A failed upgrade that comes before any success ends the session with an
/// error, and no run was asked for or ever will be.
pub proof fn lemma_failed_upgrade_ends_session_without_run(
    config: ConfigView,
    events: Seq<EventView>,
    error: Seq<char>,
    later: Seq<EventView>,
)
    requires
        config.await_upgrade,
        forall|i: int| 0 <= i < events.len() ==> !(#[trigger] events[i] is HolePunchUpgradeSucceeded),
    ensures
        run_spec(
            config,
            PhaseView::Bootstrapping,
            events.push(EventView::HolePunchUpgradeFailed { error }),
        ).0 is Done,
        run_spec(
            config,
            PhaseView::Bootstrapping,
            events.push(EventView::HolePunchUpgradeFailed { error }),
        ).0->Done_0 is Err,
        runs_asked(
            run_spec(
                config,
                PhaseView::Bootstrapping,
                events.push(EventView::HolePunchUpgradeFailed { error }) + later,
            ).1,
        ) == 0,
{
    let failed = EventView::HolePunchUpgradeFailed { error };
    let start = PhaseView::Bootstrapping;
    lemma_no_run_before_upgrade(config, start, events);
    lemma_run_unfold(config, start, events, failed);
    let before = run_spec(config, start, events);
    let end = run_spec(config, start, events.push(failed));
    lemma_step_runs(config, before.0, failed);
    lemma_count_of_concat(before.1, step_spec(config, before.0, failed).1, run_requests());
    lemma_run_split(config, start, events.push(failed), later);
    lemma_done_is_final(config, end.0, later);
    assert(end.1 + Seq::<ActionView>::empty() =~= end.1);
}

/// A run of events in two parts is the first part, then the second from
/// where the first left the session.
pub proof fn lemma_run_split(
    config: ConfigView,
    phase: PhaseView,
    first: Seq<EventView>,
    second: Seq<EventView>,
)
    ensures
        run_spec(config, phase, first + second).0 == run_spec(
            config,
            run_spec(config, phase, first).0,
            second,
        ).0,
        run_spec(config, phase, first + second).1 == run_spec(config, phase, first).1 + run_spec(
            config,
            run_spec(config, phase, first).0,
            second,
        ).1,
    decreases second.len(),
{
    let middle = run_spec(config, phase, first);
    if second.len() == 0 {
        assert(first + second =~= first);
        assert(middle.1 + Seq::<ActionView>::empty() =~= middle.1);
    } else {
        lemma_run_split(config, phase, first, second.drop_last());
        assert((first + second).drop_last() =~= first + second.drop_last());
        assert((first + second).last() == second.last());
        let head = run_spec(config, middle.0, second.drop_last());
        let last = step_spec(config, head.0, second.last());
        assert((middle.1 + head.1) + last.1 =~= middle.1 + (head.1 + last.1));
    }
}

/// One event advertises an address only when the relay reports this peer's
/// address for the first time, during address learning.
pub proof fn lemma_step_advertises(config: ConfigView, phase: PhaseView, event: EventView)
    ensures
        addresses_advertised(step_spec(config, phase, event).1) == if phase is LearningAddress
            && !phase->LearningAddress_0.learned_own_address && event is ObservedAddressReceived {
            1nat
        } else {
            0nat
        },
{
    let step = step_spec(config, phase, event);
    lemma_count_of_few(step.1[0], step.1[1], advertisements());
    if step.1.len() == 0 {
        assert(step.1 =~= Seq::<ActionView>::empty());
    } else if step.1.len() == 1 {
        assert(step.1 =~= seq![step.1[0]]);
    } else {
        assert(step.1.len() == 2);
        assert(step.1 =~= seq![step.1[0], step.1[1]]);
    }
}

/// The address that the relay reports is advertised once: never twice, not
/// before it is learned, and exactly once by the time address learning is
/// over.
pub proof fn lemma_address_advertised_once(config: ConfigView, events: Seq<EventView>)
    ensures
        addresses_advertised(run_spec(config, PhaseView::Bootstrapping, events).1) <= 1,
        match run_spec(config, PhaseView::Bootstrapping, events).0 {
            PhaseView::Bootstrapping => addresses_advertised(
                run_spec(config, PhaseView::Bootstrapping, events).1,
            ) == 0,
            PhaseView::LearningAddress(signals) => addresses_advertised(
                run_spec(config, PhaseView::Bootstrapping, events).1,
            ) == if signals.learned_own_address {
                1nat
            } else {
                0nat
            },
            PhaseView::Done(Err(_)) => true,
            _ => addresses_advertised(run_spec(config, PhaseView::Bootstrapping, events).1) == 1,
        },
    decreases events.len(),
{
    if events.len() > 0 {
        let before = run_spec(config, PhaseView::Bootstrapping, events.drop_last());
        let last = step_spec(config, before.0, events.last());
        lemma_address_advertised_once(config, events.drop_last());
        lemma_step_advertises(config, before.0, events.last());
        lemma_count_of_concat(before.1, last.1, advertisements());
    }
}

/// The rendezvous is not asked for before both signals of address learning
/// have been observed: a session that has left address learning for a later
/// phase has told the relay its address and has learned its own.
pub proof fn lemma_rendezvous_waits_for_both_signals(config: ConfigView, events: Seq<EventView>)
    ensures
        match run_spec(config, PhaseView::Bootstrapping, events).0 {
            PhaseView::Bootstrapping => true,
            PhaseView::LearningAddress(signals) => (signals.learned_own_address
                ==> address_was_learned(events)) && (signals.told_relay_its_address
                ==> relay_was_told(events)),
            PhaseView::Done(Err(_)) => true,
            _ => address_was_learned(events) && relay_was_told(events),
        },
    decreases events.len(),
{
    if events.len() > 0 {
        lemma_rendezvous_waits_for_both_signals(config, events.drop_last());
        lemma_observed_unfold(events);
    }
}

/// The actions that dial the given address.
pub open spec fn dials_of(address: Seq<u8>) -> spec_fn(ActionView) -> bool {
    |action: ActionView| action == ActionView::Dial(address)
}

/// One event dials the relay itself only when it ends the bootstrap. The
/// dial that the rendezvous begins with goes through the relay, to another
/// address.
pub proof fn lemma_step_dials_relay(config: ConfigView, phase: PhaseView, event: EventView)
    ensures
        count_of(step_spec(config, phase, event).1, dials_of(config.relay)) == if phase
            is Bootstrapping && event is SettleElapsed {
            1nat
        } else {
            0nat
        },
{
    let step = step_spec(config, phase, event);
    lemma_count_of_few(step.1[0], step.1[1], dials_of(config.relay));
    if let Party::Initiator { target } = config.party {
        crate::address::lemma_circuit_address_shape(config.relay, target);
        assert(crate::address::circuit_to_peer_bytes(config.relay, target).len()
            > config.relay.len());
    }
    if step.1.len() == 0 {
        assert(step.1 =~= Seq::<ActionView>::empty());
    } else if step.1.len() == 1 {
        assert(step.1 =~= seq![step.1[0]]);
    } else {
        assert(step.1.len() == 2);
        assert(step.1 =~= seq![step.1[0], step.1[1]]);
    }
}

/// The relay is dialled once: not while the bootstrap goes on, exactly once
/// by the time it is over, and never again.
pub proof fn lemma_relay_dialled_once(config: ConfigView, events: Seq<EventView>)
    ensures
        count_of(run_spec(config, PhaseView::Bootstrapping, events).1, dials_of(config.relay))
            <= 1,
        match run_spec(config, PhaseView::Bootstrapping, events).0 {
            PhaseView::Bootstrapping => count_of(
                run_spec(config, PhaseView::Bootstrapping, events).1,
                dials_of(config.relay),
            ) == 0,
            PhaseView::Done(Err(_)) => true,
            _ => count_of(
                run_spec(config, PhaseView::Bootstrapping, events).1,
                dials_of(config.relay),
            ) == 1,
        },
    decreases events.len(),
{
    if events.len() > 0 {
        let before = run_spec(config, PhaseView::Bootstrapping, events.drop_last());
        let last = step_spec(config, before.0, events.last());
        lemma_relay_dialled_once(config, events.drop_last());
        lemma_step_dials_relay(config, before.0, events.last());
        lemma_count_of_concat(before.1, last.1, dials_of(config.relay));
    }
}

/// The wait for the upgrade has no way out but the engine's word: while the
/// engine reports neither success nor failure of the upgrade, the session
/// goes on waiting, however long, unless it breaks off over something else.
/// No time limit is kept here.
pub proof fn lemma_upgrade_wait_ends_only_on_report(config: ConfigView, events: Seq<EventView>)
    requires
        forall|i: int|
            0 <= i < events.len() ==> !(#[trigger] events[i] is HolePunchUpgradeSucceeded)
                && !(events[i] is HolePunchUpgradeFailed),
    ensures
        run_spec(config, PhaseView::AwaitingUpgrade, events).0 is AwaitingUpgrade || (run_spec(
            config,
            PhaseView::AwaitingUpgrade,
            events,
        ).0 is Done && run_spec(config, PhaseView::AwaitingUpgrade, events).0->Done_0 is Err),
        run_spec(config, PhaseView::AwaitingUpgrade, events).1 == Seq::<ActionView>::empty(),
    decreases events.len(),
{
    if events.len() > 0 {
        let shorter = events.drop_last();
        assert forall|i: int| 0 <= i < shorter.len() implies !(#[trigger] shorter[i]
            is HolePunchUpgradeSucceeded) && !(shorter[i] is HolePunchUpgradeFailed) by {
            assert(shorter[i] == events[i]);
        }
        lemma_upgrade_wait_ends_only_on_report(config, shorter);
        let last = events[events.len() - 1];
        assert(!(last is HolePunchUpgradeSucceeded) && !(last is HolePunchUpgradeFailed));
        let before = run_spec(config, PhaseView::AwaitingUpgrade, shorter);
        let step = step_spec(config, before.0, events.last());
        assert(before.1 + step.1 =~= Seq::<ActionView>::empty());
    }
}

} // verus!
