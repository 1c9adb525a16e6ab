//! Address learning: the relay has been dialled, and the session waits until
//! it has learned its own address from the relay and has told the relay the
//! relay's. Both must happen, in either order. Then the rendezvous is asked
//! for: the reservation for a responder, the dial through the relay for an
//! initiator.

use crate::address::circuit_bytes;
use crate::address::circuit_dial_address;
use crate::address::circuit_listen_address;
use crate::address::circuit_to_peer_bytes;
use crate::event::Action;
use crate::event::ActionView;
use crate::event::EngineEvent;
use crate::event::EventView;
use crate::rendezvous::RendezvousSignal;
use crate::rendezvous::RendezvousState;
use crate::state::no_actions;
use crate::state::one_action;
use crate::state::stay;
use crate::state::stay_in;
use crate::state::step_matches;
use crate::state::violate;
use crate::state::violation;
use crate::state::with_action;
use crate::state::ConfigView;
use crate::state::Party;
use crate::state::Phase;
use crate::state::PhaseView;
use crate::state::SessionConfig;
use crate::state::StepView;
use vstd::prelude::*;

verus! {

/// What the rendezvous begins with: a responder asks the relay for a slot,
/// an initiator dials its target through the relay.
pub open spec fn rendezvous_action_spec(config: ConfigView) -> ActionView {
    match config.party {
        Party::Responder => ActionView::RequestReservation(circuit_bytes(config.relay)),
        Party::Initiator { target } => ActionView::Dial(
            circuit_to_peer_bytes(config.relay, target),
        ),
    }
}

/// Where address learning stands once a signal has been taken in. While a
/// signal is missing it goes on. Once both are in, the rendezvous is asked
/// for and the session moves on.
pub open spec fn learning_advance_spec(
    config: ConfigView,
    signals: RendezvousState,
    recorded: Seq<ActionView>,
) -> StepView {
    if signals.spec_is_complete() {
        (PhaseView::Rendezvousing, recorded.push(rendezvous_action_spec(config)))
    } else {
        (PhaseView::LearningAddress(signals), recorded)
    }
}

/// What an event leads to during address learning.
///
/// The address that the relay reports is advertised once, when it is first
/// learned. Reports of a new listening address, of a dial in progress, of a
/// connection and keep-alives are let pass. Any other event breaks the
/// session off.
pub open spec fn learning_spec(
    config: ConfigView,
    signals: RendezvousState,
    event: EventView,
) -> StepView {
    match event {
        EventView::ObservedAddressSent => learning_advance_spec(
            config,
            signals.spec_observe(RendezvousSignal::ToldRelayItsAddress),
            Seq::empty(),
        ),
        EventView::ObservedAddressReceived { address } => learning_advance_spec(
            config,
            signals.spec_observe(RendezvousSignal::LearnedOwnAddress),
            if signals.learned_own_address {
                Seq::empty()
            } else {
                seq![ActionView::AddExternalAddress(address)]
            },
        ),
        EventView::NewListenAddress
        | EventView::Dialing
        | EventView::ConnectionEstablished
        | EventView::Heartbeat => stay(PhaseView::LearningAddress(signals)),
        _ => violation(event),
    }
}

/// The action that the rendezvous begins with.
pub fn rendezvous_action(config: &SessionConfig) -> (action: Action)
    ensures
        action@ == rendezvous_action_spec(config@),
{
    match config.party {
        Party::Responder => Action::RequestReservation(
            circuit_listen_address(&config.relay_address),
        ),
        Party::Initiator { target } => Action::Dial(
            circuit_dial_address(&config.relay_address, target),
        ),
    }
}

/// Goes on with address learning, or moves on to the rendezvous.
fn learning_advance(config: &SessionConfig, signals: RendezvousState, recorded: Vec<Action>) -> (step:
    (Phase, Vec<Action>))
    ensures
        step_matches(
            step,
            learning_advance_spec(config@, signals, crate::event::actions_view(recorded@)),
        ),
{
    if signals.is_complete() {
        (Phase::Rendezvousing, with_action(recorded, rendezvous_action(config)))
    } else {
        (Phase::LearningAddress(signals), recorded)
    }
}

/// Takes one event during address learning.
pub fn learning_step(config: &SessionConfig, signals: RendezvousState, event: EngineEvent) -> (step:
    (Phase, Vec<Action>))
    ensures
        step_matches(step, learning_spec(config@, signals, event@)),
{
    match event {
        EngineEvent::ObservedAddressSent => learning_advance(
            config,
            signals.observe(RendezvousSignal::ToldRelayItsAddress),
            no_actions(),
        ),
        EngineEvent::ObservedAddressReceived { address } => {
            let recorded = if signals.learned_own_address {
                no_actions()
            } else {
                one_action(Action::AddExternalAddress(address))
            };
            learning_advance(
                config,
                signals.observe(RendezvousSignal::LearnedOwnAddress),
                recorded,
            )
        },
        EngineEvent::NewListenAddress
        | EngineEvent::Dialing
        | EngineEvent::ConnectionEstablished
        | EngineEvent::Heartbeat => stay_in(Phase::LearningAddress(signals)),
        other => violate(other),
    }
}

} // verus!
