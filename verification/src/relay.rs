//! The rendezvous at the relay: a responder has asked for a reservation and
//! waits for the relay's answer, an initiator has dialled its target through
//! the relay and waits for the connection.

use crate::event::Action;
use crate::event::EngineEvent;
use crate::event::ErrorView;
use crate::event::EventView;
use crate::event::SessionError;
use crate::runner::path_ready;
use crate::runner::path_ready_spec;
use crate::state::fail;
use crate::state::fail_with;
use crate::state::stay;
use crate::state::stay_in;
use crate::state::step_matches;
use crate::state::violate;
use crate::state::violation;
use crate::state::ConfigView;
use crate::state::Party;
use crate::state::Phase;
use crate::state::PhaseView;
use crate::state::SessionConfig;
use crate::state::StepView;
use vstd::prelude::*;

verus! {

/// What a session does once the rendezvous has come about: it waits for the
/// direct connection where it was told to, and else takes the relayed path
/// as it is.
pub open spec fn rendezvous_done_spec(config: ConfigView) -> StepView {
    if config.await_upgrade {
        stay(PhaseView::AwaitingUpgrade)
    } else {
        path_ready_spec(config)
    }
}

/// What an event leads to during the rendezvous.
///
/// For a responder the rendezvous has come about when the relay accepts the
/// reservation, for an initiator when the connection stands. A reservation
/// that is refused, and a dial that fails, end the session: nothing is tried
/// again. An answer to a reservation at an initiator, which asked for none,
/// breaks the session off, and so do a report on a run and the settling
/// window's end. Where the session waits for a direct connection, its
/// success opens the measurement at once and its failure ends the session.
/// The rest is let pass.
pub open spec fn rendezvous_spec(config: ConfigView, event: EventView) -> StepView {
    match event {
        EventView::ReservationAccepted => match config.party {
            Party::Responder => rendezvous_done_spec(config),
            Party::Initiator { .. } => violation(event),
        },
        EventView::ReservationError { error } => match config.party {
            Party::Responder => fail(ErrorView::TransportFailure { cause: error }),
            Party::Initiator { .. } => violation(event),
        },
        EventView::ConnectionEstablished => match config.party {
            Party::Initiator { .. } => rendezvous_done_spec(config),
            Party::Responder => stay(PhaseView::Rendezvousing),
        },
        EventView::OutgoingConnectionError { error } => fail(
            ErrorView::TransportFailure { cause: error },
        ),
        EventView::HolePunchUpgradeSucceeded => if config.await_upgrade {
            path_ready_spec(config)
        } else {
            stay(PhaseView::Rendezvousing)
        },
        EventView::HolePunchUpgradeFailed { error } => if config.await_upgrade {
            fail(ErrorView::HolePunchFailure { cause: error })
        } else {
            stay(PhaseView::Rendezvousing)
        },
        EventView::RunCompleted { .. }
        | EventView::RunFailed { .. }
        | EventView::RunFinished
        | EventView::SettleElapsed => violation(event),
        EventView::NewListenAddress
        | EventView::Dialing
        | EventView::Heartbeat
        | EventView::ObservedAddressSent
        | EventView::ObservedAddressReceived { .. }
        | EventView::Informational => stay(PhaseView::Rendezvousing),
    }
}

/// Leaves the rendezvous once it has come about.
pub fn rendezvous_done(config: &SessionConfig) -> (step: (Phase, Vec<Action>))
    ensures
        step_matches(step, rendezvous_done_spec(config@)),
{
    if config.await_upgrade {
        stay_in(Phase::AwaitingUpgrade)
    } else {
        path_ready(config)
    }
}

/// Takes one event during the rendezvous.
pub fn rendezvous_step(config: &SessionConfig, event: EngineEvent) -> (step: (Phase, Vec<Action>))
    ensures
        step_matches(step, rendezvous_spec(config@, event@)),
{
    let initiator = match config.party {
        Party::Initiator { .. } => true,
        Party::Responder => false,
    };
    match event {
        EngineEvent::ReservationAccepted => {
            if initiator {
                violate(EngineEvent::ReservationAccepted)
            } else {
                rendezvous_done(config)
            }
        },
        EngineEvent::ReservationError { error } => {
            if initiator {
                violate(EngineEvent::ReservationError { error })
            } else {
                fail_with(SessionError::TransportFailure { cause: error })
            }
        },
        EngineEvent::ConnectionEstablished => {
            if initiator {
                rendezvous_done(config)
            } else {
                stay_in(Phase::Rendezvousing)
            }
        },
        EngineEvent::OutgoingConnectionError { error } => fail_with(
            SessionError::TransportFailure { cause: error },
        ),
        EngineEvent::HolePunchUpgradeSucceeded => {
            if config.await_upgrade {
                path_ready(config)
            } else {
                stay_in(Phase::Rendezvousing)
            }
        },
        EngineEvent::HolePunchUpgradeFailed { error } => {
            if config.await_upgrade {
                fail_with(SessionError::HolePunchFailure { cause: error })
            } else {
                stay_in(Phase::Rendezvousing)
            }
        },
        EngineEvent::RunCompleted { elapsed_nanos } => violate(
            EngineEvent::RunCompleted { elapsed_nanos },
        ),
        EngineEvent::RunFailed { error } => violate(EngineEvent::RunFailed { error }),
        EngineEvent::RunFinished => violate(EngineEvent::RunFinished),
        EngineEvent::SettleElapsed => violate(EngineEvent::SettleElapsed),
        EngineEvent::NewListenAddress
        | EngineEvent::Dialing
        | EngineEvent::Heartbeat
        | EngineEvent::ObservedAddressSent
        | EngineEvent::ObservedAddressReceived { .. }
        | EngineEvent::Informational => stay_in(Phase::Rendezvousing),
    }
}

} // verus!
