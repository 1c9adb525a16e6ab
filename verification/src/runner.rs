//! The measurement itself: an initiator asks for its run once a path to the
//! other peer stands, and once only. A responder waits until a run against
//! it is over.

use crate::event::Action;
use crate::event::ActionView;
use crate::event::Completion;
use crate::event::EngineEvent;
use crate::event::ErrorView;
use crate::event::EventView;
use crate::event::SessionError;
use crate::run::RunOutcome;
use crate::state::fail;
use crate::state::fail_with;
use crate::state::no_actions;
use crate::state::one_action;
use crate::state::stay;
use crate::state::stay_in;
use crate::state::step_matches;
use crate::state::violate;
use crate::state::violation;
use crate::state::ConfigView;
use crate::state::Party;
use crate::state::Phase;
use crate::state::PhaseView;
use crate::state::SessionConfig;
use crate::state::StepView;
use vstd::prelude::*;

verus! {

/// What a session does once a path to the other peer stands. An initiator
/// asks for its run against its target, with the parameters it was given.
/// A responder asks for nothing and waits.
pub open spec fn path_ready_spec(config: ConfigView) -> StepView {
    match config.party {
        Party::Initiator { target } => (
            PhaseView::Benchmarking { issued: true },
            seq![ActionView::RunBenchmark { peer: target, parameters: config.parameters }],
        ),
        Party::Responder => (PhaseView::Benchmarking { issued: false }, Seq::empty()),
    }
}

/// Whether an event says that a path to the other peer stands: the upgrade
/// to a direct connection where the session waits for one, a connection
/// where it does not.
pub open spec fn confirms_path(config: ConfigView, event: EventView) -> bool {
    if config.await_upgrade {
        event is HolePunchUpgradeSucceeded
    } else {
        event is ConnectionEstablished
    }
}

/// What an event leads to while the measurement is awaited.
///
/// An event that confirms the path once more asks for no second run. The end
/// of the initiator's run ends the session with what was measured, its
/// failure with an error. Either of them before the run was asked for, or
/// at a responder, breaks the session off. A responder is done when a run
/// against it is over. A failed upgrade, where the session waits for one,
/// and a lost reservation end the session. A reservation that an initiator
/// never asked for, and the settling window's end, have no place here.
/// The rest is let pass.
pub open spec fn benchmark_spec(config: ConfigView, issued: bool, event: EventView) -> StepView {
    let here = PhaseView::Benchmarking { issued };
    match event {
        EventView::RunCompleted { elapsed_nanos } => match config.party {
            Party::Initiator { .. } if issued => (
                PhaseView::Done(
                    Ok(
                        Completion::Measured(
                            RunOutcome { parameters: config.parameters, elapsed_nanos },
                        ),
                    ),
                ),
                Seq::empty(),
            ),
            _ => violation(event),
        },
        EventView::RunFailed { error } => match config.party {
            Party::Initiator { .. } if issued => fail(ErrorView::BenchmarkFailure { cause: error }),
            _ => violation(event),
        },
        EventView::RunFinished => match config.party {
            Party::Responder => (PhaseView::Done(Ok(Completion::Served)), Seq::empty()),
            Party::Initiator { .. } => violation(event),
        },
        EventView::HolePunchUpgradeSucceeded | EventView::ConnectionEstablished => if !issued
            && confirms_path(config, event) {
            path_ready_spec(config)
        } else {
            stay(here)
        },
        EventView::HolePunchUpgradeFailed { error } => if config.await_upgrade {
            fail(ErrorView::HolePunchFailure { cause: error })
        } else {
            stay(here)
        },
        EventView::ReservationAccepted => match config.party {
            Party::Responder => stay(here),
            Party::Initiator { .. } => violation(event),
        },
        EventView::ReservationError { error } => match config.party {
            Party::Responder => fail(ErrorView::TransportFailure { cause: error }),
            Party::Initiator { .. } => violation(event),
        },
        EventView::SettleElapsed => violation(event),
        EventView::OutgoingConnectionError { .. }
        | EventView::NewListenAddress
        | EventView::Dialing
        | EventView::Heartbeat
        | EventView::ObservedAddressSent
        | EventView::ObservedAddressReceived { .. }
        | EventView::Informational => stay(here),
    }
}

/// Enters the measurement once a path to the other peer stands.
pub fn path_ready(config: &SessionConfig) -> (step: (Phase, Vec<Action>))
    ensures
        step_matches(step, path_ready_spec(config@)),
{
    match config.party {
        Party::Initiator { target } => (
            Phase::Benchmarking { issued: true },
            one_action(Action::RunBenchmark { peer: target, parameters: config.parameters }),
        ),
        Party::Responder => (Phase::Benchmarking { issued: false }, no_actions()),
    }
}

/// Takes one event while the measurement is awaited.
pub fn benchmark_step(config: &SessionConfig, issued: bool, event: EngineEvent) -> (step: (
    Phase,
    Vec<Action>,
))
    ensures
        step_matches(step, benchmark_spec(config@, issued, event@)),
{
    let initiator = match config.party {
        Party::Initiator { .. } => true,
        Party::Responder => false,
    };
    match event {
        EngineEvent::RunCompleted { elapsed_nanos } => {
            if initiator && issued {
                let outcome = RunOutcome { parameters: config.parameters, elapsed_nanos };
                (Phase::Done(Ok(Completion::Measured(outcome))), no_actions())
            } else {
                violate(EngineEvent::RunCompleted { elapsed_nanos })
            }
        },
        EngineEvent::RunFailed { error } => {
            if initiator && issued {
                fail_with(SessionError::BenchmarkFailure { cause: error })
            } else {
                violate(EngineEvent::RunFailed { error })
            }
        },
        EngineEvent::RunFinished => {
            if initiator {
                violate(EngineEvent::RunFinished)
            } else {
                (Phase::Done(Ok(Completion::Served)), no_actions())
            }
        },
        EngineEvent::HolePunchUpgradeSucceeded => {
            if !issued && config.await_upgrade {
                path_ready(config)
            } else {
                stay_in(Phase::Benchmarking { issued })
            }
        },
        EngineEvent::ConnectionEstablished => {
            if !issued && !config.await_upgrade {
                path_ready(config)
            } else {
                stay_in(Phase::Benchmarking { issued })
            }
        },
        EngineEvent::HolePunchUpgradeFailed { error } => {
            if config.await_upgrade {
                fail_with(SessionError::HolePunchFailure { cause: error })
            } else {
                stay_in(Phase::Benchmarking { issued })
            }
        },
        EngineEvent::ReservationAccepted => {
            if initiator {
                violate(EngineEvent::ReservationAccepted)
            } else {
                stay_in(Phase::Benchmarking { issued })
            }
        },
        EngineEvent::ReservationError { error } => {
            if initiator {
                violate(EngineEvent::ReservationError { error })
            } else {
                fail_with(SessionError::TransportFailure { cause: error })
            }
        },
        EngineEvent::SettleElapsed => violate(EngineEvent::SettleElapsed),
        EngineEvent::OutgoingConnectionError { .. }
        | EngineEvent::NewListenAddress
        | EngineEvent::Dialing
        | EngineEvent::Heartbeat
        | EngineEvent::ObservedAddressSent
        | EngineEvent::ObservedAddressReceived { .. }
        | EngineEvent::Informational => stay_in(Phase::Benchmarking { issued }),
    }
}

} // verus!
