//! The wait for a direct connection: the engine tries to replace the relayed
//! connection by a direct one and reports how that went. The monitor only
//! watches. It asks nothing of the engine, and it sets no time limit: that
//! is the engine's to keep.

use crate::event::Action;
use crate::event::EngineEvent;
use crate::event::ErrorView;
use crate::event::EventView;
use crate::event::SessionError;
use crate::runner::path_ready;
use crate::runner::path_ready_spec;
use crate::state::fail;
use crate::state::fail_with;
use crate::state::stay;
use crate::state::stay_in;
use crate::state::step_matches;
use crate::state::violate;
use crate::state::violation;
use crate::state::ConfigView;
use crate::state::Party;
use crate::state::Phase;
use crate::state::PhaseView;
use crate::state::SessionConfig;
use crate::state::StepView;
use vstd::prelude::*;

verus! {

/// Where the attempt to connect directly stands.
#[derive(Clone, Copy, Debug, PartialEq, Eq, Structural)]
pub enum UpgradeState {
    AwaitingUpgrade,
    UpgradeSucceeded,
    UpgradeFailed,
}

impl UpgradeState {
    /// The state after an event. Only the two reports on the upgrade move
    /// the monitor, and only while it waits: once the attempt has succeeded
    /// or failed, that stands.
    pub open spec fn spec_observe(self, event: EventView) -> UpgradeState {
        match self {
            UpgradeState::AwaitingUpgrade => match event {
                EventView::HolePunchUpgradeSucceeded => UpgradeState::UpgradeSucceeded,
                EventView::HolePunchUpgradeFailed { .. } => UpgradeState::UpgradeFailed,
                _ => UpgradeState::AwaitingUpgrade,
            },
            settled => settled,
        }
    }

    /// Takes one event.
    pub fn observe(self, event: &EngineEvent) -> (next: UpgradeState)
        ensures
            next == self.spec_observe(event@),
    {
        match self {
            UpgradeState::AwaitingUpgrade => match event {
                EngineEvent::HolePunchUpgradeSucceeded => UpgradeState::UpgradeSucceeded,
                EngineEvent::HolePunchUpgradeFailed { .. } => UpgradeState::UpgradeFailed,
                _ => UpgradeState::AwaitingUpgrade,
            },
            UpgradeState::UpgradeSucceeded => UpgradeState::UpgradeSucceeded,
            UpgradeState::UpgradeFailed => UpgradeState::UpgradeFailed,
        }
    }
}

/// What an event leads to while the upgrade is awaited.
///
/// Success opens the measurement. Failure ends the session: there is no
/// falling back to the relayed connection. While neither has come, a lost
/// reservation ends a responder's session; a reservation at an initiator,
/// any report on a run and the settling window's end have no place here,
/// and the rest is let pass.
pub open spec fn upgrade_spec(config: ConfigView, event: EventView) -> StepView {
    match UpgradeState::AwaitingUpgrade.spec_observe(event) {
        UpgradeState::UpgradeSucceeded => path_ready_spec(config),
        UpgradeState::UpgradeFailed => fail(
            ErrorView::HolePunchFailure { cause: event->HolePunchUpgradeFailed_error },
        ),
        UpgradeState::AwaitingUpgrade => match event {
            EventView::ReservationAccepted => match config.party {
                Party::Responder => stay(PhaseView::AwaitingUpgrade),
                Party::Initiator { .. } => violation(event),
            },
            EventView::ReservationError { error } => match config.party {
                Party::Responder => fail(ErrorView::TransportFailure { cause: error }),
                Party::Initiator { .. } => violation(event),
            },
            EventView::RunCompleted { .. }
            | EventView::RunFailed { .. }
            | EventView::RunFinished
            | EventView::SettleElapsed => violation(event),
            _ => stay(PhaseView::AwaitingUpgrade),
        },
    }
}

/// Takes one event while the upgrade is awaited.
pub fn upgrade_step(config: &SessionConfig, event: EngineEvent) -> (step: (Phase, Vec<Action>))
    ensures
        step_matches(step, upgrade_spec(config@, event@)),
{
    let initiator = match config.party {
        Party::Initiator { .. } => true,
        Party::Responder => false,
    };
    match event {
        EngineEvent::HolePunchUpgradeSucceeded => path_ready(config),
        EngineEvent::HolePunchUpgradeFailed { error } => fail_with(
            SessionError::HolePunchFailure { cause: error },
        ),
        EngineEvent::ReservationAccepted => {
            if initiator {
                violate(EngineEvent::ReservationAccepted)
            } else {
                stay_in(Phase::AwaitingUpgrade)
            }
        },
        EngineEvent::ReservationError { error } => {
            if initiator {
                violate(EngineEvent::ReservationError { error })
            } else {
                fail_with(SessionError::TransportFailure { cause: error })
            }
        },
        EngineEvent::RunCompleted { elapsed_nanos } => violate(
            EngineEvent::RunCompleted { elapsed_nanos },
        ),
        EngineEvent::RunFailed { error } => violate(EngineEvent::RunFailed { error }),
        EngineEvent::RunFinished => violate(EngineEvent::RunFinished),
        EngineEvent::SettleElapsed => violate(EngineEvent::SettleElapsed),
        EngineEvent::ConnectionEstablished
        | EngineEvent::OutgoingConnectionError { .. }
        | EngineEvent::NewListenAddress
        | EngineEvent::Dialing
        | EngineEvent::Heartbeat
        | EngineEvent::ObservedAddressSent
        | EngineEvent::ObservedAddressReceived { .. }
        | EngineEvent::Informational => stay_in(Phase::AwaitingUpgrade),
    }
}

} // verus!
