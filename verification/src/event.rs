//! What the networking engine reports to a session, what a session asks of
//! it, and how a session ends.
//!
//! Each of these types has a view in which an address stands as its bytes
//! and a message as its characters. The rules of a session are stated over
//! the views.

use crate::address::multiaddr_bytes;
use crate::run::RunOutcome;
use crate::run::RunParameters;
use libp2p::Multiaddr;
use libp2p::PeerId;
use vstd::prelude::*;

verus! {

/// One report of the networking engine, or of the timer that bounds the
/// bootstrap. Of each report a session keeps only what its rules read.
#[derive(Debug, PartialEq, Eq)]
pub enum EngineEvent {
    /// The engine listens on one more address.
    NewListenAddress,
    /// The engine has begun to dial.
    Dialing,
    /// A connection stands.
    ConnectionEstablished,
    /// A dial of this peer did not lead to a connection.
    OutgoingConnectionError { error: String },
    /// This peer told another which address it sees it under.
    ObservedAddressSent,
    /// Another peer told this one which address it sees it under.
    ObservedAddressReceived { address: Multiaddr },
    /// The relayed connection was replaced by a direct one.
    HolePunchUpgradeSucceeded,
    /// The attempt to reach the other peer directly was given up.
    HolePunchUpgradeFailed { error: String },
    /// The relay keeps a slot for this peer.
    ReservationAccepted,
    /// The relay refused a slot, or failed while granting one.
    ReservationError { error: String },
    /// A keep-alive round trip.
    Heartbeat,
    /// The run that this peer drove is over and took this long.
    RunCompleted { elapsed_nanos: u128 },
    /// The run that this peer drove broke off.
    RunFailed { error: String },
    /// A run that another peer drove against this one is over.
    RunFinished,
    /// The settling window of the bootstrap is over.
    SettleElapsed,
    /// Anything else that the engine tells for the record only.
    Informational,
}

/// An [`EngineEvent`] over plain values.
pub enum EventView {
    NewListenAddress,
    Dialing,
    ConnectionEstablished,
    OutgoingConnectionError { error: Seq<char> },
    ObservedAddressSent,
    ObservedAddressReceived { address: Seq<u8> },
    HolePunchUpgradeSucceeded,
    HolePunchUpgradeFailed { error: Seq<char> },
    ReservationAccepted,
    ReservationError { error: Seq<char> },
    Heartbeat,
    RunCompleted { elapsed_nanos: u128 },
    RunFailed { error: Seq<char> },
    RunFinished,
    SettleElapsed,
    Informational,
}

impl View for EngineEvent {
    type V = EventView;

    open spec fn view(&self) -> EventView {
        match *self {
            EngineEvent::NewListenAddress => EventView::NewListenAddress,
            EngineEvent::Dialing => EventView::Dialing,
            EngineEvent::ConnectionEstablished => EventView::ConnectionEstablished,
            EngineEvent::OutgoingConnectionError { error } => EventView::OutgoingConnectionError {
                error: error@,
            },
            EngineEvent::ObservedAddressSent => EventView::ObservedAddressSent,
            EngineEvent::ObservedAddressReceived { address } => EventView::ObservedAddressReceived {
                address: multiaddr_bytes(address),
            },
            EngineEvent::HolePunchUpgradeSucceeded => EventView::HolePunchUpgradeSucceeded,
            EngineEvent::HolePunchUpgradeFailed { error } => EventView::HolePunchUpgradeFailed {
                error: error@,
            },
            EngineEvent::ReservationAccepted => EventView::ReservationAccepted,
            EngineEvent::ReservationError { error } => EventView::ReservationError {
                error: error@,
            },
            EngineEvent::Heartbeat => EventView::Heartbeat,
            EngineEvent::RunCompleted { elapsed_nanos } => EventView::RunCompleted {
                elapsed_nanos,
            },
            EngineEvent::RunFailed { error } => EventView::RunFailed { error: error@ },
            EngineEvent::RunFinished => EventView::RunFinished,
            EngineEvent::SettleElapsed => EventView::SettleElapsed,
            EngineEvent::Informational => EventView::Informational,
        }
    }
}

/// One thing a session asks of the networking engine, or of the timer.
#[derive(Debug, PartialEq, Eq)]
pub enum Action {
    /// Listen on this address.
    Listen(Multiaddr),
    /// Report `SettleElapsed` once this many seconds have gone by.
    StartSettleTimer { seconds: u64 },
    /// Dial this address.
    Dial(Multiaddr),
    /// Advertise this address as one under which this peer is reached.
    AddExternalAddress(Multiaddr),
    /// Ask the relay for a slot by listening on this address through it.
    RequestReservation(Multiaddr),
    /// Drive one run against this peer.
    RunBenchmark { peer: PeerId, parameters: RunParameters },
}

/// An [`Action`] over plain values.
pub enum ActionView {
    Listen(Seq<u8>),
    StartSettleTimer { seconds: u64 },
    Dial(Seq<u8>),
    AddExternalAddress(Seq<u8>),
    RequestReservation(Seq<u8>),
    RunBenchmark { peer: PeerId, parameters: RunParameters },
}

impl View for Action {
    type V = ActionView;

    open spec fn view(&self) -> ActionView {
        match *self {
            Action::Listen(address) => ActionView::Listen(multiaddr_bytes(address)),
            Action::StartSettleTimer { seconds } => ActionView::StartSettleTimer { seconds },
            Action::Dial(address) => ActionView::Dial(multiaddr_bytes(address)),
            Action::AddExternalAddress(address) => ActionView::AddExternalAddress(
                multiaddr_bytes(address),
            ),
            Action::RequestReservation(address) => ActionView::RequestReservation(
                multiaddr_bytes(address),
            ),
            Action::RunBenchmark { peer, parameters } => ActionView::RunBenchmark {
                peer,
                parameters,
            },
        }
    }
}

/// The views of a list of actions, in the same order.
pub open spec fn actions_view(actions: Seq<Action>) -> Seq<ActionView> {
    actions.map_values(|action: Action| action@)
}

/// Why a session broke off. Each of these ends the session: none is retried.
#[derive(Debug, PartialEq, Eq)]
pub enum SessionError {
    /// The engine reported what the session, where it stood, had no use for.
    ProtocolViolation { event: EngineEvent },
    /// A dial or a request for a reservation failed.
    TransportFailure { cause: String },
    /// No direct connection could be made.
    HolePunchFailure { cause: String },
    /// The run broke off although a path to the other peer stood.
    BenchmarkFailure { cause: String },
}

/// A [`SessionError`] over plain values.
pub enum ErrorView {
    ProtocolViolation { event: EventView },
    TransportFailure { cause: Seq<char> },
    HolePunchFailure { cause: Seq<char> },
    BenchmarkFailure { cause: Seq<char> },
}

impl View for SessionError {
    type V = ErrorView;

    open spec fn view(&self) -> ErrorView {
        match *self {
            SessionError::ProtocolViolation { event } => ErrorView::ProtocolViolation {
                event: event@,
            },
            SessionError::TransportFailure { cause } => ErrorView::TransportFailure {
                cause: cause@,
            },
            SessionError::HolePunchFailure { cause } => ErrorView::HolePunchFailure {
                cause: cause@,
            },
            SessionError::BenchmarkFailure { cause } => ErrorView::BenchmarkFailure {
                cause: cause@,
            },
        }
    }
}

/// How a session ended well.
#[derive(Clone, Copy, Debug, PartialEq, Eq, Structural)]
pub enum Completion {
    /// This peer drove the run, and this is what it measured.
    Measured(RunOutcome),
    /// Another peer drove a run against this one. The measurement is with it.
    Served,
}

} // verus!
