//! What a session is given at its start, and where it stands at any moment.

use crate::address::multiaddr_bytes;
use crate::address::TransportMethod;
use crate::event::Action;
use crate::event::ActionView;
use crate::event::actions_view;
use crate::event::Completion;
use crate::event::EngineEvent;
use crate::event::ErrorView;
use crate::event::EventView;
use crate::event::SessionError;
use crate::rendezvous::RendezvousState;
use crate::role::SessionRole;
use crate::run::RunParameters;
use libp2p::Multiaddr;
use libp2p::PeerId;
use vstd::prelude::*;

verus! {

/// A role together with what the role needs: an initiator knows which peer
/// it is to reach. There is no initiator without one.
#[derive(Debug, PartialEq, Eq)]
pub enum Party {
    Initiator { target: PeerId },
    Responder,
}

impl Party {
    /// The role of this party.
    pub open spec fn spec_role(&self) -> SessionRole {
        match *self {
            Party::Initiator { .. } => SessionRole::Initiator,
            Party::Responder => SessionRole::Responder,
        }
    }

    /// The party that a role and the peer named beside it make up. A
    /// responder has no use for the peer. An initiator without one is none.
    pub open spec fn spec_assign(role: SessionRole, target: Option<PeerId>) -> Option<Party> {
        match role {
            SessionRole::Responder => Some(Party::Responder),
            SessionRole::Initiator => match target {
                Some(target) => Some(Party::Initiator { target }),
                None => None,
            },
        }
    }

    #[verifier::when_used_as_spec(spec_role)]
    pub fn role(&self) -> (role: SessionRole)
        ensures
            role == self.spec_role(),
    {
        match self {
            Party::Initiator { .. } => SessionRole::Initiator,
            Party::Responder => SessionRole::Responder,
        }
    }

    #[verifier::when_used_as_spec(spec_assign)]
    pub fn assign(role: SessionRole, target: Option<PeerId>) -> (party: Option<Party>)
        ensures
            party == Party::spec_assign(role, target),
    {
        match role {
            SessionRole::Responder => Some(Party::Responder),
            SessionRole::Initiator => match target {
                Some(target) => Some(Party::Initiator { target }),
                None => None,
            },
        }
    }
}

/// What a session is started with. None of it changes while the session runs.
#[derive(Debug, PartialEq, Eq)]
pub struct SessionConfig {
    /// The part this peer plays, and for an initiator the peer to reach.
    pub party: Party,
    /// The transport to listen on.
    pub transport: TransportMethod,
    /// Where the relay is reached.
    pub relay_address: Multiaddr,
    /// The run that an initiator drives.
    pub parameters: RunParameters,
    /// Whether the run waits until the relayed connection has been replaced
    /// by a direct one. Where it does not, a connection through the relay
    /// is path enough.
    pub await_upgrade: bool,
}

/// A [`SessionConfig`] over plain values.
pub struct ConfigView {
    pub party: Party,
    pub transport: TransportMethod,
    pub relay: Seq<u8>,
    pub parameters: RunParameters,
    pub await_upgrade: bool,
}

impl View for SessionConfig {
    type V = ConfigView;

    open spec fn view(&self) -> ConfigView {
        ConfigView {
            party: self.party,
            transport: self.transport,
            relay: multiaddr_bytes(self.relay_address),
            parameters: self.parameters,
            await_upgrade: self.await_upgrade,
        }
    }
}

/// Where a session stands. The phases follow one another in the order in
/// which they are listed, and `Done` is the last: a session never goes back.
#[derive(Debug, PartialEq, Eq)]
pub enum Phase {
    /// Listening has been asked for and the settling window runs.
    Bootstrapping,
    /// The relay has been dialled and the two address signals are awaited.
    LearningAddress(RendezvousState),
    /// The reservation, or the dial through the relay, has been asked for.
    Rendezvousing,
    /// A connection through the relay stands and a direct one is awaited.
    AwaitingUpgrade,
    /// A path to the other peer stands. `issued` says whether this peer has
    /// asked for its run.
    Benchmarking { issued: bool },
    /// The session is over.
    Done(Result<Completion, SessionError>),
}

/// A [`Phase`] over plain values.
pub enum PhaseView {
    Bootstrapping,
    LearningAddress(RendezvousState),
    Rendezvousing,
    AwaitingUpgrade,
    Benchmarking { issued: bool },
    Done(Result<Completion, ErrorView>),
}

impl View for Phase {
    type V = PhaseView;

    open spec fn view(&self) -> PhaseView {
        match *self {
            Phase::Bootstrapping => PhaseView::Bootstrapping,
            Phase::LearningAddress(flags) => PhaseView::LearningAddress(flags),
            Phase::Rendezvousing => PhaseView::Rendezvousing,
            Phase::AwaitingUpgrade => PhaseView::AwaitingUpgrade,
            Phase::Benchmarking { issued } => PhaseView::Benchmarking { issued },
            Phase::Done(Ok(completion)) => PhaseView::Done(Ok(completion)),
            Phase::Done(Err(error)) => PhaseView::Done(Err(error@)),
        }
    }
}

impl PhaseView {
    /// The place of a phase in the order of a session.
    pub open spec fn rank(self) -> nat {
        match self {
            PhaseView::Bootstrapping => 0,
            PhaseView::LearningAddress(_) => 1,
            PhaseView::Rendezvousing => 2,
            PhaseView::AwaitingUpgrade => 3,
            PhaseView::Benchmarking { .. } => 4,
            PhaseView::Done(_) => 5,
        }
    }
}

/// What one event leads to: the phase after it, and what is asked of the
/// engine on the way, in the order in which it is to be done.
pub type StepView = (PhaseView, Seq<ActionView>);

/// The step that leaves the phase as it is and asks for nothing.
pub open spec fn stay(phase: PhaseView) -> StepView {
    (phase, Seq::empty())
}

/// The step that ends the session with an error and asks for nothing.
pub open spec fn fail(error: ErrorView) -> StepView {
    (PhaseView::Done(Err(error)), Seq::empty())
}

/// The step that ends the session because the event has no place in the
/// phase in which it came.
pub open spec fn violation(event: EventView) -> StepView {
    fail(ErrorView::ProtocolViolation { event })
}

/// Whether an exec step is the given step over plain values.
pub open spec fn step_matches(step: (Phase, Vec<Action>), view: StepView) -> bool {
    step.0@ == view.0 && actions_view(step.1@) == view.1
}

/// No action.
pub(crate) fn no_actions() -> (actions: Vec<Action>)
    ensures
        actions_view(actions@) == Seq::<ActionView>::empty(),
{
    let actions: Vec<Action> = Vec::new();
    assert(actions_view(actions@) =~= Seq::<ActionView>::empty());
    actions
}

/// One action.
pub(crate) fn one_action(action: Action) -> (actions: Vec<Action>)
    ensures
        actions_view(actions@) == seq![action@],
{
    let mut actions: Vec<Action> = Vec::new();
    actions.push(action);
    assert(actions_view(actions@) =~= seq![action@]);
    actions
}

/// The actions given, and one more behind them.
pub(crate) fn with_action(actions: Vec<Action>, action: Action) -> (longer: Vec<Action>)
    ensures
        actions_view(longer@) == actions_view(actions@).push(action@),
{
    let mut longer = actions;
    longer.push(action);
    assert(actions_view(longer@) =~= actions_view(actions@).push(action@));
    longer
}

/// Leaves the phase as it is.
pub(crate) fn stay_in(phase: Phase) -> (step: (Phase, Vec<Action>))
    ensures
        step_matches(step, stay(phase@)),
{
    (phase, no_actions())
}

/// Ends the session with an error.
pub(crate) fn fail_with(error: SessionError) -> (step: (Phase, Vec<Action>))
    ensures
        step_matches(step, fail(error@)),
{
    (Phase::Done(Err(error)), no_actions())
}

/// Ends the session over an event that has no place where it came.
pub(crate) fn violate(event: EngineEvent) -> (step: (Phase, Vec<Action>))
    ensures
        step_matches(step, violation(event@)),
{
    fail_with(SessionError::ProtocolViolation { event })
}

} // verus!
