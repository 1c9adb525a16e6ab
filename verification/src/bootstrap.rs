//! The bootstrap of a session: listen on every interface, then give the
//! engine a fixed window in which to report where it listens.

use crate::address::listen_address;
use crate::address::listen_text;
use crate::address::multiaddr_bytes;
use crate::address::parsed_multiaddr;
use crate::address::TransportMethod;
use crate::event::Action;
use crate::event::ActionView;
use crate::event::EngineEvent;
use crate::event::ErrorView;
use crate::event::EventView;
use crate::event::SessionError;
use crate::rendezvous::RendezvousState;
use crate::state::fail;
use crate::state::fail_with;
use crate::state::one_action;
use crate::state::stay;
use crate::state::stay_in;
use crate::state::step_matches;
use crate::state::violate;
use crate::state::violation;
use crate::state::with_action;
use crate::state::ConfigView;
use crate::state::Phase;
use crate::state::PhaseView;
use crate::state::SessionConfig;
use crate::state::StepView;
use libp2p::Multiaddr;
use vstd::prelude::*;

verus! {

/// Seconds that the engine is given to report its listening addresses.
pub const SETTLE_WINDOW_SECONDS: u64 = 1;

/// The listen address that was made, or the message with which it was
/// refused, over plain values.
pub open spec fn listen_result_view(listen: Result<Multiaddr, String>) -> Result<
    Seq<u8>,
    Seq<char>,
> {
    match listen {
        Ok(address) => Ok(multiaddr_bytes(address)),
        Err(cause) => Err(cause@),
    }
}

/// How a session opens. With an address to listen on, it asks the engine to
/// listen there and starts the settling window. Without one it is over
/// before it began.
pub open spec fn open_bootstrap_spec(listen: Result<Seq<u8>, Seq<char>>) -> StepView {
    match listen {
        Ok(address) => (
            PhaseView::Bootstrapping,
            seq![
                ActionView::Listen(address),
                ActionView::StartSettleTimer { seconds: SETTLE_WINDOW_SECONDS },
            ],
        ),
        Err(cause) => fail(ErrorView::TransportFailure { cause }),
    }
}

/// What an event leads to during the bootstrap. A report of one more
/// listening address is taken note of. The end of the settling window ends
/// the bootstrap, however many addresses were reported: the relay is dialled
/// and address learning begins with nothing learned. Any other event breaks
/// the session off.
pub open spec fn bootstrap_spec(config: ConfigView, event: EventView) -> StepView {
    match event {
        EventView::NewListenAddress => stay(PhaseView::Bootstrapping),
        EventView::SettleElapsed => (
            PhaseView::LearningAddress(RendezvousState::spec_new()),
            seq![ActionView::Dial(config.relay)],
        ),
        _ => violation(event),
    }
}

/// Opens a session on the listen address that was made for it.
pub fn open_bootstrap(listen: Result<Multiaddr, String>) -> (step: (Phase, Vec<Action>))
    ensures
        step_matches(step, open_bootstrap_spec(listen_result_view(listen))),
{
    match listen {
        Ok(address) => {
            let ghost bytes = multiaddr_bytes(address);
            let actions = with_action(
                one_action(Action::Listen(address)),
                Action::StartSettleTimer { seconds: SETTLE_WINDOW_SECONDS },
            );
            assert(crate::event::actions_view(actions@) =~= seq![
                ActionView::Listen(bytes),
                ActionView::StartSettleTimer { seconds: SETTLE_WINDOW_SECONDS },
            ]);
            (Phase::Bootstrapping, actions)
        },
        Err(cause) => fail_with(SessionError::TransportFailure { cause }),
    }
}

/// Opens a session that listens on every interface for the given transport.
///
/// The address comes from the networking stack's reading of its text. Where
/// the stack refuses the text, the session is over with a transport failure
/// whose cause is the stack's message.
pub fn swarm_listen(transport: TransportMethod) -> (step: (Phase, Vec<Action>))
    ensures
        match parsed_multiaddr(listen_text(transport)) {
            Some(address) => step_matches(step, open_bootstrap_spec(Ok(address))),
            None => exists|cause: Seq<char>| step_matches(step, open_bootstrap_spec(Err(cause))),
        },
{
    let listen = listen_address(transport);
    open_bootstrap(listen)
}

/// Takes one event during the bootstrap.
pub fn bootstrap_step(config: &SessionConfig, event: EngineEvent) -> (step: (Phase, Vec<Action>))
    ensures
        step_matches(step, bootstrap_spec(config@, event@)),
{
    match event {
        EngineEvent::NewListenAddress => stay_in(Phase::Bootstrapping),
        EngineEvent::SettleElapsed => (
            Phase::LearningAddress(RendezvousState::new()),
            one_action(Action::Dial(config.relay_address.clone())),
        ),
        other => violate(other),
    }
}

} // verus!
