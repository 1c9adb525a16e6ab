//! The session as a whole: one event at a time is handed to whichever phase
//! the session stands in, and what comes back is the phase it stands in
//! next and what the engine is to do.

use crate::address::listen_text;
use crate::address::parsed_multiaddr;
use crate::bootstrap::bootstrap_spec;
use crate::bootstrap::bootstrap_step;
use crate::bootstrap::open_bootstrap_spec;
use crate::bootstrap::swarm_listen;
use crate::event::actions_view;
use crate::event::Action;
use crate::event::ActionView;
use crate::event::Completion;
use crate::event::EngineEvent;
use crate::event::EventView;
use crate::event::SessionError;
use crate::learning::learning_spec;
use crate::learning::learning_step;
use crate::relay::rendezvous_spec;
use crate::relay::rendezvous_step;
use crate::runner::benchmark_spec;
use crate::runner::benchmark_step;
use crate::state::stay;
use crate::state::stay_in;
use crate::state::step_matches;
use crate::state::ConfigView;
use crate::state::Phase;
use crate::state::PhaseView;
use crate::state::SessionConfig;
use crate::state::StepView;
use crate::upgrade::upgrade_spec;
use crate::upgrade::upgrade_step;
use vstd::prelude::*;

verus! {

/// What an event leads to, whatever the phase. A session that is over stays
/// as it is and asks for nothing more.
pub open spec fn step_spec(config: ConfigView, phase: PhaseView, event: EventView) -> StepView {
    match phase {
        PhaseView::Bootstrapping => bootstrap_spec(config, event),
        PhaseView::LearningAddress(signals) => learning_spec(config, signals, event),
        PhaseView::Rendezvousing => rendezvous_spec(config, event),
        PhaseView::AwaitingUpgrade => upgrade_spec(config, event),
        PhaseView::Benchmarking { issued } => benchmark_spec(config, issued, event),
        PhaseView::Done(_) => stay(phase),
    }
}

/// What a run of events leads to, taken one after the other in the order in
/// which they came: the phase after the last of them, and all that was asked
/// of the engine on the way.
pub open spec fn run_spec(config: ConfigView, phase: PhaseView, events: Seq<EventView>) -> StepView
    decreases events.len(),
{
    if events.len() == 0 {
        stay(phase)
    } else {
        let before = run_spec(config, phase, events.drop_last());
        let last = step_spec(config, before.0, events.last());
        (last.0, before.1 + last.1)
    }
}

/// The views of a list of events, in the same order.
pub open spec fn events_view(events: Seq<EngineEvent>) -> Seq<EventView> {
    events.map_values(|event: EngineEvent| event@)
}

/// Takes one event in the given phase.
pub fn step(config: &SessionConfig, phase: Phase, event: EngineEvent) -> (next: (Phase, Vec<Action>))
    ensures
        step_matches(next, step_spec(config@, phase@, event@)),
{
    match phase {
        Phase::Bootstrapping => bootstrap_step(config, event),
        Phase::LearningAddress(signals) => learning_step(config, signals, event),
        Phase::Rendezvousing => rendezvous_step(config, event),
        Phase::AwaitingUpgrade => upgrade_step(config, event),
        Phase::Benchmarking { issued } => benchmark_step(config, issued, event),
        Phase::Done(result) => stay_in(Phase::Done(result)),
    }
}

/// One session between two peers: what it was started with, and where it
/// stands.
#[derive(Debug, PartialEq, Eq)]
pub struct Session {
    config: SessionConfig,
    phase: Phase,
}

/// A [`Session`] over plain values.
pub struct SessionView {
    pub config: ConfigView,
    pub phase: PhaseView,
}

impl View for Session {
    type V = SessionView;

    closed spec fn view(&self) -> SessionView {
        SessionView { config: self.config@, phase: self.phase@ }
    }
}

impl Session {
    /// Starts a session: it asks the engine to listen on every interface and
    /// starts the settling window.
    ///
    /// Where the networking stack refuses the text of the listen address,
    /// the session is over at once, with a transport failure.
    pub fn start(config: SessionConfig) -> (started: (Session, Vec<Action>))
        ensures
            started.0@.config == config@,
            match parsed_multiaddr(listen_text(config.transport)) {
                Some(address) => (started.0@.phase, actions_view(started.1@))
                    == open_bootstrap_spec(Ok(address)),
                None => exists|cause: Seq<char>|
                    (started.0@.phase, actions_view(started.1@)) == open_bootstrap_spec(
                        Err(cause),
                    ),
            },
    {
        let (phase, actions) = swarm_listen(config.transport);
        (Session { config, phase }, actions)
    }

    /// Takes a session up where it stands.
    pub fn resume(config: SessionConfig, phase: Phase) -> (session: Session)
        ensures
            session@ == (SessionView { config: config@, phase: phase@ }),
    {
        Session { config, phase }
    }

    /// Takes one event. What the session was started with stays as it was.
    pub fn handle(self, event: EngineEvent) -> (next: (Session, Vec<Action>))
        ensures
            next.0@.config == self@.config,
            (next.0@.phase, actions_view(next.1@)) == step_spec(
                self@.config,
                self@.phase,
                event@,
            ),
    {
        let Session { config, phase } = self;
        let (phase, actions) = step(&config, phase, event);
        (Session { config, phase }, actions)
    }

    /// Takes a run of events, one after the other.
    pub fn drive(self, events: Vec<EngineEvent>) -> (end: (Session, Vec<Action>))
        ensures
            end.0@.config == self@.config,
            (end.0@.phase, actions_view(end.1@)) == run_spec(
                self@.config,
                self@.phase,
                events_view(events@),
            ),
    {
        let ghost config = self@.config;
        let ghost begin = self@.phase;
        let ghost all = events_view(events@);
        let mut session = self;
        let mut actions: Vec<Action> = Vec::new();
        assert(actions_view(actions@) =~= Seq::<ActionView>::empty());
        assert(all.take(0) =~= Seq::<EventView>::empty());
        for event in it: events.into_iter()
            invariant
                all == events_view(it.seq()),
                session@.config == config,
                (session@.phase, actions_view(actions@)) == run_spec(
                    config,
                    begin,
                    all.take(it.index() as int),
                ),
        {
            let ghost done = all.take(it.index() as int);
            let ghost longer = all.take(it.index() + 1);
            let ghost so_far = actions_view(actions@);
            assert(longer.drop_last() =~= done);
            assert(longer.last() == event@);
            let (next, mut asked) = session.handle(event);
            let ghost more = actions_view(asked@);
            actions.append(&mut asked);
            assert(actions_view(actions@) =~= so_far + more);
            session = next;
        }
        assert(all.take(all.len() as int) =~= all);
        (session, actions)
    }

    /// What the session was started with.
    pub fn config(&self) -> (config: &SessionConfig)
        ensures
            config@ == self@.config,
    {
        &self.config
    }

    /// Where the session stands.
    pub fn phase(&self) -> (phase: &Phase)
        ensures
            phase@ == self@.phase,
    {
        &self.phase
    }

    /// Whether the session is over.
    pub fn is_done(&self) -> (done: bool)
        ensures
            done == (self@.phase is Done),
    {
        match self.phase {
            Phase::Done(_) => true,
            _ => false,
        }
    }

    /// How the session ended, if it is over.
    pub fn into_result(self) -> (result: Option<Result<Completion, SessionError>>)
        ensures
            match result {
                Some(Ok(completion)) => self@.phase == PhaseView::Done(Ok(completion)),
                Some(Err(error)) => self@.phase == PhaseView::Done(Err(error@)),
                None => !(self@.phase is Done),
            },
    {
        match self.phase {
            Phase::Done(result) => Some(result),
            _ => None,
        }
    }
}

} // verus!
