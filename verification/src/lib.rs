//! Orchestration of a two-party throughput measurement across a hole-punched
//! connection: the session state machine, the values it works on, and the
//! few calls into the networking stack that its results rest on.

pub mod address;
pub mod bootstrap;
pub mod event;
pub mod identity;
pub mod laws;
pub mod learning;
pub mod relay;
pub mod rendezvous;
pub mod role;
pub mod run;
pub mod runner;
pub mod session;
pub mod state;
pub mod upgrade;

pub use address::TransportMethod;
pub use bootstrap::swarm_listen;
pub use event::Action;
pub use event::Completion;
pub use event::EngineEvent;
pub use event::SessionError;
pub use identity::generate_ed25519;
pub use rendezvous::RendezvousState;
pub use role::SessionRole;
pub use run::RunOutcome;
pub use run::RunParameters;
pub use session::Session;
pub use state::Party;
pub use state::Phase;
pub use state::SessionConfig;
