use benchmark::bootstrap::bootstrap_step;
use benchmark::bootstrap::open_bootstrap;
use benchmark::generate_ed25519;
use benchmark::learning::learning_step;
use benchmark::relay::rendezvous_step;
use benchmark::runner::benchmark_step;
use benchmark::session::step;
use benchmark::swarm_listen;
use benchmark::upgrade::upgrade_step;
use benchmark::upgrade::UpgradeState;
use benchmark::Action;
use benchmark::Completion;
use benchmark::EngineEvent;
use benchmark::Party;
use benchmark::Phase;
use benchmark::RendezvousState;
use benchmark::RunOutcome;
use benchmark::RunParameters;
use benchmark::Session;
use benchmark::SessionConfig;
use benchmark::SessionError;
use benchmark::SessionRole;
use benchmark::TransportMethod;
use libp2p::Multiaddr;
use libp2p::PeerId;

fn relay() -> Multiaddr {
    "/ip4/203.0.113.7/tcp/4001".parse().unwrap()
}

fn observed() -> Multiaddr {
    "/ip4/198.51.100.20/tcp/53211".parse().unwrap()
}

fn target() -> PeerId {
    generate_ed25519(2).public().to_peer_id()
}

fn parameters() -> RunParameters {
    RunParameters {
        bytes_to_send: 1_000_000,
        bytes_to_receive: 1_000_000,
    }
}

fn initiator(await_upgrade: bool) -> SessionConfig {
    SessionConfig {
        party: Party::Initiator { target: target() },
        transport: TransportMethod::Tcp,
        relay_address: relay(),
        parameters: parameters(),
        await_upgrade,
    }
}

fn responder(await_upgrade: bool) -> SessionConfig {
    SessionConfig {
        party: Party::Responder,
        transport: TransportMethod::QuicV1,
        relay_address: relay(),
        parameters: parameters(),
        await_upgrade,
    }
}

fn circuit() -> Multiaddr {
    "/ip4/203.0.113.7/tcp/4001/p2p-circuit".parse().unwrap()
}

fn circuit_to_target() -> Multiaddr {
    format!("/ip4/203.0.113.7/tcp/4001/p2p-circuit/p2p/{}", target())
        .parse()
        .unwrap()
}

fn run_request() -> Action {
    Action::RunBenchmark {
        peer: target(),
        parameters: parameters(),
    }
}

fn runs_in(actions: &[Action]) -> usize {
    actions
        .iter()
        .filter(|action| matches!(action, Action::RunBenchmark { .. }))
        .count()
}

fn every_event() -> Vec<EngineEvent> {
    vec![
        EngineEvent::NewListenAddress,
        EngineEvent::Dialing,
        EngineEvent::ConnectionEstablished,
        EngineEvent::OutgoingConnectionError {
            error: "refused".to_string(),
        },
        EngineEvent::ObservedAddressSent,
        EngineEvent::ObservedAddressReceived {
            address: observed(),
        },
        EngineEvent::HolePunchUpgradeSucceeded,
        EngineEvent::HolePunchUpgradeFailed {
            error: "no route".to_string(),
        },
        EngineEvent::ReservationAccepted,
        EngineEvent::ReservationError {
            error: "denied".to_string(),
        },
        EngineEvent::Heartbeat,
        EngineEvent::RunCompleted {
            elapsed_nanos: 2_000_000_000,
        },
        EngineEvent::RunFailed {
            error: "reset".to_string(),
        },
        EngineEvent::RunFinished,
        EngineEvent::SettleElapsed,
        EngineEvent::Informational,
    ]
}

fn violation(event: EngineEvent) -> Phase {
    Phase::Done(Err(SessionError::ProtocolViolation { event }))
}

#[test]
fn session_starts_by_listening_on_every_interface() {
    let (session, actions) = Session::start(initiator(true));
    assert_eq!(session.phase(), &Phase::Bootstrapping);
    assert!(!session.is_done());
    assert_eq!(
        actions,
        vec![
            Action::Listen("/ip4/0.0.0.0/tcp/0".parse().unwrap()),
            Action::StartSettleTimer { seconds: 1 },
        ]
    );
    assert_eq!(session.config(), &initiator(true));
}

#[test]
fn session_listens_on_the_transport_it_was_given() {
    let (_, actions) = Session::start(responder(true));
    assert_eq!(
        actions,
        vec![
            Action::Listen("/ip4/0.0.0.0/udp/0/quic-v1".parse().unwrap()),
            Action::StartSettleTimer { seconds: 1 },
        ]
    );
    let (phase, asked) = swarm_listen(TransportMethod::Tcp);
    assert_eq!(phase, Phase::Bootstrapping);
    assert_eq!(
        asked,
        vec![
            Action::Listen("/ip4/0.0.0.0/tcp/0".parse().unwrap()),
            Action::StartSettleTimer { seconds: 1 },
        ]
    );
}

#[test]
fn session_without_a_listen_address_is_over_at_once() {
    let (phase, actions) = open_bootstrap(Err("invalid multiaddr".to_string()));
    assert_eq!(
        phase,
        Phase::Done(Err(SessionError::TransportFailure {
            cause: "invalid multiaddr".to_string()
        }))
    );
    assert!(actions.is_empty());
    let (opened, asked) = open_bootstrap(Ok(observed()));
    assert_eq!(opened, Phase::Bootstrapping);
    assert_eq!(
        asked,
        vec![
            Action::Listen(observed()),
            Action::StartSettleTimer { seconds: 1 }
        ]
    );
}

#[test]
fn bootstrap_takes_note_of_listen_addresses() {
    let config = initiator(true);
    let (phase, actions) = bootstrap_step(&config, EngineEvent::NewListenAddress);
    assert_eq!(phase, Phase::Bootstrapping);
    assert!(actions.is_empty());
}

#[test]
fn bootstrap_ends_with_the_settling_window() {
    let config = initiator(true);
    let (phase, actions) = bootstrap_step(&config, EngineEvent::SettleElapsed);
    assert_eq!(phase, Phase::LearningAddress(RendezvousState::new()));
    assert_eq!(actions, vec![Action::Dial(relay())]);
}

#[test]
fn bootstrap_ends_without_any_listen_address_too() {
    let (session, _) = Session::start(responder(true));
    let (session, actions) = session.handle(EngineEvent::SettleElapsed);
    assert_eq!(
        session.phase(),
        &Phase::LearningAddress(RendezvousState::new())
    );
    assert_eq!(actions, vec![Action::Dial(relay())]);
}

#[test]
fn bootstrap_breaks_off_on_any_other_event() {
    let config = responder(true);
    for event in every_event() {
        if matches!(
            event,
            EngineEvent::NewListenAddress | EngineEvent::SettleElapsed
        ) {
            continue;
        }
        let (phase, actions) = bootstrap_step(&config, event);
        assert!(matches!(
            phase,
            Phase::Done(Err(SessionError::ProtocolViolation { .. }))
        ));
        assert!(actions.is_empty());
    }
    let (phase, _) = bootstrap_step(&config, EngineEvent::Dialing);
    assert_eq!(phase, violation(EngineEvent::Dialing));
}

#[test]
fn learning_completes_when_sent_comes_first() {
    let config = initiator(true);
    let (phase, actions) = learning_step(
        &config,
        RendezvousState::new(),
        EngineEvent::ObservedAddressSent,
    );
    assert_eq!(
        phase,
        Phase::LearningAddress(RendezvousState {
            learned_own_address: false,
            told_relay_its_address: true
        })
    );
    assert!(actions.is_empty());
    let (phase, actions) = step(
        &config,
        phase,
        EngineEvent::ObservedAddressReceived {
            address: observed(),
        },
    );
    assert_eq!(phase, Phase::Rendezvousing);
    assert_eq!(
        actions,
        vec![
            Action::AddExternalAddress(observed()),
            Action::Dial(circuit_to_target())
        ]
    );
}

#[test]
fn learning_completes_when_received_comes_first() {
    let config = initiator(true);
    let (phase, actions) = learning_step(
        &config,
        RendezvousState::new(),
        EngineEvent::ObservedAddressReceived {
            address: observed(),
        },
    );
    assert_eq!(
        phase,
        Phase::LearningAddress(RendezvousState {
            learned_own_address: true,
            told_relay_its_address: false
        })
    );
    assert_eq!(actions, vec![Action::AddExternalAddress(observed())]);
    let (phase, actions) = step(&config, phase, EngineEvent::ObservedAddressSent);
    assert_eq!(phase, Phase::Rendezvousing);
    assert_eq!(actions, vec![Action::Dial(circuit_to_target())]);
}

#[test]
fn learning_lets_unrelated_events_pass() {
    let config = responder(true);
    let session = Session::resume(config, Phase::LearningAddress(RendezvousState::new()));
    let (session, actions) = session.drive(vec![
        EngineEvent::Dialing,
        EngineEvent::NewListenAddress,
        EngineEvent::ConnectionEstablished,
        EngineEvent::Heartbeat,
        EngineEvent::ObservedAddressSent,
        EngineEvent::Heartbeat,
        EngineEvent::Heartbeat,
    ]);
    assert_eq!(
        session.phase(),
        &Phase::LearningAddress(RendezvousState {
            learned_own_address: false,
            told_relay_its_address: true
        })
    );
    assert!(actions.is_empty());
    let (session, actions) = session.handle(EngineEvent::ObservedAddressReceived {
        address: observed(),
    });
    assert_eq!(session.phase(), &Phase::Rendezvousing);
    assert_eq!(
        actions,
        vec![
            Action::AddExternalAddress(observed()),
            Action::RequestReservation(circuit())
        ]
    );
}

#[test]
fn learning_advertises_the_address_once() {
    let config = responder(true);
    let session = Session::resume(config, Phase::LearningAddress(RendezvousState::new()));
    let other: Multiaddr = "/ip4/198.51.100.21/tcp/1".parse().unwrap();
    let (session, actions) = session.drive(vec![
        EngineEvent::ObservedAddressReceived {
            address: observed(),
        },
        EngineEvent::ObservedAddressReceived { address: other },
        EngineEvent::ObservedAddressSent,
    ]);
    assert_eq!(session.phase(), &Phase::Rendezvousing);
    assert_eq!(
        actions,
        vec![
            Action::AddExternalAddress(observed()),
            Action::RequestReservation(circuit())
        ]
    );
}

#[test]
fn learning_breaks_off_on_any_other_event() {
    let config = initiator(true);
    for event in every_event() {
        if matches!(
            event,
            EngineEvent::NewListenAddress
                | EngineEvent::Dialing
                | EngineEvent::ConnectionEstablished
                | EngineEvent::Heartbeat
                | EngineEvent::ObservedAddressSent
                | EngineEvent::ObservedAddressReceived { .. }
        ) {
            continue;
        }
        let (phase, actions) = learning_step(&config, RendezvousState::new(), event);
        assert!(matches!(
            phase,
            Phase::Done(Err(SessionError::ProtocolViolation { .. }))
        ));
        assert!(actions.is_empty());
    }
    let (phase, _) = learning_step(
        &config,
        RendezvousState::new(),
        EngineEvent::OutgoingConnectionError {
            error: "refused".to_string(),
        },
    );
    assert_eq!(
        phase,
        violation(EngineEvent::OutgoingConnectionError {
            error: "refused".to_string()
        })
    );
}

#[test]
fn responder_waits_for_the_reservation() {
    let (phase, actions) = rendezvous_step(&responder(true), EngineEvent::ReservationAccepted);
    assert_eq!(phase, Phase::AwaitingUpgrade);
    assert!(actions.is_empty());
    let (phase, actions) = rendezvous_step(&responder(false), EngineEvent::ReservationAccepted);
    assert_eq!(phase, Phase::Benchmarking { issued: false });
    assert!(actions.is_empty());
    let (phase, actions) = rendezvous_step(&responder(true), EngineEvent::ConnectionEstablished);
    assert_eq!(phase, Phase::Rendezvousing);
    assert!(actions.is_empty());
}

#[test]
fn initiator_waits_for_the_connection() {
    let (phase, actions) = rendezvous_step(&initiator(true), EngineEvent::ConnectionEstablished);
    assert_eq!(phase, Phase::AwaitingUpgrade);
    assert!(actions.is_empty());
    let (phase, actions) = rendezvous_step(&initiator(false), EngineEvent::ConnectionEstablished);
    assert_eq!(phase, Phase::Benchmarking { issued: true });
    assert_eq!(actions, vec![run_request()]);
}

#[test]
fn reservation_at_an_initiator_is_a_violation() {
    let (phase, actions) = rendezvous_step(&initiator(true), EngineEvent::ReservationAccepted);
    assert_eq!(phase, violation(EngineEvent::ReservationAccepted));
    assert!(actions.is_empty());
    let (phase, _) = upgrade_step(&initiator(true), EngineEvent::ReservationAccepted);
    assert_eq!(phase, violation(EngineEvent::ReservationAccepted));
    let (phase, _) = benchmark_step(&initiator(true), true, EngineEvent::ReservationAccepted);
    assert_eq!(phase, violation(EngineEvent::ReservationAccepted));
    let refused = EngineEvent::ReservationError {
        error: "denied".to_string(),
    };
    let (phase, _) = rendezvous_step(&initiator(true), refused);
    assert_eq!(
        phase,
        violation(EngineEvent::ReservationError {
            error: "denied".to_string()
        })
    );
}

#[test]
fn failed_dial_ends_the_session() {
    let failed = EngineEvent::OutgoingConnectionError {
        error: "connection refused".to_string(),
    };
    let (phase, actions) = rendezvous_step(&initiator(true), failed);
    assert_eq!(
        phase,
        Phase::Done(Err(SessionError::TransportFailure {
            cause: "connection refused".to_string()
        }))
    );
    assert!(actions.is_empty());
}

#[test]
fn failed_dial_after_the_rendezvous_is_let_pass() {
    let (phase, _) = upgrade_step(
        &initiator(true),
        EngineEvent::OutgoingConnectionError {
            error: "timeout".to_string(),
        },
    );
    assert_eq!(phase, Phase::AwaitingUpgrade);
    let (phase, _) = benchmark_step(
        &initiator(true),
        true,
        EngineEvent::OutgoingConnectionError {
            error: "timeout".to_string(),
        },
    );
    assert_eq!(phase, Phase::Benchmarking { issued: true });
}

#[test]
fn upgrade_monitor_moves_only_while_it_waits() {
    let failed = EngineEvent::HolePunchUpgradeFailed {
        error: "no route".to_string(),
    };
    let waiting = UpgradeState::AwaitingUpgrade;
    assert_eq!(
        waiting.observe(&EngineEvent::HolePunchUpgradeSucceeded),
        UpgradeState::UpgradeSucceeded
    );
    assert_eq!(waiting.observe(&failed), UpgradeState::UpgradeFailed);
    assert_eq!(
        waiting.observe(&EngineEvent::Heartbeat),
        UpgradeState::AwaitingUpgrade
    );
    assert_eq!(
        UpgradeState::UpgradeSucceeded.observe(&failed),
        UpgradeState::UpgradeSucceeded
    );
    assert_eq!(
        UpgradeState::UpgradeFailed.observe(&EngineEvent::HolePunchUpgradeSucceeded),
        UpgradeState::UpgradeFailed
    );
}

#[test]
fn upgrade_success_opens_the_measurement() {
    let (phase, actions) = upgrade_step(&initiator(true), EngineEvent::HolePunchUpgradeSucceeded);
    assert_eq!(phase, Phase::Benchmarking { issued: true });
    assert_eq!(actions, vec![run_request()]);
    let (phase, actions) = upgrade_step(&responder(true), EngineEvent::HolePunchUpgradeSucceeded);
    assert_eq!(phase, Phase::Benchmarking { issued: false });
    assert!(actions.is_empty());
}

#[test]
fn upgrade_wait_lets_the_rest_pass() {
    for event in every_event() {
        let passes = matches!(
            event,
            EngineEvent::NewListenAddress
                | EngineEvent::Dialing
                | EngineEvent::ConnectionEstablished
                | EngineEvent::OutgoingConnectionError { .. }
                | EngineEvent::ObservedAddressSent
                | EngineEvent::ObservedAddressReceived { .. }
                | EngineEvent::ReservationAccepted
                | EngineEvent::Heartbeat
                | EngineEvent::Informational
        );
        let (phase, actions) = upgrade_step(&responder(true), event);
        if passes {
            assert_eq!(phase, Phase::AwaitingUpgrade);
        } else {
            assert_ne!(phase, Phase::AwaitingUpgrade);
        }
        assert!(actions.is_empty());
    }
}

#[test]
fn run_is_asked_for_once_when_the_upgrade_succeeds_twice() {
    let session = Session::resume(initiator(true), Phase::AwaitingUpgrade);
    let (session, first) = session.handle(EngineEvent::HolePunchUpgradeSucceeded);
    assert_eq!(first, vec![run_request()]);
    let (session, second) = session.handle(EngineEvent::HolePunchUpgradeSucceeded);
    assert!(second.is_empty());
    let (session, third) = session.handle(EngineEvent::ConnectionEstablished);
    assert!(third.is_empty());
    assert_eq!(session.phase(), &Phase::Benchmarking { issued: true });
}

#[test]
fn run_is_asked_for_once_when_the_connection_comes_twice() {
    let session = Session::resume(initiator(false), Phase::Rendezvousing);
    let (session, actions) = session.drive(vec![
        EngineEvent::ConnectionEstablished,
        EngineEvent::ConnectionEstablished,
        EngineEvent::HolePunchUpgradeSucceeded,
        EngineEvent::ConnectionEstablished,
    ]);
    assert_eq!(actions, vec![run_request()]);
    assert_eq!(session.phase(), &Phase::Benchmarking { issued: true });
}

#[test]
fn guard_asks_for_a_run_that_was_not_asked_for_yet() {
    let (phase, actions) =
        benchmark_step(&initiator(true), false, EngineEvent::HolePunchUpgradeSucceeded);
    assert_eq!(phase, Phase::Benchmarking { issued: true });
    assert_eq!(actions, vec![run_request()]);
    let (phase, actions) =
        benchmark_step(&initiator(true), false, EngineEvent::ConnectionEstablished);
    assert_eq!(phase, Phase::Benchmarking { issued: false });
    assert!(actions.is_empty());
    let (phase, actions) =
        benchmark_step(&initiator(false), false, EngineEvent::ConnectionEstablished);
    assert_eq!(phase, Phase::Benchmarking { issued: true });
    assert_eq!(actions, vec![run_request()]);
}

#[test]
fn responder_never_asks_for_a_run() {
    for await_upgrade in [true, false] {
        let (session, mut asked) = Session::start(responder(await_upgrade));
        let mut events = vec![
            EngineEvent::NewListenAddress,
            EngineEvent::SettleElapsed,
            EngineEvent::ObservedAddressSent,
            EngineEvent::ObservedAddressReceived {
                address: observed(),
            },
            EngineEvent::ReservationAccepted,
            EngineEvent::ConnectionEstablished,
            EngineEvent::HolePunchUpgradeSucceeded,
            EngineEvent::HolePunchUpgradeSucceeded,
            EngineEvent::ConnectionEstablished,
        ];
        events.extend(every_event());
        let (_, actions) = session.drive(events);
        asked.extend(actions);
        assert_eq!(runs_in(&asked), 0);
    }
    for phase in [
        Phase::Bootstrapping,
        Phase::Rendezvousing,
        Phase::AwaitingUpgrade,
        Phase::Benchmarking { issued: false },
        Phase::Benchmarking { issued: true },
    ] {
        for event in every_event() {
            let standing = match &phase {
                Phase::Bootstrapping => Phase::Bootstrapping,
                Phase::Rendezvousing => Phase::Rendezvousing,
                Phase::AwaitingUpgrade => Phase::AwaitingUpgrade,
                Phase::Benchmarking { issued } => Phase::Benchmarking { issued: *issued },
                _ => unreachable!(),
            };
            let (_, actions) = step(&responder(true), standing, event);
            assert_eq!(runs_in(&actions), 0);
        }
    }
}

#[test]
fn failed_upgrade_ends_the_session_without_a_run() {
    let (session, mut asked) = Session::start(initiator(true));
    let (session, actions) = session.drive(vec![
        EngineEvent::NewListenAddress,
        EngineEvent::SettleElapsed,
        EngineEvent::ObservedAddressReceived {
            address: observed(),
        },
        EngineEvent::ObservedAddressSent,
        EngineEvent::HolePunchUpgradeFailed {
            error: "no route".to_string(),
        },
        EngineEvent::ConnectionEstablished,
        EngineEvent::HolePunchUpgradeSucceeded,
    ]);
    asked.extend(actions);
    assert_eq!(runs_in(&asked), 0);
    assert!(session.is_done());
    assert_eq!(
        session.into_result(),
        Some(Err(SessionError::HolePunchFailure {
            cause: "no route".to_string()
        }))
    );
}

#[test]
fn failed_upgrade_while_waiting_ends_the_session() {
    let failed = EngineEvent::HolePunchUpgradeFailed {
        error: "no route".to_string(),
    };
    let (phase, actions) = upgrade_step(&initiator(true), failed);
    assert_eq!(
        phase,
        Phase::Done(Err(SessionError::HolePunchFailure {
            cause: "no route".to_string()
        }))
    );
    assert!(actions.is_empty());
}

#[test]
fn failed_upgrade_is_let_pass_where_none_is_awaited() {
    let (phase, actions) = rendezvous_step(
        &initiator(false),
        EngineEvent::HolePunchUpgradeFailed {
            error: "no route".to_string(),
        },
    );
    assert_eq!(phase, Phase::Rendezvousing);
    assert!(actions.is_empty());
    let (phase, actions) =
        rendezvous_step(&initiator(false), EngineEvent::HolePunchUpgradeSucceeded);
    assert_eq!(phase, Phase::Rendezvousing);
    assert!(actions.is_empty());
    let (phase, _) = benchmark_step(
        &initiator(false),
        true,
        EngineEvent::HolePunchUpgradeFailed {
            error: "no route".to_string(),
        },
    );
    assert_eq!(phase, Phase::Benchmarking { issued: true });
}

#[test]
fn run_completed_ends_the_session_with_the_measurement() {
    let (phase, actions) = benchmark_step(
        &initiator(true),
        true,
        EngineEvent::RunCompleted {
            elapsed_nanos: 2_000_000_000,
        },
    );
    let outcome = RunOutcome {
        parameters: parameters(),
        elapsed_nanos: 2_000_000_000,
    };
    assert_eq!(phase, Phase::Done(Ok(Completion::Measured(outcome))));
    assert!(actions.is_empty());
    assert_eq!(outcome.throughput(), Some(1_000_000));
}

#[test]
fn run_failed_ends_the_session_with_the_cause() {
    let (phase, actions) = benchmark_step(
        &initiator(true),
        true,
        EngineEvent::RunFailed {
            error: "connection reset".to_string(),
        },
    );
    assert_eq!(
        phase,
        Phase::Done(Err(SessionError::BenchmarkFailure {
            cause: "connection reset".to_string()
        }))
    );
    assert!(actions.is_empty());
}

#[test]
fn run_completed_before_the_run_was_asked_for_is_a_violation() {
    let completed = || EngineEvent::RunCompleted {
        elapsed_nanos: 1_000,
    };
    let (phase, _) = benchmark_step(&initiator(true), false, completed());
    assert_eq!(phase, violation(completed()));
    let (phase, _) = upgrade_step(&initiator(true), completed());
    assert_eq!(phase, violation(completed()));
    let (phase, _) = rendezvous_step(&initiator(true), completed());
    assert_eq!(phase, violation(completed()));
    let (phase, _) = benchmark_step(&responder(true), false, completed());
    assert_eq!(phase, violation(completed()));
    let (phase, _) = benchmark_step(
        &initiator(true),
        false,
        EngineEvent::RunFailed {
            error: "reset".to_string(),
        },
    );
    assert_eq!(
        phase,
        violation(EngineEvent::RunFailed {
            error: "reset".to_string()
        })
    );
}

#[test]
fn responder_is_done_when_a_run_against_it_is_over() {
    let (phase, actions) = benchmark_step(&responder(true), false, EngineEvent::RunFinished);
    assert_eq!(phase, Phase::Done(Ok(Completion::Served)));
    assert!(actions.is_empty());
    let (phase, _) = benchmark_step(&initiator(true), true, EngineEvent::RunFinished);
    assert_eq!(phase, violation(EngineEvent::RunFinished));
}

#[test]
fn lost_reservation_ends_a_responder() {
    let lost = || EngineEvent::ReservationError {
        error: "expired".to_string(),
    };
    let failure = || {
        Phase::Done(Err(SessionError::TransportFailure {
            cause: "expired".to_string(),
        }))
    };
    let (phase, _) = rendezvous_step(&responder(true), lost());
    assert_eq!(phase, failure());
    let (phase, _) = upgrade_step(&responder(true), lost());
    assert_eq!(phase, failure());
    let (phase, _) = benchmark_step(&responder(true), false, lost());
    assert_eq!(phase, failure());
}

#[test]
fn session_that_is_over_stays_over() {
    let ended = || Phase::Done(Ok(Completion::Served));
    for event in every_event() {
        let (phase, actions) = step(&responder(true), ended(), event);
        assert_eq!(phase, ended());
        assert!(actions.is_empty());
    }
    let session = Session::resume(
        initiator(true),
        Phase::Done(Err(SessionError::HolePunchFailure {
            cause: "no route".to_string(),
        })),
    );
    let (session, actions) = session.drive(every_event());
    assert!(actions.is_empty());
    assert_eq!(
        session.into_result(),
        Some(Err(SessionError::HolePunchFailure {
            cause: "no route".to_string()
        }))
    );
}

#[test]
fn session_that_is_not_over_has_no_result() {
    let (session, _) = Session::start(initiator(true));
    assert!(!session.is_done());
    assert_eq!(session.into_result(), None);
}

#[test]
fn initiator_happy_path() {
    let (session, opening) = Session::start(initiator(true));
    assert_eq!(
        opening,
        vec![
            Action::Listen("/ip4/0.0.0.0/tcp/0".parse().unwrap()),
            Action::StartSettleTimer { seconds: 1 },
        ]
    );
    let (session, actions) = session.drive(vec![
        EngineEvent::NewListenAddress,
        EngineEvent::NewListenAddress,
        EngineEvent::SettleElapsed,
        EngineEvent::Dialing,
        EngineEvent::ConnectionEstablished,
        EngineEvent::ObservedAddressSent,
        EngineEvent::ObservedAddressReceived {
            address: observed(),
        },
        EngineEvent::Dialing,
        EngineEvent::ConnectionEstablished,
        EngineEvent::Informational,
        EngineEvent::HolePunchUpgradeSucceeded,
        EngineEvent::Heartbeat,
        EngineEvent::RunCompleted {
            elapsed_nanos: 2_000_000_000,
        },
    ]);
    assert_eq!(
        actions,
        vec![
            Action::Dial(relay()),
            Action::AddExternalAddress(observed()),
            Action::Dial(circuit_to_target()),
            run_request(),
        ]
    );
    assert!(session.is_done());
    let outcome = RunOutcome {
        parameters: parameters(),
        elapsed_nanos: 2_000_000_000,
    };
    assert_eq!(
        session.into_result(),
        Some(Ok(Completion::Measured(outcome)))
    );
    assert_eq!(outcome.throughput(), Some(1_000_000));
}

#[test]
fn responder_reservation_rejected() {
    let (session, opening) = Session::start(responder(true));
    assert_eq!(opening.len(), 2);
    let (session, actions) = session.drive(vec![
        EngineEvent::NewListenAddress,
        EngineEvent::SettleElapsed,
        EngineEvent::ObservedAddressReceived {
            address: observed(),
        },
        EngineEvent::ObservedAddressSent,
        EngineEvent::ReservationError {
            error: "reservation refused".to_string(),
        },
        EngineEvent::ReservationAccepted,
        EngineEvent::NewListenAddress,
    ]);
    assert_eq!(
        actions,
        vec![
            Action::Dial(relay()),
            Action::AddExternalAddress(observed()),
            Action::RequestReservation(circuit()),
        ]
    );
    assert_eq!(
        session.into_result(),
        Some(Err(SessionError::TransportFailure {
            cause: "reservation refused".to_string()
        }))
    );
}

#[test]
fn responder_happy_path() {
    let (session, _) = Session::start(responder(true));
    let (session, actions) = session.drive(vec![
        EngineEvent::SettleElapsed,
        EngineEvent::ObservedAddressSent,
        EngineEvent::ObservedAddressReceived {
            address: observed(),
        },
        EngineEvent::NewListenAddress,
        EngineEvent::ReservationAccepted,
        EngineEvent::ConnectionEstablished,
        EngineEvent::HolePunchUpgradeSucceeded,
        EngineEvent::ReservationAccepted,
        EngineEvent::RunFinished,
    ]);
    assert_eq!(
        actions,
        vec![
            Action::Dial(relay()),
            Action::AddExternalAddress(observed()),
            Action::RequestReservation(circuit()),
        ]
    );
    assert_eq!(session.into_result(), Some(Ok(Completion::Served)));
}

#[test]
fn initiator_without_upgrade_runs_over_the_relayed_connection() {
    let (session, _) = Session::start(initiator(false));
    let (session, actions) = session.drive(vec![
        EngineEvent::SettleElapsed,
        EngineEvent::ObservedAddressSent,
        EngineEvent::ObservedAddressReceived {
            address: observed(),
        },
        EngineEvent::ConnectionEstablished,
        EngineEvent::HolePunchUpgradeFailed {
            error: "no route".to_string(),
        },
        EngineEvent::RunCompleted {
            elapsed_nanos: 500_000_000,
        },
    ]);
    assert_eq!(runs_in(&actions), 1);
    assert_eq!(
        session.into_result(),
        Some(Ok(Completion::Measured(RunOutcome {
            parameters: parameters(),
            elapsed_nanos: 500_000_000
        })))
    );
}

#[test]
fn party_of_role_and_target() {
    assert_eq!(
        Party::assign(SessionRole::Initiator, Some(target())),
        Some(Party::Initiator { target: target() })
    );
    assert_eq!(Party::assign(SessionRole::Initiator, None), None);
    assert_eq!(
        Party::assign(SessionRole::Responder, None),
        Some(Party::Responder)
    );
    assert_eq!(
        Party::assign(SessionRole::Responder, Some(target())),
        Some(Party::Responder)
    );
    assert_eq!(
        Party::Initiator { target: target() }.role(),
        SessionRole::Initiator
    );
    assert_eq!(Party::Responder.role(), SessionRole::Responder);
}
