use benchmark::rendezvous::RendezvousSignal;
use benchmark::RendezvousState;

#[test]
fn nothing_has_arrived_at_first() {
    let state = RendezvousState::new();
    assert!(!state.learned_own_address);
    assert!(!state.told_relay_its_address);
    assert!(!state.is_complete());
    assert!(!state.has(RendezvousSignal::LearnedOwnAddress));
    assert!(!state.has(RendezvousSignal::ToldRelayItsAddress));
}

#[test]
fn one_signal_is_not_enough() {
    let learned = RendezvousState::new().observe(RendezvousSignal::LearnedOwnAddress);
    assert!(learned.has(RendezvousSignal::LearnedOwnAddress));
    assert!(!learned.has(RendezvousSignal::ToldRelayItsAddress));
    assert!(!learned.is_complete());
    let told = RendezvousState::new().observe(RendezvousSignal::ToldRelayItsAddress);
    assert!(told.has(RendezvousSignal::ToldRelayItsAddress));
    assert!(!told.has(RendezvousSignal::LearnedOwnAddress));
    assert!(!told.is_complete());
}

#[test]
fn both_signals_complete_the_join_in_either_order() {
    let first = RendezvousState::new()
        .observe(RendezvousSignal::LearnedOwnAddress)
        .observe(RendezvousSignal::ToldRelayItsAddress);
    let second = RendezvousState::new()
        .observe(RendezvousSignal::ToldRelayItsAddress)
        .observe(RendezvousSignal::LearnedOwnAddress);
    assert!(first.is_complete());
    assert!(second.is_complete());
    assert_eq!(first, second);
}

#[test]
fn a_signal_that_comes_again_changes_nothing() {
    let once = RendezvousState::new().observe(RendezvousSignal::ToldRelayItsAddress);
    let twice = once.observe(RendezvousSignal::ToldRelayItsAddress);
    assert_eq!(once, twice);
    assert!(!twice.is_complete());
}
