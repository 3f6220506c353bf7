use step_sequencer::clock::{SequencerClock, StepEvent};
use step_sequencer::tempo::StepInterval;
use step_sequencer::transport::Transport;

fn transport_125() -> Transport {
    Transport::new(SequencerClock::new(StepInterval { numerator_ms: 125, denominator: 1 }).unwrap())
}

#[test]
fn new_transport_is_stopped() {
    let transport = transport_125();
    assert!(!transport.is_playing());
    assert_eq!(transport.current_step(), 0);
}

#[test]
fn transport_keeps_the_state_of_its_clock() {
    let mut clock = SequencerClock::new(StepInterval { numerator_ms: 125, denominator: 1 }).unwrap();
    clock.start();
    clock.tick(3 * 125);
    let transport = Transport::new(clock);
    assert!(transport.is_playing());
    assert_eq!(transport.current_step(), 3);
}

#[test]
fn toggle_alternates_between_playing_and_stopped() {
    let mut transport = transport_125();
    assert!(transport.toggle());
    assert!(transport.is_playing());
    assert!(!transport.toggle());
    assert!(!transport.is_playing());
    assert!(transport.toggle());
    assert!(transport.is_playing());
}

#[test]
fn toggle_on_then_off_at_once_leaves_step_zero() {
    let mut transport = transport_125();
    transport.toggle();
    transport.toggle();
    assert_eq!(transport.current_step(), 0);
    assert!(!transport.is_playing());
}

#[test]
fn transport_polls_only_while_playing() {
    let mut transport = transport_125();
    assert_eq!(transport.tick(500), None);
    transport.toggle();
    assert_eq!(transport.tick(500), Some(StepEvent { step: 4, advanced: 4 }));
    assert_eq!(transport.tick(500), None);
    transport.toggle();
    assert_eq!(transport.tick(5_000), None);
    assert_eq!(transport.current_step(), 4);
}

#[test]
fn toggle_on_again_restarts_from_step_zero() {
    let mut transport = transport_125();
    transport.toggle();
    assert_eq!(transport.tick(7 * 125), Some(StepEvent { step: 7, advanced: 7 }));
    transport.toggle();
    assert_eq!(transport.current_step(), 7);
    transport.toggle();
    assert_eq!(transport.current_step(), 0);
    assert_eq!(transport.tick(125), Some(StepEvent { step: 1, advanced: 1 }));
}
