use pick_list::shutdown::{DrainStep, Phase, ServerState, Signal};

#[test]
fn first_signal_owes_the_drain_steps_in_order() {
    let mut s = ServerState::start();
    assert_eq!(s.phase, Phase::Running);
    let steps = s.signal_arrived(Signal::Interrupt);
    assert_eq!(
        steps,
        vec![DrainStep::WarnSignalReceived, DrainStep::StopServer, DrainStep::FlushTelemetry],
    );
    assert_eq!(s.phase, Phase::ShuttingDown);
}

#[test]
fn either_signal_source_shuts_the_server_down() {
    let mut s = ServerState::start();
    let steps = s.signal_arrived(Signal::Terminate);
    assert_eq!(steps.len(), 3);
    assert_eq!(s.phase, Phase::ShuttingDown);
}

#[test]
fn the_losing_signal_changes_nothing() {
    let mut s = ServerState::start();
    let _ = s.signal_arrived(Signal::Interrupt);
    let steps = s.signal_arrived(Signal::Terminate);
    assert_eq!(steps, vec![]);
    assert_eq!(s.phase, Phase::ShuttingDown);
}

#[test]
fn no_connection_is_accepted_after_the_signal() {
    let mut s = ServerState::start();
    assert!(s.accepts_new_connections());
    assert!(s.connection_arrived());
    let _ = s.signal_arrived(Signal::Interrupt);
    assert!(!s.accepts_new_connections());
    assert!(!s.connection_arrived());
    assert_eq!(s.in_flight, 1);
}

#[test]
fn open_connections_survive_the_signal_and_finish() {
    let mut s = ServerState::start();
    assert!(s.connection_arrived());
    assert!(s.connection_arrived());
    let _ = s.signal_arrived(Signal::Interrupt);
    assert_eq!(s.in_flight, 2);
    assert!(!s.may_exit());
    s.connection_finished();
    assert!(!s.may_exit());
    s.connection_finished();
    assert!(s.may_exit());
}

#[test]
fn drain_waits_for_every_open_connection() {
    let mut s = ServerState::start();
    for _ in 0..5 {
        assert!(s.connection_arrived());
    }
    let _ = s.signal_arrived(Signal::Terminate);
    s.drain();
    assert_eq!(s.in_flight, 0);
    assert!(s.may_exit());
}

#[test]
fn the_process_does_not_exit_while_running() {
    let mut s = ServerState::start();
    assert!(!s.may_exit());
    assert!(s.connection_arrived());
    s.connection_finished();
    assert!(!s.may_exit());
}
