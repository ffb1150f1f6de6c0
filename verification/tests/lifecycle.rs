use crusty_crawler::server::LifecycleError;
use crusty_crawler::server::PortError;
use crusty_crawler::server::ServerRuntimeState;
use crusty_crawler::server::DEFAULT_PORT;
use tokio::sync::oneshot::error::TryRecvError;

#[test]
fn a_second_start_is_refused_and_keeps_the_port() {
    let mut state = ServerRuntimeState::new();
    let first = state.start(8080);
    assert!(first.is_ok());
    let second = state.start(9090);
    assert_eq!(second.err(), Some(LifecycleError::AlreadyRunning));
    assert_eq!(state.status(), (true, 8080));
}

#[test]
fn a_second_start_leaves_the_first_signal_in_place() {
    let mut state = ServerRuntimeState::new();
    let mut listener_end = state.start(8080).unwrap();
    assert!(state.start(9090).is_err());
    // The first listener was not told to stop, and its sender is still held.
    assert_eq!(listener_end.try_recv(), Err(TryRecvError::Empty));
    assert_eq!(state.stop(), Ok(()));
    assert_eq!(listener_end.try_recv(), Ok(()));
}

#[test]
fn a_fresh_state_is_stopped_on_the_default_port() {
    let state = ServerRuntimeState::new();
    assert_eq!(state.status(), (false, 3000));
    assert_eq!(DEFAULT_PORT, 3000);
}

#[test]
fn stopping_a_stopped_server_is_an_error_and_changes_nothing() {
    let mut state = ServerRuntimeState::new();
    assert_eq!(state.stop(), Err(LifecycleError::NotRunning));
    assert_eq!(state.status(), (false, 3000));
    assert!(state.start(8080).is_ok());
    assert_eq!(state.stop(), Ok(()));
    assert_eq!(state.stop(), Err(LifecycleError::NotRunning));
    assert_eq!(state.status(), (false, 8080));
}

#[test]
fn stopping_fires_the_shutdown_signal() {
    let mut state = ServerRuntimeState::new();
    let mut listener_end = state.start(8080).unwrap();
    assert_eq!(listener_end.try_recv(), Err(TryRecvError::Empty));
    assert_eq!(state.stop(), Ok(()));
    assert_eq!(listener_end.try_recv(), Ok(()));
    assert_eq!(state.status(), (false, 8080));
}

#[test]
fn stopping_after_the_listener_is_gone_still_succeeds() {
    let mut state = ServerRuntimeState::new();
    let listener_end = state.start(8080).unwrap();
    drop(listener_end);
    assert_eq!(state.stop(), Ok(()));
    assert_eq!(state.status(), (false, 8080));
}

#[test]
fn a_stopped_server_can_be_started_again() {
    let mut state = ServerRuntimeState::new();
    assert!(state.start(8080).is_ok());
    assert_eq!(state.stop(), Ok(()));
    let mut listener_end = state.start(9090).unwrap();
    assert_eq!(state.status(), (true, 9090));
    assert_eq!(listener_end.try_recv(), Err(TryRecvError::Empty));
}

#[test]
fn a_listener_that_ended_leaves_the_state_stopped() {
    let mut state = ServerRuntimeState::new();
    let mut listener_end = state.start(8080).unwrap();
    state.listener_exited();
    assert_eq!(state.status(), (false, 8080));
    // The handle was dropped without being fired.
    assert_eq!(listener_end.try_recv(), Err(TryRecvError::Closed));
    assert_eq!(state.stop(), Err(LifecycleError::NotRunning));
    state.listener_exited();
    assert_eq!(state.status(), (false, 8080));
}

#[test]
fn the_port_changes_only_while_stopped_and_above_the_reserved_range() {
    let mut state = ServerRuntimeState::new();
    assert_eq!(state.change_port(1023), Err(PortError::Reserved));
    assert_eq!(state.change_port(0), Err(PortError::Reserved));
    assert_eq!(state.status(), (false, 3000));
    assert_eq!(state.change_port(1024), Ok(()));
    assert_eq!(state.status(), (false, 1024));
    assert_eq!(state.change_port(65535), Ok(()));
    assert_eq!(state.status(), (false, 65535));
    assert!(state.start(8080).is_ok());
    assert_eq!(state.change_port(9090), Err(PortError::ServerRunning));
    // A running server is reported before a reserved port.
    assert_eq!(state.change_port(80), Err(PortError::ServerRunning));
    assert_eq!(state.status(), (true, 8080));
}

#[test]
fn lifecycle_messages_are_worded_for_the_operator() {
    assert_eq!(LifecycleError::AlreadyRunning.message(), "Server is already running");
    assert_eq!(LifecycleError::NotRunning.message(), "Server is not running");
    assert_eq!(
        PortError::ServerRunning.message(),
        "Please stop the server before changing the port."
    );
    assert_eq!(
        PortError::Reserved.message(),
        "Invalid port number. Must be between 1024 and 65535."
    );
}

#[test]
fn the_default_state_is_the_fresh_state() {
    let state = ServerRuntimeState::default();
    assert_eq!(state.status(), (false, DEFAULT_PORT));
}
