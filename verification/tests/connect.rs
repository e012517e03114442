use max_cli::addressing::DaemonPaths;
use max_cli::connect::{
    begin_connect, connect, decimal_text, ConnectAction, ConnectError, ConnectEvent, ConnectState,
    ConnectStep, CONNECT_RETRY_MS, MAX_CONNECT_ATTEMPTS,
};
use max_cli::lifecycle::{SetupStep, SpawnError};

fn paths() -> DaemonPaths {
    DaemonPaths::for_project("/home/alice", "/home/alice/project")
}

fn refused(cause: &str) -> ConnectEvent {
    ConnectEvent::Refused { cause: cause.to_string() }
}

fn run(events: Vec<ConnectEvent>) -> (ConnectState, Vec<ConnectAction>) {
    let p = paths();
    let ConnectStep { mut state, action } = begin_connect();
    let mut actions = vec![action];
    for event in events {
        let step = connect(state, event, &p);
        state = step.state;
        actions.push(step.action);
    }
    (state, actions)
}

fn wait() -> ConnectAction {
    ConnectAction::WaitAndConnect { millis: 50 }
}

#[test]
fn design_values() {
    assert_eq!(MAX_CONNECT_ATTEMPTS, 20);
    assert_eq!(CONNECT_RETRY_MS, 50);
}

#[test]
fn connect_starts_with_a_try_at_once() {
    let step = begin_connect();
    assert_eq!(step.state, ConnectState::Connecting);
    assert_eq!(step.action, ConnectAction::Connect);
}

#[test]
fn fast_path_returns_the_stream_without_a_spawn() {
    let (state, actions) = run(vec![ConnectEvent::Connected]);
    assert_eq!(state, ConnectState::Connected);
    assert_eq!(actions, vec![ConnectAction::Connect, ConnectAction::Return]);
    assert!(!actions.contains(&ConnectAction::CleanAndSpawn));
}

#[test]
fn without_a_pid_file_a_daemon_is_started_once_and_a_listener_is_found() {
    let (state, actions) = run(vec![
        refused("no such file"),
        ConnectEvent::PidFile { contents: None },
        ConnectEvent::Spawned,
        refused("no such file"),
        refused("connection refused"),
        ConnectEvent::Connected,
    ]);
    assert_eq!(state, ConnectState::Connected);
    assert_eq!(
        actions,
        vec![
            ConnectAction::Connect,
            ConnectAction::ReadPidFile,
            ConnectAction::CleanAndSpawn,
            wait(),
            wait(),
            wait(),
            ConnectAction::Return,
        ]
    );
    assert_eq!(actions.iter().filter(|a| **a == ConnectAction::CleanAndSpawn).count(), 1);
}

#[test]
fn a_dead_process_on_record_is_replaced() {
    let (state, actions) = run(vec![
        refused("connection refused"),
        ConnectEvent::PidFile { contents: Some("4242\n".to_string()) },
        ConnectEvent::Signalled { result: -1 },
        ConnectEvent::Spawned,
        ConnectEvent::Connected,
    ]);
    assert_eq!(state, ConnectState::Connected);
    assert_eq!(
        actions,
        vec![
            ConnectAction::Connect,
            ConnectAction::ReadPidFile,
            ConnectAction::Signal { pid: 4242 },
            ConnectAction::CleanAndSpawn,
            wait(),
            ConnectAction::Return,
        ]
    );
}

#[test]
fn a_running_daemon_is_not_replaced() {
    let (state, actions) = run(vec![
        refused("connection refused"),
        ConnectEvent::PidFile { contents: Some("4242".to_string()) },
        ConnectEvent::Signalled { result: 0 },
        ConnectEvent::Connected,
    ]);
    assert_eq!(state, ConnectState::Connected);
    assert_eq!(
        actions,
        vec![
            ConnectAction::Connect,
            ConnectAction::ReadPidFile,
            ConnectAction::Signal { pid: 4242 },
            wait(),
            ConnectAction::Return,
        ]
    );
}

#[test]
fn a_pid_file_without_a_number_counts_as_no_daemon() {
    let (state, actions) = run(vec![
        refused("connection refused"),
        ConnectEvent::PidFile { contents: Some("garbage".to_string()) },
    ]);
    assert_eq!(state, ConnectState::Spawning);
    assert_eq!(actions[2], ConnectAction::CleanAndSpawn);
}

#[test]
fn a_pid_file_with_zero_or_less_counts_as_no_daemon() {
    for text in ["0", "-1", "-2147483648"] {
        let (state, actions) = run(vec![
            refused("connection refused"),
            ConnectEvent::PidFile { contents: Some(text.to_string()) },
        ]);
        assert_eq!(state, ConnectState::Spawning, "{:?}", text);
        assert_eq!(
            actions,
            vec![ConnectAction::Connect, ConnectAction::ReadPidFile, ConnectAction::CleanAndSpawn]
        );
    }
}

#[test]
fn a_failed_spawn_ends_it_without_a_retry() {
    let error = SpawnError::DaemonDir { step: SetupStep::CreateDir, cause: "denied".to_string() };
    let (state, actions) = run(vec![
        refused("connection refused"),
        ConnectEvent::PidFile { contents: None },
        ConnectEvent::SpawnFailed {
            error: SpawnError::DaemonDir { step: SetupStep::CreateDir, cause: "denied".to_string() },
        },
    ]);
    assert_eq!(state, ConnectState::Failed);
    assert_eq!(actions[3], ConnectAction::Fail(ConnectError::Spawn(error)));
    assert!(!actions.contains(&wait()));
}

#[test]
fn the_listener_may_appear_at_the_last_try() {
    let mut events =
        vec![refused("x"), ConnectEvent::PidFile { contents: None }, ConnectEvent::Spawned];
    for _ in 0..19 {
        events.push(refused("connection refused"));
    }
    events.push(ConnectEvent::Connected);
    let (state, actions) = run(events);
    assert_eq!(state, ConnectState::Connected);
    assert_eq!(actions.iter().filter(|a| **a == wait()).count(), 20);
    assert_eq!(actions.last(), Some(&ConnectAction::Return));
}

#[test]
fn twenty_failed_tries_exhaust_the_budget() {
    let mut events =
        vec![refused("x"), ConnectEvent::PidFile { contents: None }, ConnectEvent::Spawned];
    for i in 0..20 {
        events.push(refused(&format!("refused {}", i + 1)));
    }
    let (state, actions) = run(events);
    assert_eq!(state, ConnectState::Failed);
    assert_eq!(actions.iter().filter(|a| **a == wait()).count(), 20);
    assert_eq!(actions.iter().filter(|a| **a == ConnectAction::CleanAndSpawn).count(), 1);
    let socket = paths().socket;
    let error = ConnectError::Exhausted {
        attempts: 20,
        cause: "refused 20".to_string(),
        socket: socket.clone(),
    };
    assert_eq!(
        error.message(),
        format!("Failed to connect after 20 attempts: refused 20, {}", socket)
    );
    assert_eq!(actions.last(), Some(&ConnectAction::Fail(error)));
}

#[test]
fn nothing_happens_once_it_is_over() {
    let p = paths();
    for state in [ConnectState::Connected, ConnectState::Failed] {
        for event in [ConnectEvent::Connected, refused("x"), ConnectEvent::Spawned] {
            let step = connect(state, event, &p);
            assert_eq!(step.state, state);
            assert_eq!(step.action, ConnectAction::Ignore);
        }
    }
}

#[test]
fn an_event_that_is_not_waited_for_changes_nothing() {
    let p = paths();
    let step = connect(ConnectState::Connecting, ConnectEvent::Spawned, &p);
    assert_eq!(step.state, ConnectState::Connecting);
    assert_eq!(step.action, ConnectAction::Ignore);
    let step = connect(ConnectState::Spawning, refused("x"), &p);
    assert_eq!(step.state, ConnectState::Spawning);
    assert_eq!(step.action, ConnectAction::Ignore);
}

#[test]
fn spawn_error_is_reported_in_its_own_words() {
    let error = ConnectError::Spawn(SpawnError::Launch { cause: "no bun".to_string() });
    assert_eq!(error.message(), "Failed to spawn daemon: no bun");
}

#[test]
fn numbers_are_written_in_decimal() {
    assert_eq!(decimal_text(0), "0");
    assert_eq!(decimal_text(7), "7");
    assert_eq!(decimal_text(20), "20");
    assert_eq!(decimal_text(4294967295), "4294967295");
}
