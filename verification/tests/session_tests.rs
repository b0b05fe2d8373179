use string_mem_test::config::ConfigError;
use string_mem_test::session::{
    farewell_line, Action, Event, LoadError, SessionState, StartupError,
};

#[test]
fn farewell_is_the_expected_line() {
    assert_eq!(farewell_line(), "Got it! Exiting...");
}

fn options(time: Option<&str>, file: Option<&str>) -> Event {
    Event::Options {
        time: time.map(|s| s.to_string()),
        file: file.map(|s| s.to_string()),
    }
}

#[test]
fn scenario_time_one_file_hello() {
    let (state, action) = SessionState::AwaitOptions.step(options(Some("1"), Some("notes.txt")));
    assert_eq!(action, Action::ReadFile);

    let (mut state, action) = state.step(Event::Loaded {
        outcome: Ok("hello".to_string()),
    });
    assert_eq!(action, Action::Continue);

    for _ in 0..3 {
        let (next, action) = state.step(Event::Poll { runnable: true });
        assert_eq!(action, Action::PrintContent);
        match &next {
            SessionState::Running { config, content } => {
                assert_eq!(content, "hello");
                assert_eq!(config.interval_millis(), 1000);
            }
            other => panic!("loop left the running state: {:?}", other),
        }
        state = next;
    }

    let (state, action) = state.step(Event::Poll { runnable: false });
    assert_eq!(action, Action::PrintFarewell);
    assert_eq!(state.exit_code(), 0);
}

#[test]
fn repeated_shutdown_requests_are_idempotent() {
    let (state, _) = SessionState::AwaitOptions.step(options(None, None));
    let (mut state, action) = state.step(Event::Poll { runnable: false });
    assert_eq!(action, Action::PrintFarewell);
    for _ in 0..3 {
        let (next, action) = state.step(Event::Poll { runnable: false });
        assert_eq!(action, Action::Continue);
        assert!(matches!(next, SessionState::Stopped));
        state = next;
    }
    assert_eq!(state.exit_code(), 0);
}

#[test]
fn load_failure_aborts_without_printing() {
    let (state, action) = SessionState::AwaitOptions.step(options(Some("1"), Some("no_such_file")));
    assert_eq!(action, Action::ReadFile);
    let (mut state, action) = state.step(Event::Loaded {
        outcome: Err(LoadError::NotFound),
    });
    assert_eq!(action, Action::Abort);
    match &state {
        SessionState::Failed { error } => {
            assert_eq!(*error, StartupError::LoadFailed(LoadError::NotFound));
        }
        other => panic!("expected a failed session: {:?}", other),
    }
    assert_eq!(state.exit_code(), 1);
    for _ in 0..3 {
        let (next, action) = state.step(Event::Poll { runnable: true });
        assert_eq!(action, Action::Continue);
        state = next;
    }
    assert_eq!(state.exit_code(), 1);
}

#[test]
fn every_load_error_kind_aborts() {
    let kinds = [
        LoadError::NotFound,
        LoadError::PermissionDenied,
        LoadError::InvalidData,
        LoadError::Other,
    ];
    for kind in kinds {
        let (state, _) = SessionState::AwaitOptions.step(options(None, Some("f")));
        let (state, action) = state.step(Event::Loaded { outcome: Err(kind) });
        assert_eq!(action, Action::Abort);
        assert_eq!(state.exit_code(), 1);
        match state {
            SessionState::Failed { error } => {
                assert_eq!(error, StartupError::LoadFailed(kind));
            }
            other => panic!("expected a failed session: {:?}", other),
        }
    }
}

#[test]
fn bad_interval_aborts_before_any_load() {
    let (state, action) = SessionState::AwaitOptions.step(options(Some("abc"), Some("notes.txt")));
    assert_eq!(action, Action::Abort);
    match &state {
        SessionState::Failed { error } => {
            assert_eq!(*error, StartupError::BadConfig(ConfigError::InvalidInterval));
        }
        other => panic!("expected a failed session: {:?}", other),
    }
    assert_eq!(state.exit_code(), 1);
}

#[test]
fn oversized_interval_aborts() {
    let (state, action) = SessionState::AwaitOptions.step(options(Some("18446744073709552"), None));
    assert_eq!(action, Action::Abort);
    match state {
        SessionState::Failed { error } => {
            assert_eq!(error, StartupError::BadConfig(ConfigError::IntervalTooLarge));
        }
        other => panic!("expected a failed session: {:?}", other),
    }
}

#[test]
fn no_file_prints_empty_content() {
    let (state, action) = SessionState::AwaitOptions.step(options(Some("2"), None));
    assert_eq!(action, Action::Continue);
    let (state, action) = state.step(Event::Poll { runnable: true });
    assert_eq!(action, Action::PrintContent);
    match &state {
        SessionState::Running { config, content } => {
            assert_eq!(content, "");
            assert_eq!(config.interval_millis(), 2000);
        }
        other => panic!("loop did not start: {:?}", other),
    }
}

#[test]
fn zero_interval_prints_at_once() {
    let (state, action) = SessionState::AwaitOptions.step(options(None, None));
    assert_eq!(action, Action::Continue);
    match &state {
        SessionState::Running { config, content } => {
            assert_eq!(content, "");
            assert_eq!(config.interval_millis(), 0);
        }
        other => panic!("loop did not start: {:?}", other),
    }
    let (_, action) = state.step(Event::Poll { runnable: true });
    assert_eq!(action, Action::PrintContent);
}

#[test]
fn unexpected_events_change_nothing() {
    let (state, action) = SessionState::AwaitOptions.step(Event::Poll { runnable: true });
    assert_eq!(action, Action::Continue);
    assert!(matches!(state, SessionState::AwaitOptions));
    let (state, action) = state.step(Event::Loaded {
        outcome: Ok("early".to_string()),
    });
    assert_eq!(action, Action::Continue);
    assert!(matches!(state, SessionState::AwaitOptions));
}
