use mager::supervisor::{
    sources_dir, ChildStatus, Launch, ProcessError, Source, SourceState, SOURCE_PORT,
};

#[test]
fn local_source_starts_inactive() {
    let source = Source::local("demo".to_string());
    assert_eq!(source.name, "demo");
    assert_eq!(source.url, None);
    assert!(source.is_local);
    assert_eq!(source.state, SourceState::Inactive);
}

#[test]
fn activation_gives_the_command_to_spawn() {
    let mut source = Source::local("demo".to_string());
    let launch = source.activate(SOURCE_PORT, "/home/me", false, None);
    assert_eq!(
        launch,
        Ok(Launch {
            program: "/home/me/.local/mager/sources/demo".to_string(),
            argument: "7878".to_string(),
        })
    );
    assert_eq!(source.state, SourceState::Starting);
}

#[test]
fn development_build_runs_from_the_build_directory() {
    let source = Source::local("mangadex".to_string());
    assert_eq!(
        source.executable("/home/me", true),
        "/home/me/Projects/mager/target/debug/mangadex"
    );
    assert_eq!(source.executable("/home/me", false), "/home/me/.local/mager/sources/mangadex");
    assert_eq!(sources_dir("/home/me"), "/home/me/.local/mager/sources/");
}

#[test]
fn activation_while_the_process_runs_fails() {
    let mut source = Source::local("demo".to_string());
    source.activate(7878, "/h", false, None).unwrap();
    assert_eq!(
        source.activate(7878, "/h", false, Some(ChildStatus::Running)),
        Err(ProcessError::AlreadyActive)
    );
    assert_eq!(source.state, SourceState::Starting);
    source.answered();
    assert_eq!(source.state, SourceState::Active);
    assert_eq!(
        source.activate(7878, "/h", false, Some(ChildStatus::Running)),
        Err(ProcessError::AlreadyActive)
    );
    assert_eq!(source.state, SourceState::Active);
}

#[test]
fn activation_after_the_process_exited_succeeds() {
    let mut source = Source::local("demo".to_string());
    source.activate(7878, "/h", false, None).unwrap();
    source.answered();
    assert!(source.activate(7878, "/h", false, Some(ChildStatus::Exited)).is_ok());
    assert_eq!(source.state, SourceState::Starting);
}

#[test]
fn exit_is_seen_in_the_same_observation() {
    let mut source = Source::local("demo".to_string());
    source.activate(7878, "/h", false, None).unwrap();
    source.answered();
    assert!(source.is_active(Some(ChildStatus::Running)));
    assert!(source.is_active(Some(ChildStatus::Running)));
    assert!(!source.is_active(Some(ChildStatus::Exited)));
    assert_eq!(source.state, SourceState::Inactive);
    // No stale answer afterwards, whatever is polled.
    assert!(!source.is_active(Some(ChildStatus::Running)));
    assert!(!source.is_active(None));
}

#[test]
fn failed_poll_reports_inactive_and_keeps_the_state() {
    let mut source = Source::local("demo".to_string());
    source.activate(7878, "/h", false, None).unwrap();
    assert!(!source.is_active(Some(ChildStatus::Unknown)));
    assert_eq!(source.state, SourceState::Starting);
}

#[test]
fn failed_spawn_leaves_the_source_inactive() {
    let mut source = Source::local("demo".to_string());
    source.activate(7878, "/h", false, None).unwrap();
    assert_eq!(source.spawn_failed(), ProcessError::SpawnFailed);
    assert_eq!(source.state, SourceState::Inactive);
}

#[test]
fn answered_makes_only_a_starting_source_active() {
    let mut source = Source::local("demo".to_string());
    source.answered();
    assert_eq!(source.state, SourceState::Inactive);
    source.activate(7878, "/h", false, None).unwrap();
    source.answered();
    assert_eq!(source.state, SourceState::Active);
    source.deactivate();
    source.answered();
    assert_eq!(source.state, SourceState::Terminating);
}

#[test]
fn deactivation_asks_to_kill_only_where_there_is_a_process() {
    let mut source = Source::local("demo".to_string());
    assert!(!source.deactivate());
    assert_eq!(source.state, SourceState::Inactive);
    source.activate(7878, "/h", false, None).unwrap();
    assert!(source.deactivate());
    assert_eq!(source.state, SourceState::Terminating);
    // Still running until the exit is observed.
    assert!(source.is_active(Some(ChildStatus::Running)));
    assert!(!source.is_active(Some(ChildStatus::Exited)));
    assert_eq!(source.state, SourceState::Inactive);
}
