use backend_supervisor::event::BackendEvent;
use backend_supervisor::profile::BuildProfile;
use backend_supervisor::relay::relay;
use backend_supervisor::relay::LogEntry;
use backend_supervisor::relay::Severity;
use backend_supervisor::supervisor::Action;
use backend_supervisor::supervisor::Input;
use backend_supervisor::supervisor::Stage;
use backend_supervisor::supervisor::StartupError;
use backend_supervisor::supervisor::Supervisor;
use backend_supervisor::supervisor::BACKEND_PROGRAM;

fn draining(profile: BuildProfile) -> Supervisor {
    let mut supervisor = Supervisor::new(profile);
    assert_eq!(supervisor.step(Input::Start), Action::Launch);
    assert!(matches!(
        supervisor.step(Input::Spawned),
        Action::Drain { .. }
    ));
    supervisor
}

fn every_input() -> Vec<Input> {
    vec![
        Input::Start,
        Input::BackendMissing,
        Input::SpawnFailed,
        Input::Spawned,
        Input::SinkRejected,
        Input::Event(BackendEvent::Stdout(b"line".to_vec())),
        Input::Event(BackendEvent::Stderr(b"line".to_vec())),
        Input::Event(BackendEvent::Error("detail".to_string())),
        Input::Event(BackendEvent::Terminated(Some(0))),
        Input::Event(BackendEvent::Other),
        Input::StreamClosed,
    ]
}

#[test]
fn development_build_installs_an_info_sink() {
    assert_eq!(BuildProfile::Development.sink_level(), Some(Severity::Info));
}

#[test]
fn production_build_installs_no_sink() {
    assert_eq!(BuildProfile::Production.sink_level(), None);
}

#[test]
fn backend_program_name() {
    assert_eq!(BACKEND_PROGRAM, "tremorsmusic");
}

#[test]
fn a_new_supervisor_has_not_started() {
    let supervisor = Supervisor::new(BuildProfile::Production);
    assert_eq!(supervisor.stage(), Stage::NotStarted);
    assert_eq!(supervisor.profile(), BuildProfile::Production);
    let supervisor = Supervisor::new(BuildProfile::Development);
    assert_eq!(supervisor.stage(), Stage::NotStarted);
    assert_eq!(supervisor.profile(), BuildProfile::Development);
}

#[test]
fn a_full_run_in_development() {
    let mut supervisor = Supervisor::new(BuildProfile::Development);
    assert_eq!(supervisor.step(Input::Start), Action::Launch);
    assert_eq!(supervisor.stage(), Stage::Launching);
    assert_eq!(
        supervisor.step(Input::Spawned),
        Action::Drain { sink: Some(Severity::Info) }
    );
    assert_eq!(supervisor.stage(), Stage::Draining);
    assert_eq!(
        supervisor.step(Input::Event(BackendEvent::Stdout(b"up".to_vec()))),
        Action::Log(LogEntry { severity: Severity::Info, message: "[Backend] up".to_string() })
    );
    assert_eq!(
        supervisor.step(Input::Event(BackendEvent::Stderr(b"careful".to_vec()))),
        Action::Log(LogEntry {
            severity: Severity::Warn,
            message: "[Backend] careful".to_string()
        })
    );
    assert_eq!(
        supervisor.step(Input::Event(BackendEvent::Terminated(Some(0)))),
        Action::Log(LogEntry {
            severity: Severity::Info,
            message: "[Backend] Process terminated with code: Some(0)".to_string()
        })
    );
    assert_eq!(supervisor.stage(), Stage::Draining);
    assert_eq!(supervisor.step(Input::StreamClosed), Action::Idle);
    assert_eq!(supervisor.stage(), Stage::Closed);
    assert_eq!(supervisor.profile(), BuildProfile::Development);
}

#[test]
fn production_drains_without_a_sink() {
    let mut supervisor = Supervisor::new(BuildProfile::Production);
    assert_eq!(supervisor.step(Input::Start), Action::Launch);
    assert_eq!(supervisor.step(Input::Spawned), Action::Drain { sink: None });
    assert_eq!(supervisor.stage(), Stage::Draining);
    assert_eq!(
        supervisor.step(Input::Event(BackendEvent::Stdout(b"quiet".to_vec()))),
        Action::Log(LogEntry { severity: Severity::Info, message: "[Backend] quiet".to_string() })
    );
}

#[test]
fn missing_backend_aborts_and_never_drains() {
    let mut supervisor = Supervisor::new(BuildProfile::Development);
    assert_eq!(supervisor.step(Input::Start), Action::Launch);
    assert_eq!(
        supervisor.step(Input::BackendMissing),
        Action::Abort(StartupError::BackendNotFound)
    );
    assert_eq!(supervisor.stage(), Stage::Failed);
    for input in every_input() {
        assert_eq!(supervisor.step(input), Action::Idle);
        assert_eq!(supervisor.stage(), Stage::Failed);
    }
}

#[test]
fn failed_spawn_aborts_and_never_drains() {
    let mut supervisor = Supervisor::new(BuildProfile::Production);
    assert_eq!(supervisor.step(Input::Start), Action::Launch);
    assert_eq!(
        supervisor.step(Input::SpawnFailed),
        Action::Abort(StartupError::SpawnFailed)
    );
    assert_eq!(supervisor.stage(), Stage::Failed);
    for input in every_input() {
        assert_eq!(supervisor.step(input), Action::Idle);
        assert_eq!(supervisor.stage(), Stage::Failed);
    }
}

#[test]
fn nothing_happens_before_the_start() {
    for input in every_input() {
        if input == Input::Start {
            continue;
        }
        let mut supervisor = Supervisor::new(BuildProfile::Development);
        assert_eq!(supervisor.step(input), Action::Idle);
        assert_eq!(supervisor.stage(), Stage::NotStarted);
    }
}

#[test]
fn events_wait_for_the_spawn() {
    let mut supervisor = Supervisor::new(BuildProfile::Development);
    supervisor.step(Input::Start);
    assert_eq!(
        supervisor.step(Input::Event(BackendEvent::Stdout(b"early".to_vec()))),
        Action::Idle
    );
    assert_eq!(supervisor.step(Input::StreamClosed), Action::Idle);
    assert_eq!(supervisor.step(Input::SinkRejected), Action::Idle);
    assert_eq!(supervisor.stage(), Stage::Launching);
}

#[test]
fn the_backend_is_launched_once() {
    let mut supervisor = Supervisor::new(BuildProfile::Development);
    let mut launches = 0;
    let mut drains = 0;
    let inputs = vec![
        Input::Start,
        Input::Start,
        Input::Spawned,
        Input::Start,
        Input::Spawned,
        Input::Event(BackendEvent::Other),
        Input::Start,
        Input::StreamClosed,
        Input::Start,
        Input::Spawned,
    ];
    for input in inputs {
        match supervisor.step(input) {
            Action::Launch => launches += 1,
            Action::Drain { .. } => drains += 1,
            _ => {}
        }
    }
    assert_eq!(launches, 1);
    assert_eq!(drains, 1);
    assert_eq!(supervisor.stage(), Stage::Closed);
}

#[test]
fn events_are_logged_in_their_order() {
    let mut supervisor = draining(BuildProfile::Production);
    let events = vec![
        BackendEvent::Stdout(b"one".to_vec()),
        BackendEvent::Stderr(b"two".to_vec()),
        BackendEvent::Other,
        BackendEvent::Error("three".to_string()),
        BackendEvent::Stdout(vec![0xFF]),
        BackendEvent::Terminated(None),
    ];
    let mut logged = Vec::new();
    for event in events {
        if let Action::Log(entry) = supervisor.step(Input::Event(event)) {
            logged.push(entry.message);
        }
        assert_eq!(supervisor.stage(), Stage::Draining);
    }
    assert_eq!(
        logged,
        vec![
            "[Backend] one".to_string(),
            "[Backend] two".to_string(),
            "[Backend Error] three".to_string(),
            "[Backend] \u{FFFD}".to_string(),
            "[Backend] Process terminated with code: None".to_string(),
        ]
    );
}

#[test]
fn step_answers_an_event_as_relay_does() {
    let mut supervisor = draining(BuildProfile::Development);
    let bytes = vec![b'h', b'i', 0x80, b'!'];
    let expected = relay(&BackendEvent::Stderr(bytes.clone())).unwrap();
    assert_eq!(
        supervisor.step(Input::Event(BackendEvent::Stderr(bytes))),
        Action::Log(expected)
    );
}

#[test]
fn ignored_events_keep_the_supervisor_draining() {
    let mut supervisor = draining(BuildProfile::Development);
    assert_eq!(supervisor.step(Input::Event(BackendEvent::Other)), Action::Idle);
    assert_eq!(supervisor.stage(), Stage::Draining);
}

#[test]
fn nothing_is_logged_after_the_stream_closed() {
    let mut supervisor = draining(BuildProfile::Production);
    assert_eq!(supervisor.step(Input::StreamClosed), Action::Idle);
    for input in every_input() {
        assert_eq!(supervisor.step(input), Action::Idle);
        assert_eq!(supervisor.stage(), Stage::Closed);
    }
}

#[test]
fn a_nonzero_exit_does_not_fail_the_supervisor() {
    let mut supervisor = draining(BuildProfile::Development);
    let action = supervisor.step(Input::Event(BackendEvent::Terminated(Some(1))));
    assert_eq!(
        action,
        Action::Log(LogEntry {
            severity: Severity::Info,
            message: "[Backend] Process terminated with code: Some(1)".to_string()
        })
    );
    assert_eq!(supervisor.stage(), Stage::Draining);
    let action = supervisor.step(Input::Event(BackendEvent::Error("wait failed".to_string())));
    assert_eq!(
        action,
        Action::Log(LogEntry {
            severity: Severity::Error,
            message: "[Backend Error] wait failed".to_string()
        })
    );
    assert_eq!(supervisor.stage(), Stage::Draining);
}

#[test]
fn a_rejected_sink_is_fatal_in_development() {
    let mut supervisor = draining(BuildProfile::Development);
    assert_eq!(
        supervisor.step(Input::SinkRejected),
        Action::Abort(StartupError::SinkRejected)
    );
    assert_eq!(supervisor.stage(), Stage::Failed);
    assert_eq!(
        supervisor.step(Input::Event(BackendEvent::Stdout(b"late".to_vec()))),
        Action::Idle
    );
}

#[test]
fn a_rejected_sink_is_fatal_after_the_stream_closed() {
    let mut supervisor = draining(BuildProfile::Development);
    supervisor.step(Input::StreamClosed);
    assert_eq!(
        supervisor.step(Input::SinkRejected),
        Action::Abort(StartupError::SinkRejected)
    );
    assert_eq!(supervisor.stage(), Stage::Failed);
}

#[test]
fn production_asks_for_no_sink_to_reject() {
    let mut supervisor = draining(BuildProfile::Production);
    assert_eq!(supervisor.step(Input::SinkRejected), Action::Idle);
    assert_eq!(supervisor.stage(), Stage::Draining);
    supervisor.step(Input::StreamClosed);
    assert_eq!(supervisor.step(Input::SinkRejected), Action::Idle);
    assert_eq!(supervisor.stage(), Stage::Closed);
}

#[test]
fn diagnostics_name_the_failure() {
    assert_eq!(
        StartupError::BackendNotFound.diagnostic(),
        "Failed to create sidecar command"
    );
    assert_eq!(
        StartupError::SpawnFailed.diagnostic(),
        "Failed to spawn backend sidecar"
    );
    assert_eq!(
        StartupError::SinkRejected.diagnostic(),
        "error while running tauri application"
    );
}

fn rank(stage: Stage) -> u8 {
    match stage {
        Stage::NotStarted => 0,
        Stage::Launching => 1,
        Stage::Draining => 2,
        Stage::Closed => 3,
        Stage::Failed => 4,
    }
}

#[test]
fn the_stage_never_goes_back() {
    for profile in [BuildProfile::Development, BuildProfile::Production] {
        for first in every_input() {
            let mut supervisor = Supervisor::new(profile);
            let mut inputs = vec![first];
            inputs.extend(every_input());
            inputs.extend(every_input());
            let mut reached = rank(supervisor.stage());
            for input in inputs {
                supervisor.step(input);
                assert!(rank(supervisor.stage()) >= reached);
                reached = rank(supervisor.stage());
                assert_eq!(supervisor.profile(), profile);
            }
        }
    }
}

#[test]
fn stray_inputs_do_not_disturb_the_drain() {
    let mut supervisor = draining(BuildProfile::Development);
    let inputs = vec![
        Input::Event(BackendEvent::Stdout(b"a".to_vec())),
        Input::Start,
        Input::Spawned,
        Input::Event(BackendEvent::Stderr(b"b".to_vec())),
        Input::BackendMissing,
        Input::SpawnFailed,
        Input::Event(BackendEvent::Stdout(b"c".to_vec())),
    ];
    let mut answers = Vec::new();
    for input in inputs {
        answers.push(supervisor.step(input));
        assert_eq!(supervisor.stage(), Stage::Draining);
    }
    let log = |severity: Severity, message: &str| {
        Action::Log(LogEntry { severity, message: message.to_string() })
    };
    assert_eq!(
        answers,
        vec![
            log(Severity::Info, "[Backend] a"),
            Action::Idle,
            Action::Idle,
            log(Severity::Warn, "[Backend] b"),
            Action::Idle,
            Action::Idle,
            log(Severity::Info, "[Backend] c"),
        ]
    );
}
