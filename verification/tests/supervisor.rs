use sidecar_supervisor::error::LaunchError;
use sidecar_supervisor::paths::{DataOrigin, DirProbe, OsFamily};
use sidecar_supervisor::pump::{pump_event, CommandEvent};
use sidecar_supervisor::shutdown::{StopAction, TerminationMode};
use sidecar_supervisor::supervisor::{
    complete_start, LaunchSurvey, SpawnReport, StartOutcome, StartStep,
};
use sidecar_supervisor::{start_sidecar, stop_sidecar, SidecarState};

fn survey() -> LaunchSurvey {
    LaunchSurvey {
        family: OsFamily::Linux,
        legacy: None,
        current: Ok(DirProbe {
            path: "/home/u/.local/share/app".to_string(),
            exists: false,
            has_database_file: false,
            has_database_dir: false,
        }),
        resource_root: Ok("/opt/app/resources".to_string()),
        entry_point_exists: true,
        runtime_dir: Ok("/opt/app/bin".to_string()),
        platform_url: None,
    }
}

fn empty() -> SidecarState<u32> {
    SidecarState::default()
}

fn running(pid: u32) -> SidecarState<u32> {
    let mut state = empty();
    assert!(state.install(pid).is_none());
    state
}

#[test]
fn start_on_an_empty_state_plans_the_launch() {
    let state = empty();
    match start_sidecar(&state, &survey()) {
        StartStep::Launch(plan) => {
            assert_eq!(plan.data_dir.path, "/home/u/.local/share/app");
            assert_eq!(plan.data_dir.origin, DataOrigin::Current);
            assert!(plan.data_dir.must_create);
            assert_eq!(plan.spec.executable, "panini-server");
            assert_eq!(
                plan.spec.args,
                vec![
                    "run".to_string(),
                    "/opt/app/resources/server/index.js".to_string(),
                    "--port".to_string(),
                    "6464".to_string(),
                    "--host".to_string(),
                    "127.0.0.1".to_string(),
                ]
            );
            assert_eq!(plan.spec.working_dir, "/home/u/.local/share/app");
            assert_eq!(plan.spec.env.len(), 5);
        }
        _ => panic!("expected a launch"),
    }
    assert!(state.child.is_none());
}

#[test]
fn start_uses_the_state_s_address() {
    let state: SidecarState<u32> = SidecarState::new("0.0.0.0".to_string(), 8080);
    match start_sidecar(&state, &survey()) {
        StartStep::Launch(plan) => {
            assert_eq!(plan.spec.args[3], "8080");
            assert_eq!(plan.spec.args[5], "0.0.0.0");
        }
        _ => panic!("expected a launch"),
    }
}

#[test]
fn second_start_is_a_no_op() {
    let mut state = empty();
    assert!(matches!(start_sidecar(&state, &survey()), StartStep::Launch(_)));
    assert!(matches!(
        complete_start(&mut state, SpawnReport::Spawned(100)),
        StartOutcome::Started
    ));
    assert!(matches!(start_sidecar(&state, &survey()), StartStep::AlreadyRunning));
    assert_eq!(state.child, Some(100));
}

#[test]
fn a_running_child_makes_start_a_no_op_whatever_the_machine_looks_like() {
    let state = running(7);
    let mut broken = survey();
    broken.entry_point_exists = false;
    broken.current = Err("gone".to_string());
    assert!(matches!(start_sidecar(&state, &broken), StartStep::AlreadyRunning));
}

#[test]
fn a_child_spawned_beside_a_running_one_is_handed_back() {
    let mut state = running(100);
    match complete_start(&mut state, SpawnReport::Spawned(200)) {
        StartOutcome::Superseded(duplicate) => assert_eq!(duplicate, 200),
        _ => panic!("expected the duplicate back"),
    }
    assert_eq!(state.child, Some(100));
}

#[test]
fn missing_entry_point_fails_the_start_and_leaves_the_state_empty() {
    let state = empty();
    let mut s = survey();
    s.entry_point_exists = false;
    match start_sidecar(&state, &s) {
        StartStep::Failed(LaunchError::EntryPointMissing(path)) => {
            assert_eq!(path, "/opt/app/resources/server/index.js");
        }
        _ => panic!("expected the entry point to be reported missing"),
    }
    assert!(state.child.is_none());
    assert!(!state.running());
}

#[test]
fn missing_entry_point_message_names_the_file() {
    let mut s = survey();
    s.entry_point_exists = false;
    match start_sidecar(&empty(), &s) {
        StartStep::Failed(e) => assert_eq!(
            e.message(),
            "Sidecar entry point not found: /opt/app/resources/server/index.js"
        ),
        _ => panic!("expected a failure"),
    }
}

#[test]
fn no_data_directory_fails_the_start() {
    let mut s = survey();
    s.current = Err("no app data dir".to_string());
    match start_sidecar(&empty(), &s) {
        StartStep::Failed(LaunchError::DataDir(reason)) => assert_eq!(reason, "no app data dir"),
        _ => panic!("expected a resolution error"),
    }
}

#[test]
fn the_data_directory_is_resolved_before_the_entry_point() {
    let mut s = survey();
    s.current = Err("no app data dir".to_string());
    s.entry_point_exists = false;
    assert!(matches!(
        start_sidecar(&empty(), &s),
        StartStep::Failed(LaunchError::DataDir(_))
    ));
}

#[test]
fn unknown_resources_fail_the_start() {
    let mut s = survey();
    s.resource_root = Err("no resource dir".to_string());
    match start_sidecar(&empty(), &s) {
        StartStep::Failed(LaunchError::Resources(reason)) => assert_eq!(reason, "no resource dir"),
        _ => panic!("expected a resolution error"),
    }
    let mut s = survey();
    s.runtime_dir = Err("no executable path".to_string());
    match start_sidecar(&empty(), &s) {
        StartStep::Failed(e) => {
            assert_eq!(e.message(), "Failed to locate bundled resources: no executable path")
        }
        _ => panic!("expected a resolution error"),
    }
    let mut s = survey();
    s.resource_root = Err("first".to_string());
    s.runtime_dir = Err("second".to_string());
    s.entry_point_exists = false;
    match start_sidecar(&empty(), &s) {
        StartStep::Failed(LaunchError::Resources(reason)) => assert_eq!(reason, "first"),
        _ => panic!("expected a resolution error"),
    }
}

#[test]
fn start_points_the_child_at_a_used_legacy_directory() {
    let mut s = survey();
    s.legacy = Some(DirProbe {
        path: "/home/u/.config/panini".to_string(),
        exists: true,
        has_database_file: true,
        has_database_dir: false,
    });
    match start_sidecar(&empty(), &s) {
        StartStep::Launch(plan) => {
            assert_eq!(plan.data_dir.origin, DataOrigin::Legacy);
            assert!(!plan.data_dir.must_create);
            assert_eq!(plan.spec.working_dir, "/home/u/.config/panini");
            assert_eq!(
                plan.spec.env[2],
                ("PANINI_DATA_DIR".to_string(), "/home/u/.config/panini".to_string())
            );
        }
        _ => panic!("expected a launch"),
    }
}

#[test]
fn start_passes_the_platform_url() {
    let mut s = survey();
    s.platform_url = Some("https://p.example".to_string());
    match start_sidecar(&empty(), &s) {
        StartStep::Launch(plan) => {
            assert_eq!(plan.spec.args.len(), 8);
            assert_eq!(plan.spec.args[6], "--platform-url");
            assert_eq!(plan.spec.args[7], "https://p.example");
        }
        _ => panic!("expected a launch"),
    }
}

#[test]
fn failed_launches_leave_the_state_not_running() {
    let mut state = empty();
    match complete_start(&mut state, SpawnReport::SpawnFailed("ENOENT".to_string())) {
        StartOutcome::Failed(e) => assert_eq!(e.message(), "Failed to spawn sidecar: ENOENT"),
        _ => panic!("expected a failure"),
    }
    assert!(state.child.is_none());
    match complete_start(&mut state, SpawnReport::DirectoryNotCreated("read-only".to_string())) {
        StartOutcome::Failed(e) => {
            assert_eq!(e.message(), "Failed to create app data dir: read-only")
        }
        _ => panic!("expected a failure"),
    }
    assert!(state.child.is_none());
    match complete_start(&mut state, SpawnReport::CommandRejected("no such sidecar".to_string())) {
        StartOutcome::Failed(e) => {
            assert_eq!(e.message(), "Failed to create sidecar command: no such sidecar")
        }
        _ => panic!("expected a failure"),
    }
    assert!(state.child.is_none());
}

#[test]
fn a_failed_launch_beside_a_running_child_leaves_it_running() {
    let mut state = running(5);
    assert!(matches!(
        complete_start(&mut state, SpawnReport::SpawnFailed("x".to_string())),
        StartOutcome::Failed(LaunchError::Spawn(_))
    ));
    assert_eq!(state.child, Some(5));
}

#[test]
fn stop_with_nothing_running_is_a_no_op() {
    let mut state: SidecarState<u32> = SidecarState::new("10.0.0.1".to_string(), 9000);
    assert!(stop_sidecar(&mut state, TerminationMode::GracefulThenForced).is_none());
    assert!(state.child.is_none());
    assert_eq!(state.host, "10.0.0.1");
    assert_eq!(state.port, 9000);
    assert!(stop_sidecar(&mut state, TerminationMode::ForcedOnly).is_none());
}

#[test]
fn stop_takes_the_handle_and_says_how_to_terminate() {
    let mut state = running(4242);
    let stop = stop_sidecar(&mut state, TerminationMode::GracefulThenForced).unwrap();
    assert_eq!(stop.child, 4242);
    assert_eq!(stop.controller.pending(), StopAction::SendTerminate);
    assert!(state.child.is_none());
    assert_eq!(state.port, 6464);
    assert!(stop_sidecar(&mut state, TerminationMode::GracefulThenForced).is_none());
}

#[test]
fn stop_in_forced_mode_starts_with_the_kill() {
    let mut state = running(1);
    let stop = stop_sidecar(&mut state, TerminationMode::ForcedOnly).unwrap();
    assert_eq!(stop.controller.pending(), StopAction::ForceKill);
}

#[test]
fn start_after_stop_launches_again() {
    let mut state = running(1);
    stop_sidecar(&mut state, TerminationMode::GracefulThenForced);
    assert!(matches!(start_sidecar(&state, &survey()), StartStep::Launch(_)));
    assert!(matches!(complete_start(&mut state, SpawnReport::Spawned(2)), StartOutcome::Started));
    assert_eq!(state.child, Some(2));
}

#[test]
fn start_after_a_crash_launches_again() {
    let mut state = running(31337);
    let crash = CommandEvent::Terminated { code: None, signal: Some(9) };
    let step = pump_event(&mut state, &crash);
    assert!(step.finished);
    assert!(state.child.is_none());
    assert!(matches!(start_sidecar(&state, &survey()), StartStep::Launch(_)));
    assert!(matches!(complete_start(&mut state, SpawnReport::Spawned(31338)), StartOutcome::Started));
    assert_eq!(state.child, Some(31338));
}

#[test]
fn stop_after_a_crash_finds_nothing_to_do() {
    let mut state = running(9);
    pump_event(&mut state, &CommandEvent::Terminated { code: Some(1), signal: None });
    assert!(stop_sidecar(&mut state, TerminationMode::GracefulThenForced).is_none());
}
