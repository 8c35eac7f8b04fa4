use std::sync::Mutex;

use sidecar_supervisor::commands::get_sidecar_config;
use sidecar_supervisor::error::{LaunchError, ReadinessTimeout, StopError};
use sidecar_supervisor::lifecycle::{after_start, after_wait, SetupStep};
use sidecar_supervisor::paths::{DirProbe, OsFamily};
use sidecar_supervisor::pump::{pump_event, CommandEvent};
use sidecar_supervisor::readiness::{classify_report, HealthStatus, PollStep};
use sidecar_supervisor::shutdown::{termination_mode, StopAction, StopEvent};
use sidecar_supervisor::supervisor::{
    complete_start, LaunchSurvey, SpawnReport, StartOutcome, StartStep,
};
use sidecar_supervisor::{
    restart_sidecar, start_sidecar, stop_sidecar, wait_for_sidecar_ready, SidecarState,
};

/// A child of the simulated machine.
#[derive(Debug, PartialEq)]
struct Child {
    pid: u32,
}

/// A machine that records what is done to it.
struct World {
    state: Mutex<SidecarState<Child>>,
    next_pid: u32,
    spawned: Vec<u32>,
    killed: Vec<u32>,
    signalled: Vec<u32>,
    created_dirs: Vec<String>,
    slept_ms: u64,
    entry_point_exists: bool,
    spawn_fails: bool,
    kill_fails: bool,
    /// Looks after which a signalled child is gone; `None` if it never goes.
    exits_after_looks: Option<u32>,
}

impl World {
    fn new() -> World {
        World {
            state: Mutex::new(SidecarState::default()),
            next_pid: 1000,
            spawned: Vec::new(),
            killed: Vec::new(),
            signalled: Vec::new(),
            created_dirs: Vec::new(),
            slept_ms: 0,
            entry_point_exists: true,
            spawn_fails: false,
            kill_fails: false,
            exits_after_looks: Some(1),
        }
    }

    fn survey(&self) -> LaunchSurvey {
        LaunchSurvey {
            family: OsFamily::Linux,
            legacy: None,
            current: Ok(DirProbe {
                path: "/data".to_string(),
                exists: self.created_dirs.iter().any(|d| d == "/data"),
                has_database_file: false,
                has_database_dir: false,
            }),
            resource_root: Ok("/res".to_string()),
            entry_point_exists: self.entry_point_exists,
            runtime_dir: Ok("/bin".to_string()),
            platform_url: None,
        }
    }

    fn live(&self) -> usize {
        self.spawned.iter().filter(|pid| !self.killed.contains(pid)).count()
    }

    fn start(&mut self) -> Result<(), LaunchError> {
        let survey = self.survey();
        let step = start_sidecar(&self.state.lock().unwrap(), &survey);
        let plan = match step {
            StartStep::AlreadyRunning => return Ok(()),
            StartStep::Failed(e) => return Err(e),
            StartStep::Launch(plan) => plan,
        };
        if plan.data_dir.must_create {
            self.created_dirs.push(plan.data_dir.path.clone());
        }
        let report = if self.spawn_fails {
            SpawnReport::SpawnFailed("refused".to_string())
        } else {
            self.next_pid += 1;
            self.spawned.push(self.next_pid);
            SpawnReport::Spawned(Child { pid: self.next_pid })
        };
        let outcome = complete_start(&mut self.state.lock().unwrap(), report);
        match outcome {
            StartOutcome::Started => Ok(()),
            StartOutcome::Superseded(duplicate) => {
                self.killed.push(duplicate.pid);
                Ok(())
            }
            StartOutcome::Failed(e) => Err(e),
        }
    }

    fn stop(&mut self) -> Result<(), StopError> {
        let mode = termination_mode(OsFamily::Linux);
        let stop = stop_sidecar(&mut self.state.lock().unwrap(), mode);
        let Some(termination) = stop else {
            return Ok(());
        };
        let mut controller = termination.controller;
        let pid = termination.child.pid;
        let mut looks = 0u32;
        let mut action = controller.pending();
        loop {
            let event = match action {
                StopAction::SendTerminate => {
                    self.signalled.push(pid);
                    StopEvent::SignalSent
                }
                StopAction::CheckAfter { ms } => {
                    self.slept_ms += ms;
                    looks += 1;
                    match self.exits_after_looks {
                        Some(n) if looks >= n => StopEvent::Exited,
                        _ => StopEvent::StillAlive,
                    }
                }
                StopAction::ForceKill => {
                    if self.kill_fails {
                        StopEvent::KillFailed("not permitted".to_string())
                    } else {
                        self.killed.push(pid);
                        StopEvent::KillIssued
                    }
                }
                StopAction::Done | StopAction::Failed => break,
            };
            action = controller.step(event);
        }
        match controller.outcome() {
            Some(Err(e)) => Err(e),
            Some(Ok(())) => Ok(()),
            None => panic!("the stop ended without an outcome"),
        }
    }

    fn crash(&mut self) {
        let event = CommandEvent::Terminated { code: None, signal: Some(9) };
        let step = pump_event(&mut self.state.lock().unwrap(), &event);
        assert!(step.finished);
        if let Some(pid) = self.spawned.last() {
            self.killed.push(*pid);
        }
    }

    fn wait(&mut self, reports: &[&str]) -> Result<u32, ReadinessTimeout> {
        let config = get_sidecar_config(&self.state.lock().unwrap());
        let mut poller = wait_for_sidecar_ready(&config.host, config.port);
        assert_eq!(poller.url(), "http://127.0.0.1:6464/api/health");
        let mut probes = 0usize;
        let mut step = poller.pending();
        loop {
            match step {
                PollStep::Probe { after_ms } => {
                    self.slept_ms += after_ms;
                    let health = match reports.get(probes) {
                        Some(report) => classify_report(report),
                        None => HealthStatus::Unreachable,
                    };
                    probes += 1;
                    step = poller.record(health);
                }
                PollStep::Ready { attempts } => return Ok(attempts),
                PollStep::TimedOut(timeout) => return Err(timeout),
            }
        }
    }
}

#[test]
fn start_twice_never_gives_two_live_children() {
    let mut world = World::new();
    assert!(world.start().is_ok());
    assert!(world.start().is_ok());
    assert!(world.start().is_ok());
    assert_eq!(world.spawned.len(), 1);
    assert_eq!(world.live(), 1);
    assert_eq!(world.created_dirs, vec!["/data".to_string()]);
}

#[test]
fn stop_with_nothing_running_does_nothing() {
    let mut world = World::new();
    assert!(world.stop().is_ok());
    assert!(world.signalled.is_empty());
    assert!(world.killed.is_empty());
    assert_eq!(world.slept_ms, 0);
    assert!(world.state.lock().unwrap().child.is_none());
}

#[test]
fn stop_twice_terminates_once() {
    let mut world = World::new();
    world.start().unwrap();
    assert!(world.stop().is_ok());
    assert!(world.stop().is_ok());
    assert_eq!(world.signalled.len(), 1);
}

#[test]
fn a_cooperative_child_is_not_killed() {
    let mut world = World::new();
    world.exits_after_looks = Some(3);
    world.start().unwrap();
    assert!(world.stop().is_ok());
    assert_eq!(world.signalled, vec![1001]);
    assert!(world.killed.is_empty());
    assert_eq!(world.slept_ms, 300);
}

#[test]
fn a_stubborn_child_is_killed_after_three_seconds() {
    let mut world = World::new();
    world.exits_after_looks = None;
    world.start().unwrap();
    assert!(world.stop().is_ok());
    assert_eq!(world.signalled, vec![1001]);
    assert_eq!(world.killed, vec![1001]);
    assert!(world.slept_ms >= 3000);
    assert!(world.slept_ms <= 3000 + 100);
    assert!(world.state.lock().unwrap().child.is_none());
}

#[test]
fn a_kill_that_fails_is_reported() {
    let mut world = World::new();
    world.exits_after_looks = None;
    world.kill_fails = true;
    world.start().unwrap();
    match world.stop() {
        Err(e) => assert_eq!(e.message(), "Failed to kill sidecar: not permitted"),
        Ok(()) => panic!("expected the kill to be reported"),
    }
    assert!(world.state.lock().unwrap().child.is_none());
}

#[test]
fn a_crashed_child_is_replaced_by_the_next_start() {
    let mut world = World::new();
    world.start().unwrap();
    world.crash();
    assert_eq!(world.live(), 0);
    world.start().unwrap();
    assert_eq!(world.spawned, vec![1001, 1002]);
    assert_eq!(world.live(), 1);
    assert_eq!(world.state.lock().unwrap().child, Some(Child { pid: 1002 }));
}

#[test]
fn a_missing_entry_point_spawns_nothing() {
    let mut world = World::new();
    world.entry_point_exists = false;
    match world.start() {
        Err(LaunchError::EntryPointMissing(path)) => assert_eq!(path, "/res/server/index.js"),
        _ => panic!("expected the start to fail"),
    }
    assert!(world.spawned.is_empty());
    assert!(world.created_dirs.is_empty());
    assert!(world.state.lock().unwrap().child.is_none());
}

#[test]
fn a_refused_spawn_leaves_nothing_running() {
    let mut world = World::new();
    world.spawn_fails = true;
    match world.start() {
        Err(e) => assert_eq!(e.message(), "Failed to spawn sidecar: refused"),
        Ok(()) => panic!("expected the start to fail"),
    }
    assert!(!world.state.lock().unwrap().running());
    world.spawn_fails = false;
    assert!(world.start().is_ok());
    assert_eq!(world.live(), 1);
}

#[test]
fn a_server_that_never_answers_is_probed_fifty_times_in_ten_seconds() {
    let mut world = World::new();
    world.start().unwrap();
    assert_eq!(world.wait(&[]), Err(ReadinessTimeout { attempts: 50 }));
    assert_eq!(world.slept_ms, 9800);
}

#[test]
fn a_server_that_answers_late_is_ready_when_it_answers() {
    let mut world = World::new();
    world.start().unwrap();
    assert_eq!(world.wait(&["000", "000", "503", "200\n"]), Ok(4));
    assert_eq!(world.slept_ms, 600);
}

#[test]
fn restart_stops_settles_and_starts() {
    let mut world = World::new();
    world.start().unwrap();
    let settle = restart_sidecar(&world.stop()).unwrap();
    world.slept_ms += settle;
    world.start().unwrap();
    assert_eq!(world.spawned, vec![1001, 1002]);
    assert_eq!(world.signalled, vec![1001]);
    assert_eq!(world.slept_ms, 100 + 500);
}

#[test]
fn restart_gives_up_when_the_stop_fails() {
    let mut world = World::new();
    world.exits_after_looks = None;
    world.kill_fails = true;
    world.start().unwrap();
    assert_eq!(
        restart_sidecar(&world.stop()),
        Err("Failed to kill sidecar: not permitted".to_string())
    );
    assert_eq!(world.spawned.len(), 1);
}

#[test]
fn setup_goes_on_with_a_late_server_and_gives_up_without_one() {
    let mut world = World::new();
    let mut step = after_start(&world.start());
    let mut waited = false;
    let degraded = loop {
        match step {
            SetupStep::AwaitReadiness => {
                waited = true;
                step = after_wait(&world.wait(&[]).map(|_| ()));
            }
            SetupStep::ShowWindow { degraded } => break degraded,
            SetupStep::Abort(message) => panic!("unexpected abort: {}", message),
        }
    };
    assert!(waited);
    assert!(degraded);

    let mut broken = World::new();
    broken.entry_point_exists = false;
    match after_start(&broken.start()) {
        SetupStep::Abort(message) => {
            assert_eq!(message, "Sidecar entry point not found: /res/server/index.js")
        }
        _ => panic!("expected an abort"),
    }
}
