//! Starting and stopping, as decisions over the supervisor's state.
//!
//! A start is made of two calls around the caller's work: [`start_sidecar`]
//! says whether and how to launch, the caller creates the directory and
//! spawns, and [`complete_start`] records what came of it. A stop begins with
//! [`stop_sidecar`], which takes the handle out of the state, so that the
//! termination runs on a handle nobody else can reach.

use crate::error::{LaunchError, LaunchErrorView};
use crate::launch::{build_launch_spec, launch_spec_for, LaunchSpec, LaunchSpecView};
use crate::paths::{
    chosen_directory,
    entry_point_under,
    is_absolute,
    joined,
    lemma_join_keeps_absolute,
    normalized,
    resolve_data_directory,
    resolve_server_resources,
    DataDirectory,
    DataDirectoryView,
    DirProbe,
    OsFamily,
    ENTRY_FILE_NAME,
    SERVER_DIR_NAME,
};
use crate::readiness::{
    PollPhase,
    PollerView,
    ReadinessPoller,
    DEFAULT_INTERVAL_MS,
    DEFAULT_MAX_ATTEMPTS,
};
use crate::shutdown::{initial_view, ShutdownController, TerminationMode, GRACE_MS, POLL_MS};
use crate::state::SidecarState;
use vstd::prelude::*;

verus! {

/// What the caller found on this machine before a launch.
pub struct LaunchSurvey {
    pub family: OsFamily,
    /// The historical data location, where the machine has one.
    pub legacy: Option<DirProbe>,
    /// The data location the platform manages, or why it could name none.
    pub current: Result<DirProbe, String>,
    /// The resource root as the platform reports it, or why it could name
    /// none.
    pub resource_root: Result<String, String>,
    /// The entry point under that root exists.
    pub entry_point_exists: bool,
    /// The directory of the bundled runtimes, or why it could not be found.
    pub runtime_dir: Result<String, String>,
    /// The remote platform's URL, where one is configured.
    pub platform_url: Option<String>,
}

/// A launch to carry out: make sure the directory is there, then spawn.
pub struct LaunchPlan {
    pub data_dir: DataDirectory,
    pub spec: LaunchSpec,
}

/// The answer to a start request.
pub enum StartStep {
    /// A child is running: there is nothing to do, and that is a success.
    AlreadyRunning,
    /// Carry out the plan and report with [`complete_start`].
    Launch(LaunchPlan),
    /// The launch is off; nothing was spawned.
    Failed(LaunchError),
}

/// Mathematical view of a [`StartStep`].
pub enum StartStepView {
    AlreadyRunning,
    Launch { data_dir: DataDirectoryView, spec: LaunchSpecView },
    Failed(LaunchErrorView),
}

impl View for StartStep {
    type V = StartStepView;

    open spec fn view(&self) -> StartStepView {
        match self {
            StartStep::AlreadyRunning => StartStepView::AlreadyRunning,
            StartStep::Launch(plan) => StartStepView::Launch {
                data_dir: plan.data_dir@,
                spec: plan.spec@,
            },
            StartStep::Failed(e) => StartStepView::Failed(e@),
        }
    }
}

/// The answer to a start request, given whether a child is running, the
/// address to listen on, and what was found on the machine.
///
/// With a child running the answer is that there is nothing to do. Otherwise
/// the launch is off if there is no data directory, if the resource root or
/// the directory of the runtimes is unknown, or if the entry point does not
/// exist, and the first of these that holds is the reason given. With none
/// of them in the way the launch is planned.
pub open spec fn start_plan(
    running: bool,
    host: Seq<char>,
    port: u16,
    survey: LaunchSurvey,
) -> StartStepView {
    if running {
        StartStepView::AlreadyRunning
    } else {
        match (
            chosen_directory(survey.legacy, survey.current, survey.family),
            survey.resource_root,
            survey.runtime_dir,
        ) {
            (None, _, _) => StartStepView::Failed(
                LaunchErrorView::DataDir(
                    match survey.current {
                        Err(reason) => reason@,
                        Ok(_) => Seq::empty(),
                    },
                ),
            ),
            (Some(_), Err(reason), _) => StartStepView::Failed(LaunchErrorView::Resources(reason@)),
            (Some(_), Ok(_), Err(reason)) => StartStepView::Failed(
                LaunchErrorView::Resources(reason@),
            ),
            (Some(data_dir), Ok(reported_root), Ok(runtime_dir)) => {
                let root = normalized(reported_root@, survey.family);
                let entry_point = entry_point_under(root, survey.family);
                if !survey.entry_point_exists {
                    StartStepView::Failed(LaunchErrorView::EntryPointMissing(entry_point))
                } else {
                    StartStepView::Launch {
                        data_dir,
                        spec: launch_spec_for(
                            entry_point,
                            root,
                            data_dir.path,
                            runtime_dir@,
                            host,
                            port,
                            survey.platform_url,
                            survey.family,
                        ),
                    }
                }
            },
        }
    }
}

/// Decides a start request. The state is only read: whatever the answer,
/// it is left as it was.
///
/// With a child recorded the request is a no-op that succeeds. With a
/// missing entry point the launch fails before anything is spawned.
pub fn start_sidecar<H>(state: &SidecarState<H>, survey: &LaunchSurvey) -> (step: StartStep)
    ensures
        step@ == start_plan(state.is_running(), state.host@, state.port, *survey),
        state.is_running() ==> step@ == StartStepView::AlreadyRunning,
        !state.is_running() && !survey.entry_point_exists ==> step@ is Failed,
{
    if state.child.is_some() {
        return StartStep::AlreadyRunning;
    }
    let data_dir = match resolve_data_directory(&survey.legacy, &survey.current, survey.family) {
        Ok(dir) => dir,
        Err(e) => {
            return StartStep::Failed(e);
        },
    };
    let reported_root = match &survey.resource_root {
        Ok(root) => root,
        Err(reason) => {
            return StartStep::Failed(LaunchError::Resources(reason.clone()));
        },
    };
    let runtime_dir = match &survey.runtime_dir {
        Ok(dir) => dir,
        Err(reason) => {
            return StartStep::Failed(LaunchError::Resources(reason.clone()));
        },
    };
    let resources = resolve_server_resources(reported_root.as_str(), survey.family);
    if !survey.entry_point_exists {
        return StartStep::Failed(LaunchError::EntryPointMissing(resources.entry_point));
    }
    let spec = build_launch_spec(
        &resources,
        &data_dir,
        runtime_dir.as_str(),
        state.host.as_str(),
        state.port,
        &survey.platform_url,
        survey.family,
    );
    StartStep::Launch(LaunchPlan { data_dir, spec })
}

/// What came of carrying out a [`LaunchPlan`].
pub enum SpawnReport<H> {
    /// The child is running under this handle.
    Spawned(H),
    /// The data directory could not be created; nothing was spawned.
    DirectoryNotCreated(String),
    /// The command could not be prepared; nothing was spawned.
    CommandRejected(String),
    /// The operating system refused to start the child.
    SpawnFailed(String),
}

/// How a start ended.
pub enum StartOutcome<H> {
    /// The child is recorded as running.
    Started,
    /// Another child was recorded while this one was being spawned. The
    /// state keeps the other; this one is handed back to be killed.
    Superseded(H),
    /// No child was started.
    Failed(LaunchError),
}

/// Records the result of a launch. A spawned child is installed unless one
/// is already recorded; after a failure the state is as it was.
pub fn complete_start<H>(state: &mut SidecarState<H>, report: SpawnReport<H>) -> (outcome:
    StartOutcome<H>)
    ensures
        match report {
            SpawnReport::Spawned(child) => {
                &&& final(state)@ == old(state)@.installed(child)
                &&& old(state).is_running() ==> outcome == StartOutcome::Superseded(child)
                &&& !old(state).is_running() ==> outcome is Started
            },
            SpawnReport::DirectoryNotCreated(reason) => {
                &&& final(state)@ == old(state)@
                &&& outcome matches StartOutcome::Failed(e)
                &&& e@ == LaunchErrorView::CreateDataDir(reason@)
            },
            SpawnReport::CommandRejected(reason) => {
                &&& final(state)@ == old(state)@
                &&& outcome matches StartOutcome::Failed(e)
                &&& e@ == LaunchErrorView::Command(reason@)
            },
            SpawnReport::SpawnFailed(reason) => {
                &&& final(state)@ == old(state)@
                &&& outcome matches StartOutcome::Failed(e)
                &&& e@ == LaunchErrorView::Spawn(reason@)
            },
        },
{
    match report {
        SpawnReport::Spawned(child) => match state.install(child) {
            Some(duplicate) => StartOutcome::Superseded(duplicate),
            None => StartOutcome::Started,
        },
        SpawnReport::DirectoryNotCreated(reason) => StartOutcome::Failed(
            LaunchError::CreateDataDir(reason),
        ),
        SpawnReport::CommandRejected(reason) => StartOutcome::Failed(LaunchError::Command(reason)),
        SpawnReport::SpawnFailed(reason) => StartOutcome::Failed(LaunchError::Spawn(reason)),
    }
}

/// A child to terminate, and the controller that says how.
pub struct Termination<H> {
    pub child: H,
    pub controller: ShutdownController,
}

/// Begins a stop: the handle is taken out of the state, which is empty
/// afterwards, and comes back with a controller in its initial state, set to
/// the standard grace period and interval.
///
/// With nothing running there is nothing to terminate and nothing changes.
pub fn stop_sidecar<H>(state: &mut SidecarState<H>, mode: TerminationMode) -> (stop: Option<
    Termination<H>,
>)
    ensures
        final(state)@ == old(state)@.emptied(),
        !old(state).is_running() ==> stop is None && final(state)@ == old(state)@,
        old(state).is_running() ==> {
            &&& stop matches Some(t)
            &&& Some(t.child) == old(state).child
            &&& t.controller@ == initial_view(mode, GRACE_MS, POLL_MS)
        },
{
    match state.take() {
        Some(child) => Some(Termination { child, controller: ShutdownController::standard(mode) }),
        None => None,
    }
}

/// Begins the wait for the server at `host:port`: a poller that has made no
/// probe yet and allows the standard number of attempts at the standard
/// interval.
pub fn wait_for_sidecar_ready(host: &str, port: u16) -> (poller: ReadinessPoller)
    ensures
        poller@ == (PollerView {
            host: host@,
            port,
            max_attempts: DEFAULT_MAX_ATTEMPTS,
            interval_ms: DEFAULT_INTERVAL_MS,
            attempts: 0,
            phase: PollPhase::Polling,
        }),
{
    ReadinessPoller::new(host, port, DEFAULT_MAX_ATTEMPTS, DEFAULT_INTERVAL_MS)
}

/// At most one child: once a child is installed, every start request is
/// answered with "already running", whatever is found on the machine, and a
/// second child offered to the state is turned away, leaving the first.
pub proof fn lemma_second_start_is_noop<H>(
    state: crate::state::SidecarStateView<H>,
    first: H,
    second: H,
    survey: LaunchSurvey,
)
    ensures
        state.installed(first).is_running(),
        start_plan(
            state.installed(first).is_running(),
            state.installed(first).host,
            state.installed(first).port,
            survey,
        ) == StartStepView::AlreadyRunning,
        state.installed(first).installed(second) == state.installed(first),
{
}

/// Stopping with nothing running changes nothing, and a stop leaves nothing
/// for a second stop to take.
pub proof fn lemma_stop_is_idempotent<H>(state: crate::state::SidecarStateView<H>)
    ensures
        !state.is_running() ==> state.emptied() == state,
        !state.emptied().is_running(),
        state.emptied().emptied() == state.emptied(),
{
}

/// Without its entry point the server is never launched: a start request
/// with nothing running fails, and no request leads to a launch.
pub proof fn lemma_no_launch_without_entry_point(
    running: bool,
    host: Seq<char>,
    port: u16,
    survey: LaunchSurvey,
)
    requires
        !survey.entry_point_exists,
    ensures
        !(start_plan(running, host, port, survey) is Launch),
        !running ==> start_plan(running, host, port, survey) is Failed,
{
}

/// What the machine reports as absolute reaches the child as absolute:
/// where the chosen data directory, the resource root and the directory of
/// the runtimes are absolute once normalized, so are the working directory,
/// the entry point and the three paths in the environment of the launch.
pub proof fn lemma_launch_paths_are_absolute(host: Seq<char>, port: u16, survey: LaunchSurvey)
    requires
        start_plan(false, host, port, survey) is Launch,
        is_absolute(
            chosen_directory(survey.legacy, survey.current, survey.family).unwrap().path,
            survey.family,
        ),
        is_absolute(normalized(survey.resource_root.unwrap()@, survey.family), survey.family),
        is_absolute(normalized(survey.runtime_dir.unwrap()@, survey.family), survey.family),
    ensures
        ({
            let spec = start_plan(false, host, port, survey)->spec;
            &&& is_absolute(spec.working_dir, survey.family)
            &&& is_absolute(spec.args[1], survey.family)
            &&& is_absolute(spec.env[2].1, survey.family)
            &&& is_absolute(spec.env[3].1, survey.family)
            &&& is_absolute(spec.env[4].1, survey.family)
        }),
{
    let family = survey.family;
    let root = normalized(survey.resource_root.unwrap()@, family);
    lemma_join_keeps_absolute(root, SERVER_DIR_NAME@, family);
    lemma_join_keeps_absolute(joined(root, SERVER_DIR_NAME@, family), ENTRY_FILE_NAME@, family);
}

} // verus!
