//! How the application's own life bears on the child.

use crate::error::{LaunchError, ReadinessTimeout};
use vstd::prelude::*;

verus! {

/// What happened to the application, as far as the supervisor cares.
#[derive(Clone, Copy, PartialEq, Eq, Structural, Debug)]
pub enum AppEvent {
    /// The main window was closed.
    WindowClosed,
    /// The application was asked to exit.
    ExitRequested,
    /// The application is exiting.
    Exit,
    /// Anything else.
    Other,
}

/// Whether `event` calls for the child to be stopped: a closed window and a
/// requested exit do.
pub open spec fn calls_for_stop(event: AppEvent) -> bool {
    event == AppEvent::WindowClosed || event == AppEvent::ExitRequested
}

/// Whether to stop the child on this event.
pub fn should_stop_on(event: AppEvent) -> (stop: bool)
    ensures
        stop == calls_for_stop(event),
{
    match event {
        AppEvent::WindowClosed => true,
        AppEvent::ExitRequested => true,
        _ => false,
    }
}

/// How the application's setup goes on.
pub enum SetupStep {
    /// The server was started: wait for it to become ready.
    AwaitReadiness,
    /// Show the window. With `degraded` set the server has not answered in
    /// time and the window shows that it cannot reach it; the server may yet
    /// come up.
    ShowWindow { degraded: bool },
    /// The server could not be started: the application gives up, with this
    /// message.
    Abort(String),
}

/// Weighs the result of starting the server: a failed start is fatal.
pub fn after_start(started: &Result<(), LaunchError>) -> (step: SetupStep)
    ensures
        match *started {
            Ok(_) => step is AwaitReadiness,
            Err(e) => step matches SetupStep::Abort(message) && message@ == e@.message(),
        },
{
    match started {
        Ok(_) => SetupStep::AwaitReadiness,
        Err(e) => SetupStep::Abort(e.message()),
    }
}

/// Weighs the result of waiting for the server: one that is not ready in
/// time is no reason to give up.
pub fn after_wait(ready: &Result<(), ReadinessTimeout>) -> (step: SetupStep)
    ensures
        step == (SetupStep::ShowWindow { degraded: ready is Err }),
{
    match ready {
        Ok(_) => SetupStep::ShowWindow { degraded: false },
        Err(_) => SetupStep::ShowWindow { degraded: true },
    }
}

} // verus!
