//! What can go wrong, each with the message shown to the user.

use vstd::prelude::*;
use vstd::string::*;

verus! {

/// Why a launch attempt did not produce a running child.
#[derive(Debug)]
pub enum LaunchError {
    /// The platform could not name a data directory.
    DataDir(String),
    /// The data directory was missing and could not be created.
    CreateDataDir(String),
    /// The installed resources or the bundled runtimes could not be located.
    Resources(String),
    /// The server's entry point is not where the installation puts it.
    EntryPointMissing(String),
    /// The command for the bundled runtime could not be prepared.
    Command(String),
    /// The operating system refused to start the child.
    Spawn(String),
}

/// Mathematical view of a [`LaunchError`].
pub enum LaunchErrorView {
    DataDir(Seq<char>),
    CreateDataDir(Seq<char>),
    Resources(Seq<char>),
    EntryPointMissing(Seq<char>),
    Command(Seq<char>),
    Spawn(Seq<char>),
}

impl View for LaunchError {
    type V = LaunchErrorView;

    open spec fn view(&self) -> LaunchErrorView {
        match self {
            LaunchError::DataDir(reason) => LaunchErrorView::DataDir(reason@),
            LaunchError::CreateDataDir(reason) => LaunchErrorView::CreateDataDir(reason@),
            LaunchError::Resources(reason) => LaunchErrorView::Resources(reason@),
            LaunchError::EntryPointMissing(path) => LaunchErrorView::EntryPointMissing(path@),
            LaunchError::Command(reason) => LaunchErrorView::Command(reason@),
            LaunchError::Spawn(reason) => LaunchErrorView::Spawn(reason@),
        }
    }
}

impl LaunchErrorView {
    /// The message of this error.
    pub open spec fn message(self) -> Seq<char> {
        match self {
            LaunchErrorView::DataDir(reason) => "Failed to get app data dir: "@ + reason,
            LaunchErrorView::CreateDataDir(reason) => "Failed to create app data dir: "@ + reason,
            LaunchErrorView::Resources(reason) => "Failed to locate bundled resources: "@ + reason,
            LaunchErrorView::EntryPointMissing(path) => "Sidecar entry point not found: "@ + path,
            LaunchErrorView::Command(reason) => "Failed to create sidecar command: "@ + reason,
            LaunchErrorView::Spawn(reason) => "Failed to spawn sidecar: "@ + reason,
        }
    }
}

impl LaunchError {
    /// A description fit for a log line or a dialog.
    pub fn message(&self) -> (text: String)
        ensures
            text@ == self@.message(),
    {
        match self {
            LaunchError::DataDir(reason) => String::from_str("Failed to get app data dir: ").concat(
                reason.as_str(),
            ),
            LaunchError::CreateDataDir(reason) => String::from_str(
                "Failed to create app data dir: ",
            ).concat(reason.as_str()),
            LaunchError::Resources(reason) => String::from_str(
                "Failed to locate bundled resources: ",
            ).concat(reason.as_str()),
            LaunchError::EntryPointMissing(path) => String::from_str(
                "Sidecar entry point not found: ",
            ).concat(path.as_str()),
            LaunchError::Command(reason) => String::from_str(
                "Failed to create sidecar command: ",
            ).concat(reason.as_str()),
            LaunchError::Spawn(reason) => String::from_str("Failed to spawn sidecar: ").concat(
                reason.as_str(),
            ),
        }
    }
}

/// The forced kill could not be issued.
#[derive(Debug)]
pub enum StopError {
    Kill(String),
}

impl StopError {
    /// The message of this error.
    pub open spec fn message_text(&self) -> Seq<char> {
        match self {
            StopError::Kill(reason) => "Failed to kill sidecar: "@ + reason@,
        }
    }

    /// A description fit for a log line or a dialog.
    pub fn message(&self) -> (text: String)
        ensures
            text@ == self.message_text(),
    {
        match self {
            StopError::Kill(reason) => String::from_str("Failed to kill sidecar: ").concat(
                reason.as_str(),
            ),
        }
    }
}

/// The server did not answer healthy within the attempts it was given.
#[derive(Clone, Copy, PartialEq, Eq, Structural, Debug)]
pub struct ReadinessTimeout {
    /// Probes made before giving up.
    pub attempts: u32,
}

impl ReadinessTimeout {
    /// The message of this error.
    pub open spec fn message_text(&self) -> Seq<char> {
        "Sidecar failed to become ready within timeout"@
    }

    /// A description fit for a log line or a dialog.
    pub fn message(&self) -> (text: String)
        ensures
            text@ == self.message_text(),
    {
        String::from_str("Sidecar failed to become ready within timeout")
    }
}

} // verus!
