//! Supervision of a single long-lived background server process.
//!
//! The crate holds the decisions of the supervisor: where the data lives,
//! how the child is launched, when it counts as ready, and how it is stopped.
//! Every effect (spawning, signalling, sleeping, probing the network) is left
//! to the caller, which performs the action the library names and reports
//! back what happened.

pub mod commands;
pub mod error;
pub mod history;
pub mod launch;
pub mod lifecycle;
pub mod paths;
pub mod pump;
pub mod readiness;
pub mod shutdown;
pub mod state;
pub mod supervisor;
pub mod text;

pub use commands::{get_sidecar_port, restart_sidecar};
pub use state::SidecarState;
pub use supervisor::{start_sidecar, stop_sidecar, wait_for_sidecar_ready};
