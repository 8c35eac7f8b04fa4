//! The operations offered to the user interface.

use crate::error::StopError;
use crate::state::SidecarState;
use vstd::prelude::*;

verus! {

/// Milliseconds a restart waits between the stop and the start, so that the
/// old child's port is free again.
pub const RESTART_SETTLE_MS: u64 = 500;

/// The address the server is asked to listen on.
pub struct SidecarConfig {
    pub host: String,
    pub port: u16,
}

/// The port the server is asked to listen on.
pub fn get_sidecar_port<H>(state: &SidecarState<H>) -> (port: u16)
    ensures
        port == state.port,
{
    state.port
}

/// The host the server is asked to bind to.
pub fn get_sidecar_host<H>(state: &SidecarState<H>) -> (host: String)
    ensures
        host@ == state.host@,
{
    state.host.clone()
}

/// Host and port together.
pub fn get_sidecar_config<H>(state: &SidecarState<H>) -> (config: SidecarConfig)
    ensures
        config.host@ == state.host@,
        config.port == state.port,
{
    SidecarConfig { host: state.host.clone(), port: state.port }
}

/// Decides how a restart goes on once its stop has ended. After a stop
/// that succeeded the caller waits the settle delay, in milliseconds, and
/// starts; after one that failed the restart ends with the stop's message
/// and nothing is started.
pub fn restart_sidecar(stopped: &Result<(), StopError>) -> (next: Result<u64, String>)
    ensures
        match *stopped {
            Ok(_) => next == Ok::<u64, String>(RESTART_SETTLE_MS),
            Err(e) => next matches Err(message) && message@ == e.message_text(),
        },
{
    match stopped {
        Ok(_) => Ok(RESTART_SETTLE_MS),
        Err(e) => Err(e.message()),
    }
}

} // verus!
