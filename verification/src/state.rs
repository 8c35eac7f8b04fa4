//! The record of whether a child is running, and under which handle.

use crate::text::{parse_port, parsed_port};
use vstd::prelude::*;
use vstd::string::*;

verus! {

/// Port the server listens on unless overridden.
pub const DEFAULT_PORT: u16 = 6464;

/// Host the server binds to unless overridden.
pub const DEFAULT_HOST: &'static str = "127.0.0.1";

/// Environment variable that overrides the host.
pub const ENV_HOST: &'static str = "PANINI_HOST";

/// Environment variable that overrides the port.
pub const ENV_PORT: &'static str = "PANINI_PORT";

/// What the supervisor knows about its child: the handle of the running
/// process, if any, and the address the server is asked to listen on.
///
/// `H` is the caller's process handle. The library never looks inside it;
/// it only moves it in and out of the state.
pub struct SidecarState<H> {
    pub child: Option<H>,
    pub host: String,
    pub port: u16,
}

/// Mathematical view of a [`SidecarState`].
pub struct SidecarStateView<H> {
    pub child: Option<H>,
    pub host: Seq<char>,
    pub port: u16,
}

impl<H> View for SidecarState<H> {
    type V = SidecarStateView<H>;

    open spec fn view(&self) -> SidecarStateView<H> {
        SidecarStateView { child: self.child, host: self.host@, port: self.port }
    }
}

/// The host to bind to, given the override from the environment.
pub open spec fn configured_host(host: Option<String>) -> Seq<char> {
    match host {
        Some(text) => if text@.len() > 0 {
            text@
        } else {
            DEFAULT_HOST@
        },
        None => DEFAULT_HOST@,
    }
}

/// The port to listen on, given the override from the environment.
pub open spec fn configured_port(port: Option<String>) -> u16 {
    match port {
        Some(text) => match parsed_port(text@) {
            Some(number) => number,
            None => DEFAULT_PORT,
        },
        None => DEFAULT_PORT,
    }
}

impl<H> SidecarStateView<H> {
    /// A child is recorded.
    pub open spec fn is_running(self) -> bool {
        self.child is Some
    }

    /// The state after `child` was offered: recorded if the state was empty,
    /// turned away otherwise.
    pub open spec fn installed(self, child: H) -> SidecarStateView<H> {
        if self.child is Some {
            self
        } else {
            SidecarStateView { child: Some(child), ..self }
        }
    }

    /// The state after the handle was moved out or dropped.
    pub open spec fn emptied(self) -> SidecarStateView<H> {
        SidecarStateView { child: None, ..self }
    }
}

impl<H> SidecarState<H> {
    /// A child has been installed and not yet taken or cleared.
    pub open spec fn is_running(&self) -> bool {
        self.child is Some
    }

    /// A state with no child, listening address `host:port`.
    pub fn new(host: String, port: u16) -> (state: Self)
        ensures
            state@ == (SidecarStateView::<H> { child: None, host: host@, port }),
    {
        SidecarState { child: None, host, port }
    }

    /// A state with no child, listening where the overrides say. A host
    /// override that is set and not empty replaces the default host; a
    /// port override that reads as a port replaces the default port.
    pub fn configured(host: &Option<String>, port: &Option<String>) -> (state: Self)
        ensures
            state.child is None,
            state.host@ == configured_host(*host),
            state.port == configured_port(*port),
    {
        let host = match host {
            Some(text) => {
                if text.as_str().unicode_len() > 0 {
                    text.clone()
                } else {
                    String::from_str(DEFAULT_HOST)
                }
            },
            None => String::from_str(DEFAULT_HOST),
        };
        let port = match port {
            Some(text) => match parse_port(text.as_str()) {
                Some(number) => number,
                None => DEFAULT_PORT,
            },
            None => DEFAULT_PORT,
        };
        SidecarState { child: None, host, port }
    }

    /// Whether a child is currently recorded.
    pub fn running(&self) -> (b: bool)
        ensures
            b == self.is_running(),
    {
        self.child.is_some()
    }

    /// Records `child` as the running process, unless one is already
    /// recorded. In that case the state is left as it was and `child` is
    /// handed back, so that the caller can dispose of the duplicate.
    pub fn install(&mut self, child: H) -> (rejected: Option<H>)
        ensures
            final(self)@ == old(self)@.installed(child),
            rejected == if old(self).is_running() {
                Some(child)
            } else {
                None
            },
    {
        if self.child.is_some() {
            Some(child)
        } else {
            self.child = Some(child);
            None
        }
    }

    /// Moves the handle out, leaving the state empty. A second taker sees
    /// nothing.
    pub fn take(&mut self) -> (taken: Option<H>)
        ensures
            taken == old(self).child,
            final(self)@ == old(self)@.emptied(),
    {
        self.child.take()
    }
}

impl<H> Default for SidecarState<H> {
    fn default() -> (state: Self)
        ensures
            state.child is None,
            state.host@ == DEFAULT_HOST@,
            state.port == DEFAULT_PORT,
    {
        SidecarState { child: None, host: DEFAULT_HOST.to_owned(), port: DEFAULT_PORT }
    }
}

} // verus!
