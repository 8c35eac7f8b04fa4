//! What sequences of requests do to the supervisor and to the processes it
//! has started.
//!
//! A small model of the caller's side, with requests taken one at a time: a
//! launch that is planned spawns a child, a stop terminates the child it
//! took, and a crash is pumped before the next request is made. Over every
//! sequence of such requests the supervisor's record and the set of live
//! children stay in step.

use crate::pump::{pumped, CommandEvent};
use crate::state::SidecarStateView;
use crate::supervisor::{start_plan, LaunchSurvey};
use vstd::prelude::*;

verus! {

/// One thing that happens to the supervisor.
pub enum Request<H> {
    /// A start is requested on a machine that looks like `survey`; if the
    /// launch goes ahead, the child it spawns is `child`.
    Start { survey: LaunchSurvey, child: H },
    /// A stop is requested and carried through.
    Stop,
    /// The child dies on its own and the pump sees its termination.
    Crash { code: Option<i32>, signal: Option<i32> },
}

/// The supervisor's record together with the children that are alive.
#[verifier::reject_recursive_types(H)]
pub struct World<H> {
    pub state: SidecarStateView<H>,
    pub live: Set<H>,
}

impl<H> World<H> {
    /// The live children are exactly the recorded one.
    pub open spec fn in_step(self) -> bool {
        self.live == match self.state.child {
            Some(child) => set![child],
            None => Set::empty(),
        }
    }

    /// The world after one request.
    pub open spec fn after(self, request: Request<H>) -> World<H> {
        match request {
            Request::Start { survey, child } => {
                if start_plan(self.state.is_running(), self.state.host, self.state.port, survey)
                    is Launch {
                    World { state: self.state.installed(child), live: self.live.insert(child) }
                } else {
                    self
                }
            },
            Request::Stop => World {
                state: self.state.emptied(),
                live: match self.state.child {
                    Some(child) => self.live.remove(child),
                    None => self.live,
                },
            },
            Request::Crash { code, signal } => World {
                state: pumped(self.state, CommandEvent::Terminated { code, signal }),
                live: match self.state.child {
                    Some(child) => self.live.remove(child),
                    None => self.live,
                },
            },
        }
    }

    /// The world after the requests, in order.
    pub open spec fn after_all(self, requests: Seq<Request<H>>) -> World<H>
        decreases requests.len(),
    {
        if requests.len() == 0 {
            self
        } else {
            self.after_all(requests.drop_last()).after(requests.last())
        }
    }
}

/// Whatever is requested, in whatever order, there are never two live
/// children: the children alive are always exactly the one on record, or
/// none.
pub proof fn lemma_never_two_children<H>(start: World<H>, requests: Seq<Request<H>>)
    requires
        start.in_step(),
    ensures
        start.after_all(requests).in_step(),
        start.after_all(requests).live.finite(),
        start.after_all(requests).live.len() <= 1,
        start.after_all(requests).state.host == start.state.host,
        start.after_all(requests).state.port == start.state.port,
    decreases requests.len(),
{
    if requests.len() > 0 {
        lemma_never_two_children(start, requests.drop_last());
        let before = start.after_all(requests.drop_last());
        let now = before.after(requests.last());
        match requests.last() {
            Request::Start { survey, child } => {
                if start_plan(before.state.is_running(), before.state.host, before.state.port, survey)
                    is Launch {
                    assert(before.live.insert(child) == set![child]);
                }
            },
            Request::Stop => {
                if before.state.child is Some {
                    assert(before.live.remove(before.state.child.unwrap()) == Set::<H>::empty());
                }
            },
            Request::Crash { code, signal } => {
                if before.state.child is Some {
                    assert(before.live.remove(before.state.child.unwrap()) == Set::<H>::empty());
                }
            },
        }
        assert(now.in_step());
    }
    let end = start.after_all(requests);
    match end.state.child {
        Some(child) => {
            assert(end.live == set![child]);
            assert(set![child].len() == 1);
        },
        None => {
            assert(end.live == Set::<H>::empty());
        },
    }
}

} // verus!
