//! Stopping the child: ask first, wait a bounded time, then force.
//!
//! The controller decides; the caller signals, sleeps, looks whether the
//! process is still there, and kills. Time is counted in the waits the
//! controller hands out: one polling interval before every look.

use crate::error::StopError;
use crate::paths::OsFamily;
use vstd::prelude::*;
use vstd::string::*;

verus! {

/// Milliseconds the child is given to exit after the graceful signal.
pub const GRACE_MS: u64 = 3000;

/// Milliseconds between two looks at the child while it is given time.
pub const POLL_MS: u64 = 100;

/// How a child is terminated.
#[derive(Clone, Copy, PartialEq, Eq, Structural, Debug)]
pub enum TerminationMode {
    /// Send the graceful signal, wait, and kill only if the child outlives
    /// the grace period.
    GracefulThenForced,
    /// Kill at once. For platforms without a graceful signal.
    ForcedOnly,
}

/// The mode a family supports: Windows has no graceful signal to send.
pub open spec fn mode_of(family: OsFamily) -> TerminationMode {
    if family == OsFamily::Windows {
        TerminationMode::ForcedOnly
    } else {
        TerminationMode::GracefulThenForced
    }
}

/// The termination mode for the family the program runs on.
pub fn termination_mode(family: OsFamily) -> (mode: TerminationMode)
    ensures
        mode == mode_of(family),
{
    match family {
        OsFamily::Windows => TerminationMode::ForcedOnly,
        _ => TerminationMode::GracefulThenForced,
    }
}

/// Where a termination stands.
#[derive(Clone, Copy, PartialEq, Eq, Structural, Debug)]
pub enum StopPhase {
    /// The graceful signal is to be sent.
    Signalling,
    /// The signal is out; the child is given time.
    Waiting,
    /// The forced kill is to be issued.
    Killing,
    /// The child is gone, or the kill has been issued.
    Stopped,
    /// The kill could not be issued.
    Failed,
}

/// What the caller does next.
#[derive(Clone, Copy, PartialEq, Eq, Structural, Debug)]
pub enum StopAction {
    /// Send the graceful termination signal and report whether it went out.
    SendTerminate,
    /// Sleep `ms` milliseconds, then report whether the child is alive.
    CheckAfter { ms: u64 },
    /// Kill the child unconditionally and report whether the call succeeded.
    ForceKill,
    /// Nothing more to do: the stop succeeded.
    Done,
    /// Nothing more to do: the stop failed.
    Failed,
}

/// What the caller reports back.
#[derive(Debug)]
pub enum StopEvent {
    /// The graceful signal was sent.
    SignalSent,
    /// The graceful signal could not be sent.
    SignalFailed,
    /// The child was looked at and is still running.
    StillAlive,
    /// The child was looked at and is gone.
    Exited,
    /// The forced kill was issued.
    KillIssued,
    /// The forced kill could not be issued, for the reason given.
    KillFailed(String),
}

/// Mathematical view of a [`ShutdownController`].
pub struct ShutdownView {
    pub grace_ms: u64,
    pub poll_ms: u64,
    /// What is left of the grace period, counted in the waits handed out.
    pub remaining_ms: u64,
    pub phase: StopPhase,
    /// Why the kill failed; empty unless it did.
    pub failure: Seq<char>,
}

impl ShutdownView {
    /// The interval is positive and no more is left than was granted.
    pub open spec fn wf(self) -> bool {
        self.poll_ms > 0 && self.remaining_ms <= self.grace_ms
    }

    /// Milliseconds of the grace period that have been waited out.
    pub open spec fn waited_ms(self) -> int {
        self.grace_ms - self.remaining_ms
    }

    /// The action a controller in this state is waiting on.
    pub open spec fn pending(self) -> StopAction {
        match self.phase {
            StopPhase::Signalling => StopAction::SendTerminate,
            StopPhase::Waiting => StopAction::CheckAfter { ms: self.poll_ms },
            StopPhase::Killing => StopAction::ForceKill,
            StopPhase::Stopped => StopAction::Done,
            StopPhase::Failed => StopAction::Failed,
        }
    }

    /// The state after the caller reported `event`.
    ///
    /// A signal that went out starts the grace period; one that did not
    /// leads straight to the kill. A child found gone ends the stop. A child
    /// found alive has used up one interval: the kill is due once nothing
    /// is left of the grace period. The kill's result ends the stop. A report
    /// that does not answer the pending action changes nothing.
    pub open spec fn after(self, event: StopEvent) -> ShutdownView {
        match (self.phase, event) {
            (StopPhase::Signalling, StopEvent::SignalSent) => if self.remaining_ms == 0 {
                ShutdownView { phase: StopPhase::Killing, ..self }
            } else {
                ShutdownView { phase: StopPhase::Waiting, ..self }
            },
            (StopPhase::Signalling, StopEvent::SignalFailed) => ShutdownView {
                phase: StopPhase::Killing,
                ..self
            },
            (StopPhase::Waiting, StopEvent::Exited) => ShutdownView {
                phase: StopPhase::Stopped,
                ..self
            },
            (StopPhase::Waiting, StopEvent::StillAlive) => if self.poll_ms >= self.remaining_ms {
                ShutdownView { phase: StopPhase::Killing, remaining_ms: 0, ..self }
            } else {
                ShutdownView { remaining_ms: (self.remaining_ms - self.poll_ms) as u64, ..self }
            },
            (StopPhase::Killing, StopEvent::KillIssued) => ShutdownView {
                phase: StopPhase::Stopped,
                ..self
            },
            (StopPhase::Killing, StopEvent::KillFailed(reason)) => ShutdownView {
                phase: StopPhase::Failed,
                failure: reason@,
                ..self
            },
            _ => self,
        }
    }

    /// The state after the child was found alive `n` times in a row.
    pub open spec fn after_alive(self, n: nat) -> ShutdownView
        decreases n,
    {
        if n == 0 {
            self
        } else {
            self.after_alive((n - 1) as nat).after(StopEvent::StillAlive)
        }
    }

    /// The result of the stop, once there is one.
    pub open spec fn outcome(self) -> Option<Result<(), Seq<char>>> {
        match self.phase {
            StopPhase::Stopped => Some(Ok(())),
            StopPhase::Failed => Some(Err(self.failure)),
            _ => None,
        }
    }
}

/// The state a termination starts in.
pub open spec fn initial_view(mode: TerminationMode, grace_ms: u64, poll_ms: u64) -> ShutdownView {
    ShutdownView {
        grace_ms,
        poll_ms,
        remaining_ms: grace_ms,
        phase: if mode == TerminationMode::GracefulThenForced {
            StopPhase::Signalling
        } else {
            StopPhase::Killing
        },
        failure: Seq::empty(),
    }
}

/// Drives the termination of one child.
pub struct ShutdownController {
    grace_ms: u64,
    poll_ms: u64,
    remaining_ms: u64,
    phase: StopPhase,
    failure: String,
}

impl View for ShutdownController {
    type V = ShutdownView;

    closed spec fn view(&self) -> ShutdownView {
        ShutdownView {
            grace_ms: self.grace_ms,
            poll_ms: self.poll_ms,
            remaining_ms: self.remaining_ms,
            phase: self.phase,
            failure: self.failure@,
        }
    }
}

impl ShutdownController {
    /// A termination in the given mode that grants `grace_ms` milliseconds
    /// after the signal and looks at the child every `poll_ms` milliseconds.
    /// There is none for an interval of zero, which would never use up the
    /// grace period.
    pub fn new(mode: TerminationMode, grace_ms: u64, poll_ms: u64) -> (made: Option<Self>)
        ensures
            poll_ms == 0 ==> made is None,
            poll_ms > 0 ==> made is Some && made.unwrap()@ == initial_view(mode, grace_ms, poll_ms),
    {
        if poll_ms == 0 {
            return None;
        }
        let phase = match mode {
            TerminationMode::GracefulThenForced => StopPhase::Signalling,
            TerminationMode::ForcedOnly => StopPhase::Killing,
        };
        Some(
            ShutdownController {
                grace_ms,
                poll_ms,
                remaining_ms: grace_ms,
                phase,
                failure: String::new(),
            },
        )
    }

    /// A termination with the standard grace period and interval.
    pub fn standard(mode: TerminationMode) -> (made: Self)
        ensures
            made@ == initial_view(mode, GRACE_MS, POLL_MS),
            made@.wf(),
    {
        let phase = match mode {
            TerminationMode::GracefulThenForced => StopPhase::Signalling,
            TerminationMode::ForcedOnly => StopPhase::Killing,
        };
        ShutdownController {
            grace_ms: GRACE_MS,
            poll_ms: POLL_MS,
            remaining_ms: GRACE_MS,
            phase,
            failure: String::new(),
        }
    }

    /// What the caller does next, without recording anything.
    pub fn pending(&self) -> (action: StopAction)
        ensures
            action == self@.pending(),
    {
        match self.phase {
            StopPhase::Signalling => StopAction::SendTerminate,
            StopPhase::Waiting => StopAction::CheckAfter { ms: self.poll_ms },
            StopPhase::Killing => StopAction::ForceKill,
            StopPhase::Stopped => StopAction::Done,
            StopPhase::Failed => StopAction::Failed,
        }
    }

    /// Records what the caller reports and says what to do next.
    pub fn step(&mut self, event: StopEvent) -> (action: StopAction)
        ensures
            final(self)@ == old(self)@.after(event),
            action == final(self)@.pending(),
    {
        match self.phase {
            StopPhase::Signalling => match event {
                StopEvent::SignalSent => {
                    if self.remaining_ms == 0 {
                        self.phase = StopPhase::Killing;
                    } else {
                        self.phase = StopPhase::Waiting;
                    }
                },
                StopEvent::SignalFailed => {
                    self.phase = StopPhase::Killing;
                },
                _ => {},
            },
            StopPhase::Waiting => match event {
                StopEvent::Exited => {
                    self.phase = StopPhase::Stopped;
                },
                StopEvent::StillAlive => {
                    if self.poll_ms >= self.remaining_ms {
                        self.remaining_ms = 0;
                        self.phase = StopPhase::Killing;
                    } else {
                        self.remaining_ms = self.remaining_ms - self.poll_ms;
                    }
                },
                _ => {},
            },
            StopPhase::Killing => match event {
                StopEvent::KillIssued => {
                    self.phase = StopPhase::Stopped;
                },
                StopEvent::KillFailed(reason) => {
                    self.failure = reason;
                    self.phase = StopPhase::Failed;
                },
                _ => {},
            },
            _ => {},
        }
        self.pending()
    }

    /// The result of the stop: `None` while it is under way, success once
    /// the child is gone or the kill was issued, and the error when the kill
    /// could not be issued.
    pub fn outcome(&self) -> (result: Option<Result<(), StopError>>)
        ensures
            match result {
                None => self@.outcome() is None,
                Some(Ok(())) => self@.outcome() == Some(Ok::<(), Seq<char>>(())),
                Some(Err(StopError::Kill(reason))) => self@.outcome() == Some(
                    Err::<(), Seq<char>>(reason@),
                ),
            },
    {
        match self.phase {
            StopPhase::Stopped => Some(Ok(())),
            StopPhase::Failed => Some(Err(StopError::Kill(self.failure.clone()))),
            _ => None,
        }
    }
}

/// A child that ignores the graceful signal is killed when the grace period
/// has been waited out, and not before.
///
/// Counting from the moment the signal went out, with one interval waited
/// before every look: as long as the waits add up to less than the grace
/// period the controller keeps waiting, and what it has waited is exactly
/// those waits; from the first look at which they reach the grace period it
/// asks for the kill.
pub proof fn lemma_kill_not_before_deadline(fresh: ShutdownView, n: nat)
    requires
        fresh.wf(),
        fresh.phase == StopPhase::Signalling,
        fresh.remaining_ms == fresh.grace_ms,
    ensures
        n * fresh.poll_ms < fresh.grace_ms ==> {
            let now = fresh.after(StopEvent::SignalSent).after_alive(n);
            &&& now.phase == StopPhase::Waiting
            &&& now.pending() == (StopAction::CheckAfter { ms: fresh.poll_ms })
            &&& now.waited_ms() == n * fresh.poll_ms
        },
        n * fresh.poll_ms >= fresh.grace_ms ==> {
            let now = fresh.after(StopEvent::SignalSent).after_alive(n);
            &&& now.phase == StopPhase::Killing
            &&& now.pending() == StopAction::ForceKill
        },
        fresh.after(StopEvent::SignalSent).after_alive(n).grace_ms == fresh.grace_ms,
        fresh.after(StopEvent::SignalSent).after_alive(n).poll_ms == fresh.poll_ms,
        fresh.after(StopEvent::SignalSent).after_alive(n).wf(),
    decreases n,
{
    let p = fresh.poll_ms as int;
    if n > 0 {
        lemma_kill_not_before_deadline(fresh, (n - 1) as nat);
        assert(n * p == (n - 1) * p + p) by (nonlinear_arith);
        assert((n - 1) * p >= 0) by (nonlinear_arith)
            requires
                n >= 1,
                p > 0,
        ;
    } else {
        assert(0 * p == 0);
    }
}

/// The look at which the kill is asked for is the first whose waits reach
/// the grace period: the waits before it fall short of the deadline, and with
/// it they exceed the deadline by less than one interval.
pub proof fn lemma_kill_within_one_interval(fresh: ShutdownView, n: nat)
    requires
        fresh.wf(),
        fresh.phase == StopPhase::Signalling,
        fresh.remaining_ms == fresh.grace_ms,
        n > 0,
        fresh.after(StopEvent::SignalSent).after_alive((n - 1) as nat).phase == StopPhase::Waiting,
        fresh.after(StopEvent::SignalSent).after_alive(n).phase == StopPhase::Killing,
    ensures
        fresh.grace_ms <= n * fresh.poll_ms < fresh.grace_ms + fresh.poll_ms,
{
    let p = fresh.poll_ms as int;
    lemma_kill_not_before_deadline(fresh, (n - 1) as nat);
    lemma_kill_not_before_deadline(fresh, n);
    assert(n * p == (n - 1) * p + p) by (nonlinear_arith);
}

/// A child that exits within the grace period is not killed: found gone
/// at a look that comes before the deadline, it ends the stop with success.
pub proof fn lemma_exit_in_time_is_not_killed(fresh: ShutdownView, n: nat)
    requires
        fresh.wf(),
        fresh.phase == StopPhase::Signalling,
        fresh.remaining_ms == fresh.grace_ms,
        n * fresh.poll_ms < fresh.grace_ms,
    ensures
        fresh.after(StopEvent::SignalSent).after_alive(n).after(StopEvent::Exited).phase
            == StopPhase::Stopped,
        fresh.after(StopEvent::SignalSent).after_alive(n).after(StopEvent::Exited).outcome()
            == Some(Ok::<(), Seq<char>>(())),
{
    lemma_kill_not_before_deadline(fresh, n);
}

/// The only error a stop reports is a forced kill that could not be issued:
/// no report brings about a failure but that of the kill, made while the
/// kill is pending.
pub proof fn lemma_only_a_failed_kill_fails(state: ShutdownView, event: StopEvent)
    requires
        state.phase != StopPhase::Failed,
    ensures
        state.after(event).phase == StopPhase::Failed <==> state.phase == StopPhase::Killing
            && event is KillFailed,
        state.after(event).phase == StopPhase::Failed ==> state.after(event).failure
            == event->KillFailed_0@,
{
}

/// A stop that has ended stays ended: no report changes its outcome.
pub proof fn lemma_outcome_is_final(state: ShutdownView, event: StopEvent)
    requires
        state.outcome() is Some,
    ensures
        state.after(event) == state,
{
}

} // verus!
