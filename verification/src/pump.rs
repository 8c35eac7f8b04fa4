//! Draining the child's output and noticing when it dies.
//!
//! The caller receives the child's events in the order the child produced
//! them and hands each to [`pump_event`], which turns it into a log record
//! and, on termination, clears the supervisor's state.

use crate::paths::chosen_directory;
use crate::state::{SidecarState, SidecarStateView};
use crate::supervisor::{start_plan, LaunchSurvey, StartStepView};
use crate::text::{append_signed_decimal, signed_decimal};
use vstd::prelude::*;
use vstd::string::*;

verus! {

/// What every log line about the child begins with.
pub const LOG_PREFIX: &'static str = "[Sidecar] ";

/// Something the child did, as its event stream reports it.
#[derive(Debug)]
pub enum CommandEvent {
    /// A line on standard output.
    Stdout(Vec<u8>),
    /// A line on standard error.
    Stderr(Vec<u8>),
    /// The stream itself failed.
    Error(String),
    /// The child is gone, with its exit code and signal where known.
    Terminated { code: Option<i32>, signal: Option<i32> },
    /// An event this library has no use for.
    Other,
}

/// How much a log record matters.
#[derive(Clone, Copy, PartialEq, Eq, Structural, Debug)]
pub enum LogLevel {
    Info,
    Warn,
    Error,
}

/// A line for the log.
pub struct LogRecord {
    pub level: LogLevel,
    pub message: String,
}

/// What to do with one event.
pub struct PumpStep {
    /// The record to publish, if the event calls for one.
    pub log: Option<LogRecord>,
    /// The child is gone: stop consuming.
    pub finished: bool,
}

/// Mathematical view of a [`PumpStep`].
pub struct PumpStepView {
    pub log: Option<(LogLevel, Seq<char>)>,
    pub finished: bool,
}

impl View for PumpStep {
    type V = PumpStepView;

    open spec fn view(&self) -> PumpStepView {
        PumpStepView {
            log: match self.log {
                Some(record) => Some((record.level, record.message@)),
                None => None,
            },
            finished: self.finished,
        }
    }
}

/// The text that lossy decoding makes of `bytes`: the characters they encode,
/// with U+FFFD in place of each run that is not valid UTF-8.
pub uninterp spec fn lossy_text(bytes: Seq<u8>) -> Seq<char>;

/// An optional number the way a debug print shows it.
pub open spec fn debug_option(value: Option<i32>) -> Seq<char> {
    match value {
        Some(n) => "Some("@ + signed_decimal(n as int) + ")"@,
        None => "None"@,
    }
}

/// The message that reports a termination.
pub open spec fn termination_message(code: Option<i32>, signal: Option<i32>) -> Seq<char> {
    LOG_PREFIX@ + "Terminated with code: "@ + debug_option(code) + ", signal: "@ + debug_option(
        signal,
    )
}

/// The record an event is published as: output lines at info level, error
/// lines as warnings, stream failures as errors, the termination at info
/// level; nothing for other events.
pub open spec fn log_of(event: CommandEvent) -> Option<(LogLevel, Seq<char>)> {
    match event {
        CommandEvent::Stdout(line) => Some((LogLevel::Info, LOG_PREFIX@ + lossy_text(line@))),
        CommandEvent::Stderr(line) => Some((LogLevel::Warn, LOG_PREFIX@ + lossy_text(line@))),
        CommandEvent::Error(reason) => Some((LogLevel::Error, LOG_PREFIX@ + "Error: "@ + reason@)),
        CommandEvent::Terminated { code, signal } => Some(
            (LogLevel::Info, termination_message(code, signal)),
        ),
        CommandEvent::Other => None,
    }
}

/// Decodes a line of output with `String::from_utf8_lossy`.
///
/// Trusted: the result is the lossy decoding of the bytes, which for valid
/// UTF-8 is the text they encode.
#[verifier::external_body]
fn decode_lossy(bytes: &[u8]) -> (text: String)
    ensures
        text@ == lossy_text(bytes@),
        vstd::utf8::valid_utf8(bytes@) ==> text@ == vstd::utf8::decode_utf8(bytes@),
{
    String::from_utf8_lossy(bytes).into_owned()
}

fn append_debug_option(out: &mut String, value: Option<i32>)
    ensures
        final(out)@ == old(out)@ + debug_option(value),
{
    match value {
        Some(n) => {
            out.append("Some(");
            append_signed_decimal(out, n);
            out.append(")");
            assert(out@ == old(out)@ + ("Some("@ + signed_decimal(n as int) + ")"@));
        },
        None => {
            out.append("None");
        },
    }
}

fn record_of(event: &CommandEvent) -> (log: Option<LogRecord>)
    ensures
        match log {
            Some(record) => log_of(*event) == Some((record.level, record.message@)),
            None => log_of(*event) is None,
        },
{
    match event {
        CommandEvent::Stdout(line) => {
            let mut message = String::from_str(LOG_PREFIX);
            message.append(decode_lossy(line.as_slice()).as_str());
            Some(LogRecord { level: LogLevel::Info, message })
        },
        CommandEvent::Stderr(line) => {
            let mut message = String::from_str(LOG_PREFIX);
            message.append(decode_lossy(line.as_slice()).as_str());
            Some(LogRecord { level: LogLevel::Warn, message })
        },
        CommandEvent::Error(reason) => {
            let mut message = String::from_str(LOG_PREFIX);
            message.append("Error: ");
            message.append(reason.as_str());
            Some(LogRecord { level: LogLevel::Error, message })
        },
        CommandEvent::Terminated { code, signal } => {
            let mut message = String::from_str(LOG_PREFIX);
            message.append("Terminated with code: ");
            append_debug_option(&mut message, *code);
            message.append(", signal: ");
            append_debug_option(&mut message, *signal);
            Some(LogRecord { level: LogLevel::Info, message })
        },
        CommandEvent::Other => None,
    }
}

/// The state after an event was pumped: emptied by the termination, left
/// alone by everything else.
pub open spec fn pumped<H>(state: SidecarStateView<H>, event: CommandEvent) -> SidecarStateView<H> {
    if event is Terminated {
        state.emptied()
    } else {
        state
    }
}

/// Handles one event of the child's stream.
///
/// Every event but the termination leaves the state alone and asks for
/// more. The termination drops whatever handle the state holds, so that the
/// supervisor knows no child is running, and ends the pump.
pub fn pump_event<H>(state: &mut SidecarState<H>, event: &CommandEvent) -> (step: PumpStep)
    ensures
        step@ == (PumpStepView { log: log_of(*event), finished: event is Terminated }),
        final(state)@ == pumped(old(state)@, *event),
{
    let log = record_of(event);
    match event {
        CommandEvent::Terminated { .. } => {
            let _ = state.take();
            PumpStep { log, finished: true }
        },
        _ => PumpStep { log, finished: false },
    }
}

/// After a crash the supervisor starts afresh: once the child's termination
/// has been pumped, a start request is decided as on an empty state. It never
/// takes the already-running path, and it plans a launch whenever the data
/// directory, the resources and the runtimes are found and the entry point
/// exists.
pub proof fn lemma_start_after_crash<H>(
    state: SidecarStateView<H>,
    event: CommandEvent,
    survey: LaunchSurvey,
)
    requires
        event is Terminated,
    ensures
        !pumped(state, event).is_running(),
        start_plan(
            pumped(state, event).is_running(),
            pumped(state, event).host,
            pumped(state, event).port,
            survey,
        ) == start_plan(false, state.host, state.port, survey),
        start_plan(false, state.host, state.port, survey) != StartStepView::AlreadyRunning,
        chosen_directory(survey.legacy, survey.current, survey.family) is Some
            && survey.resource_root is Ok && survey.runtime_dir is Ok
            && survey.entry_point_exists ==> start_plan(
            false,
            state.host,
            state.port,
            survey,
        ) is Launch,
{
}

/// The state after the pump has run over `events`: it consumes them in
/// order and stops at the first termination.
pub open spec fn drained<H>(state: SidecarStateView<H>, events: Seq<CommandEvent>) -> SidecarStateView<
    H,
>
    decreases events.len(),
{
    if events.len() == 0 {
        state
    } else if events[0] is Terminated {
        pumped(state, events[0])
    } else {
        drained(pumped(state, events[0]), events.drop_first())
    }
}

/// A pump leaves the state empty exactly when the child's termination was
/// among the events, and untouched otherwise; what the child printed before
/// has no bearing on it.
pub proof fn lemma_drained_state<H>(state: SidecarStateView<H>, events: Seq<CommandEvent>)
    ensures
        drained(state, events) == if exists|i: int|
            0 <= i < events.len() && events[i] is Terminated {
            state.emptied()
        } else {
            state
        },
    decreases events.len(),
{
    if events.len() > 0 {
        if events[0] is Terminated {
        } else {
            let rest = events.drop_first();
            lemma_drained_state(state, rest);
            if exists|i: int| 0 <= i < events.len() && events[i] is Terminated {
                let i = choose|i: int| 0 <= i < events.len() && events[i] is Terminated;
                assert(rest[i - 1] is Terminated);
            }
            if exists|i: int| 0 <= i < rest.len() && rest[i] is Terminated {
                let i = choose|i: int| 0 <= i < rest.len() && rest[i] is Terminated;
                assert(events[i + 1] is Terminated);
            }
        }
    }
}

} // verus!
