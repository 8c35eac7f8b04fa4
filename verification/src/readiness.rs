//! Deciding when the freshly started server counts as ready.
//!
//! The caller probes the health endpoint and reports each result; the poller
//! answers with what to do next. It counts the probes and gives up when the
//! budget is spent. The wait between probes is always the same.

use crate::error::ReadinessTimeout;
use crate::paths::OsFamily;
use crate::text::{append_decimal, decimal, digit_value, is_digit, seconds, seconds_text};
use vstd::prelude::*;
use vstd::string::*;

verus! {

/// Probes made before giving up, unless the caller says otherwise.
pub const DEFAULT_MAX_ATTEMPTS: u32 = 50;

/// Milliseconds between two probes, unless the caller says otherwise.
pub const DEFAULT_INTERVAL_MS: u64 = 200;

/// Milliseconds a probe may take to connect.
pub const CONNECT_TIMEOUT_MS: u64 = 500;

/// Milliseconds a probe may take in all.
pub const REQUEST_TIMEOUT_MS: u64 = 2000;

/// The status code that means healthy.
pub const STATUS_OK: u16 = 200;

/// The program that makes the probe.
pub const PROBE_PROGRAM: &'static str = "curl";

/// How the address of the health endpoint begins.
pub const URL_SCHEME: &'static str = "http://";

/// Path of the health endpoint.
pub const HEALTH_PATH: &'static str = "/api/health";

/// Result of one probe of the health endpoint.
#[derive(Clone, Copy, PartialEq, Eq, Structural, Debug)]
pub enum HealthStatus {
    /// The server answered with status 200.
    Healthy,
    /// The server answered with another status.
    Unhealthy,
    /// No answer: the connection failed or timed out.
    Unreachable,
}

/// The health that an answer's status code stands for; `None` is no answer.
pub open spec fn health_of(status: Option<u16>) -> HealthStatus {
    match status {
        Some(code) => if code == STATUS_OK {
            HealthStatus::Healthy
        } else {
            HealthStatus::Unhealthy
        },
        None => HealthStatus::Unreachable,
    }
}

/// Classifies the answer to a probe. Only status 200 is healthy.
pub fn classify_response(status: Option<u16>) -> (health: HealthStatus)
    ensures
        health == health_of(status),
{
    match status {
        Some(code) => {
            if code == STATUS_OK {
                HealthStatus::Healthy
            } else {
                HealthStatus::Unhealthy
            }
        },
        None => HealthStatus::Unreachable,
    }
}

/// `c` is a space, a tab or a line break.
pub open spec fn is_blank(c: char) -> bool {
    c == ' ' || c == '\t' || c == '\n' || c == '\r'
}

/// `s` is a status report whose digits begin at `start`: three digits with
/// nothing but blanks before and after.
pub open spec fn is_report_at(s: Seq<char>, start: int) -> bool {
    &&& 0 <= start
    &&& start + 3 <= s.len()
    &&& forall|i: int| 0 <= i < start ==> is_blank(#[trigger] s[i])
    &&& forall|i: int| start + 3 <= i < s.len() ==> is_blank(#[trigger] s[i])
    &&& is_digit(s[start])
    &&& is_digit(s[start + 1])
    &&& is_digit(s[start + 2])
}

/// The number that the three digits at `start` write.
pub open spec fn status_at(s: Seq<char>, start: int) -> nat {
    100 * digit_value(s[start]) + 10 * digit_value(s[start + 1]) + digit_value(s[start + 2])
}

/// The status code a probe's report carries. A report is three digits,
/// possibly between blanks; `000` stands for no answer. Anything else
/// carries no status.
pub open spec fn reported_status(s: Seq<char>) -> Option<u16> {
    if exists|k: int| is_report_at(s, k) {
        let start = choose|k: int| is_report_at(s, k);
        if status_at(s, start) == 0 {
            None
        } else {
            Some(status_at(s, start) as u16)
        }
    } else {
        None
    }
}

/// A report's digits begin at its first character that is not a blank.
proof fn lemma_report_start_is_unique(s: Seq<char>, first: int, k: int)
    requires
        0 <= first <= s.len(),
        forall|i: int| 0 <= i < first ==> is_blank(#[trigger] s[i]),
        first < s.len() ==> !is_blank(s[first]),
        is_report_at(s, k),
    ensures
        k == first,
{
    if k < first {
        assert(is_blank(s[k]));
    }
    if k > first {
        assert(is_blank(s[first]));
    }
}

fn blank_byte(b: u8) -> (blank: bool)
    ensures
        blank == (b == 32 || b == 9 || b == 10 || b == 13),
{
    b == 32 || b == 9 || b == 10 || b == 13
}

/// Index of the first character at or after `from` that is not a blank, or
/// the length if there is none.
fn skip_blanks(text: &str, len: usize, from: usize) -> (at: usize)
    requires
        text.is_ascii(),
        len == text@.len(),
        from <= len,
    ensures
        from <= at <= len,
        forall|i: int| from <= i < at ==> is_blank(#[trigger] text@[i]),
        at < len ==> !is_blank(text@[at as int]),
{
    let mut at = from;
    while at < len
        invariant
            text.is_ascii(),
            len == text@.len(),
            from <= at <= len,
            forall|i: int| from <= i < at ==> is_blank(#[trigger] text@[i]),
        decreases len - at,
    {
        if !blank_byte(text.get_ascii(at)) {
            return at;
        }
        at = at + 1;
    }
    at
}

/// Reads the status code out of a probe's report.
pub fn status_of_report(text: &str) -> (status: Option<u16>)
    ensures
        status == reported_status(text@),
{
    if !text.is_ascii() {
        proof {
            let i = choose|i: int|
                0 <= i < text@.len() && !('\0' <= #[trigger] text@[i] && text@[i] <= '\u{7f}');
            assert forall|k: int| !is_report_at(text@, k) by {
                if is_report_at(text@, k) {
                    if i < k || i >= k + 3 {
                        assert(is_blank(text@[i]));
                    }
                }
            }
        }
        return None;
    }
    let len = text.unicode_len();
    let first = skip_blanks(text, len, 0);
    if len - first < 3 {
        proof {
            assert forall|k: int| !is_report_at(text@, k) by {
                if is_report_at(text@, k) {
                    lemma_report_start_is_unique(text@, first as int, k);
                }
            }
        }
        return None;
    }
    let d0 = text.get_ascii(first);
    let d1 = text.get_ascii(first + 1);
    let d2 = text.get_ascii(first + 2);
    let digits = 48 <= d0 && d0 <= 57 && 48 <= d1 && d1 <= 57 && 48 <= d2 && d2 <= 57;
    let rest = skip_blanks(text, len, first + 3);
    if !digits || rest < len {
        proof {
            assert forall|k: int| !is_report_at(text@, k) by {
                if is_report_at(text@, k) {
                    lemma_report_start_is_unique(text@, first as int, k);
                    if rest < len {
                        assert(is_blank(text@[rest as int]));
                    }
                }
            }
        }
        return None;
    }
    let value: u16 = 100 * ((d0 - 48) as u16) + 10 * ((d1 - 48) as u16) + ((d2 - 48) as u16);
    proof {
        assert(is_report_at(text@, first as int));
        let k = choose|k: int| is_report_at(text@, k);
        lemma_report_start_is_unique(text@, first as int, k);
        assert(value == status_at(text@, first as int));
    }
    if value == 0 {
        None
    } else {
        Some(value)
    }
}

/// Classifies a probe's report: healthy exactly when it carries status 200.
pub fn classify_report(text: &str) -> (health: HealthStatus)
    ensures
        health == health_of(reported_status(text@)),
{
    classify_response(status_of_report(text))
}

/// The address of the health endpoint of the server at `host:port`.
pub open spec fn health_url_of(host: Seq<char>, port: u16) -> Seq<char> {
    URL_SCHEME@ + host + seq![':'] + decimal(port as nat) + HEALTH_PATH@
}

/// The address to probe.
pub fn health_url(host: &str, port: u16) -> (url: String)
    ensures
        url@ == health_url_of(host@, port),
{
    proof {
        reveal_strlit(":");
    }
    let mut url = String::from_str(URL_SCHEME);
    url.append(host);
    url.append(":");
    append_decimal(&mut url, port as u64);
    url.append(HEALTH_PATH);
    url
}

/// The arguments of the probe: quiet, body discarded, the status code
/// printed, and the two timeouts in seconds.
pub open spec fn probe_args_of(url: Seq<char>, family: OsFamily) -> Seq<Seq<char>> {
    seq![
        "-s"@,
        "-o"@,
        if family == OsFamily::Windows {
            "NUL"@
        } else {
            "/dev/null"@
        },
        "-w"@,
        "%{http_code}"@,
        "--connect-timeout"@,
        seconds(CONNECT_TIMEOUT_MS as nat),
        "--max-time"@,
        seconds(REQUEST_TIMEOUT_MS as nat),
        url,
    ]
}

/// The arguments [`PROBE_PROGRAM`] is run with to probe `url`. What it
/// prints is read with [`classify_report`].
pub fn probe_args(url: &str, family: OsFamily) -> (args: Vec<String>)
    ensures
        args.deep_view() == probe_args_of(url@, family),
{
    let sink = match family {
        OsFamily::Windows => "NUL",
        _ => "/dev/null",
    };
    let mut args: Vec<String> = Vec::new();
    args.push(String::from_str("-s"));
    args.push(String::from_str("-o"));
    args.push(String::from_str(sink));
    args.push(String::from_str("-w"));
    args.push(String::from_str("%{http_code}"));
    args.push(String::from_str("--connect-timeout"));
    args.push(seconds_text(CONNECT_TIMEOUT_MS));
    args.push(String::from_str("--max-time"));
    args.push(seconds_text(REQUEST_TIMEOUT_MS));
    args.push(String::from_str(url));
    assert(args.deep_view() =~= probe_args_of(url@, family));
    args
}

/// What the caller does next.
#[derive(Clone, Copy, PartialEq, Eq, Structural, Debug)]
pub enum PollStep {
    /// Wait `after_ms` milliseconds, probe, and report the result.
    Probe { after_ms: u64 },
    /// The server answered healthy on probe number `attempts`.
    Ready { attempts: u32 },
    /// The budget is spent.
    TimedOut(ReadinessTimeout),
}

/// Where a poller stands.
#[derive(Clone, Copy, PartialEq, Eq, Structural, Debug)]
pub enum PollPhase {
    Polling,
    Ready,
    TimedOut,
}

/// Mathematical view of a [`ReadinessPoller`].
pub struct PollerView {
    pub host: Seq<char>,
    pub port: u16,
    pub max_attempts: u32,
    pub interval_ms: u64,
    /// Probe results recorded so far.
    pub attempts: u32,
    pub phase: PollPhase,
}

impl PollerView {
    /// No probe has been recorded.
    pub open spec fn fresh(self) -> bool {
        self.attempts == 0 && self.phase == PollPhase::Polling
    }

    /// The step a poller in this state is waiting on: the probe to make, or
    /// the verdict once it has one. A poller with no budget left times out
    /// without probing.
    pub open spec fn pending(self) -> PollStep {
        match self.phase {
            PollPhase::Ready => PollStep::Ready { attempts: self.attempts },
            PollPhase::TimedOut => PollStep::TimedOut(ReadinessTimeout { attempts: self.attempts }),
            PollPhase::Polling => if self.attempts >= self.max_attempts {
                PollStep::TimedOut(ReadinessTimeout { attempts: self.attempts })
            } else if self.attempts == 0 {
                PollStep::Probe { after_ms: 0 }
            } else {
                PollStep::Probe { after_ms: self.interval_ms }
            },
        }
    }

    /// The state after a probe came back with `health`.
    ///
    /// While polling within budget the probe is counted; a healthy answer
    /// ends the wait, and so does the last probe of the budget. A poller
    /// that has its verdict, or has no budget, stays as it is.
    pub open spec fn record(self, health: HealthStatus) -> PollerView {
        if self.phase != PollPhase::Polling {
            self
        } else if self.attempts >= self.max_attempts {
            PollerView { phase: PollPhase::TimedOut, ..self }
        } else {
            let counted = (self.attempts + 1) as u32;
            if health == HealthStatus::Healthy {
                PollerView { attempts: counted, phase: PollPhase::Ready, ..self }
            } else if counted >= self.max_attempts {
                PollerView { attempts: counted, phase: PollPhase::TimedOut, ..self }
            } else {
                PollerView { attempts: counted, ..self }
            }
        }
    }

    /// The state after the probes came back with `results`, in order.
    pub open spec fn record_all(self, results: Seq<HealthStatus>) -> PollerView
        decreases results.len(),
    {
        if results.len() == 0 {
            self
        } else {
            self.record_all(results.drop_last()).record(results.last())
        }
    }
}

/// Counts probes of the health endpoint against a budget.
pub struct ReadinessPoller {
    host: String,
    port: u16,
    max_attempts: u32,
    interval_ms: u64,
    attempts: u32,
    phase: PollPhase,
}

impl View for ReadinessPoller {
    type V = PollerView;

    closed spec fn view(&self) -> PollerView {
        PollerView {
            host: self.host@,
            port: self.port,
            max_attempts: self.max_attempts,
            interval_ms: self.interval_ms,
            attempts: self.attempts,
            phase: self.phase,
        }
    }
}

impl ReadinessPoller {
    /// A poller for the server at `host:port` that allows `max_attempts`
    /// probes, `interval_ms` milliseconds apart.
    pub fn new(host: &str, port: u16, max_attempts: u32, interval_ms: u64) -> (poller: Self)
        ensures
            poller@ == (PollerView {
                host: host@,
                port,
                max_attempts,
                interval_ms,
                attempts: 0,
                phase: PollPhase::Polling,
            }),
    {
        ReadinessPoller {
            host: String::from_str(host),
            port,
            max_attempts,
            interval_ms,
            attempts: 0,
            phase: PollPhase::Polling,
        }
    }

    /// The address to probe.
    pub fn url(&self) -> (url: String)
        ensures
            url@ == health_url_of(self@.host, self@.port),
    {
        health_url(self.host.as_str(), self.port)
    }

    /// Probe results recorded so far.
    pub fn attempts(&self) -> (n: u32)
        ensures
            n == self@.attempts,
    {
        self.attempts
    }

    /// What the caller does next, without recording anything.
    pub fn pending(&self) -> (step: PollStep)
        ensures
            step == self@.pending(),
    {
        match self.phase {
            PollPhase::Ready => PollStep::Ready { attempts: self.attempts },
            PollPhase::TimedOut => PollStep::TimedOut(ReadinessTimeout { attempts: self.attempts }),
            PollPhase::Polling => {
                if self.attempts >= self.max_attempts {
                    PollStep::TimedOut(ReadinessTimeout { attempts: self.attempts })
                } else if self.attempts == 0 {
                    PollStep::Probe { after_ms: 0 }
                } else {
                    PollStep::Probe { after_ms: self.interval_ms }
                }
            },
        }
    }

    /// Records the result of the probe that was pending and says what to do
    /// next.
    pub fn record(&mut self, health: HealthStatus) -> (step: PollStep)
        ensures
            final(self)@ == old(self)@.record(health),
            step == final(self)@.pending(),
    {
        match self.phase {
            PollPhase::Polling => {
                if self.attempts >= self.max_attempts {
                    self.phase = PollPhase::TimedOut;
                } else {
                    self.attempts = self.attempts + 1;
                    match health {
                        HealthStatus::Healthy => {
                            self.phase = PollPhase::Ready;
                        },
                        _ => {
                            if self.attempts >= self.max_attempts {
                                self.phase = PollPhase::TimedOut;
                            }
                        },
                    }
                }
            },
            _ => {},
        }
        self.pending()
    }
}

/// No probe among the first `n` came back healthy.
pub open spec fn none_healthy(results: Seq<HealthStatus>, n: int) -> bool {
    forall|i: int| 0 <= i < n && i < results.len() ==> #[trigger] results[i] != HealthStatus::Healthy
}

/// While no probe comes back healthy, every probe within the budget is
/// counted and the poller keeps polling, at the fixed interval; the probe that
/// spends the budget ends the wait with a timeout, and nothing after it is
/// counted. So a server that never answers healthy is probed exactly
/// `max_attempts` times.
pub proof fn lemma_timeout_after_exactly_max_attempts(start: PollerView, results: Seq<HealthStatus>)
    requires
        start.fresh(),
        none_healthy(results, start.max_attempts as int),
    ensures
        results.len() < start.max_attempts ==> {
            let now = start.record_all(results);
            &&& now.attempts == results.len()
            &&& now.phase == PollPhase::Polling
            &&& now.pending() == (PollStep::Probe {
                after_ms: if results.len() == 0 {
                    0
                } else {
                    start.interval_ms
                },
            })
        },
        results.len() >= start.max_attempts ==> {
            let now = start.record_all(results);
            &&& now.attempts == start.max_attempts
            &&& now.pending() == PollStep::TimedOut(
                ReadinessTimeout { attempts: start.max_attempts },
            )
            &&& (results.len() > 0 ==> now.phase == PollPhase::TimedOut)
        },
        start.record_all(results).host == start.host,
        start.record_all(results).port == start.port,
        start.record_all(results).max_attempts == start.max_attempts,
        start.record_all(results).interval_ms == start.interval_ms,
    decreases results.len(),
{
    if results.len() > 0 {
        let before = results.drop_last();
        assert forall|i: int| 0 <= i < start.max_attempts && i < before.len() implies #[trigger] before[i]
            != HealthStatus::Healthy by {
            assert(before[i] == results[i]);
        }
        lemma_timeout_after_exactly_max_attempts(start, before);
        if results.len() <= start.max_attempts {
            assert(results.last() == results[results.len() - 1]);
        }
    }
}

/// The first healthy answer within the budget ends the wait at once: the
/// poller is ready after exactly as many probes as it took, and stays so
/// whatever is reported afterwards.
pub proof fn lemma_ready_on_first_healthy(start: PollerView, results: Seq<HealthStatus>, k: int)
    requires
        start.fresh(),
        0 <= k < results.len(),
        k < start.max_attempts,
        none_healthy(results, k),
        results[k] == HealthStatus::Healthy,
    ensures
        start.record_all(results).phase == PollPhase::Ready,
        start.record_all(results).attempts == k + 1,
        start.record_all(results).pending() == (PollStep::Ready { attempts: (k + 1) as u32 }),
    decreases results.len(),
{
    let before = results.drop_last();
    if results.len() == k + 1 {
        assert forall|i: int| 0 <= i < start.max_attempts && i < before.len() implies #[trigger] before[i]
            != HealthStatus::Healthy by {
            assert(before[i] == results[i]);
        }
        lemma_timeout_after_exactly_max_attempts(start, before);
    } else {
        assert(before[k] == results[k]);
        assert forall|i: int| 0 <= i < k && i < before.len() implies #[trigger] before[i]
            != HealthStatus::Healthy by {
            assert(before[i] == results[i]);
        }
        lemma_ready_on_first_healthy(start, before, k);
    }
}

/// Milliseconds the caller waits before carrying out `step`.
pub open spec fn wait_of(step: PollStep) -> nat {
    match step {
        PollStep::Probe { after_ms } => after_ms as nat,
        _ => 0,
    }
}

/// Milliseconds a caller has waited in all when it has followed the poller
/// from `start` through the probes that came back with `results`, the wait
/// before the pending probe included.
pub open spec fn total_wait(start: PollerView, results: Seq<HealthStatus>) -> nat
    decreases results.len(),
{
    if results.len() == 0 {
        wait_of(start.pending())
    } else {
        total_wait(start, results.drop_last()) + wait_of(start.record_all(results).pending())
    }
}

/// The wait for a server that never answers healthy is bounded: one interval
/// between every two probes and none before the first or after the last, so
/// `max_attempts - 1` intervals by the time the poller gives up.
pub proof fn lemma_total_wait_is_bounded(start: PollerView, results: Seq<HealthStatus>)
    requires
        start.fresh(),
        none_healthy(results, start.max_attempts as int),
    ensures
        results.len() < start.max_attempts ==> total_wait(start, results) == results.len()
            * start.interval_ms,
        results.len() >= start.max_attempts && start.max_attempts > 0 ==> total_wait(start, results)
            == (start.max_attempts - 1) * start.interval_ms,
        start.max_attempts == 0 ==> total_wait(start, results) == 0,
    decreases results.len(),
{
    let t = start.interval_ms as int;
    lemma_timeout_after_exactly_max_attempts(start, results);
    if results.len() > 0 {
        let before = results.drop_last();
        assert forall|i: int| 0 <= i < start.max_attempts && i < before.len() implies #[trigger] before[i]
            != HealthStatus::Healthy by {
            assert(before[i] == results[i]);
        }
        lemma_total_wait_is_bounded(start, before);
        lemma_timeout_after_exactly_max_attempts(start, before);
        let n = results.len() as int;
        assert(n * t == (n - 1) * t + t) by (nonlinear_arith);
    } else {
        assert(0 * t == 0);
    }
}

/// A report is healthy exactly when its three digits are `200`.
pub proof fn lemma_only_200_is_healthy(s: Seq<char>)
    ensures
        health_of(reported_status(s)) == HealthStatus::Healthy <==> exists|k: int|
            is_report_at(s, k) && s[k] == '2' && s[k + 1] == '0' && s[k + 2] == '0',
{
    if exists|k: int| is_report_at(s, k) {
        let start = choose|k: int| is_report_at(s, k);
        assert forall|k: int| is_report_at(s, k) implies k == start by {
            if k < start {
                assert(is_blank(s[k]));
            }
            if k > start {
                assert(is_blank(s[start]));
            }
        }
        if health_of(reported_status(s)) == HealthStatus::Healthy {
            assert(status_at(s, start) == 200);
            assert(is_report_at(s, start) && s[start] == '2' && s[start + 1] == '0' && s[start + 2]
                == '0');
        }
    }
}

} // verus!
