//! Scheduling decisions of a health-check probe: after each check, how long to wait
//! and whether the failure command runs.
use vstd::prelude::*;

use crate::config::{Checks, Probe};
use crate::outside::{regex_error, regex_is_match, regex_matches, regex_parse_error};
use crate::text::{contains_seq, contains_str, str_equal};

verus! {

/// The state a health-check probe carries from one check to the next.
pub struct HealthcheckState {
    pub consecutive_failures: u32,
}

/// What follows a check.
pub struct HealthcheckStep {
    /// The failure command to run now, if any.
    pub run_command: Option<String>,
    /// Timeout for that command, in seconds.
    pub timeout_seconds: u64,
    /// Seconds to wait before the next check.
    pub wait_seconds: u64,
}

pub open spec fn retries(probe: Probe) -> u32 {
    match probe.failure_retries_before_command {
        Some(n) => n,
        None => 0,
    }
}

pub open spec fn delay_after_success(probe: Probe) -> u64 {
    match probe.delay_after_success_seconds {
        Some(d) => d,
        None => probe.interval_seconds,
    }
}

pub open spec fn delay_after_failure(probe: Probe) -> u64 {
    match probe.delay_after_failure_seconds {
        Some(d) => d,
        None => probe.interval_seconds,
    }
}

/// One check: the failure count goes from `before` to `after`, and `step` says how
/// long to wait and whether the failure command runs.
pub open spec fn check_step(
    probe: Probe,
    before: u32,
    success: bool,
    dry_run: bool,
    after: u32,
    step: HealthcheckStep,
) -> bool {
    &&& after as int == next_failures(before as int, success)
    &&& step.wait_seconds == if success {
        delay_after_success(probe)
    } else {
        delay_after_failure(probe)
    }
    &&& step.timeout_seconds == probe.command_timeout_seconds
    &&& (step.run_command is Some <==> !success && !dry_run && probe.on_failure_command is Some
        && after > retries(probe))
    &&& step.run_command matches Some(c) ==> Some(c) == probe.on_failure_command
}

impl HealthcheckState {
    /// A probe starts with no failure recorded, and its first check runs at once.
    pub fn new() -> (s: HealthcheckState)
        ensures
            s.consecutive_failures == 0,
    {
        HealthcheckState { consecutive_failures: 0 }
    }

    /// Record the result of a check. A success resets the failure count and waits the
    /// success delay; a failure counts, waits the failure delay, and runs the failure
    /// command (when configured and not in dry-run mode) once the consecutive failures
    /// exceed the allowed retries.
    pub fn on_check(&mut self, probe: &Probe, success: bool, dry_run: bool) -> (step: HealthcheckStep)
        requires
            !success ==> old(self).consecutive_failures < u32::MAX,
        ensures
            check_step(
                *probe,
                old(self).consecutive_failures,
                success,
                dry_run,
                final(self).consecutive_failures,
                step,
            ),
    {
        if success {
            self.consecutive_failures = 0;
            return HealthcheckStep {
                run_command: None,
                timeout_seconds: probe.command_timeout_seconds,
                wait_seconds: probe.get_delay_after_success(),
            };
        }
        self.consecutive_failures = self.consecutive_failures + 1;
        let due = self.consecutive_failures > probe.get_failure_retries_before_command();
        let run_command = match &probe.on_failure_command {
            Some(c) => if due && !dry_run {
                Some(c.clone())
            } else {
                None
            },
            None => None,
        };
        HealthcheckStep {
            run_command,
            timeout_seconds: probe.command_timeout_seconds,
            wait_seconds: probe.get_delay_after_failure(),
        }
    }
}

/// Law: after one check, the wait is the configured delay for that outcome, or the
/// probe's interval when none is configured (a success never waits the failure delay, a
/// failure never waits the success delay). A success clears the failure count and runs no
/// command; a failure adds one to it and, outside dry-run mode, runs the configured failure
/// command, with the probe's timeout, exactly when the count now exceeds the allowed
/// retries (none when unset).
pub proof fn law_one_check(
    probe: Probe,
    before: u32,
    success: bool,
    dry_run: bool,
    after: u32,
    step: HealthcheckStep,
)
    requires
        check_step(probe, before, success, dry_run, after, step),
    ensures
        success ==> step.wait_seconds == match probe.delay_after_success_seconds {
            Some(d) => d,
            None => probe.interval_seconds,
        },
        !success ==> step.wait_seconds == match probe.delay_after_failure_seconds {
            Some(d) => d,
            None => probe.interval_seconds,
        },
        success ==> after == 0 && step.run_command is None,
        !success ==> after == before + 1,
        dry_run || probe.on_failure_command is None ==> step.run_command is None,
        !success && !dry_run && probe.on_failure_command is Some ==> (step.run_command is Some
            <==> after > match probe.failure_retries_before_command {
            Some(n) => n,
            None => 0,
        }),
        step.run_command is Some ==> step.run_command == probe.on_failure_command,
        step.timeout_seconds == probe.command_timeout_seconds,
{
}

/// The failure count after one check.
pub open spec fn next_failures(count: int, success: bool) -> int {
    if success {
        0
    } else {
        count + 1
    }
}

/// The failure count after a sequence of check results, starting from a fresh probe.
pub open spec fn failures_after(results: Seq<bool>) -> int
    decreases results.len(),
{
    if results.len() == 0 {
        0
    } else {
        next_failures(failures_after(results.drop_last()), results.last())
    }
}

/// Number of failed checks at the end of `results`, since the last success.
pub open spec fn trailing_failures(results: Seq<bool>) -> int
    decreases results.len(),
{
    if results.len() == 0 || results.last() {
        0
    } else {
        1 + trailing_failures(results.drop_last())
    }
}

/// Starting from a fresh probe, the failure count is the number of failed checks since
/// the last success; so the failure command runs on a failed check exactly when the
/// failures since the last success exceed the allowed retries.
pub proof fn law_failure_count_is_trailing_failures(results: Seq<bool>)
    ensures
        failures_after(results) == trailing_failures(results),
    decreases results.len(),
{
    if results.len() > 0 {
        law_failure_count_is_trailing_failures(results.drop_last());
    }
}

/// One expected response header and the value the response carried for it.
pub struct HeaderObservation {
    pub name: String,
    pub expected: String,
    pub actual: Option<String>,
}

/// Why a response fails its checks.
pub enum CheckFailure {
    Status { expected: u16, actual: u16 },
    BodyMissing,
    RegexInvalid,
    RegexMismatch,
    Header { name: String },
}

pub open spec fn status_ok(checks: Checks, status: u16) -> bool {
    match checks.expected_status {
        Some(s) => s == status,
        None => true,
    }
}

pub open spec fn body_ok(checks: Checks, body: Seq<char>) -> bool {
    match checks.expected_body_contains {
        Some(c) => contains_seq(body, c@),
        None => true,
    }
}

pub open spec fn regex_compiles(checks: Checks) -> bool {
    match checks.expected_body_regex {
        Some(p) => regex_parse_error(p@) is None,
        None => true,
    }
}

pub open spec fn regex_matches_body(checks: Checks, body: Seq<char>) -> bool {
    match checks.expected_body_regex {
        Some(p) => regex_is_match(p@, body),
        None => true,
    }
}

pub open spec fn header_ok(h: HeaderObservation) -> bool {
    h.actual matches Some(a) && a@ == h.expected@
}

/// Index of the first header whose value differs from the expected one.
pub open spec fn first_bad_header(headers: Seq<HeaderObservation>, i: int) -> bool {
    0 <= i < headers.len() && !header_ok(headers[i]) && forall|j: int|
        0 <= j < i ==> header_ok(#[trigger] headers[j])
}

/// Check a response against a probe's checks, in order: status, body substring, body
/// regex, then the expected headers; the first failing check is reported.
pub fn evaluate_response(
    checks: &Checks,
    status: u16,
    body: &str,
    headers: &Vec<HeaderObservation>,
) -> (r: Result<(), CheckFailure>)
    ensures
        r is Ok <==> status_ok(*checks, status) && body_ok(*checks, body@) && regex_compiles(*checks)
            && regex_matches_body(*checks, body@) && forall|j: int|
            0 <= j < headers@.len() ==> header_ok(#[trigger] headers@[j]),
        r matches Err(e) ==> match e {
            CheckFailure::Status { expected, actual } => !status_ok(*checks, status)
                && checks.expected_status == Some(expected) && actual == status,
            CheckFailure::BodyMissing => status_ok(*checks, status) && !body_ok(*checks, body@),
            CheckFailure::RegexInvalid => status_ok(*checks, status) && body_ok(*checks, body@)
                && !regex_compiles(*checks),
            CheckFailure::RegexMismatch => status_ok(*checks, status) && body_ok(*checks, body@)
                && regex_compiles(*checks) && !regex_matches_body(*checks, body@),
            CheckFailure::Header { name } => status_ok(*checks, status) && body_ok(*checks, body@)
                && regex_compiles(*checks) && regex_matches_body(*checks, body@) && exists|i: int|
                first_bad_header(headers@, i) && headers@[i].name@ == name@,
        },
{
    if let Some(expected) = checks.expected_status {
        if expected != status {
            return Err(CheckFailure::Status { expected, actual: status });
        }
    }
    if let Some(needle) = &checks.expected_body_contains {
        if !contains_str(body, needle.as_str()) {
            return Err(CheckFailure::BodyMissing);
        }
    }
    if let Some(pattern) = &checks.expected_body_regex {
        if regex_error(pattern.as_str()).is_some() {
            return Err(CheckFailure::RegexInvalid);
        }
        if !regex_matches(pattern.as_str(), body) {
            return Err(CheckFailure::RegexMismatch);
        }
    }
    let n = headers.len();
    let mut i: usize = 0;
    while i < n
        invariant
            n == headers@.len(),
            i <= n,
            forall|j: int| 0 <= j < i ==> header_ok(#[trigger] headers@[j]),
            status_ok(*checks, status),
            body_ok(*checks, body@),
            regex_compiles(*checks),
            regex_matches_body(*checks, body@),
        decreases n - i,
    {
        let h = &headers[i];
        let ok = match &h.actual {
            Some(a) => str_equal(a.as_str(), h.expected.as_str()),
            None => false,
        };
        if !ok {
            assert(first_bad_header(headers@, i as int));
            return Err(CheckFailure::Header { name: h.name.clone() });
        }
        i = i + 1;
    }
    Ok(())
}

/// A run of checks from a fresh probe: `counts[i]` is the failure count before check
/// `i`, whose result is `results[i]` and whose outcome is `steps[i]`.
pub open spec fn check_run(
    probe: Probe,
    results: Seq<bool>,
    dry_run: bool,
    counts: Seq<u32>,
    steps: Seq<HealthcheckStep>,
) -> bool {
    &&& counts.len() == results.len() + 1
    &&& steps.len() == results.len()
    &&& counts[0] == 0
    &&& forall|i: int|
        0 <= i < results.len() ==> check_step(
            probe,
            counts[i],
            #[trigger] results[i],
            dry_run,
            counts[i + 1],
            steps[i],
        )
}

proof fn lemma_counts_follow_results(
    probe: Probe,
    results: Seq<bool>,
    dry_run: bool,
    counts: Seq<u32>,
    steps: Seq<HealthcheckStep>,
    k: int,
)
    requires
        check_run(probe, results, dry_run, counts, steps),
        0 <= k <= results.len(),
    ensures
        counts[k] as int == failures_after(results.take(k)),
    decreases k,
{
    if k > 0 {
        lemma_counts_follow_results(probe, results, dry_run, counts, steps, k - 1);
        assert(check_step(probe, counts[k - 1], results[k - 1], dry_run, counts[k], steps[k - 1]));
        assert(results.take(k).drop_last() =~= results.take(k - 1));
    } else {
        assert(results.take(0) =~= Seq::<bool>::empty());
    }
}

/// Over any run of checks from a fresh probe: the failure command runs on a check
/// exactly when that check failed, dry-run mode is off, a command is configured and the
/// failed checks since the last success (this one included) exceed the allowed retries;
/// so it never runs after a success. Each check is followed by the success delay or the
/// failure delay.
pub proof fn law_failure_command_after_retries(
    probe: Probe,
    results: Seq<bool>,
    dry_run: bool,
    counts: Seq<u32>,
    steps: Seq<HealthcheckStep>,
)
    requires
        check_run(probe, results, dry_run, counts, steps),
    ensures
        forall|i: int|
            0 <= i < results.len() ==> {
                &&& ((#[trigger] steps[i]).run_command is Some <==> !results[i] && !dry_run
                    && probe.on_failure_command is Some && trailing_failures(results.take(i + 1))
                    > retries(probe))
                &&& steps[i].wait_seconds == if results[i] {
                    delay_after_success(probe)
                } else {
                    delay_after_failure(probe)
                }
            },
{
    assert forall|i: int| 0 <= i < results.len() implies {
        &&& ((#[trigger] steps[i]).run_command is Some <==> !results[i] && !dry_run
            && probe.on_failure_command is Some && trailing_failures(results.take(i + 1))
            > retries(probe))
        &&& steps[i].wait_seconds == if results[i] {
            delay_after_success(probe)
        } else {
            delay_after_failure(probe)
        }
    } by {
        assert(check_step(probe, counts[i], results[i], dry_run, counts[i + 1], steps[i]));
        lemma_counts_follow_results(probe, results, dry_run, counts, steps, i + 1);
        law_failure_count_is_trailing_failures(results.take(i + 1));
    }
}

} // verus!
