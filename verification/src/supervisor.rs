//! Supervision of service-mode processes: when an exited process is
//! restarted, after what delay, and what the log says about it.

use vstd::prelude::*;
use crate::text::{decimal, signed_decimal, u64_to_decimal, i64_to_decimal};

verus! {

/// The longest restart delay, in milliseconds.
pub const MAX_BACKOFF_MS: u64 = 60_000;

/// The shortest delay after jitter, in milliseconds.
pub const MIN_DELAY_MS: u64 = 100;

/// Seconds a process must run for its exit not to count as a failure.
pub const STABLE_RUN_SECS: u64 = 60;

pub open spec fn pow2(e: nat) -> nat
    decreases e,
{
    if e == 0 {
        1
    } else {
        2 * pow2((e - 1) as nat)
    }
}

/// The restart delay after `failures` consecutive short runs: one second
/// doubled per failure (at most six doublings), capped at a minute.
pub open spec fn backoff_ms(failures: nat) -> nat {
    let e: nat = if failures < 6 { failures } else { 6 };
    let d = 1000 * pow2(e);
    if d > MAX_BACKOFF_MS {
        MAX_BACKOFF_MS as nat
    } else {
        d
    }
}

/// The restart delay after `failures` consecutive short runs.
pub fn backoff_delay_ms(failures: u32) -> (ms: u64)
    ensures
        ms == backoff_ms(failures as nat),
{
    proof {
        reveal_with_fuel(pow2, 7);
    }
    if failures == 0 {
        1000
    } else if failures == 1 {
        2000
    } else if failures == 2 {
        4000
    } else if failures == 3 {
        8000
    } else if failures == 4 {
        16000
    } else if failures == 5 {
        32000
    } else {
        60000
    }
}

/// What to do once a supervised process exited.
#[derive(PartialEq, Eq, Structural, Clone, Copy, Debug)]
pub enum ExitDecision {
    /// Report the final exit and stop supervising.
    Finish,
    /// Restart after the delay; this is restart number `restart_count`.
    Restart { restart_count: u32, delay_ms: u64 },
}

/// The restart bookkeeping of one supervised process.
pub struct RestartState {
    consecutive_failures: u32,
    restart_count: u32,
}

impl RestartState {
    pub closed spec fn failures(&self) -> nat {
        self.consecutive_failures as nat
    }

    pub closed spec fn restarts(&self) -> nat {
        self.restart_count as nat
    }

    /// A process that has not restarted yet.
    pub fn new() -> (s: Self)
        ensures
            s.failures() == 0,
            s.restarts() == 0,
    {
        RestartState { consecutive_failures: 0, restart_count: 0 }
    }

    pub fn consecutive_failures(&self) -> (n: u32)
        ensures
            n == self.failures(),
    {
        self.consecutive_failures
    }

    pub fn restart_count(&self) -> (n: u32)
        ensures
            n == self.restarts(),
    {
        self.restart_count
    }

    /// Decides on an exited process that ran for `ran_for_secs`. A oneshot
    /// or cancelled process finishes. A service restarts: a run longer
    /// than a minute clears the failure streak, a shorter one extends it,
    /// and the delay follows the streak. The restart counter wraps as the
    /// atomic counter it stands for does.
    pub fn on_exit(&mut self, is_service: bool, cancelled: bool, ran_for_secs: u64) -> (d: ExitDecision)
        requires
            ran_for_secs > STABLE_RUN_SECS || old(self).failures() < u32::MAX,
        ensures
            (!is_service || cancelled) ==> d == ExitDecision::Finish && final(self).failures() == old(self).failures()
                && final(self).restarts() == old(self).restarts(),
            (is_service && !cancelled) ==> {
                &&& final(self).failures() == (if ran_for_secs > STABLE_RUN_SECS { 0 } else { old(self).failures() + 1 })
                &&& final(self).restarts() == (old(self).restarts() + 1) % 0x1_0000_0000
                &&& d == ExitDecision::Restart {
                    restart_count: final(self).restarts() as u32,
                    delay_ms: backoff_ms(final(self).failures()) as u64,
                }
            },
    {
        if !is_service || cancelled {
            return ExitDecision::Finish;
        }
        if ran_for_secs > STABLE_RUN_SECS {
            self.consecutive_failures = 0;
        } else {
            self.consecutive_failures = self.consecutive_failures + 1;
        }
        self.restart_count = self.restart_count.wrapping_add(1);
        let delay_ms = backoff_delay_ms(self.consecutive_failures);
        ExitDecision::Restart { restart_count: self.restart_count, delay_ms }
    }
}

/// The delay with its jitter added, at least `MIN_DELAY_MS`.
pub fn jittered_delay_ms(delay_ms: u64, jitter: i64) -> (ms: u64)
    requires
        delay_ms <= MAX_BACKOFF_MS,
        -(delay_ms as int) <= jitter <= delay_ms,
    ensures
        ms == (if delay_ms + jitter < MIN_DELAY_MS { MIN_DELAY_MS as int } else { delay_ms + jitter }),
{
    let d: i64 = delay_ms as i64 + jitter;
    if d < 100 {
        100
    } else {
        d as u64
    }
}

/// `completed` for exit code 0, `failed` otherwise.
pub fn exit_status(exit_code: i32) -> (s: &'static str)
    ensures
        s@ == (if exit_code == 0 { "completed"@ } else { "failed"@ }),
{
    if exit_code == 0 {
        "completed"
    } else {
        "failed"
    }
}

/// The status and code recorded for a run: its exit code, or a failure
/// with code -1 when it could not be run or waited for.
pub fn run_outcome(result: Result<i32, String>) -> (r: (&'static str, i32))
    ensures
        match result {
            Ok(c) => r.1 == c && r.0@ == (if c == 0 { "completed"@ } else { "failed"@ }),
            Err(_) => r.1 == -1 && r.0@ == "failed"@,
        },
{
    match result {
        Ok(c) => (exit_status(c), c),
        Err(_) => ("failed", -1),
    }
}

/// The log line announcing a restart.
pub fn restarting_message(restart_count: u32, exit_code: i32, delay_ms: u64) -> (s: String)
    ensures
        s@ == "\n--- Service restarting (attempt "@ + decimal(restart_count as nat) + ", exit code "@
            + signed_decimal(exit_code as int) + ", backoff "@ + decimal(delay_ms as nat) + "ms) ---\n"@,
{
    let mut s = "\n--- Service restarting (attempt ".to_owned();
    s.append(u64_to_decimal(restart_count as u64).as_str());
    s.append(", exit code ");
    s.append(i64_to_decimal(exit_code as i64).as_str());
    s.append(", backoff ");
    s.append(u64_to_decimal(delay_ms).as_str());
    s.append("ms) ---\n");
    s
}

/// The log line after a successful restart.
pub fn restarted_message(restart_count: u32) -> (s: String)
    ensures
        s@ == "--- Service restarted (attempt "@ + decimal(restart_count as nat) + ") ---\n"@,
{
    let mut s = "--- Service restarted (attempt ".to_owned();
    s.append(u64_to_decimal(restart_count as u64).as_str());
    s.append(") ---\n");
    s
}

/// The log line after a failed restart attempt.
pub fn restart_failed_message(error: &str) -> (s: String)
    ensures
        s@ == "--- Service restart failed: "@ + error@ + " ---\n"@,
{
    let mut s = "--- Service restart failed: ".to_owned();
    s.append(error);
    s.append(" ---\n");
    s
}

/// The restart delay stays between one second and a minute.
pub proof fn backoff_is_bounded(failures: nat)
    ensures
        1000 <= backoff_ms(failures) <= MAX_BACKOFF_MS,
{
    reveal_with_fuel(pow2, 7);
}

/// More consecutive failures never shorten the restart delay.
pub proof fn backoff_is_monotone(a: nat, b: nat)
    requires
        a <= b,
    ensures
        backoff_ms(a) <= backoff_ms(b),
{
    reveal_with_fuel(pow2, 7);
}

/// From six consecutive failures on, the delay is the one-minute cap.
pub proof fn backoff_saturates(failures: nat)
    requires
        failures >= 6,
    ensures
        backoff_ms(failures) == MAX_BACKOFF_MS,
{
    reveal_with_fuel(pow2, 7);
}

} // verus!
