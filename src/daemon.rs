use crate::cdu::UpdateOutcome;
use crate::error::CduError;
use crate::retry::{backoff_delay, retry_step, RetryDecision, RetryPolicy, MAX_RETRIES, RETRY_BASE_MS};
use cron::Schedule;
use std::str::FromStr;
use vstd::prelude::*;

verus! {

/// How long to sleep between two looks at the clock while waiting for the
/// next fire time, in milliseconds.
pub const POLL_INTERVAL_MS: u64 = 999;

/// The schedule expressions that cron accepts.
pub uninterp spec fn schedule_parses(expr: Seq<char>) -> bool;

/// The latest time, in UTC milliseconds, after which a fire time is looked
/// for (about the year 255000); one second past it must still be a date
/// chrono can represent.
pub const MAX_AFTER_MS: i64 = 8000000000000000;

/// The first fire time of the schedule `expr` strictly after `after_ms`, in
/// UTC milliseconds, if there is one.
pub uninterp spec fn next_fire_of(expr: Seq<char>, after_ms: i64) -> Option<i64>;

/// Relies on `Schedule::from_str`: parses a schedule expression; the error
/// is cron's message.
#[verifier::external_body]
fn parse_schedule(expr: &str) -> (r: Result<(), String>)
    ensures
        r is Ok <==> schedule_parses(expr@),
{
    Schedule::from_str(expr).map(|_| ()).map_err(|e| e.to_string())
}

/// Relies on `Schedule::after`, on the schedule that `Schedule::from_str`
/// parses from `expr`, and on chrono's UTC millisecond timestamps: the
/// first fire time after `after_ms`, which is strictly later; nothing when
/// the schedule has no later time.
#[verifier::external_body]
fn next_fire_after(expr: &str, after_ms: i64) -> (r: Option<i64>)
    requires
        after_ms <= MAX_AFTER_MS,
    ensures
        r == next_fire_of(expr@, after_ms),
        r matches Some(t) ==> t > after_ms,
{
    let schedule = Schedule::from_str(expr).ok()?;
    let after = chrono::DateTime::from_timestamp_millis(after_ms)?;
    schedule.after(&after).next().map(|t| t.timestamp_millis())
}

/// The fire time that follows `prev`, or `now_ms` when there was none yet;
/// nothing past `MAX_AFTER_MS`.
pub open spec fn following_fire(expr: Seq<char>, prev: Option<i64>, now_ms: i64) -> Option<i64> {
    let after = match prev {
        Some(p) => p,
        None => now_ms,
    };
    if after <= MAX_AFTER_MS {
        next_fire_of(expr, after)
    } else {
        None
    }
}

/// What the daemon loop does next.
#[derive(Debug, Clone, PartialEq, Eq)]
pub enum DaemonAction {
    /// Sleep this many milliseconds, then look at the clock again.
    Sleep(u64),
    /// Start a reconciliation run now.
    Run,
    /// Try the failed run again after this many milliseconds (before jitter).
    RetryAfter(u64),
    /// Compute the next fire time and wait for it.
    NextTick,
    /// End the process with this failure.
    Exit(CduError),
}

/// The daemon's decisions: when to run, and what to do with a run's result.
pub struct Daemon {
    expr: String,
    retry: RetryPolicy,
    fire_at: Option<i64>,
}

impl Daemon {
    /// The schedule expression.
    pub closed spec fn expr(&self) -> Seq<char> {
        self.expr@
    }

    /// The next fire time, in UTC milliseconds, once one was computed.
    pub closed spec fn fire_at(&self) -> Option<i64> {
        self.fire_at
    }

    /// The retry policy of the current run.
    pub closed spec fn retry(&self) -> RetryPolicy {
        self.retry
    }

    /// The retry policy is well formed.
    pub closed spec fn wf(&self) -> bool {
        self.retry.wf()
    }

    /// A daemon on the schedule `expr`, with no fire time yet; a malformed
    /// expression is refused at once.
    pub fn new(expr: &str) -> (r: Result<Daemon, CduError>)
        ensures
            r is Ok <==> schedule_parses(expr@),
            r matches Ok(d) ==> d.wf() && d.expr() == expr@ && d.fire_at() is None
                && d.retry().used() == 0,
            r matches Ok(d) ==> d.retry().delays().len() == MAX_RETRIES && forall|i: int|
                0 <= i < MAX_RETRIES ==> #[trigger] d.retry().delays()[i] == backoff_delay(
                    RETRY_BASE_MS as nat,
                    i as nat,
                ),
            r matches Err(e) ==> e is ScheduleParseError,
    {
        match parse_schedule(expr) {
            Ok(()) => Ok(
                Daemon { expr: expr.to_owned(), retry: RetryPolicy::new(), fire_at: None },
            ),
            Err(msg) => Err(CduError::ScheduleParseError(msg)),
        }
    }

    /// Moves to the next fire time: the first after the previous one, or
    /// after `now_ms` for the first. Nothing when the schedule has ended, or
    /// when the time to look after is past `MAX_AFTER_MS`.
    pub fn schedule_next(&mut self, now_ms: i64) -> (r: Option<i64>)
        requires
            old(self).wf(),
        ensures
            final(self).wf(),
            final(self).expr() == old(self).expr(),
            final(self).retry() == old(self).retry(),
            final(self).fire_at() == r,
            r == following_fire(old(self).expr(), old(self).fire_at(), now_ms),
            r matches Some(t) ==> t > (match old(self).fire_at() {
                Some(prev) => prev,
                None => now_ms,
            }),
    {
        let after = match self.fire_at {
            Some(prev) => prev,
            None => now_ms,
        };
        let next = if after <= MAX_AFTER_MS {
            next_fire_after(self.expr.as_str(), after)
        } else {
            None
        };
        self.fire_at = next;
        next
    }

    /// Decides on a look at the clock: run once the fire time has passed,
    /// else sleep one poll interval.
    pub fn on_tick(&self, now_ms: i64) -> (r: DaemonAction)
        requires
            self.fire_at() is Some,
        ensures
            r == (if now_ms > self.fire_at()->Some_0 {
                DaemonAction::Run
            } else {
                DaemonAction::Sleep(POLL_INTERVAL_MS)
            }),
    {
        match self.fire_at {
            Some(t) => {
                if now_ms > t {
                    DaemonAction::Run
                } else {
                    DaemonAction::Sleep(POLL_INTERVAL_MS)
                }
            },
            None => DaemonAction::Run,
        }
    }

    /// Decides on a finished run: after a success, wait for the next fire
    /// time with every retry given back; after a failure, retry it as the
    /// policy says, or end with it.
    pub fn on_run_result(&mut self, result: Result<Vec<UpdateOutcome>, CduError>) -> (r:
        DaemonAction)
        requires
            old(self).wf(),
        ensures
            final(self).wf(),
            final(self).expr() == old(self).expr(),
            final(self).fire_at() == old(self).fire_at(),
            final(self).retry().delays() == old(self).retry().delays(),
            result is Ok ==> r == DaemonAction::NextTick && final(self).retry().used() == 0,
            result matches Err(e) ==> final(self).retry().used() == retry_step(
                old(self).retry().delays(),
                old(self).retry().used(),
                e,
            ).1 && r == (match retry_step(old(self).retry().delays(), old(self).retry().used(), e).0 {
                RetryDecision::RetryAfter(ms) => DaemonAction::RetryAfter(ms),
                RetryDecision::GiveUp => DaemonAction::Exit(e),
            }),
    {
        match result {
            Ok(_) => {
                self.retry.reset();
                DaemonAction::NextTick
            },
            Err(e) => match self.retry.on_failure(&e) {
                RetryDecision::RetryAfter(ms) => DaemonAction::RetryAfter(ms),
                RetryDecision::GiveUp => DaemonAction::Exit(e),
            },
        }
    }
}

} // verus!
