use crate::error::CduError;
use tokio_retry::strategy::ExponentialBackoff;
use vstd::prelude::*;

verus! {

/// The first retry delay, in milliseconds; each next one is this many times
/// longer.
pub const RETRY_BASE_MS: u64 = 10;

/// How many times a failed run is tried again.
pub const MAX_RETRIES: usize = 3;

/// The `n`-th delay (from zero) of an exponential backoff from `base`
/// milliseconds: `base` to the power `n + 1`, saturating at the largest
/// `u64`.
pub open spec fn backoff_delay(base: nat, n: nat) -> nat
    decreases n,
{
    if n == 0 {
        base
    } else {
        let d = backoff_delay(base, (n - 1) as nat) * base;
        if d > u64::MAX {
            u64::MAX as nat
        } else {
            d
        }
    }
}

/// Relies on `ExponentialBackoff::from_millis` and its iterator, which
/// never ends: its first `count` delays, in milliseconds.
#[verifier::external_body]
fn backoff_delays(base: u64, count: usize) -> (r: Vec<u64>)
    ensures
        r@.len() == count,
        forall|i: int| 0 <= i < count ==> #[trigger] r@[i] == backoff_delay(base as nat, i as nat),
{
    ExponentialBackoff::from_millis(base).take(count).map(|d| d.as_millis() as u64).collect()
}

/// What to do after a run failed.
#[derive(Debug, Clone, Copy, PartialEq, Eq)]
pub enum RetryDecision {
    /// Run again after this many milliseconds (before jitter).
    RetryAfter(u64),
    /// Stop and let the failure end the process.
    GiveUp,
}

/// The decision on a failure, and how many retries are used after it, when
/// `used` of the `delays` were used before.
pub open spec fn retry_step(delays: Seq<u64>, used: nat, err: CduError) -> (RetryDecision, nat) {
    if err.transient() && used < delays.len() {
        (RetryDecision::RetryAfter(delays[used as int]), used + 1)
    } else {
        (RetryDecision::GiveUp, used)
    }
}

/// Bounded retry with exponential backoff, for the failures that may go
/// away.
pub struct RetryPolicy {
    delays: Vec<u64>,
    used: usize,
}

impl RetryPolicy {
    /// The delays before each retry, in milliseconds.
    pub closed spec fn delays(&self) -> Seq<u64> {
        self.delays@
    }

    /// How many retries were used since the last success.
    pub closed spec fn used(&self) -> nat {
        self.used as nat
    }

    /// No more retries are used than there are delays.
    pub closed spec fn wf(&self) -> bool {
        self.used <= self.delays@.len()
    }

    /// A policy with no retry used: `MAX_RETRIES` delays growing from
    /// `RETRY_BASE_MS`.
    pub fn new() -> (r: RetryPolicy)
        ensures
            r.wf(),
            r.used() == 0,
            r.delays().len() == MAX_RETRIES,
            forall|i: int|
                0 <= i < MAX_RETRIES ==> #[trigger] r.delays()[i] == backoff_delay(
                    RETRY_BASE_MS as nat,
                    i as nat,
                ),
    {
        RetryPolicy { delays: backoff_delays(RETRY_BASE_MS, MAX_RETRIES), used: 0 }
    }

    /// Decides on a failed run: a transient failure is retried after the
    /// next delay while retries are left; any other failure, or one past
    /// the last retry, is given up on.
    pub fn on_failure(&mut self, err: &CduError) -> (r: RetryDecision)
        requires
            old(self).wf(),
        ensures
            final(self).wf(),
            final(self).delays() == old(self).delays(),
            (r, final(self).used()) == retry_step(old(self).delays(), old(self).used(), *err),
    {
        if err.is_transient() && self.used < self.delays.len() {
            let d = self.delays[self.used];
            self.used = self.used + 1;
            RetryDecision::RetryAfter(d)
        } else {
            RetryDecision::GiveUp
        }
    }

    /// Gives back every retry, after a run succeeded.
    pub fn reset(&mut self)
        requires
            old(self).wf(),
        ensures
            final(self).wf(),
            final(self).delays() == old(self).delays(),
            final(self).used() == 0,
    {
        self.used = 0;
    }
}

/// How many retries the policy grants to a run that fails with `errs`, one
/// after the other, when `used` retries were used before: it stops at the
/// first failure that it gives up on.
pub open spec fn retries_granted(delays: Seq<u64>, used: nat, errs: Seq<CduError>) -> nat
    decreases errs.len(),
{
    if errs.len() == 0 {
        0
    } else {
        let (d, u) = retry_step(delays, used, errs[0]);
        match d {
            RetryDecision::RetryAfter(_) => 1 + retries_granted(delays, u, errs.drop_first()),
            RetryDecision::GiveUp => 0,
        }
    }
}

/// A failure that is not transient, such as a zone or record that was not
/// found, is never retried.
pub proof fn lemma_permanent_failure_not_retried(delays: Seq<u64>, used: nat, err: CduError)
    requires
        !err.transient(),
    ensures
        retry_step(delays, used, err) == (RetryDecision::GiveUp, used),
{
}

/// A run that keeps failing transiently is retried once per failure until
/// the delays are used up, and then the failure propagates: a fresh policy
/// grants at most as many retries as it has delays.
pub proof fn lemma_transient_retries_bounded(delays: Seq<u64>, used: nat, errs: Seq<CduError>)
    requires
        used <= delays.len(),
        forall|i: int| 0 <= i < errs.len() ==> (#[trigger] errs[i]).transient(),
    ensures
        retries_granted(delays, used, errs) == if errs.len() <= delays.len() - used {
            errs.len()
        } else {
            (delays.len() - used) as nat
        },
    decreases errs.len(),
{
    if errs.len() > 0 {
        let rest = errs.drop_first();
        assert forall|i: int| 0 <= i < rest.len() implies (#[trigger] rest[i]).transient() by {
            assert(rest[i] == errs[i + 1]);
        }
        if used < delays.len() {
            lemma_transient_retries_bounded(delays, used + 1, rest);
        }
    }
}

/// Every backoff delay is at least the base.
pub proof fn lemma_backoff_at_least_base(base: nat, n: nat)
    requires
        1 <= base <= u64::MAX,
    ensures
        base <= backoff_delay(base, n) <= u64::MAX,
    decreases n,
{
    if n > 0 {
        lemma_backoff_at_least_base(base, (n - 1) as nat);
        let p = backoff_delay(base, (n - 1) as nat);
        assert(p * base >= p * 1) by (nonlinear_arith)
            requires
                base >= 1,
        ;
        assert(p * base >= base) by (nonlinear_arith)
            requires
                base >= 1,
                p >= base,
        ;
    }
}

/// The backoff delays grow strictly, from a base of at least two, until
/// they reach the largest `u64`.
pub proof fn lemma_backoff_strictly_increasing(base: nat, n: nat)
    requires
        2 <= base <= u64::MAX,
        backoff_delay(base, n) < u64::MAX,
    ensures
        backoff_delay(base, n) < backoff_delay(base, n + 1),
{
    lemma_backoff_at_least_base(base, n);
    let p = backoff_delay(base, n);
    assert(p * base > p) by (nonlinear_arith)
        requires
            base >= 2,
            p >= 2,
    ;
}

/// The retry delays of a fresh policy: 10, 100 and 1000 milliseconds.
pub proof fn lemma_policy_delays()
    ensures
        backoff_delay(RETRY_BASE_MS as nat, 0) == 10,
        backoff_delay(RETRY_BASE_MS as nat, 1) == 100,
        backoff_delay(RETRY_BASE_MS as nat, 2) == 1000,
{
    reveal_with_fuel(backoff_delay, 3);
}

} // verus!
