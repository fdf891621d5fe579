use vstd::prelude::*;

verus! {

/// How a failure is judged: whether retrying could change the outcome.
#[derive(Clone, Copy, Debug, PartialEq, Eq, Structural)]
pub enum ErrorClass {
    Transient,
    Permanent,
}

/// What the caller does after a failed attempt.
#[derive(Clone, Copy, Debug, PartialEq, Eq, Structural)]
pub enum RetryAction {
    /// Return the failure to the caller.
    GiveUp,
    /// Wait this many milliseconds, then invoke the operation again.
    RetryAfter(u64),
}

/// Exponential backoff settings. The multiplier is given in hundredths (150 is 1.5).
#[derive(Clone, Copy, Debug, PartialEq, Eq, Structural)]
pub struct RetryPolicy {
    pub initial_interval_ms: u64,
    pub multiplier_percent: u64,
    pub max_interval_ms: u64,
    pub max_elapsed_ms: u64,
    pub max_retries: Option<u64>,
}

pub const DEFAULT_INITIAL_INTERVAL_MS: u64 = 500;

pub const DEFAULT_MULTIPLIER_PERCENT: u64 = 150;

pub const DEFAULT_MAX_INTERVAL_MS: u64 = 60000;

pub const DEFAULT_MAX_ELAPSED_MS: u64 = 900000;

pub open spec fn min_nat(a: nat, b: nat) -> nat {
    if a <= b {
        a
    } else {
        b
    }
}

/// The wait before retry number `attempt` (counted from 0): the initial interval,
/// multiplied by the multiplier at each further retry, never above the maximum.
pub open spec fn interval(p: RetryPolicy, attempt: nat) -> nat
    decreases attempt,
{
    if attempt == 0 {
        min_nat(p.initial_interval_ms as nat, p.max_interval_ms as nat)
    } else {
        min_nat(
            (interval(p, (attempt - 1) as nat) * p.multiplier_percent / 100) as nat,
            p.max_interval_ms as nat,
        )
    }
}

/// The decision after a failure of class `class`, when `failures` earlier failures
/// were retried and `elapsed_ms` have passed since the first attempt. The retry
/// counter's own limit also ends the call.
pub open spec fn decide(p: RetryPolicy, failures: nat, elapsed_ms: nat, class: ErrorClass) -> RetryAction {
    if class == ErrorClass::Permanent {
        RetryAction::GiveUp
    } else if p.max_retries is Some && failures >= p.max_retries->Some_0 {
        RetryAction::GiveUp
    } else if elapsed_ms >= p.max_elapsed_ms {
        RetryAction::GiveUp
    } else if failures >= u64::MAX {
        RetryAction::GiveUp
    } else {
        RetryAction::RetryAfter(interval(p, failures) as u64)
    }
}

/// An operation that fails with the classes `fails`, one per invocation, and then
/// succeeds, run from invocation `a` on with no time passing. Gives the number of
/// invocations made and, on failure, the invocation whose error is returned.
pub open spec fn retry_run(p: RetryPolicy, fails: Seq<ErrorClass>, a: nat) -> (nat, Option<nat>)
    decreases fails.len() - a,
{
    if a >= fails.len() {
        (a + 1, None)
    } else {
        match decide(p, a, 0, fails[a as int]) {
            RetryAction::GiveUp => (a + 1, Some(a)),
            RetryAction::RetryAfter(_) => retry_run(p, fails, a + 1),
        }
    }
}

/// Statuses that may pass on their own: a request timeout or a server error.
pub open spec fn is_transient_status(status: u16) -> bool {
    status == 408 || 500 <= status <= 599
}

/// The class of a failure that a service answered with `status`.
pub fn classify_status(status: u16) -> (r: ErrorClass)
    ensures
        r == ErrorClass::Transient <==> is_transient_status(status),
{
    if status == 408 || (500 <= status && status <= 599) {
        ErrorClass::Transient
    } else {
        ErrorClass::Permanent
    }
}

pub open spec fn all_transient(fails: Seq<ErrorClass>) -> bool {
    forall|i: int| 0 <= i < fails.len() ==> fails[i] == ErrorClass::Transient
}

proof fn lemma_run_succeeds(p: RetryPolicy, fails: Seq<ErrorClass>, a: nat)
    requires
        all_transient(fails),
        a <= fails.len(),
        fails.len() < u64::MAX,
        p.max_elapsed_ms > 0,
        p.max_retries is Some ==> fails.len() <= p.max_retries->Some_0,
    ensures
        retry_run(p, fails, a) == (fails.len() + 1, Option::<nat>::None),
    decreases fails.len() - a,
{
    if a < fails.len() {
        lemma_run_succeeds(p, fails, a + 1);
    }
}

proof fn lemma_run_exhausts(p: RetryPolicy, fails: Seq<ErrorClass>, a: nat)
    requires
        all_transient(fails),
        p.max_elapsed_ms > 0,
        p.max_retries is Some,
        a <= p.max_retries->Some_0 < fails.len(),
    ensures
        retry_run(p, fails, a) == ((p.max_retries->Some_0 + 1) as nat, Some(p.max_retries->Some_0 as nat)),
    decreases fails.len() - a,
{
    if a < p.max_retries->Some_0 {
        lemma_run_exhausts(p, fails, a + 1);
    }
}

/// An operation that fails transiently `k` times and then succeeds: with enough retries
/// allowed the run succeeds after exactly `k + 1` invocations; with fewer, it returns
/// the transient error of the last invocation it was allowed.
pub proof fn lemma_transient_failures(p: RetryPolicy, fails: Seq<ErrorClass>)
    requires
        all_transient(fails),
        fails.len() < u64::MAX,
        p.max_elapsed_ms > 0,
    ensures
        (p.max_retries is None || fails.len() <= p.max_retries->Some_0) ==> retry_run(p, fails, 0)
            == (fails.len() + 1, Option::<nat>::None),
        (p.max_retries is Some && p.max_retries->Some_0 < fails.len()) ==> retry_run(p, fails, 0)
            == ((p.max_retries->Some_0 + 1) as nat, Some(p.max_retries->Some_0 as nat)),
{
    if p.max_retries is None || fails.len() <= p.max_retries->Some_0 {
        lemma_run_succeeds(p, fails, 0);
    } else {
        lemma_run_exhausts(p, fails, 0);
    }
}

/// A permanent failure on the first invocation is returned at once: one invocation.
pub proof fn lemma_permanent_once(p: RetryPolicy, fails: Seq<ErrorClass>)
    requires
        fails.len() > 0,
        fails[0] == ErrorClass::Permanent,
    ensures
        retry_run(p, fails, 0) == (1nat, Some(0nat)),
{
}

impl RetryPolicy {
    /// The documented defaults: half a second, growing by half each time up to a minute,
    /// for at most a quarter of an hour, with no limit on the number of retries.
    pub fn default_policy() -> (r: RetryPolicy)
        ensures
            r.initial_interval_ms == DEFAULT_INITIAL_INTERVAL_MS,
            r.multiplier_percent == DEFAULT_MULTIPLIER_PERCENT,
            r.max_interval_ms == DEFAULT_MAX_INTERVAL_MS,
            r.max_elapsed_ms == DEFAULT_MAX_ELAPSED_MS,
            r.max_retries is None,
    {
        RetryPolicy {
            initial_interval_ms: DEFAULT_INITIAL_INTERVAL_MS,
            multiplier_percent: DEFAULT_MULTIPLIER_PERCENT,
            max_interval_ms: DEFAULT_MAX_INTERVAL_MS,
            max_elapsed_ms: DEFAULT_MAX_ELAPSED_MS,
            max_retries: None,
        }
    }

    /// The wait before retry number `attempt`.
    pub fn backoff_interval(&self, attempt: u64) -> (r: u64)
        ensures
            r == interval(*self, attempt as nat),
    {
        let mut cur: u64 = if self.initial_interval_ms <= self.max_interval_ms {
            self.initial_interval_ms
        } else {
            self.max_interval_ms
        };
        let mut i: u64 = 0;
        while i < attempt
            invariant
                i <= attempt,
                cur == interval(*self, i as nat),
            decreases attempt - i,
        {
            assert((cur as u128) * (self.multiplier_percent as u128) <= u64::MAX * u64::MAX)
                by (nonlinear_arith)
                requires
                    cur <= u64::MAX,
                    self.multiplier_percent <= u64::MAX,
            ;
            let grown: u128 = (cur as u128) * (self.multiplier_percent as u128) / 100;
            cur = if grown <= self.max_interval_ms as u128 {
                grown as u64
            } else {
                self.max_interval_ms
            };
            i = i + 1;
        }
        cur
    }
}

/// The state of one logical call under a retry policy.
pub struct RetryExecutor {
    pub policy: RetryPolicy,
    /// The failures so far that were answered with a retry.
    pub retries: u64,
}

impl RetryExecutor {
    /// Starts a call; `None` takes the default policy.
    pub fn new(policy: Option<RetryPolicy>) -> (r: RetryExecutor)
        ensures
            r.retries == 0,
            policy is Some ==> r.policy == policy->Some_0,
            policy is None ==> r.policy == (RetryPolicy {
                initial_interval_ms: DEFAULT_INITIAL_INTERVAL_MS,
                multiplier_percent: DEFAULT_MULTIPLIER_PERCENT,
                max_interval_ms: DEFAULT_MAX_INTERVAL_MS,
                max_elapsed_ms: DEFAULT_MAX_ELAPSED_MS,
                max_retries: None,
            }),
    {
        let policy = match policy {
            Some(p) => p,
            None => RetryPolicy::default_policy(),
        };
        RetryExecutor { policy, retries: 0 }
    }

    /// Decides what follows a failed attempt of class `class`, `elapsed_ms` after the first
    /// attempt began. A retry is counted.
    pub fn on_failure(&mut self, class: ErrorClass, elapsed_ms: u64) -> (r: RetryAction)
        ensures
            r == decide(old(self).policy, old(self).retries as nat, elapsed_ms as nat, class),
            final(self).policy == old(self).policy,
            r is RetryAfter ==> final(self).retries == old(self).retries + 1,
            r is GiveUp ==> final(self).retries == old(self).retries,
    {
        let give_up = match class {
            ErrorClass::Permanent => true,
            ErrorClass::Transient => {
                let exhausted = match self.policy.max_retries {
                    Some(m) => self.retries >= m,
                    None => false,
                };
                exhausted || elapsed_ms >= self.policy.max_elapsed_ms || self.retries == u64::MAX
            },
        };
        if give_up {
            RetryAction::GiveUp
        } else {
            let wait = self.policy.backoff_interval(self.retries);
            self.retries = self.retries + 1;
            RetryAction::RetryAfter(wait)
        }
    }
}

} // verus!
