//! Module for ratelimiting requests before sending them.
//!
//! The governor is a fixed-window counter: at most `limit` admissions share
//! one `reset_at` instant, and the window rolls over lazily on the first
//! attempt at or after that instant. Time is a caller-supplied monotone
//! clock reading in milliseconds; the library never reads a clock itself.

use vstd::prelude::*;

verus! {

pub const DEFAULT_RATE_LIMIT: u16 = 60;

pub const DEFAULT_INTERVAL: u64 = 60_000;

/// How the governor answers an attempt that finds the window exhausted.
#[derive(Copy, Clone, Debug, PartialEq, Eq)]
pub enum Policy {
    /// Report the exact wait; the caller delays and retries. The retry is
    /// guaranteed to be admitted (see [`lemma_wait_then_admitted`]).
    Blocking,
    /// Report a rate-limited error carrying the wait; the caller decides.
    FailFast,
}

/// Outcome of one admission attempt on the quota state.
#[derive(Copy, Clone, Debug, PartialEq, Eq)]
pub enum Admission {
    /// The caller may proceed to the network immediately.
    Admitted,
    /// The window is exhausted; it resets `wait` milliseconds from the
    /// attempt.
    Exhausted { wait: u64 },
}

/// Outcome of one admission attempt after applying the configured [`Policy`].
#[derive(Copy, Clone, Debug, PartialEq, Eq)]
pub enum Decision {
    /// Admitted: send the request now.
    Proceed,
    /// Blocking policy: sleep for the given milliseconds, then attempt again.
    Wait(u64),
    /// Fail-fast policy: report a rate-limited error with the given wait.
    Reject(u64),
}

impl Decision {
    /// The decision as the result the caller observes: admission and waits
    /// pass through, and a fail-fast rejection becomes the rate-limited
    /// error carrying the wait.
    pub fn into_result(self) -> (r: Result<Option<u64>, crate::error::Error>)
        ensures
            r == (match self {
                Decision::Proceed => Ok::<Option<u64>, crate::error::Error>(None),
                Decision::Wait(w) => Ok(Some(w)),
                Decision::Reject(w) => Err(crate::error::Error::RateLimited(w)),
            }),
    {
        match self {
            Decision::Proceed => Ok(None),
            Decision::Wait(w) => Ok(Some(w)),
            Decision::Reject(w) => Err(crate::error::Error::RateLimited(w)),
        }
    }
}

/// The builder for [`Ratelimit`].
#[derive(Copy, Clone, Debug)]
pub struct RatelimitBuilder {
    pub limit: Option<u16>,
    pub interval: Option<u64>,
    pub policy: Option<Policy>,
}

impl RatelimitBuilder {
    /// Returns a new builder with every setting left to its default.
    pub fn new() -> (r: Self)
        ensures
            r == (RatelimitBuilder { limit: None, interval: None, policy: None }),
    {
        RatelimitBuilder { limit: None, interval: None, policy: None }
    }

    /// Sets the limit of the [`Ratelimit`].
    ///
    /// Set to `0` to disable ratelimiting.
    pub fn limit(self, limit: u16) -> (r: Self)
        ensures
            r == (RatelimitBuilder { limit: Some(limit), ..self }),
    {
        RatelimitBuilder { limit: Some(limit), ..self }
    }

    /// Sets the interval (window length) of the [`Ratelimit`], in
    /// milliseconds. The window length is positive.
    pub fn interval(self, interval: u64) -> (r: Self)
        requires
            interval >= 1,
        ensures
            r == (RatelimitBuilder { interval: Some(interval), ..self }),
    {
        RatelimitBuilder { interval: Some(interval), ..self }
    }

    /// Sets the admission [`Policy`] of the [`Ratelimit`].
    pub fn policy(self, policy: Policy) -> (r: Self)
        ensures
            r == (RatelimitBuilder { policy: Some(policy), ..self }),
    {
        RatelimitBuilder { policy: Some(policy), ..self }
    }

    /// The [`Ratelimit`] this builder produces.
    pub open spec fn build_spec(self) -> Ratelimit {
        let limit = match self.limit {
            Some(l) => l,
            None => DEFAULT_RATE_LIMIT,
        };
        Ratelimit {
            limit,
            remaining: limit,
            interval: match self.interval {
                Some(i) => i,
                None => DEFAULT_INTERVAL,
            },
            reset_at: None,
            policy: match self.policy {
                Some(p) => p,
                None => Policy::Blocking,
            },
        }
    }

    /// Returns the finished [`Ratelimit`]: a full, not yet started window.
    pub fn build(self) -> (r: Ratelimit)
        ensures
            r == self.build_spec(),
            r.wf(),
    {
        let limit = match self.limit {
            Some(l) => l,
            None => DEFAULT_RATE_LIMIT,
        };
        Ratelimit {
            limit,
            remaining: limit,
            interval: match self.interval {
                Some(i) => i,
                None => DEFAULT_INTERVAL,
            },
            reset_at: None,
            policy: match self.policy {
                Some(p) => p,
                None => Policy::Blocking,
            },
        }
    }
}

/// Handles ratelimiting.
///
/// The quota state of the governor: `remaining` admissions are left in the
/// window that ends at `reset_at` (milliseconds on the caller's clock).
/// `reset_at` is `None` until the first admission starts a window.
/// A `limit` of `0` disables the governor: every attempt is admitted and the
/// state never changes.
#[derive(Copy, Clone, Debug)]
pub struct Ratelimit {
    pub limit: u16,
    pub remaining: u16,
    pub interval: u64,
    pub reset_at: Option<u64>,
    pub policy: Policy,
}

impl Ratelimit {
    /// Well-formedness: no more admissions remain than the window allows.
    pub open spec fn wf(self) -> bool {
        self.remaining <= self.limit
    }

    /// The window is over (or was never started) at instant `now`.
    pub open spec fn window_expired(self, now: u64) -> bool {
        match self.reset_at {
            Some(ra) => ra <= now,
            None => true,
        }
    }

    /// The admission transition: the state after one attempt at instant
    /// `now`, and its outcome.
    pub open spec fn admit_step(self, now: u64) -> (Ratelimit, Admission) {
        if self.limit == 0 {
            (self, Admission::Admitted)
        } else if self.window_expired(now) {
            (
                Ratelimit {
                    remaining: (self.limit - 1) as u16,
                    reset_at: Some((now + self.interval) as u64),
                    ..self
                },
                Admission::Admitted,
            )
        } else if self.remaining > 0 {
            (Ratelimit { remaining: (self.remaining - 1) as u16, ..self }, Admission::Admitted)
        } else {
            (self, Admission::Exhausted { wait: (self.reset_at->Some_0 - now) as u64 })
        }
    }

    /// The admission transition with the configured policy applied to the
    /// exhausted case. An exhausted attempt never changes the state, so a
    /// caller that abandons its wait leaves the quota exactly as if it had
    /// never attempted admission.
    pub open spec fn decision_step(self, now: u64) -> (Ratelimit, Decision) {
        let step = self.admit_step(now);
        match step.1 {
            Admission::Admitted => (step.0, Decision::Proceed),
            Admission::Exhausted { wait } => (
                step.0,
                match self.policy {
                    Policy::Blocking => Decision::Wait(wait),
                    Policy::FailFast => Decision::Reject(wait),
                },
            ),
        }
    }

    /// The total number of requests that can be made within the interval.
    ///
    /// Returns `0` if not ratelimited.
    pub fn limit(&self) -> (r: u16)
        ensures
            r == self.limit,
    {
        self.limit
    }

    /// The number of requests remaining in the current window.
    pub fn remaining(&self) -> (r: u16)
        ensures
            r == self.remaining,
    {
        self.remaining
    }

    /// The ratelimit interval (window length) in milliseconds.
    pub fn interval(&self) -> (r: u64)
        ensures
            r == self.interval,
    {
        self.interval
    }

    /// The instant at which the current window ends, or `None` if no window
    /// has been started yet.
    pub fn reset_at(&self) -> (r: Option<u64>)
        ensures
            r == self.reset_at,
    {
        self.reset_at
    }

    /// What [`Ratelimit::reset_in`] returns.
    pub open spec fn reset_in_spec(self, now: u64) -> Option<u64> {
        match self.reset_at {
            Some(ra) => if now < ra {
                Some((ra - now) as u64)
            } else {
                None
            },
            None => None,
        }
    }

    /// The duration from `now` until the ratelimit resets.
    ///
    /// Returns `None` if the reset instant is not in the future. This query
    /// never rolls the window over; only an admission attempt does.
    pub fn reset_in(&self, now: u64) -> (r: Option<u64>)
        ensures
            r == self.reset_in_spec(now),
    {
        match self.reset_at {
            Some(ra) => if now < ra {
                Some(ra - now)
            } else {
                None
            },
            None => None,
        }
    }

    /// One admission attempt at instant `now`, following the fixed-window
    /// transition ([`Ratelimit::admit_step`]):
    /// a disabled governor always admits and never changes; an expired or
    /// never-started window rolls over, the attempt taking the first slot;
    /// a live window with slots left gives one up; an exhausted live window
    /// reports the exact wait until the reset and changes nothing.
    pub fn try_admit(&mut self, now: u64) -> (r: Admission)
        requires
            old(self).wf(),
            now + old(self).interval <= u64::MAX,
        ensures
            (*final(self), r) == old(self).admit_step(now),
            final(self).wf(),
            final(self).limit == old(self).limit,
            final(self).interval == old(self).interval,
            final(self).policy == old(self).policy,
            old(self).limit == 0 ==> r is Admitted && *final(self) == *old(self),
            r is Exhausted ==> *final(self) == *old(self),
            r matches Admission::Exhausted { wait } ==> wait >= 1,
    {
        if self.limit == 0 {
            return Admission::Admitted;
        }
        match self.reset_at {
            Some(ra) if now < ra => {
                if self.remaining > 0 {
                    self.remaining = self.remaining - 1;
                    Admission::Admitted
                } else {
                    Admission::Exhausted { wait: ra - now }
                }
            },
            _ => {
                self.reset(now);
                self.remaining = self.remaining - 1;
                Admission::Admitted
            },
        }
    }

    /// One admission attempt at instant `now` with the policy applied:
    /// `Proceed` on admission, and on exhaustion `Wait` under the blocking
    /// policy or `Reject` under fail-fast, both carrying the exact wait.
    pub fn pre_admit(&mut self, now: u64) -> (d: Decision)
        requires
            old(self).wf(),
            now + old(self).interval <= u64::MAX,
        ensures
            (*final(self), d) == old(self).decision_step(now),
            final(self).wf(),
            final(self).limit == old(self).limit,
            final(self).interval == old(self).interval,
            final(self).policy == old(self).policy,
            old(self).policy is Blocking ==> !(d is Reject),
            old(self).policy is FailFast ==> !(d is Wait),
            old(self).limit == 0 ==> d is Proceed && *final(self) == *old(self),
            !(d is Proceed) ==> *final(self) == *old(self),
            d matches Decision::Wait(w) ==> w >= 1,
            d matches Decision::Reject(w) ==> w >= 1,
    {
        let admission = self.try_admit(now);
        match admission {
            Admission::Admitted => Decision::Proceed,
            Admission::Exhausted { wait } => match self.policy {
                Policy::Blocking => Decision::Wait(wait),
                Policy::FailFast => Decision::Reject(wait),
            },
        }
    }

    /// Starts a fresh window at instant `now` with the full quota.
    fn reset(&mut self, now: u64)
        requires
            now + old(self).interval <= u64::MAX,
        ensures
            *final(self) == (Ratelimit {
                remaining: old(self).limit,
                reset_at: Some((now + old(self).interval) as u64),
                ..*old(self)
            }),
    {
        self.reset_at = Some(now + self.interval);
        self.remaining = self.limit;
    }
}

impl Default for Ratelimit {
    /// The default governor: 60 admissions per 60-second window, blocking
    /// policy, no window started yet.
    fn default() -> (r: Self)
        ensures
            r == (RatelimitBuilder { limit: None, interval: None, policy: None }).build_spec(),
            r.limit == 60 && r.remaining == 60 && r.interval == 60_000,
            (r.reset_at is None && r.policy is Blocking),
    {
        RatelimitBuilder::new().build()
    }
}

/// The state after a sequence of admission attempts, one per instant in
/// `times`, applied in order.
pub open spec fn run_attempts(s: Ratelimit, times: Seq<u64>) -> Ratelimit
    decreases times.len(),
{
    if times.len() == 0 {
        s
    } else {
        run_attempts(s.admit_step(times[0]).0, times.drop_first())
    }
}

/// The outcome of each attempt in a sequence of admission attempts.
pub open spec fn attempt_outcomes(s: Ratelimit, times: Seq<u64>) -> Seq<Admission>
    decreases times.len(),
{
    if times.len() == 0 {
        Seq::empty()
    } else {
        seq![s.admit_step(times[0]).1] + attempt_outcomes(s.admit_step(times[0]).0, times.drop_first())
    }
}

/// How many outcomes in a sequence are admissions.
pub open spec fn admitted_count(outcomes: Seq<Admission>) -> nat
    decreases outcomes.len(),
{
    if outcomes.len() == 0 {
        0
    } else {
        (if outcomes[0] is Admitted {
            1nat
        } else {
            0nat
        }) + admitted_count(outcomes.drop_first())
    }
}

/// A sequence of attempts has one outcome per attempt.
proof fn lemma_outcomes_len(s: Ratelimit, times: Seq<u64>)
    ensures
        attempt_outcomes(s, times).len() == times.len(),
    decreases times.len(),
{
    if times.len() > 0 {
        lemma_outcomes_len(s.admit_step(times[0]).0, times.drop_first());
    }
}

/// Attempts inside a live window admit while slots remain and report the
/// exact wait once they run out; the window's end never moves.
proof fn lemma_run_within_window(s: Ratelimit, times: Seq<u64>)
    requires
        s.wf(),
        s.limit > 0,
        s.reset_at is Some,
        forall|i: int| 0 <= i < times.len() ==> times[i] < s.reset_at->Some_0,
    ensures
        run_attempts(s, times).limit == s.limit,
        run_attempts(s, times).interval == s.interval,
        run_attempts(s, times).policy == s.policy,
        run_attempts(s, times).reset_at == s.reset_at,
        run_attempts(s, times).remaining == if times.len() <= s.remaining {
            s.remaining - times.len()
        } else {
            0int
        },
        attempt_outcomes(s, times).len() == times.len(),
        forall|i: int|
            0 <= i < times.len() ==> (attempt_outcomes(s, times)[i] is Admitted <==> i
                < s.remaining),
        forall|i: int|
            s.remaining <= i < times.len() ==> attempt_outcomes(s, times)[i]
                == (Admission::Exhausted { wait: (s.reset_at->Some_0 - times[i]) as u64 }),
    decreases times.len(),
{
    if times.len() > 0 {
        let step = s.admit_step(times[0]);
        lemma_run_within_window(step.0, times.drop_first());
        assert forall|i: int|
            0 <= i < times.len() implies (attempt_outcomes(s, times)[i] is Admitted <==> i
            < s.remaining) by {
            if i > 0 {
                assert(attempt_outcomes(s, times)[i] == attempt_outcomes(
                    step.0,
                    times.drop_first(),
                )[i - 1]);
                assert(times.drop_first()[i - 1] == times[i]);
            }
        }
        assert forall|i: int|
            s.remaining <= i < times.len() implies attempt_outcomes(s, times)[i]
            == (Admission::Exhausted { wait: (s.reset_at->Some_0 - times[i]) as u64 }) by {
            if i > 0 {
                assert(attempt_outcomes(s, times)[i] == attempt_outcomes(
                    step.0,
                    times.drop_first(),
                )[i - 1]);
                assert(times.drop_first()[i - 1] == times[i]);
            }
        }
    }
}

/// In a sequence of outcomes where exactly the first `k` are admissions, the
/// admitted count is `k` (or the whole length, if shorter).
proof fn lemma_admitted_count_of_prefix(outcomes: Seq<Admission>, k: int)
    requires
        0 <= k,
        forall|i: int| 0 <= i < outcomes.len() ==> (outcomes[i] is Admitted <==> i < k),
    ensures
        admitted_count(outcomes) == if outcomes.len() <= k {
            outcomes.len() as int
        } else {
            k
        },
    decreases outcomes.len(),
{
    if outcomes.len() > 0 {
        let rest = outcomes.drop_first();
        if k > 0 {
            assert forall|i: int| 0 <= i < rest.len() implies (rest[i] is Admitted <==> i < k
                - 1) by {
                assert(rest[i] == outcomes[i + 1]);
            }
            lemma_admitted_count_of_prefix(rest, k - 1);
        } else {
            assert forall|i: int| 0 <= i < rest.len() implies (rest[i] is Admitted <==> i < 0) by {
                assert(rest[i] == outcomes[i + 1]);
            }
            lemma_admitted_count_of_prefix(rest, 0);
        }
    }
}

/// Law: for any sequence of `N <= limit` admission attempts occurring
/// strictly before the reset instant of a fresh window, every attempt is
/// admitted, and afterwards `remaining == limit - N` with the window's end
/// unchanged.
pub proof fn lemma_admissions_within_window(s: Ratelimit, times: Seq<u64>)
    requires
        s.wf(),
        s.limit > 0,
        s.remaining == s.limit,
        s.reset_at is Some,
        times.len() <= s.limit,
        forall|i: int| 0 <= i < times.len() ==> times[i] < s.reset_at->Some_0,
    ensures
        forall|i: int| 0 <= i < times.len() ==> attempt_outcomes(s, times)[i] is Admitted,
        run_attempts(s, times).remaining == s.limit - times.len(),
        run_attempts(s, times).reset_at == s.reset_at,
{
    lemma_run_within_window(s, times);
}

/// Law: after `limit` admissions inside one window, a further attempt before
/// the reset instant is never admitted: the quota state reports the exact
/// wait and does not change, and the governor answers with a wait under the
/// blocking policy and a rejection under fail-fast.
pub proof fn lemma_attempt_beyond_limit(s: Ratelimit, times: Seq<u64>, t: u64)
    requires
        s.wf(),
        s.limit > 0,
        s.remaining == s.limit,
        s.reset_at is Some,
        times.len() == s.limit,
        forall|i: int| 0 <= i < times.len() ==> times[i] < s.reset_at->Some_0,
        t < s.reset_at->Some_0,
    ensures
        ({
            let exhausted = run_attempts(s, times);
            let wait = (s.reset_at->Some_0 - t) as u64;
            &&& exhausted.admit_step(t).1 == (Admission::Exhausted { wait })
            &&& exhausted.admit_step(t).0 == exhausted
            &&& exhausted.decision_step(t).1 == if s.policy is Blocking {
                Decision::Wait(wait)
            } else {
                Decision::Reject(wait)
            }
            &&& wait >= 1
        }),
{
    lemma_run_within_window(s, times);
}

/// Law: once the reset instant has passed (or no window was ever started),
/// the next attempt is always admitted and begins a fresh window determined
/// by `now` alone — two expired states with the same configuration roll over
/// identically, however long ago and with whatever left they expired.
pub proof fn lemma_rollover_ignores_history(s1: Ratelimit, s2: Ratelimit, now: u64)
    requires
        s1.wf(),
        s2.wf(),
        s1.limit > 0,
        s1.limit == s2.limit,
        s1.interval == s2.interval,
        s1.policy == s2.policy,
        s1.window_expired(now),
        s2.window_expired(now),
        now + s1.interval <= u64::MAX,
    ensures
        s1.admit_step(now) == s2.admit_step(now),
        s1.admit_step(now).1 is Admitted,
        s1.admit_step(now).0.remaining == s1.limit - 1,
        s1.admit_step(now).0.reset_at == Some((now + s1.interval) as u64),
{
}

/// Law: the rollover of an expired window happens once. Of several attempts
/// that found the window expired at the same instant (they mutate one at a
/// time, under the shared handle's lock), the first begins the fresh window
/// and takes its first slot; the next passes through the now-live window
/// and does not move its end again.
pub proof fn lemma_rollover_once(s: Ratelimit, now: u64)
    requires
        s.wf(),
        s.limit > 1,
        s.interval >= 1,
        s.window_expired(now),
        now + s.interval <= u64::MAX,
    ensures
        ({
            let first = s.admit_step(now);
            let second = first.0.admit_step(now);
            &&& first.1 is Admitted
            &&& second.1 is Admitted
            &&& first.0.reset_at == Some((now + s.interval) as u64)
            &&& second.0.reset_at == first.0.reset_at
            &&& second.0.remaining == s.limit - 2
        }),
{
}

/// Law: `limit == 0` admits an unbounded number of attempts, and the state —
/// `reset_at` included — never advances.
pub proof fn lemma_disabled_governor(s: Ratelimit, times: Seq<u64>)
    requires
        s.limit == 0,
    ensures
        run_attempts(s, times) == s,
        forall|i: int| 0 <= i < times.len() ==> attempt_outcomes(s, times)[i] is Admitted,
    decreases times.len(),
{
    if times.len() > 0 {
        assert(s.admit_step(times[0]).0 == s);
        lemma_disabled_governor(s, times.drop_first());
        lemma_outcomes_len(s, times.drop_first());
        assert forall|i: int|
            0 <= i < times.len() implies attempt_outcomes(s, times)[i] is Admitted by {
            if i > 0 {
                assert(attempt_outcomes(s, times)[i] == attempt_outcomes(
                    s,
                    times.drop_first(),
                )[i - 1]);
            }
        }
    }
}

/// Law: any sequence of attempts inside one window admits at most `remaining`
/// requests, and so never more than `limit`. Concurrent callers mutate the
/// quota only under the shared handle's write lock, so every concurrent
/// history is one such serialized sequence.
pub proof fn lemma_window_admission_bound(s: Ratelimit, times: Seq<u64>)
    requires
        s.wf(),
        s.limit > 0,
        s.reset_at is Some,
        forall|i: int| 0 <= i < times.len() ==> times[i] < s.reset_at->Some_0,
    ensures
        admitted_count(attempt_outcomes(s, times)) <= s.remaining <= s.limit,
{
    lemma_run_within_window(s, times);
    lemma_admitted_count_of_prefix(attempt_outcomes(s, times), s.remaining as int);
}

/// Law: the wait reported by an exhausted window is exact — an attempt made
/// `wait` milliseconds later (that is, at the reset instant) is admitted.
pub proof fn lemma_wait_then_admitted(s: Ratelimit, now: u64)
    requires
        s.wf(),
        s.limit > 0,
        s.remaining == 0,
        s.reset_at is Some,
        now < s.reset_at->Some_0,
        s.reset_at->Some_0 + s.interval <= u64::MAX,
    ensures
        ({
            let wait = (s.reset_at->Some_0 - now) as u64;
            &&& s.admit_step(now).1 == (Admission::Exhausted { wait })
            &&& s.admit_step((now + wait) as u64).1 is Admitted
            &&& s.admit_step((now + wait) as u64).0.remaining == s.limit - 1
        }),
{
}

} // verus!

