//! The backoff policy: how long to wait before a request is sent again, and
//! when to give up.
//!
//! All times are whole milliseconds. Points in time are readings of the
//! policy's own clock, which counts from the moment the policy was made.

use vstd::prelude::*;
use std::time::Instant;

verus! {

/// The state of the backoff policy of one operation.
pub ghost struct BackoffState {
    /// The interval that a reset goes back to.
    pub initial_interval: u64,
    /// The interval that the last wait was computed from.
    pub current_interval: u64,
    /// The numerator of the factor by which the interval grows.
    pub multiplier_num: u32,
    /// The denominator of that factor.
    pub multiplier_den: u32,
    /// The longest interval.
    pub max_interval: u64,
    /// The longest time that the operation may take with all its waits, if
    /// there is a limit.
    pub max_elapsed_time: Option<u64>,
    /// The reading of the clock at which the operation started.
    pub start_time: u64,
}

impl BackoffState {
    /// The factor is a fraction that is at least one.
    pub open spec fn well_formed(self) -> bool {
        0 < self.multiplier_den <= self.multiplier_num
    }

    /// The next wait: the current interval times the factor, rounded down,
    /// and at most the longest interval.
    pub open spec fn next_interval(self) -> u64 {
        let scaled = (self.current_interval * self.multiplier_num) / (self.multiplier_den as int);
        if 0 <= scaled < self.max_interval {
            scaled as u64
        } else {
            self.max_interval
        }
    }

    /// Whether the next wait, begun `elapsed` after the operation started,
    /// would end after the limit.
    pub open spec fn exhausted(self, elapsed: u64) -> bool {
        match self.max_elapsed_time {
            Some(limit) => elapsed + self.next_interval() > limit,
            None => false,
        }
    }

    /// The state after the next wait was handed out.
    pub open spec fn advanced(self) -> BackoffState {
        BackoffState { current_interval: self.next_interval(), ..self }
    }

    /// The state at the start of a new operation that begins when the clock
    /// reads `now`: back at the first interval, and no time has passed.
    pub open spec fn restarted_at(self, now: u64) -> BackoffState {
        BackoffState { current_interval: self.initial_interval, start_time: now, ..self }
    }

    /// The time that has passed since the operation started, when the clock
    /// reads `now`; none where the clock reads less than at the start.
    pub open spec fn elapsed_at(self, now: u64) -> u64 {
        if now >= self.start_time {
            (now - self.start_time) as u64
        } else {
            0
        }
    }

    /// Whether the operation has run longer than its limit, `elapsed` after
    /// it started.
    pub open spec fn past_limit(self, elapsed: u64) -> bool {
        match self.max_elapsed_time {
            Some(limit) => elapsed > limit,
            None => false,
        }
    }

    /// The wait that the policy answers with: a wait that the server asked
    /// for is taken as it is; else the next interval, or nothing once the
    /// operation would run past its limit.
    pub open spec fn answer(self, retry_after: Option<u64>, elapsed: u64) -> Option<u64> {
        match retry_after {
            Some(wait) => Some(wait),
            None => if self.exhausted(elapsed) {
                None
            } else {
                Some(self.next_interval())
            },
        }
    }

    /// The state after the policy answered: advanced where it handed out an
    /// interval of its own, unchanged else.
    pub open spec fn after_answer(self, retry_after: Option<u64>, elapsed: u64) -> BackoffState {
        if retry_after is None && !self.exhausted(elapsed) {
            self.advanced()
        } else {
            self
        }
    }

    /// The answer of the policy when the clock reads `now`.
    pub open spec fn answer_at(self, retry_after: Option<u64>, now: u64) -> Option<u64> {
        self.answer(retry_after, self.elapsed_at(now))
    }

    /// The state after the policy answered when the clock read `now`.
    pub open spec fn after_answer_at(self, retry_after: Option<u64>, now: u64) -> BackoffState {
        self.after_answer(retry_after, self.elapsed_at(now))
    }
}

/// The defaults: one second at first, doubling, at most a minute per wait
/// and an hour in all.
pub open spec fn default_backoff() -> BackoffState {
    BackoffState {
        initial_interval: 1000,
        current_interval: 1000,
        multiplier_num: 2,
        multiplier_den: 1,
        max_interval: 60000,
        max_elapsed_time: Some(3600000u64),
        start_time: 0,
    }
}

/// After a restart no time has passed, and time counts from the restart:
/// the policy answers as one that was made with the same settings at that
/// moment.
pub proof fn lemma_restart_counts_from_now(state: BackoffState, now: u64, later: u64)
    requires
        now <= later,
    ensures
        state.restarted_at(now).elapsed_at(now) == 0,
        state.restarted_at(now).elapsed_at(later) == later - now,
        state.restarted_at(now).current_interval == state.initial_interval,
        state.restarted_at(now).next_interval() == state.restarted_at(0).next_interval(),
        forall|hint: Option<u64>| #[trigger]
            state.restarted_at(now).answer_at(hint, later) == state.restarted_at(0).answer_at(
                hint,
                (later - now) as u64,
            ),
{
}

/// No wait is longer than the longest interval.
pub proof fn lemma_interval_capped(state: BackoffState)
    ensures
        state.next_interval() <= state.max_interval,
{
}

/// Waits never shrink: the wait after the next one is at least as long, and
/// the state stays well formed.
pub proof fn lemma_intervals_grow(state: BackoffState)
    requires
        state.well_formed(),
    ensures
        state.advanced().well_formed(),
        state.next_interval() <= state.advanced().next_interval(),
        state.advanced().next_interval() <= state.max_interval,
{
    let next = state.next_interval();
    let num = state.multiplier_num;
    let den = state.multiplier_den;
    assert((next * num) / (den as int) >= next) by (nonlinear_arith)
        requires
            0 < den <= num,
            next >= 0,
    ;
}

/// The state after `count` waits were handed out.
pub open spec fn advanced_by(state: BackoffState, count: nat) -> BackoffState
    decreases count,
{
    if count == 0 {
        state
    } else {
        advanced_by(state, (count - 1) as nat).advanced()
    }
}

/// Of the waits that the policy hands out one after the other, a later one
/// is never shorter than an earlier one, and none is longer than the longest
/// interval.
pub proof fn lemma_later_waits_are_longer(state: BackoffState, earlier: nat, later: nat)
    requires
        state.well_formed(),
        earlier <= later,
    ensures
        advanced_by(state, later).well_formed(),
        advanced_by(state, earlier).next_interval() <= advanced_by(state, later).next_interval(),
        advanced_by(state, later).next_interval() <= state.max_interval,
        advanced_by(state, later).max_interval == state.max_interval,
    decreases later,
{
    if later == 0 {
    } else if earlier == later {
        lemma_later_waits_are_longer(state, (later - 1) as nat, (later - 1) as nat);
        lemma_intervals_grow(advanced_by(state, (later - 1) as nat));
    } else {
        lemma_later_waits_are_longer(state, earlier, (later - 1) as nat);
        lemma_intervals_grow(advanced_by(state, (later - 1) as nat));
    }
}

/// A wait that the server asked for is the answer, whatever the state, and
/// leaves the state as it was.
pub proof fn lemma_hint_is_honored(state: BackoffState, wait: u64, elapsed: u64)
    ensures
        state.answer(Some(wait), elapsed) == Some(wait),
        state.after_answer(Some(wait), elapsed) == state,
{
}

/// Once the operation has run longer than its limit, the policy has no
/// wait of its own to give.
pub proof fn lemma_exhausted_after_limit(state: BackoffState, elapsed: u64)
    requires
        state.max_elapsed_time is Some,
        elapsed > state.max_elapsed_time->0,
    ensures
        state.answer(None, elapsed) is None,
{
}

/// A policy that has given up stays so as time goes on.
pub proof fn lemma_exhaustion_lasts(state: BackoffState, elapsed: u64, later: u64)
    requires
        state.exhausted(elapsed),
        elapsed <= later,
    ensures
        state.after_answer(None, elapsed) == state,
        state.exhausted(later),
{
}

/// `std::time::Instant`, a reading of the clock. Nothing is known of what
/// it holds.
#[verifier::external_type_specification]
#[verifier::external_body]
pub struct ExInstant(Instant);

/// Reads the clock with `Instant::now`. Nothing is known of the result.
#[verifier::external_body]
fn clock_now() -> Instant {
    Instant::now()
}

/// The whole milliseconds since `origin`, by `Instant::elapsed` and
/// `Duration::as_millis`; the largest number where they do not fit. Nothing
/// is known of the result.
#[verifier::external_body]
fn millis_since(origin: &Instant) -> u64 {
    u64::try_from(origin.elapsed().as_millis()).unwrap_or(u64::MAX)
}

/// The backoff policy of one operation, with its clock and the time at
/// which the operation started.
#[derive(Clone, Copy, Debug)]
pub struct RateLimiter {
    initial_interval: u64,
    current_interval: u64,
    multiplier_num: u32,
    multiplier_den: u32,
    max_interval: u64,
    max_elapsed_time: Option<u64>,
    start_time: u64,
    origin: Instant,
}

/// The view is the whole state of the policy. The one field that it does not
/// show is the moment from which the clock counts, an opaque reading that
/// never changes and that [`RateLimiter::origin`] names.
impl View for RateLimiter {
    type V = BackoffState;

    closed spec fn view(&self) -> BackoffState {
        BackoffState {
            initial_interval: self.initial_interval,
            current_interval: self.current_interval,
            multiplier_num: self.multiplier_num,
            multiplier_den: self.multiplier_den,
            max_interval: self.max_interval,
            max_elapsed_time: self.max_elapsed_time,
            start_time: self.start_time,
        }
    }
}

impl RateLimiter {
    #[verifier::type_invariant]
    spec fn valid(self) -> bool {
        0 < self.multiplier_den <= self.multiplier_num
    }

    /// The moment from which the policy's clock counts. It is fixed when the
    /// policy is made and is all that is ever handed to the clock.
    pub closed spec fn origin(&self) -> Instant {
        self.origin
    }

    /// The policy with the defaults. Its clock counts from now, and the
    /// operation starts now.
    pub fn new() -> (r: Self)
        ensures
            r@ == default_backoff(),
    {
        RateLimiter {
            initial_interval: 1000,
            current_interval: 1000,
            multiplier_num: 2,
            multiplier_den: 1,
            max_interval: 60000,
            max_elapsed_time: Some(3600000),
            start_time: 0,
            origin: clock_now(),
        }
    }

    /// Sets the first and the longest interval, and goes back to the first.
    pub fn with_intervals(self, initial_interval: u64, max_interval: u64) -> (r: Self)
        ensures
            r@ == (BackoffState {
                initial_interval,
                current_interval: initial_interval,
                max_interval,
                ..self@
            }),
            r.origin() == self.origin(),
    {
        proof {
            use_type_invariant(&self);
        }
        RateLimiter {
            initial_interval,
            current_interval: initial_interval,
            multiplier_num: self.multiplier_num,
            multiplier_den: self.multiplier_den,
            max_interval,
            max_elapsed_time: self.max_elapsed_time,
            start_time: self.start_time,
            origin: self.origin,
        }
    }

    /// Sets the factor by which the interval grows to `num / den`. A factor
    /// below one, or with a zero denominator, is not taken: the policy stays
    /// as it is.
    pub fn with_multiplier(self, num: u32, den: u32) -> (r: Self)
        ensures
            r@ == if 0 < den <= num {
                BackoffState { multiplier_num: num, multiplier_den: den, ..self@ }
            } else {
                self@
            },
            r.origin() == self.origin(),
    {
        proof {
            use_type_invariant(&self);
        }
        if 0 < den && den <= num {
            RateLimiter {
                initial_interval: self.initial_interval,
                current_interval: self.current_interval,
                multiplier_num: num,
                multiplier_den: den,
                max_interval: self.max_interval,
                max_elapsed_time: self.max_elapsed_time,
                start_time: self.start_time,
                origin: self.origin,
            }
        } else {
            self
        }
    }

    /// Sets the longest time that the operation may take, or lifts the limit.
    pub fn with_max_elapsed_time(self, limit: Option<u64>) -> (r: Self)
        ensures
            r@ == (BackoffState { max_elapsed_time: limit, ..self@ }),
            r.origin() == self.origin(),
    {
        proof {
            use_type_invariant(&self);
        }
        RateLimiter {
            initial_interval: self.initial_interval,
            current_interval: self.current_interval,
            multiplier_num: self.multiplier_num,
            multiplier_den: self.multiplier_den,
            max_interval: self.max_interval,
            max_elapsed_time: limit,
            start_time: self.start_time,
            origin: self.origin,
        }
    }

    /// Limits the operation to the time of `attempts` attempts, five seconds
    /// for each.
    pub fn with_max_attempts(self, attempts: u32) -> (r: Self)
        ensures
            r@ == (BackoffState { max_elapsed_time: Some((attempts * 5000) as u64), ..self@ }),
            r.origin() == self.origin(),
    {
        let limit: u64 = (attempts as u64) * 5000;
        self.with_max_elapsed_time(Some(limit))
    }

    /// What the clock reads now: the milliseconds since the policy was made.
    /// Nothing is promised of the reading.
    pub fn now(&self) -> u64 {
        millis_since(&self.origin)
    }

    /// The time that has passed since the operation started, when the clock
    /// reads `now`.
    pub fn elapsed_at(&self, now: u64) -> (r: u64)
        ensures
            r == self@.elapsed_at(now),
    {
        if now >= self.start_time {
            now - self.start_time
        } else {
            0
        }
    }

    /// Whether the operation has run longer than its limit, `elapsed` after
    /// it started.
    pub fn past_limit_at(&self, elapsed: u64) -> (r: bool)
        ensures
            r == self@.past_limit(elapsed),
    {
        match self.max_elapsed_time {
            Some(limit) => elapsed > limit,
            None => false,
        }
    }

    /// Starts a new operation when the clock reads `now`: back to the first
    /// interval, and time counts from `now`.
    pub fn reset_at(&mut self, now: u64)
        ensures
            final(self)@ == old(self)@.restarted_at(now),
            final(self).origin() == old(self).origin(),
    {
        proof {
            use_type_invariant(&*self);
        }
        self.current_interval = self.initial_interval;
        self.start_time = now;
    }

    /// Starts a new operation: back to the first interval, and time counts
    /// from what the clock reads now.
    pub fn reset(&mut self)
        ensures
            exists|now: u64| final(self)@ == #[trigger] old(self)@.restarted_at(now),
            final(self).origin() == old(self).origin(),
    {
        let now = self.now();
        self.reset_at(now);
    }

    /// The next wait of the policy itself.
    fn grow(&self) -> (r: u64)
        ensures
            r == self@.next_interval(),
    {
        proof {
            use_type_invariant(self);
        }
        let current = self.current_interval as u128;
        let num = self.multiplier_num as u128;
        assert(current * num <= 0xffff_ffff_ffff_ffff * 0xffff_ffff) by (nonlinear_arith)
            requires
                0 <= current <= 0xffff_ffff_ffff_ffff,
                0 <= num <= 0xffff_ffff,
        ;
        let scaled: u128 = current * num / (self.multiplier_den as u128);
        if scaled < self.max_interval as u128 {
            scaled as u64
        } else {
            self.max_interval
        }
    }

    /// The wait before the next attempt, `elapsed` milliseconds after the
    /// operation started; `None` when the policy gives up.
    pub fn next_backoff_at(&mut self, retry_after: Option<u64>, elapsed: u64) -> (r: Option<u64>)
        ensures
            r == old(self)@.answer(retry_after, elapsed),
            final(self)@ == old(self)@.after_answer(retry_after, elapsed),
            final(self).origin() == old(self).origin(),
    {
        proof {
            use_type_invariant(&*self);
        }
        match retry_after {
            Some(wait) => Some(wait),
            None => {
                let next = self.grow();
                let over = match self.max_elapsed_time {
                    Some(limit) => elapsed as u128 + next as u128 > limit as u128,
                    None => false,
                };
                if over {
                    None
                } else {
                    self.current_interval = next;
                    Some(next)
                }
            },
        }
    }

    /// The wait before the next attempt, by what the clock reads now: the
    /// answer of the policy for some reading of the clock. A wait that the
    /// server asked for is the answer whatever the clock reads, and so is the
    /// next interval of a policy without a limit.
    pub fn next_backoff(&mut self, retry_after: Option<u64>) -> (r: Option<u64>)
        ensures
            exists|now: u64|
                {
                    &&& r == #[trigger] old(self)@.answer_at(retry_after, now)
                    &&& final(self)@ == old(self)@.after_answer_at(retry_after, now)
                },
            final(self).origin() == old(self).origin(),
    {
        let now = self.now();
        let elapsed = self.elapsed_at(now);
        let r = self.next_backoff_at(retry_after, elapsed);
        assert(r == old(self)@.answer_at(retry_after, now));
        r
    }

    /// The time that has passed since the operation started, by what the
    /// clock reads now.
    pub fn elapsed(&self) -> (r: u64)
        ensures
            exists|now: u64| r == #[trigger] self@.elapsed_at(now),
    {
        let now = self.now();
        self.elapsed_at(now)
    }
}

impl Default for RateLimiter {
    fn default() -> (r: Self)
        ensures
            r@ == default_backoff(),
    {
        RateLimiter::new()
    }
}

} // verus!
