use vstd::prelude::*;

verus! {

/// Nanoseconds in one millisecond.
pub const NANOS_PER_MILLI: u64 = 1_000_000;

/// A rate in whole hertz.
#[derive(Clone, Copy, Debug, PartialEq, Eq, Structural)]
pub struct Frequency {
    hertz: u64,
}

/// The rate, in hertz, at which instructions are executed unless told
/// otherwise.
pub const DEFAULT_CPU_HERTZ: u64 = 500;

/// The rate, in hertz, at which the two timers count down unless told
/// otherwise.
pub const DEFAULT_TIMERS_HERTZ: u64 = 60;

/// The rate at which instructions are executed unless told otherwise.
pub fn default_cpu_frequency() -> (frequency: Frequency)
    ensures
        frequency@ == DEFAULT_CPU_HERTZ,
{
    Frequency { hertz: DEFAULT_CPU_HERTZ }
}

/// The rate at which the two timers count down unless told otherwise.
pub fn default_timers_frequency() -> (frequency: Frequency)
    ensures
        frequency@ == DEFAULT_TIMERS_HERTZ,
{
    Frequency { hertz: DEFAULT_TIMERS_HERTZ }
}

/// The period of a rate of `hertz`, in whole milliseconds, rounded down.
/// A rate of zero has a period of zero.
pub open spec fn period_millis(hertz: u64) -> u64 {
    if hertz == 0 {
        0
    } else {
        1000u64 / hertz
    }
}

impl View for Frequency {
    type V = u64;

    closed spec fn view(&self) -> u64 {
        self.hertz
    }
}

impl Frequency {
    pub fn new(hertz: u64) -> (frequency: Frequency)
        ensures
            frequency@ == hertz,
    {
        Frequency { hertz }
    }

    /// The time between two events at this rate, in whole milliseconds,
    /// rounded down; zero for a rate of zero.
    pub fn period(&self) -> (millis: u64)
        ensures
            millis == period_millis(self@),
            millis <= 1000,
    {
        if self.hertz == 0 {
            0
        } else {
            1000 / self.hertz
        }
    }

    pub fn value(&self) -> (hertz: u64)
        ensures
            hertz == self@,
    {
        self.hertz
    }

    pub fn set_value(&mut self, new_value: u64)
        ensures
            final(self)@ == new_value,
    {
        self.hertz = new_value;
    }
}

/// What a rate limiter holds: its rate, and the time of the call it last
/// measured from, if there was a call yet.
pub struct RateLimiterView {
    pub hertz: u64,
    pub last_executed: Option<u64>,
}

/// A gate that lets work through at most once per period of a rate. Times
/// are readings of one monotonic clock, in nanoseconds.
pub struct RateLimiter {
    max_rate: Frequency,
    last_executed: Option<u64>,
}

impl View for RateLimiter {
    type V = RateLimiterView;

    closed spec fn view(&self) -> RateLimiterView {
        RateLimiterView { hertz: self.max_rate@, last_executed: self.last_executed }
    }
}

/// The time that passed from `since` to `now`; zero where the clock went
/// back.
pub open spec fn elapsed(since: u64, now: u64) -> int {
    if now >= since {
        now - since
    } else {
        0
    }
}

/// Whether a limiter in state `limiter` lets a call at time `now` through.
/// The first call starts the measurement, so it passes only where the
/// period is zero; a later call passes when at least one period has gone
/// by since the call that last passed, or since the first call if none has.
pub open spec fn admits(limiter: RateLimiterView, now: u64) -> bool {
    match limiter.last_executed {
        None => period_millis(limiter.hertz) == 0,
        Some(since) => elapsed(since, now) >= period_millis(limiter.hertz) * NANOS_PER_MILLI,
    }
}

/// The state of a limiter after a call at time `now`.
pub open spec fn after_call(limiter: RateLimiterView, now: u64) -> RateLimiterView {
    if admits(limiter, now) || limiter.last_executed is None {
        RateLimiterView { hertz: limiter.hertz, last_executed: Some(now) }
    } else {
        limiter
    }
}

impl RateLimiter {
    /// A limiter for `max_rate` that has seen no call yet.
    pub fn new(max_rate: Frequency) -> (limiter: RateLimiter)
        ensures
            limiter@ == (RateLimiterView { hertz: max_rate@, last_executed: None }),
    {
        RateLimiter { max_rate, last_executed: None }
    }

    /// Decides whether the work may run now, at time `now`, and remembers
    /// the time if it may.
    pub fn execute(&mut self, now: u64) -> (admitted: bool)
        ensures
            admitted == admits(old(self)@, now),
            final(self)@ == after_call(old(self)@, now),
    {
        let since = match self.last_executed {
            Some(since) => since,
            None => {
                self.last_executed = Some(now);
                now
            },
        };
        let elapsed = if now >= since {
            now - since
        } else {
            0
        };
        if elapsed >= self.max_rate.period() * NANOS_PER_MILLI {
            self.last_executed = Some(now);
            return true;
        }
        false
    }
}

/// After a call that passed at time `first`, a call at a later time `second`
/// passes exactly when a whole period lies between the two. So the work
/// never runs more often than the rate allows.
pub proof fn lemma_rate_respected(limiter: RateLimiterView, first: u64, second: u64)
    requires
        admits(limiter, first),
        first <= second,
    ensures
        admits(after_call(limiter, first), second) <==> second - first >= period_millis(
            limiter.hertz,
        ) * NANOS_PER_MILLI,
{
}

/// A limiter for a rate of zero, or of more than 1000 hertz, lets every call
/// through.
pub proof fn lemma_zero_period_always_admits(limiter: RateLimiterView, now: u64)
    requires
        limiter.hertz == 0 || limiter.hertz > 1000,
    ensures
        admits(limiter, now),
{
    let hertz = limiter.hertz;
    assert(hertz > 1000 ==> 1000u64 / hertz == 0) by (nonlinear_arith);
}

} // verus!
