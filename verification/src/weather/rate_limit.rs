//! The discipline that the weather client keeps towards its provider: a
//! bounded number of calls in flight, and a least distance in time between
//! one call and the next.
//!
//! Instants are milliseconds on a clock that never runs backwards.
use vstd::prelude::*;

verus! {

/// Milliseconds in the minute over which the cap is spread.
pub const MINUTE_MS: u64 = 60_000;

/// Number of permits under a cap of `cap` calls per minute: the cap, and one
/// where the cap is zero.
pub open spec fn permits_for(cap: nat) -> nat {
    if cap < 1 {
        1
    } else {
        cap
    }
}

/// Least distance between two calls under a cap of `cap` calls per minute,
/// in milliseconds.
pub open spec fn interval_for(cap: nat) -> nat {
    (MINUTE_MS as nat) / permits_for(cap)
}

/// How long a call that is ready at `now` waits, when the call before it
/// fires at `last` and calls are `interval` apart: until one interval after
/// that call has passed. The first call does not wait.
pub open spec fn wait_for(last: Option<nat>, interval: nat, now: nat) -> nat {
    match last {
        None => 0,
        Some(fired) => if now >= fired + interval {
            0
        } else {
            (fired + interval - now) as nat
        },
    }
}

/// The instant at which a call that is ready at `now` fires.
pub open spec fn fire_time(last: Option<nat>, interval: nat, now: nat) -> nat {
    now + wait_for(last, interval, now)
}

/// An instant as the clock can show it: itself, and the last instant of the
/// clock where it lies beyond that.
pub open spec fn on_clock(instant: nat) -> nat {
    if instant <= u64::MAX {
        instant
    } else {
        u64::MAX as nat
    }
}

/// Permits and pacing of one provider.
pub struct RateLimiter {
    permits: usize,
    in_flight: usize,
    last_request: Option<u64>,
    min_interval_ms: u64,
}

impl RateLimiter {
    /// Number of permits.
    pub closed spec fn permits(&self) -> nat {
        self.permits as nat
    }

    /// Number of permits handed out.
    pub closed spec fn in_flight(&self) -> nat {
        self.in_flight as nat
    }

    /// Least distance between two calls, in milliseconds.
    pub closed spec fn interval(&self) -> nat {
        self.min_interval_ms as nat
    }

    /// The instant at which the last call was planned to fire, if there was
    /// one. It is recorded when the call is paced, before the call has waited,
    /// and so may lie ahead of the clock.
    pub closed spec fn last(&self) -> Option<nat> {
        match self.last_request {
            Some(t) => Some(t as nat),
            None => None,
        }
    }

    /// There is at least one permit, and no more are out than there are.
    pub closed spec fn wf(&self) -> bool {
        &&& 1 <= self.permits
        &&& self.in_flight <= self.permits
        &&& self.min_interval_ms <= MINUTE_MS
    }

    /// What [`RateLimiter::wf`] says of the permits.
    pub proof fn lemma_permits_bound(&self)
        requires
            self.wf(),
        ensures
            self.in_flight() <= self.permits(),
            1 <= self.permits(),
    {
    }

    /// A limiter for a cap of `rate_limit_per_minute` calls per minute, with
    /// no call made yet.
    pub fn new(rate_limit_per_minute: u32) -> (l: RateLimiter)
        ensures
            l.wf(),
            l.permits() == permits_for(rate_limit_per_minute as nat),
            l.interval() == interval_for(rate_limit_per_minute as nat),
            l.in_flight() == 0,
            l.last() is None,
    {
        let cap: u32 = if rate_limit_per_minute < 1 {
            1
        } else {
            rate_limit_per_minute
        };
        let min_interval_ms: u64 = MINUTE_MS / (cap as u64);
        assert(min_interval_ms <= MINUTE_MS) by (nonlinear_arith)
            requires
                min_interval_ms == MINUTE_MS as int / cap as int,
                cap >= 1,
        ;
        RateLimiter { permits: cap as usize, in_flight: 0, last_request: None, min_interval_ms }
    }

    pub fn min_interval_ms(&self) -> (ms: u64)
        ensures
            ms == self.interval(),
    {
        self.min_interval_ms
    }

    pub fn available_permits(&self) -> (n: usize)
        requires
            self.wf(),
        ensures
            n == self.permits() - self.in_flight(),
    {
        self.permits - self.in_flight
    }

    /// Takes a permit if one is free. Returns whether it did.
    pub fn try_acquire(&mut self) -> (granted: bool)
        requires
            old(self).wf(),
        ensures
            final(self).wf(),
            granted <==> old(self).in_flight() < old(self).permits(),
            final(self).in_flight() == old(self).in_flight() + if granted {
                1nat
            } else {
                0nat
            },
            final(self).permits() == old(self).permits(),
            final(self).interval() == old(self).interval(),
            final(self).last() == old(self).last(),
    {
        if self.in_flight < self.permits {
            self.in_flight = self.in_flight + 1;
            true
        } else {
            false
        }
    }

    /// Hands a permit back. Returns whether one was out.
    pub fn release(&mut self) -> (returned: bool)
        requires
            old(self).wf(),
        ensures
            final(self).wf(),
            returned <==> old(self).in_flight() > 0,
            final(self).in_flight() == old(self).in_flight() - if returned {
                1nat
            } else {
                0nat
            },
            final(self).permits() == old(self).permits(),
            final(self).interval() == old(self).interval(),
            final(self).last() == old(self).last(),
    {
        if self.in_flight > 0 {
            self.in_flight = self.in_flight - 1;
            true
        } else {
            false
        }
    }

    /// Paces the call that is ready at `now`: returns the milliseconds that it
    /// has to wait, and records the instant at which it then fires, which lies
    /// at least one interval after the call before it. An instant beyond the
    /// end of the clock is held at the end of the clock.
    pub fn debounce(&mut self, now: u64) -> (wait_ms: u64)
        requires
            old(self).wf(),
        ensures
            final(self).wf(),
            wait_ms == on_clock(fire_time(old(self).last(), old(self).interval(), now as nat))
                - now,
            final(self).last() == Some(
                on_clock(fire_time(old(self).last(), old(self).interval(), now as nat)),
            ),
            final(self).in_flight() == old(self).in_flight(),
            final(self).permits() == old(self).permits(),
            final(self).interval() == old(self).interval(),
    {
        let fire: u64 = match self.last_request {
            None => now,
            Some(fired) => {
                let due: u128 = fired as u128 + self.min_interval_ms as u128;
                if now as u128 >= due {
                    now
                } else if due > u64::MAX as u128 {
                    u64::MAX
                } else {
                    due as u64
                }
            },
        };
        self.last_request = Some(fire);
        fire - now
    }
}

/// No call fires sooner than one interval after the call before it,
/// whenever it is made ready.
pub proof fn lemma_fires_after_last(fired: nat, interval: nat, now: nat)
    ensures
        fire_time(Some(fired), interval, now) >= fired + interval,
        fire_time(Some(fired), interval, now) >= now,
{
}

/// Two calls in a row fire at least one interval apart, whenever each of
/// them is made ready.
pub proof fn lemma_calls_spaced(last: Option<nat>, interval: nat, first: nat, second: nat)
    ensures
        fire_time(Some(fire_time(last, interval, first)), interval, second) >= fire_time(
            last,
            interval,
            first,
        ) + interval,
{
}

/// A call that is ready once the interval has passed does not wait, and
/// neither does the first call of all.
pub proof fn lemma_no_wait_after_interval(last: Option<nat>, interval: nat, now: nat)
    requires
        last is Some ==> now >= last->Some_0 + interval,
    ensures
        wait_for(last, interval, now) == 0,
        fire_time(last, interval, now) == now,
{
}

/// Under a cap of one call per minute or of none, a single permit is all
/// there is: while it is out, no second call is let through.
pub proof fn lemma_single_permit_serialises(limiter: RateLimiter, cap: nat)
    requires
        limiter.wf(),
        cap <= 1,
        limiter.permits() == permits_for(cap),
        limiter.in_flight() >= 1,
    ensures
        !(limiter.in_flight() < limiter.permits()),
{
}

} // verus!
