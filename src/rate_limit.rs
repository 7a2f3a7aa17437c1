//! The quota governor: admission control that combines a fixed local rate
//! ceiling with the quota window that the server reports.
//!
//! Times are nanoseconds on a monotonic clock that the caller reads. The
//! governor decides; the caller sleeps. `reserve` books the instant at which
//! the next request may go out and records it at once, so that concurrent
//! callers holding the governor in turn are spaced even though each sleeps
//! outside the lock.

use vstd::prelude::*;

use crate::text::{parse_unsigned, parsed_unsigned};

verus! {

pub const NANOS_PER_SECOND: u64 = 1_000_000_000;

/// The governor's state as plain values.
pub struct LimiterView {
    /// Minimum spacing between two admissions.
    pub interval: nat,
    /// When the most recent admission was booked.
    pub last: Option<nat>,
    /// Remaining requests that the server last reported.
    pub server_remaining: Option<nat>,
    /// When the server's quota window resets.
    pub server_reset: Option<nat>,
}

/// Whether the server has reported its quota exhausted until after `now`.
pub open spec fn server_blocks(v: LimiterView, now: nat) -> bool {
    v.server_remaining == Some(0nat) && v.server_reset is Some && now < v.server_reset.unwrap()
}

/// The earliest instant, not before `now`, at which a request may go out:
/// after the server's reset when its quota is exhausted, and at least one
/// interval after the previous admission.
pub open spec fn admission_time(v: LimiterView, now: nat) -> nat {
    let after_server = if server_blocks(v, now) {
        v.server_reset.unwrap()
    } else {
        now
    };
    match v.last {
        Some(l) => if after_server < l + v.interval {
            l + v.interval
        } else {
            after_server
        },
        None => after_server,
    }
}

pub open spec fn clamp(t: nat) -> nat {
    if t > u64::MAX {
        u64::MAX as nat
    } else {
        t
    }
}

/// The instant that `reserve` books: the admission time, or the largest
/// representable instant when the admission time lies beyond it.
pub open spec fn booked_time(v: LimiterView, now: nat) -> nat {
    clamp(admission_time(v, now))
}

/// The state after booking an admission at `now`.
pub open spec fn after_reserve(v: LimiterView, now: nat) -> LimiterView {
    LimiterView { last: Some(booked_time(v, now)), ..v }
}

/// The state after the server reported `remaining` and a reset time
/// `reset_unix` (Unix seconds), read when the wall clock showed `now_unix` and
/// the monotonic clock `now`. A reset time not in the future is ignored.
pub open spec fn after_observe(
    v: LimiterView,
    remaining: Option<nat>,
    reset_unix: Option<nat>,
    now_unix: nat,
    now: nat,
) -> LimiterView {
    LimiterView {
        server_remaining: if remaining is Some {
            remaining
        } else {
            v.server_remaining
        },
        server_reset: if reset_unix is Some && reset_unix.unwrap() > now_unix {
            Some(clamp((now + (reset_unix.unwrap() - now_unix) * NANOS_PER_SECOND) as nat))
        } else {
            v.server_reset
        },
        ..v
    }
}

/// Rate limiter that enforces a maximum request rate and respects the quota
/// that the server reports.
#[derive(Debug)]
pub struct RateLimiter {
    interval: u64,
    last: Option<u64>,
    server_remaining: Option<u32>,
    server_reset: Option<u64>,
}

pub open spec fn opt_nat(o: Option<u64>) -> Option<nat> {
    match o {
        Some(x) => Some(x as nat),
        None => None,
    }
}

impl View for RateLimiter {
    type V = LimiterView;

    closed spec fn view(&self) -> LimiterView {
        LimiterView {
            interval: self.interval as nat,
            last: opt_nat(self.last),
            server_remaining: match self.server_remaining {
                Some(r) => Some(r as nat),
                None => None,
            },
            server_reset: opt_nat(self.server_reset),
        }
    }
}

impl RateLimiter {
    /// Create a new rate limiter with the given maximum requests per second.
    pub fn new(max_per_second: u64) -> (r: Self)
        requires
            max_per_second > 0,
        ensures
            r@.interval == (NANOS_PER_SECOND + max_per_second - 1) as nat / max_per_second as nat,
            r@.interval * max_per_second >= NANOS_PER_SECOND,
            r@.last is None,
            r@.server_remaining is None,
            r@.server_reset is None,
    {
        let interval = if max_per_second >= NANOS_PER_SECOND {
            1
        } else {
            (NANOS_PER_SECOND + max_per_second - 1) / max_per_second
        };
        proof {
            let r = max_per_second as int;
            let q = interval as int;
            if max_per_second >= NANOS_PER_SECOND {
                assert((NANOS_PER_SECOND + r - 1) / r == 1) by (nonlinear_arith)
                    requires
                        r >= 1_000_000_000,
                ;
            } else {
                assert(q * r >= 1_000_000_000) by (nonlinear_arith)
                    requires
                        q == (1_000_000_000 + r - 1) / r,
                        r > 0,
                ;
            }
        }
        RateLimiter::with_interval(interval)
    }

    /// Create a rate limiter whose admissions are at least `interval_nanos`
    /// apart.
    pub fn with_interval(interval_nanos: u64) -> (r: Self)
        ensures
            r@.interval == interval_nanos as nat,
            r@.last is None,
            r@.server_remaining is None,
            r@.server_reset is None,
    {
        RateLimiter { interval: interval_nanos, last: None, server_remaining: None, server_reset: None }
    }

    /// Books the next admission for a caller that asks at `now` and returns
    /// the instant at which its request may go out; the caller waits until
    /// then. The first admission, with no server quota exhausted, is `now`.
    pub fn reserve(&mut self, now: u64) -> (slot: u64)
        ensures
            slot as nat == booked_time(old(self)@, now as nat),
            slot >= now,
            final(self)@ == after_reserve(old(self)@, now as nat),
    {
        let mut t = now;
        match (self.server_remaining, self.server_reset) {
            (Some(remaining), Some(reset)) => {
                if remaining == 0 && now < reset {
                    t = reset;
                }
            },
            _ => {},
        }
        match self.last {
            Some(l) => {
                let earliest = l.saturating_add(self.interval);
                if t < earliest {
                    t = earliest;
                }
            },
            None => {},
        }
        self.last = Some(t);
        t
    }

    /// How long a caller that asks at `now` waits for the slot it booked.
    pub fn wait_for(slot: u64, now: u64) -> (w: u64)
        ensures
            w as int == if slot > now {
                slot - now
            } else {
                0
            },
    {
        if slot > now {
            slot - now
        } else {
            0
        }
    }

    /// Takes in the quota that the server reported: the remaining count when
    /// known, and the reset time as Unix seconds when known and in the future.
    pub fn observe(&mut self, remaining: Option<u32>, reset_unix: Option<u64>, now_unix: u64, now: u64)
        ensures
            final(self)@ == after_observe(
                old(self)@,
                match remaining {
                    Some(r) => Some(r as nat),
                    None => None,
                },
                opt_nat(reset_unix),
                now_unix as nat,
                now as nat,
            ),
    {
        match remaining {
            Some(r) => {
                self.server_remaining = Some(r);
            },
            None => {},
        }
        match reset_unix {
            Some(reset) => {
                if reset > now_unix {
                    let secs = reset - now_unix;
                    let at = if secs > (u64::MAX - now) / NANOS_PER_SECOND {
                        proof {
                            assert(now + secs * 1_000_000_000 > u64::MAX) by (nonlinear_arith)
                                requires
                                    secs > (u64::MAX - now) / 1_000_000_000int,
                                    now <= u64::MAX,
                            ;
                        }
                        u64::MAX
                    } else {
                        proof {
                            assert(now + secs * 1_000_000_000 <= u64::MAX) by (nonlinear_arith)
                                requires
                                    secs <= (u64::MAX - now) / 1_000_000_000int,
                                    now <= u64::MAX,
                            ;
                        }
                        now + secs * NANOS_PER_SECOND
                    };
                    self.server_reset = Some(at);
                }
            },
            None => {},
        }
    }

    /// Update the limiter from the text of the two rate-limit response
    /// headers, when present; a value that is not an unsigned integer is
    /// ignored.
    pub fn update_from_headers(
        &mut self,
        remaining_header: Option<&str>,
        reset_header: Option<&str>,
        now_unix: u64,
        now: u64,
    )
        ensures
            final(self)@ == after_observe(
                old(self)@,
                match remaining_header {
                    Some(h) => parsed_unsigned(h@, u32::MAX as nat),
                    None => None,
                },
                match reset_header {
                    Some(h) => parsed_unsigned(h@, u64::MAX as nat),
                    None => None,
                },
                now_unix as nat,
                now as nat,
            ),
    {
        let remaining: Option<u32> = match remaining_header {
            Some(h) => match parse_unsigned(h, u32::MAX as u64) {
                Some(v) => Some(v as u32),
                None => None,
            },
            None => None,
        };
        let reset: Option<u64> = match reset_header {
            Some(h) => parse_unsigned(h, u64::MAX),
            None => None,
        };
        self.observe(remaining, reset, now_unix, now);
    }
}

/// The state after bookings at each of `times`, in turn.
pub open spec fn state_after(v: LimiterView, times: Seq<nat>) -> LimiterView
    decreases times.len(),
{
    if times.len() == 0 {
        v
    } else {
        after_reserve(state_after(v, times.drop_last()), times.last())
    }
}

/// The instants booked for requests that ask at each of `times`, in turn.
pub open spec fn booked_times(v: LimiterView, times: Seq<nat>) -> Seq<nat>
    decreases times.len(),
{
    if times.len() == 0 {
        Seq::empty()
    } else {
        booked_times(v, times.drop_last()).push(
            booked_time(state_after(v, times.drop_last()), times.last()),
        )
    }
}

proof fn lemma_state_after(v: LimiterView, times: Seq<nat>)
    ensures
        state_after(v, times).interval == v.interval,
        state_after(v, times).server_remaining == v.server_remaining,
        state_after(v, times).server_reset == v.server_reset,
        booked_times(v, times).len() == times.len(),
        times.len() > 0 ==> state_after(v, times).last == Some(booked_times(v, times).last()),
        times.len() == 0 ==> state_after(v, times).last == v.last,
    decreases times.len(),
{
    if times.len() > 0 {
        lemma_state_after(v, times.drop_last());
    }
}

/// Requests that ask one after another, from a limiter that has admitted
/// none and under no exhausted server quota, are booked at least one interval
/// apart: the k-th (from zero) goes out at least k intervals after the first,
/// none goes out before it asked, and the first goes out at once. (The
/// interval of `RateLimiter::new(r)` is at least a second divided by `r`.)
/// The times are bounded so that no booking reaches the clock's limit.
pub proof fn lemma_admissions_spaced(v: LimiterView, times: Seq<nat>)
    requires
        v.last is None,
        forall|i: int| 0 <= i < times.len() ==> !server_blocks(v, #[trigger] times[i]),
        forall|i: int| 0 <= i < times.len() ==> #[trigger] times[i] + times.len() * v.interval <= u64::MAX,
    ensures
        booked_times(v, times).len() == times.len(),
        times.len() > 0 ==> booked_times(v, times)[0] == times[0],
        forall|k: int| 0 <= k < times.len() ==> #[trigger] booked_times(v, times)[k] >= times[k],
        forall|k: int|
            0 <= k < times.len() ==> #[trigger] booked_times(v, times)[k] >= booked_times(v, times)[0]
                + k * v.interval,
        forall|k: int|
            0 <= k < times.len() ==> exists|j: int|
                0 <= j <= k && #[trigger] booked_times(v, times)[k] <= times[j] + k * v.interval,
    decreases times.len(),
{
    lemma_state_after(v, times);
    let n = times.len() as int;
    if n == 0 {
        return;
    }
    let p = times.drop_last();
    let iv = v.interval;
    assert forall|i: int| 0 <= i < p.len() implies !server_blocks(v, #[trigger] p[i]) by {
        assert(p[i] == times[i]);
    }
    assert forall|i: int| 0 <= i < p.len() implies #[trigger] p[i] + p.len() * iv <= u64::MAX by {
        assert(p[i] == times[i]);
        assert(p.len() * iv <= times.len() * iv) by (nonlinear_arith)
            requires
                p.len() <= times.len(),
        ;
    }
    lemma_admissions_spaced(v, p);
    lemma_state_after(v, p);
    let bp = booked_times(v, p);
    let b = booked_times(v, times);
    let s = state_after(v, p);
    let t = times[n - 1];
    assert(t == times.last());
    assert(!server_blocks(v, t));
    assert(!server_blocks(s, t));
    assert(b == bp.push(booked_time(s, t)));
    assert(t + n * iv <= u64::MAX);
    assert(0 <= n * iv) by (nonlinear_arith)
        requires
            n >= 0,
    ;
    if n == 1 {
        assert(s == v);
        assert(b[0] == t);
    } else {
        let prev = bp[n - 2];
        assert(s.last == Some(prev));
        let j = choose|j: int| 0 <= j <= n - 2 && bp[n - 2] <= p[j] + (n - 2) * iv;
        assert(p[j] == times[j]);
        assert(times[j] + n * iv <= u64::MAX);
        assert((n - 2) * iv + iv == (n - 1) * iv) by (nonlinear_arith);
        assert((n - 1) * iv <= n * iv) by (nonlinear_arith)
            requires
                iv >= 0,
        ;
        assert(prev + iv <= times[j] + (n - 1) * iv);
        assert(admission_time(s, t) <= u64::MAX);
        assert(b[n - 1] == admission_time(s, t));
        assert(b[n - 1] >= prev + iv);
        assert(prev >= b[0] + (n - 2) * iv) by {
            assert(bp[0] == b[0]);
        }
        assert(b[n - 1] <= times[j] + (n - 1) * iv || b[n - 1] == t);
        if b[n - 1] == t {
            assert(t <= times[n - 1] + (n - 1) * iv);
        }
    }
    assert forall|k: int| 0 <= k < n implies #[trigger] b[k] >= times[k] && b[k] >= b[0] + k * iv
        && exists|j: int| 0 <= j <= k && #[trigger] b[k] <= times[j] + k * iv by {
        if k < n - 1 {
            assert(b[k] == bp[k]);
            assert(bp[0] == b[0]);
            assert(p[k] == times[k]);
            let j = choose|j: int| 0 <= j <= k && bp[k] <= p[j] + k * iv;
            assert(p[j] == times[j]);
        } else {
            if n > 1 {
                let j = choose|j: int| 0 <= j <= n - 2 && bp[n - 2] <= p[j] + (n - 2) * iv;
                assert(p[j] == times[j]);
                assert((n - 2) * iv + iv == (n - 1) * iv) by (nonlinear_arith);
                if b[k] == t {
                    assert(0 <= k * iv) by (nonlinear_arith)
                        requires
                            k >= 0,
                    ;
                    assert(b[k] <= times[k] + k * iv);
                } else {
                    assert(b[k] <= times[j] + k * iv);
                }
            } else {
                assert(b[k] <= times[0] + 0 * iv);
            }
        }
    }
}

/// With a local ceiling of `rate` requests per second (an interval of at
/// least a second divided by `rate`, as `RateLimiter::new(rate)` sets it),
/// the k-th of requests that ask one after another goes out at least k/rate
/// seconds after the first, and the first goes out at once.
pub proof fn lemma_admissions_respect_rate(v: LimiterView, times: Seq<nat>, rate: nat)
    requires
        rate > 0,
        v.interval * rate >= NANOS_PER_SECOND,
        v.last is None,
        forall|i: int| 0 <= i < times.len() ==> !server_blocks(v, #[trigger] times[i]),
        forall|i: int| 0 <= i < times.len() ==> #[trigger] times[i] + times.len() * v.interval <= u64::MAX,
    ensures
        times.len() > 0 ==> booked_times(v, times)[0] == times[0],
        forall|k: int|
            0 <= k < times.len() ==> (#[trigger] booked_times(v, times)[k] - booked_times(v, times)[0])
                * rate >= k * NANOS_PER_SECOND,
{
    lemma_admissions_spaced(v, times);
    let b = booked_times(v, times);
    assert forall|k: int| 0 <= k < times.len() implies (#[trigger] b[k] - b[0]) * rate >= k
        * NANOS_PER_SECOND by {
        let d = b[k] - b[0];
        let iv = v.interval as int;
        assert(d >= k * iv);
        assert(d * rate >= k * iv * rate) by (nonlinear_arith)
            requires
                d >= k * iv,
                rate > 0,
        ;
        assert(k * iv * rate >= k * NANOS_PER_SECOND) by (nonlinear_arith)
            requires
                iv * rate >= NANOS_PER_SECOND,
                k >= 0,
        ;
    }
}

/// After the server reports its quota exhausted until a reset time in the
/// future, a request that asks before that reset is booked no earlier than
/// the reset; one that asks at or after it is booked as if the server had
/// reported nothing.
pub proof fn lemma_server_quota(
    v: LimiterView,
    reset_unix: nat,
    now_unix: nat,
    observed_at: nat,
    now: nat,
)
    requires
        reset_unix > now_unix,
        observed_at <= u64::MAX,
    ensures
        ({
            let w = after_observe(v, Some(0), Some(reset_unix), now_unix, observed_at);
            let reset = w.server_reset.unwrap();
            &&& reset > observed_at || reset == u64::MAX
            &&& now < reset ==> booked_time(w, now) >= reset
            &&& now >= reset ==> booked_time(w, now) == booked_time(
                LimiterView { server_remaining: None, server_reset: None, ..w },
                now,
            )
        }),
{
    let w = after_observe(v, Some(0), Some(reset_unix), now_unix, observed_at);
    assert((reset_unix - now_unix) * NANOS_PER_SECOND >= NANOS_PER_SECOND) by (nonlinear_arith)
        requires
            reset_unix - now_unix >= 1,
    ;
}

} // verus!
