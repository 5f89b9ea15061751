//! Token-bucket admission control. `acquire` is the decision half of the rate
//! limiter: given the clock reading it returns how long the caller must still
//! wait before its job may enter, and advances the bucket by one admission
//! interval. The caller (who owns the clock and the timer) sleeps for the
//! returned time. With rate R, admissions are spaced at least 10^9 / R
//! nanoseconds apart, so admitting N jobs takes at least (N-1)/R seconds.
use vstd::prelude::*;

verus! {

/// The rate substituted when the configured rate is invalid.
pub const DEFAULT_RATE: u32 = 1000;

/// The largest clock reading `acquire` accepts; the bucket's own state never
/// passes it either.
pub const MAX_NANOS: u64 = 0xFFFF_FFFF_0000_0000;

/// Nanoseconds per second.
pub const NANOS_PER_SEC: u64 = 1_000_000_000;

pub struct TokenBucket {
    /// Admitted jobs per second.
    pub rate: u32,
    /// Nanoseconds between two admissions: 10^9 / rate, rounded down.
    pub interval: u64,
    /// The earliest time the next admission may be granted.
    pub next_free: u64,
}

impl TokenBucket {
    pub open spec fn wf(&self) -> bool {
        &&& 1 <= self.rate
        &&& self.interval == NANOS_PER_SEC as nat / self.rate as nat
        &&& self.next_free <= MAX_NANOS
    }

    /// A fresh bucket admitting `rate` jobs per second; a zero rate falls back
    /// to the documented default.
    pub fn new(rate: u32) -> (b: TokenBucket)
        ensures
            b.wf(),
            b.rate == (if rate == 0 { DEFAULT_RATE } else { rate }),
            b.next_free == 0,
    {
        let r: u32 = if rate == 0 {
            DEFAULT_RATE
        } else {
            rate
        };
        TokenBucket { rate: r, interval: NANOS_PER_SEC / (r as u64), next_free: 0 }
    }

    /// Admit one job at clock reading `now`: the caller must wait `wait` more
    /// nanoseconds (zero if the bucket is free), and the admission is granted
    /// at `now + wait`; the next one is granted no earlier than one interval
    /// later.
    pub fn acquire(&mut self, now: u64) -> (wait: u64)
        requires
            old(self).wf(),
            now <= MAX_NANOS,
        ensures
            final(self).wf(),
            final(self).rate == old(self).rate,
            final(self).interval == old(self).interval,
            wait == spec_wait(old(self).next_free as int, now as int),
            now + wait == spec_grant(old(self).next_free as int, now as int),
            final(self).next_free == spec_grant(old(self).next_free as int, now as int)
                + old(self).interval
                || (final(self).next_free == MAX_NANOS && spec_grant(
                old(self).next_free as int,
                now as int,
            ) + old(self).interval > MAX_NANOS),
    {
        let grant: u64 = if now >= self.next_free {
            now
        } else {
            self.next_free
        };
        let wait = grant - now;
        proof {
            assert(self.interval <= NANOS_PER_SEC) by (nonlinear_arith)
                requires
                    self.interval == NANOS_PER_SEC as nat / self.rate as nat,
                    1 <= self.rate,
            ;
        }
        if grant <= MAX_NANOS - self.interval {
            self.next_free = grant + self.interval;
        } else {
            self.next_free = MAX_NANOS;
        }
        wait
    }
}

/// How long a caller arriving at `now` still waits when the bucket frees at
/// `next_free`.
pub open spec fn spec_wait(next_free: int, now: int) -> int {
    if now >= next_free {
        0
    } else {
        next_free - now
    }
}

/// The time an admission requested at `now` is granted.
pub open spec fn spec_grant(next_free: int, now: int) -> int {
    now + spec_wait(next_free, now)
}

/// The grant times of a back-to-back run of admissions with arrival times
/// `arrivals`, starting from a bucket that frees at `next_free`, one interval
/// `iv` apart at least.
pub open spec fn spec_grants(next_free: int, iv: int, arrivals: Seq<int>) -> Seq<int>
    decreases arrivals.len(),
{
    if arrivals.len() == 0 {
        Seq::empty()
    } else {
        let g = spec_grant(next_free, arrivals[0]);
        seq![g] + spec_grants(g + iv, iv, arrivals.drop_first())
    }
}

proof fn lemma_grants_len(next_free: int, iv: int, arrivals: Seq<int>)
    ensures
        spec_grants(next_free, iv, arrivals).len() == arrivals.len(),
    decreases arrivals.len(),
{
    if arrivals.len() > 0 {
        lemma_grants_len(spec_grant(next_free, arrivals[0]) + iv, iv, arrivals.drop_first());
    }
}

/// Rate is respected: in any run of admissions, the k-th grant comes at least
/// k intervals after the first, so admitting N jobs at rate R takes at least
/// (N-1) * (10^9 / R) nanoseconds of wall time from the first grant.
pub proof fn lemma_admission_spacing(next_free: int, iv: int, arrivals: Seq<int>, k: int)
    requires
        iv >= 0,
        0 <= k < arrivals.len(),
    ensures
        spec_grants(next_free, iv, arrivals).len() == arrivals.len(),
        spec_grants(next_free, iv, arrivals)[k] >= spec_grants(next_free, iv, arrivals)[0] + k
            * iv,
    decreases k,
{
    lemma_grants_len(next_free, iv, arrivals);
    let gs = spec_grants(next_free, iv, arrivals);
    let g0 = spec_grant(next_free, arrivals[0]);
    assert(gs[0] == g0);
    if k == 0 {
        assert(k * iv == 0) by (nonlinear_arith)
            requires
                k == 0,
        ;
    } else {
        let rest = spec_grants(g0 + iv, iv, arrivals.drop_first());
        lemma_admission_spacing(g0 + iv, iv, arrivals.drop_first(), k - 1);
        assert(gs[k] == rest[k - 1]);
        assert(rest[k - 1] >= rest[0] + (k - 1) * iv);
        assert(rest[0] == spec_grant(g0 + iv, arrivals.drop_first()[0]));
        assert(rest[0] >= g0 + iv);
        assert((k - 1) * iv == k * iv - iv) by (nonlinear_arith);
        assert(gs[k] >= g0 + k * iv);
    }
}

} // verus!
