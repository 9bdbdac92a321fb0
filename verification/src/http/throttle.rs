//! Client-side token bucket. Capacity is one minute's allowance of requests;
//! the bucket refills continuously at that rate and starts full, so a burst up
//! to capacity goes out at once and the sustained rate is held afterwards.
//!
//! Levels are kept in fixed point: one token is `TOKEN_UNITS` units, so a
//! bucket refilling `r` tokens per minute gains exactly `r` units per
//! nanosecond and no rounding occurs in the refill.

use vstd::prelude::*;

verus! {

/// Units per token: nanoseconds in a minute.
pub const TOKEN_UNITS: i128 = 60_000_000_000;

/// The longest wait a `std::time::Duration` holds, in nanoseconds
/// (`u64::MAX` seconds and 999,999,999 nanoseconds).
pub const MAX_WAIT_NANOS: u128 = 18_446_744_073_709_551_615_999_999_999;

/// The lowest level the bucket records at `rate`: the queue at which the
/// wait reaches the longest `Duration`. A level below zero is a queue of
/// reserved slots.
pub open spec fn level_floor(rate: nat) -> int {
    -(MAX_WAIT_NANOS * rate)
}

/// A full bucket at `rate` tokens per minute.
pub open spec fn capacity(rate: nat) -> int {
    rate * TOKEN_UNITS
}

/// Time since the previous reservation; a clock reading earlier than it
/// counts as no time.
pub open spec fn elapsed_since(last: nat, now: nat) -> nat {
    if now > last {
        (now - last) as nat
    } else {
        0
    }
}

/// The level after refilling for `elapsed` nanoseconds, capped at capacity.
pub open spec fn refilled(level: int, rate: nat, elapsed: nat) -> int {
    let gained = level + elapsed * rate;
    if gained < capacity(rate) {
        gained
    } else {
        capacity(rate)
    }
}

/// The level after one token is taken; a queue deeper than the longest
/// `Duration` stays at that depth.
pub open spec fn taken(level: int, rate: nat) -> int {
    if level - TOKEN_UNITS < level_floor(rate) {
        level_floor(rate)
    } else {
        level - TOKEN_UNITS
    }
}

/// How long a request that leaves the bucket at `level` waits before firing,
/// in nanoseconds (rounded up): `None` when a token was on hand.
pub open spec fn wait_at(level: int, rate: nat) -> Option<u128> {
    if level < 0 {
        Some(((-level + rate - 1) / (rate as int)) as u128)
    } else {
        None
    }
}

/// One reservation at time `now`: the new level and the wait.
pub open spec fn reserve_step(level: int, last: nat, rate: nat, now: nat) -> (int, Option<u128>) {
    let left = taken(refilled(level, rate, elapsed_since(last, now)), rate);
    (left, wait_at(left, rate))
}

/// The level after `k` reservations all made at time `now`, starting from
/// `level` with the previous reservation at `last` (the first reservation
/// refills for the time since `last`, the others for no time).
pub open spec fn level_after_calls(level: int, last: nat, rate: nat, now: nat, k: nat) -> int
    decreases k,
{
    if k == 0 {
        level
    } else if k == 1 {
        reserve_step(level, last, rate, now).0
    } else {
        reserve_step(level_after_calls(level, last, rate, now, (k - 1) as nat), now, rate, now).0
    }
}

/// The wait returned by the `k`-th (`k >= 1`) of those reservations.
pub open spec fn wait_of_call(level: int, last: nat, rate: nat, now: nat, k: nat) -> Option<
    u128,
> {
    wait_at(level_after_calls(level, last, rate, now, k), rate)
}

/// A token bucket of `requests_per_minute` capacity, refilling at that rate.
/// Times are nanoseconds since the bucket was created.
#[derive(Debug)]
pub struct Throttle {
    rate: u32,
    level: i128,
    last_ns: u64,
}

impl Throttle {
    /// Tokens gained per minute (and the capacity, in tokens).
    pub closed spec fn rate(&self) -> nat {
        self.rate as nat
    }

    /// The current level, in units.
    pub closed spec fn level(&self) -> int {
        self.level as int
    }

    /// The time of the latest reservation.
    pub closed spec fn last_reserved(&self) -> nat {
        self.last_ns as nat
    }

    /// The rate is at least one token per minute and the level lies between
    /// the floor and a full bucket.
    #[verifier::type_invariant]
    closed spec fn wf(&self) -> bool {
        &&& 1 <= self.rate
        &&& self.rate <= u32::MAX
        &&& level_floor(self.rate as nat) <= self.level <= capacity(self.rate as nat)
    }

    /// A full bucket for `requests_per_minute` (a rate of `0` counts as `1`).
    pub fn new(requests_per_minute: u32) -> (t: Self)
        ensures
            t.rate() == if requests_per_minute == 0 {
                1
            } else {
                requests_per_minute as nat
            },
            t.level() == capacity(t.rate()),
            t.last_reserved() == 0,
    {
        let rate = if requests_per_minute == 0 {
            1
        } else {
            requests_per_minute
        };
        Throttle { rate, level: rate as i128 * TOKEN_UNITS, last_ns: 0 }
    }

    /// Reserves a token as of `now_ns`, returning how long to wait before
    /// firing, in nanoseconds (`None` = fire now; never more than the longest
    /// `Duration`). The bucket first refills for the time since
    /// the previous reservation; a level below zero is the queue of reserved
    /// slots, and the wait is the time to refill it.
    pub fn reserve(&mut self, now_ns: u64) -> (w: Option<u128>)
        ensures
            1 <= final(self).rate(),
            final(self).rate() == old(self).rate(),
            level_floor(final(self).rate()) <= final(self).level() <= capacity(final(self).rate()),
            final(self).last_reserved() == now_ns,
            (final(self).level(), w) == reserve_step(
                old(self).level(),
                old(self).last_reserved(),
                old(self).rate(),
                now_ns as nat,
            ),
            final(self).level() == refill_then_take(
                old(self).level(),
                if now_ns > old(self).last_reserved() {
                    now_ns - old(self).last_reserved()
                } else {
                    0
                },
                old(self).rate() as int,
            ),
            w is None <==> final(self).level() >= 0,
            w matches Some(x) ==> x * final(self).rate() >= -final(self).level() && (x - 1)
                * final(self).rate() < -final(self).level(),
    {
        proof {
            use_type_invariant(&*self);
            lemma_refill_by_elapsed_time(
                self.level as int,
                self.last_ns as nat,
                self.rate as nat,
                now_ns as nat,
            );
        }
        let elapsed: u64 = if now_ns > self.last_ns {
            now_ns - self.last_ns
        } else {
            0
        };
        let rate = self.rate as i128;
        let cap = rate * TOKEN_UNITS;
        assert(elapsed * rate <= u64::MAX * u32::MAX) by (nonlinear_arith)
            requires
                elapsed <= u64::MAX,
                0 <= rate <= u32::MAX,
        ;
        let gained = self.level + elapsed as i128 * rate;
        let full = if gained < cap {
            gained
        } else {
            cap
        };
        assert(MAX_WAIT_NANOS * rate <= MAX_WAIT_NANOS * u32::MAX) by (nonlinear_arith)
            requires
                0 <= rate <= u32::MAX,
        ;
        let floor = 0 - MAX_WAIT_NANOS as i128 * rate;
        let left = if full - TOKEN_UNITS < floor {
            floor
        } else {
            full - TOKEN_UNITS
        };
        self.level = left;
        self.last_ns = now_ns;
        if left < 0 {
            let deficit = 0 - left;
            let wait = (deficit + rate - 1) / rate;
            proof {
                lemma_wait_is_least_whole_nanoseconds(left as int, rate as nat);
            }
            assert(wait <= MAX_WAIT_NANOS) by (nonlinear_arith)
                requires
                    wait as int == (deficit + rate - 1) as int / rate as int,
                    1 <= deficit <= MAX_WAIT_NANOS * rate,
                    rate >= 1,
            ;
            Some(wait as u128)
        } else {
            None
        }
    }
}

/// A full bucket, however long it sat idle since `last`, loses exactly one
/// token per reservation made at one instant `now`, as long as the queue's
/// wait fits in a `Duration`.
pub proof fn lemma_full_bucket_levels(rate: nat, last: nat, now: nat, k: nat)
    requires
        1 <= rate <= u32::MAX,
        capacity(rate) - k * TOKEN_UNITS >= level_floor(rate),
    ensures
        level_after_calls(capacity(rate), last, rate, now, k) == capacity(rate) - k * TOKEN_UNITS,
    decreases k,
{
    if k == 1 {
        assert(elapsed_since(last, now) * rate >= 0) by (nonlinear_arith);
    } else if k > 1 {
        assert(capacity(rate) - (k - 1) * TOKEN_UNITS >= level_floor(rate)) by (nonlinear_arith)
            requires
                capacity(rate) - k * TOKEN_UNITS >= level_floor(rate),
        ;
        lemma_full_bucket_levels(rate, last, now, (k - 1) as nat);
        assert(capacity(rate) - (k - 1) * TOKEN_UNITS - TOKEN_UNITS == capacity(rate) - k
            * TOKEN_UNITS) by (nonlinear_arith);
        assert(capacity(rate) - (k - 1) * TOKEN_UNITS <= capacity(rate)) by (nonlinear_arith)
            requires
                k >= 1,
        ;
    }
}

/// A fresh (full) bucket of `rate` tokens per minute lets a whole minute's
/// allowance through at one instant, however long it sat idle first: the
/// first `rate` reservations made at `now` do not wait.
pub proof fn lemma_full_bucket_bursts(rate: nat, last: nat, now: nat, k: nat)
    requires
        1 <= rate <= u32::MAX,
        1 <= k <= rate,
    ensures
        wait_of_call(capacity(rate), last, rate, now, k) is None,
{
    assert(capacity(rate) - k * TOKEN_UNITS >= 0) by (nonlinear_arith)
        requires
            k <= rate,
    ;
    lemma_full_bucket_levels(rate, last, now, k);
}

/// Once the allowance is spent, the `j`-th further reservation at the same
/// instant waits for `j` tokens to refill: `j * 60 / rate` seconds, rounded up
/// to the nanosecond, for every `j` whose wait a `Duration` can hold.
pub proof fn lemma_queued_reservations_wait(rate: nat, last: nat, now: nat, j: nat)
    requires
        1 <= rate <= u32::MAX,
        1 <= j,
        j * TOKEN_UNITS <= MAX_WAIT_NANOS * rate,
    ensures
        wait_of_call(capacity(rate), last, rate, now, rate + j) == Some(
            ((j * TOKEN_UNITS + rate - 1) / (rate as int)) as u128,
        ),
        0 < (j * TOKEN_UNITS + rate - 1) / (rate as int) <= j * TOKEN_UNITS,
{
    assert(capacity(rate) - (rate + j) * TOKEN_UNITS == -(j * TOKEN_UNITS)) by (nonlinear_arith);
    lemma_full_bucket_levels(rate, last, now, rate + j);
    assert(j * TOKEN_UNITS >= TOKEN_UNITS) by (nonlinear_arith)
        requires
            j >= 1,
    ;
    assert(0 < (j * TOKEN_UNITS + rate - 1) / (rate as int) <= j * TOKEN_UNITS) by (nonlinear_arith)
        requires
            1 <= rate,
            j * TOKEN_UNITS >= TOKEN_UNITS,
    ;
}

/// An empty bucket regains one token per `60 / rate` seconds: after
/// `elapsed` nanoseconds from level zero, the level is `elapsed * rate` units
/// (a whole number of tokens for each whole refill period), up to capacity.
pub proof fn lemma_refill_rate(rate: nat, elapsed: nat)
    requires
        1 <= rate <= u32::MAX,
    ensures
        refilled(0, rate, elapsed) == if elapsed * rate < capacity(rate) {
            (elapsed * rate) as int
        } else {
            capacity(rate)
        },
        refilled(0, rate, elapsed) <= capacity(rate),
{
}

/// A bucket at `level` (units) that gains `elapsed * rate` units, is capped
/// at a full minute's allowance, and gives up one token: the level written
/// out in plain arithmetic, with the queue stopping where the wait would pass
/// the longest `Duration`.
pub open spec fn refill_then_take(level: int, elapsed: int, rate: int) -> int {
    let gained = level + elapsed * rate;
    let full = if gained < rate * 60_000_000_000 {
        gained
    } else {
        rate * 60_000_000_000
    };
    if full - 60_000_000_000 < -(MAX_WAIT_NANOS * rate) {
        -(MAX_WAIT_NANOS * rate)
    } else {
        full - 60_000_000_000
    }
}

/// A reservation refills the bucket by exactly the nanoseconds elapsed since
/// the previous one times the rate (no rounding of the elapsed time), caps it
/// at a full bucket, then takes one token; a clock reading at or before the
/// previous reservation refills nothing.
pub proof fn lemma_refill_by_elapsed_time(level: int, last: nat, rate: nat, now: nat)
    ensures
        now > last ==> reserve_step(level, last, rate, now).0 == refill_then_take(
            level,
            now - last,
            rate as int,
        ),
        now <= last ==> reserve_step(level, last, rate, now).0 == refill_then_take(
            level,
            0,
            rate as int,
        ),
{
}

/// When a token is on hand after the refill (at least one whole token's
/// worth of units), the request fires at once; otherwise it waits.
pub proof fn lemma_token_on_hand_fires_now(level: int, last: nat, rate: nat, now: nat)
    requires
        1 <= rate,
    ensures
        ({
            let elapsed: int = if now > last {
                now - last
            } else {
                0
            };
            let full = if level + elapsed * rate < rate * 60_000_000_000 {
                level + elapsed * rate
            } else {
                (rate * 60_000_000_000) as int
            };
            (full >= 60_000_000_000 ==> reserve_step(level, last, rate, now).1 is None) && (full
                < 60_000_000_000 ==> reserve_step(level, last, rate, now).1 is Some)
        }),
{
    let elapsed: int = if now > last {
        now - last
    } else {
        0
    };
    let full = if level + elapsed * rate < rate * 60_000_000_000 {
        level + elapsed * rate
    } else {
        (rate * 60_000_000_000) as int
    };
    assert(MAX_WAIT_NANOS * rate >= 0) by (nonlinear_arith)
        requires
            rate >= 1,
    ;
    assert(refilled(level, rate, elapsed_since(last, now)) == full);
}

/// The wait for a queue of `-level` units is the least whole number of
/// nanoseconds in which the bucket refills them.
pub proof fn lemma_wait_is_least_whole_nanoseconds(level: int, rate: nat)
    requires
        1 <= rate,
        level < 0,
    ensures
        ({
            let x = (-level + rate - 1) / (rate as int);
            &&& x * rate >= -level
            &&& (x - 1) * rate < -level
            &&& x <= -level
        }),
{
    let d = -level;
    let x = (d + rate - 1) / (rate as int);
    assert(x * rate >= d && (x - 1) * rate < d && x <= d) by (nonlinear_arith)
        requires
            x == (d + rate - 1) / (rate as int),
            rate >= 1,
            d >= 1,
    ;
}

} // verus!
