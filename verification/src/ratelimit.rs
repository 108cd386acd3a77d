//! Rate limiting for API requests.
//!
//! A token bucket with continuous refill. The bucket holds up to `capacity`
//! tokens, gains `capacity` tokens in every `refill_interval`, and each
//! request takes one whole token. The limiter has no clock of its own: every
//! operation takes the current time, in nanoseconds on a clock that never
//! runs backwards, and computes the refill since the last update from it.
//!
//! Tokens are counted exactly, as `credit / unit`: one token is worth `unit`
//! of credit, and a nanosecond of waiting earns `capacity` of it.

use vstd::prelude::*;

verus! {

/// The state of a [`RateLimiter`].
pub struct RateLimiterView {
    /// Maximum tokens in the bucket.
    pub capacity: u32,
    /// How long it takes to refill the entire bucket, in nanoseconds.
    pub refill_interval: u64,
    /// The tokens in the bucket, in units of credit.
    pub credit: nat,
    /// When the credit was last brought up to date.
    pub last_update: u64,
}

impl RateLimiterView {
    /// The credit that one token is worth. An interval of zero refills the
    /// bucket in no time, and a token is then worth one unit.
    pub open spec fn unit(self) -> nat {
        if self.refill_interval == 0 {
            1
        } else {
            self.refill_interval as nat
        }
    }

    /// The credit of a full bucket.
    pub open spec fn full(self) -> nat {
        (self.capacity as nat) * self.unit()
    }

    /// The state's invariant: the bucket holds between no token and
    /// `capacity` tokens.
    pub open spec fn bounded(self) -> bool {
        self.credit <= self.full()
    }

    /// The number of whole tokens in the bucket.
    pub open spec fn tokens(self) -> nat {
        self.credit / self.unit()
    }

    /// The time that has passed since the last update.
    pub open spec fn elapsed(self, now: u64) -> nat {
        if now > self.last_update {
            (now - self.last_update) as nat
        } else {
            0
        }
    }

    /// The credit that the bucket earns in `elapsed` nanoseconds.
    pub open spec fn earned(self, elapsed: nat) -> nat {
        if self.refill_interval == 0 {
            if elapsed > 0 {
                self.full()
            } else {
                0
            }
        } else {
            elapsed * (self.capacity as nat)
        }
    }

    /// The state brought up to date at `now`: what was earned since the last
    /// update is added, up to a full bucket. Where no time has passed the
    /// state stays as it is.
    pub open spec fn refilled(self, now: u64) -> RateLimiterView {
        if self.elapsed(now) > 0 {
            let credit = self.credit + self.earned(self.elapsed(now));
            RateLimiterView {
                credit: if credit <= self.full() {
                    credit
                } else {
                    self.full()
                },
                last_update: now,
                ..self
            }
        } else {
            self
        }
    }

    /// Whether the bucket holds a whole token.
    pub open spec fn has_token(self) -> bool {
        self.credit >= self.unit()
    }

    /// The state with one token taken out.
    pub open spec fn taken(self) -> RateLimiterView {
        RateLimiterView { credit: (self.credit - self.unit()) as nat, ..self }
    }

    /// The state after trying to acquire a token at `now`.
    pub open spec fn after_try(self, now: u64) -> RateLimiterView {
        if self.refilled(now).has_token() {
            self.refilled(now).taken()
        } else {
            self.refilled(now)
        }
    }

    /// The state after trying `count` times in a row to acquire a token, all
    /// at `now`.
    pub open spec fn after_tries(self, now: u64, count: nat) -> RateLimiterView
        decreases count,
    {
        if count == 0 {
            self
        } else {
            self.after_tries(now, (count - 1) as nat).after_try(now)
        }
    }

    /// The nanoseconds after which a bucket that lacks a whole token holds
    /// one, for a bucket that gains tokens at all.
    pub open spec fn wait(self) -> nat {
        if self.refill_interval == 0 {
            1
        } else {
            let missing = self.unit() - self.credit;
            ((missing + self.capacity - 1) / (self.capacity as int)) as nat
        }
    }
}

/// The bucket never holds more than `capacity` tokens, whatever is asked of
/// it.
pub proof fn lemma_bounded_is_kept(s: RateLimiterView, now: u64)
    requires
        s.bounded(),
    ensures
        s.refilled(now).bounded(),
        s.after_try(now).bounded(),
        s.tokens() <= s.capacity,
{
    assert(s.credit / s.unit() <= s.capacity) by (nonlinear_arith)
        requires
            s.credit <= s.capacity * s.unit(),
            s.unit() > 0,
    ;
}

/// From a full bucket of `capacity` tokens, as many tries in a row succeed,
/// each taking one token, and the try after them fails.
pub proof fn lemma_conservation(s: RateLimiterView, now: u64, count: nat)
    requires
        s.credit == s.full(),
        count <= s.capacity,
    ensures
        s.after_tries(now, count).credit == (s.capacity - count) * s.unit(),
        s.after_tries(now, count).tokens() == s.capacity - count,
        s.after_tries(now, count).elapsed(now) == 0 || count == 0,
        s.after_tries(now, count).refilled(now).has_token() <==> count < s.capacity,
        s.after_tries(now, count).capacity == s.capacity,
        s.after_tries(now, count).refill_interval == s.refill_interval,
    decreases count,
{
    let u = s.unit();
    let c = s.capacity as nat;
    if count == 0 {
        assert(s.credit == c * u);
        assert((c * u) / u == c) by (nonlinear_arith)
            requires
                u > 0,
        ;
        assert((c - 0) * u == c * u);
        let r = s.refilled(now);
        assert(r.credit == c * u);
        assert(c * u >= u <==> c > 0) by (nonlinear_arith)
            requires
                u > 0,
        ;
    } else {
        lemma_conservation(s, now, (count - 1) as nat);
        let before = s.after_tries(now, (count - 1) as nat);
        let r = before.refilled(now);
        assert(r.credit == (c - (count - 1)) * u) by {
            if before.elapsed(now) > 0 {
                assert(count == 1);
            }
        }
        assert(r.has_token());
        let after = r.taken();
        assert(after == s.after_tries(now, count));
        assert((c - (count - 1)) * u - u == (c - count) * u) by (nonlinear_arith);
        assert(((c - count) * u) / (u as int) == c - count) by (nonlinear_arith)
            requires
                u > 0,
                c >= count,
        ;
        assert(after.last_update == now || after.last_update == before.last_update);
        assert(after.refilled(now) == after);
        assert((c - count) * u >= u <==> count < c) by (nonlinear_arith)
            requires
                u > 0,
                c >= count,
        ;
    }
}

/// Whatever was taken before, the bucket is full again once a whole refill
/// interval has passed since its last update.
pub proof fn lemma_refill_restores(s: RateLimiterView, now: u64)
    requires
        s.bounded(),
        now > s.last_update,
        now - s.last_update >= s.refill_interval,
    ensures
        s.refilled(now).credit == s.full(),
        s.refilled(now).tokens() == s.capacity,
{
    let u = s.unit();
    let c = s.capacity as nat;
    let e = s.elapsed(now);
    if s.refill_interval > 0 {
        assert(e * c >= u * c) by (nonlinear_arith)
            requires
                e >= u,
        ;
        assert(u * c == c * u) by (nonlinear_arith);
    }
    assert((c * u) / u == c) by (nonlinear_arith)
        requires
            u > 0,
    ;
}

/// What asking for a token brought.
#[derive(Debug, Clone, Copy, PartialEq, Eq)]
pub enum Acquire {
    /// A token was taken.
    Acquired,
    /// No token is there yet. After this many nanoseconds one will be, if no
    /// one else takes it.
    Wait(u64),
    /// No token will ever be there: the bucket has no capacity.
    Never,
}

/// A token bucket rate limiter for controlling API request rates.
#[derive(Debug)]
pub struct RateLimiter {
    capacity: u32,
    refill_interval: u64,
    credit: u128,
    last_update: u64,
}

impl View for RateLimiter {
    type V = RateLimiterView;

    closed spec fn view(&self) -> RateLimiterView {
        RateLimiterView {
            capacity: self.capacity,
            refill_interval: self.refill_interval,
            credit: self.credit as nat,
            last_update: self.last_update,
        }
    }
}

impl RateLimiter {
    #[verifier::type_invariant]
    spec fn inv(self) -> bool {
        self@.bounded()
    }

    fn unit(&self) -> (r: u128)
        ensures
            r == self@.unit(),
            0 < r <= u64::MAX,
    {
        if self.refill_interval == 0 {
            1
        } else {
            self.refill_interval as u128
        }
    }

    fn full(&self) -> (r: u128)
        ensures
            r == self@.full(),
            r <= 0xffff_ffff * 0xffff_ffff_ffff_ffff,
    {
        let unit = self.unit();
        assert(self.capacity as u128 * unit <= 0xffff_ffff * 0xffff_ffff_ffff_ffff)
            by (nonlinear_arith)
            requires
                self.capacity <= 0xffff_ffff,
                unit <= 0xffff_ffff_ffff_ffff,
        ;
        self.capacity as u128 * unit
    }

    /// Creates a new rate limiter with a full bucket.
    ///
    /// # Arguments
    ///
    /// * `requests` - Maximum number of requests allowed per interval
    /// * `per_interval` - The time window for the request limit, in
    ///   nanoseconds
    /// * `now` - The current time
    #[must_use]
    pub fn new(requests: u32, per_interval: u64, now: u64) -> (r: Self)
        ensures
            r@.capacity == requests,
            r@.refill_interval == per_interval,
            r@.last_update == now,
            r@.credit == r@.full(),
            r@.tokens() == requests,
            r@.bounded(),
    {
        let mut r = RateLimiter {
            capacity: requests,
            refill_interval: per_interval,
            credit: 0,
            last_update: now,
        };
        r.credit = r.full();
        proof {
            lemma_refill_full(r@);
        }
        r
    }

    /// Creates a rate limiter suitable for most booru APIs: 2 requests a
    /// second.
    #[must_use]
    pub fn default_booru(now: u64) -> (r: Self)
        ensures
            r@.capacity == 2,
            r@.refill_interval == 1_000_000_000,
            r@.last_update == now,
            r@.credit == r@.full(),
            r@.tokens() == 2,
            r@.bounded(),
    {
        Self::new(2, 1_000_000_000, now)
    }

    fn refill_tokens(&mut self, now: u64)
        ensures
            final(self)@ == old(self)@.refilled(now),
    {
        proof {
            use_type_invariant(&*self);
        }
        if now > self.last_update {
            let elapsed: u64 = now - self.last_update;
            let full = self.full();
            let earned: u128 = if self.refill_interval == 0 {
                full
            } else {
                assert(elapsed as u128 * self.capacity as u128 <= 0xffff_ffff_ffff_ffff
                    * 0xffff_ffff) by (nonlinear_arith)
                    requires
                        elapsed <= 0xffff_ffff_ffff_ffff,
                        self.capacity <= 0xffff_ffff,
                ;
                elapsed as u128 * self.capacity as u128
            };
            let credit: u128 = self.credit + earned;
            self.credit = if credit <= full {
                credit
            } else {
                full
            };
            self.last_update = now;
        }
    }

    /// Tries to acquire a token without waiting.
    ///
    /// The bucket is brought up to date at `now` first. Returns `true` if a
    /// token was there, which is then taken, and `false` if none was.
    pub fn try_acquire(&mut self, now: u64) -> (r: bool)
        ensures
            r == old(self)@.refilled(now).has_token(),
            final(self)@ == old(self)@.after_try(now),
            final(self)@.bounded(),
    {
        self.refill_tokens(now);
        proof {
            use_type_invariant(&*self);
        }
        let unit = self.unit();
        if self.credit >= unit {
            self.credit = self.credit - unit;
            true
        } else {
            false
        }
    }

    /// Asks for a token: takes one if the bucket holds one, and says how long
    /// to wait for one otherwise.
    ///
    /// The bucket is brought up to date at `now` first. A caller that is told
    /// to wait sleeps for that long and asks again.
    pub fn acquire(&mut self, now: u64) -> (r: Acquire)
        ensures
            final(self)@ == old(self)@.after_try(now),
            final(self)@.bounded(),
            match r {
                Acquire::Acquired => old(self)@.refilled(now).has_token(),
                Acquire::Wait(nanos) => {
                    &&& !old(self)@.refilled(now).has_token()
                    &&& old(self)@.capacity > 0
                    &&& nanos == final(self)@.wait()
                    &&& nanos > 0
                },
                Acquire::Never => !old(self)@.refilled(now).has_token() && old(self)@.capacity
                    == 0,
            },
    {
        if self.try_acquire(now) {
            return Acquire::Acquired;
        }
        if self.capacity == 0 {
            return Acquire::Never;
        }
        if self.refill_interval == 0 {
            return Acquire::Wait(1);
        }
        let unit = self.unit();
        let missing: u128 = unit - self.credit;
        let capacity: u128 = self.capacity as u128;
        let nanos: u128 = (missing + capacity - 1) / capacity;
        assert(nanos <= missing) by (nonlinear_arith)
            requires
                nanos == (missing + capacity - 1) / (capacity as int),
                capacity >= 1,
                missing >= 1,
        ;
        assert(nanos > 0) by (nonlinear_arith)
            requires
                nanos == (missing + capacity - 1) / (capacity as int),
                capacity >= 1,
                missing >= 1,
        ;
        Acquire::Wait(nanos as u64)
    }

    /// Returns the current number of available tokens, after bringing the
    /// bucket up to date at `now`.
    pub fn available(&mut self, now: u64) -> (r: u32)
        ensures
            final(self)@ == old(self)@.refilled(now),
            final(self)@.bounded(),
            r == final(self)@.tokens(),
            r <= final(self)@.capacity,
    {
        self.refill_tokens(now);
        proof {
            use_type_invariant(&*self);
            lemma_bounded_is_kept(self@, now);
        }
        let unit = self.unit();
        (self.credit / unit) as u32
    }

    /// Maximum tokens in the bucket.
    pub fn capacity(&self) -> (r: u32)
        ensures
            r == self@.capacity,
    {
        self.capacity
    }

    /// How long it takes to refill the entire bucket, in nanoseconds.
    pub fn refill_interval(&self) -> (r: u64)
        ensures
            r == self@.refill_interval,
    {
        self.refill_interval
    }
}

proof fn lemma_refill_full(s: RateLimiterView)
    requires
        s.credit == s.full(),
    ensures
        s.tokens() == s.capacity,
{
    let u = s.unit();
    let c = s.capacity as nat;
    assert((c * u) / u == c) by (nonlinear_arith)
        requires
            u > 0,
    ;
}

/// A caller that waits as long as it was told finds a token, if nothing was
/// taken in between.
pub proof fn lemma_wait_suffices(s: RateLimiterView, now: u64)
    requires
        s.bounded(),
        s.capacity > 0,
        !s.has_token(),
        now >= s.last_update,
        now - s.last_update >= s.wait(),
    ensures
        s.refilled(now).has_token(),
{
    let u = s.unit();
    let c = s.capacity as nat;
    let e = s.elapsed(now);
    if s.refill_interval > 0 {
        let missing = (u - s.credit) as nat;
        let w = s.wait();
        assert(w * c >= missing && w >= 1) by (nonlinear_arith)
            requires
                w == (missing + c - 1) / (c as int),
                c >= 1,
                missing >= 1,
        ;
        assert(e >= 1);
        assert(s.earned(e) == e * c);
        assert(e * c >= w * c) by (nonlinear_arith)
            requires
                e >= w,
        ;
        assert(c * u >= u) by (nonlinear_arith)
            requires
                c >= 1,
        ;
    } else {
        assert(s.wait() == 1);
        assert(e >= 1);
        assert(c * u >= u) by (nonlinear_arith)
            requires
                c >= 1,
        ;
    }
}

} // verus!
