//! Sliding-window limiter for login attempts, one window per identifier.

use std::time::Instant;
use vstd::hash_map::StringHashMap;
use vstd::prelude::*;

verus! {

/// Nanoseconds in one second: attempt stamps are nanoseconds on the limiter's clock.
pub const NANOS_PER_SEC: u128 = 1_000_000_000;

/// The attempts that the limiter of logins admits within one window.
pub const LOGIN_MAX_ATTEMPTS: usize = 5;

/// The window of the limiter of logins, in seconds.
pub const LOGIN_WINDOW_SECS: u64 = 300;

/// Raised when an identifier has used up its attempts; `retry_after` is in seconds.
#[derive(Clone, Copy, Debug, PartialEq, Eq, Structural)]
pub struct RateLimited {
    pub retry_after: u64,
}

/// How long ago `stamp` was, seen from `now`. A stamp that lies ahead of `now` has age zero.
pub open spec fn age(now: u128, stamp: u128) -> int {
    if now >= stamp {
        now - stamp
    } else {
        0
    }
}

/// An attempt counts while it is no older than the window: one whose age is exactly the
/// window still counts.
pub open spec fn in_window(now: u128, stamp: u128, window_secs: u64) -> bool {
    age(now, stamp) <= window_secs * NANOS_PER_SEC
}

/// The attempts of `stamps` that still count at `now`, in their recorded order.
pub open spec fn recent(stamps: Seq<u128>, now: u128, window_secs: u64) -> Seq<u128> {
    stamps.filter(|stamp: u128| in_window(now, stamp, window_secs))
}

/// What `check_at` leaves recorded for the checked identifier.
pub open spec fn after_check(
    stamps: Seq<u128>,
    now: u128,
    window_secs: u64,
    max_attempts: usize,
) -> Seq<u128> {
    let kept = recent(stamps, now, window_secs);
    if kept.len() >= max_attempts {
        kept
    } else {
        kept.push(now)
    }
}

/// Whether an attempt at `now` is let through, given what was recorded before it.
pub open spec fn admits(stamps: Seq<u128>, now: u128, window_secs: u64, max_attempts: usize) -> bool {
    recent(stamps, now, window_secs).len() < max_attempts
}

/// `std::time::Instant`, carried as it is: nothing inside it is read.
#[verifier::external_type_specification]
#[verifier::external_body]
pub struct ExInstant(Instant);

/// `Instant::now`: a reading of the monotonic clock. Nothing is claimed of it.
#[verifier::external_body]
fn clock_start() -> Instant {
    Instant::now()
}

/// `Instant::elapsed` and `Duration::as_nanos`: the nanoseconds gone by since
/// `origin` was read. Nothing is claimed of the number.
#[verifier::external_body]
fn nanos_since(origin: &Instant) -> u128 {
    origin.elapsed().as_nanos()
}

/// Counts the attempts of each key inside a window that slides with the clock, and
/// refuses a key that has used up its attempts. The clock starts when the limiter is made.
pub struct RateLimiter {
    attempts: StringHashMap<Vec<u128>>,
    max_attempts: usize,
    window_secs: u64,
    origin: Instant,
}

impl RateLimiter {
    /// Well-formedness: no key holds more attempts than the limit.
    pub closed spec fn wf(&self) -> bool {
        forall|key: Seq<char>| #[trigger]
            self.attempts@.contains_key(key) ==> self.attempts@[key]@.len() <= self.max_attempts
    }

    /// The attempts on record for `key`, oldest first; empty for a key never seen.
    pub closed spec fn recorded(&self, key: Seq<char>) -> Seq<u128> {
        if self.attempts@.contains_key(key) {
            self.attempts@[key]@
        } else {
            Seq::empty()
        }
    }

    pub closed spec fn max_attempts(&self) -> usize {
        self.max_attempts
    }

    pub closed spec fn window_secs(&self) -> u64 {
        self.window_secs
    }

    /// A limiter with nothing on record.
    pub fn new(max_attempts: usize, window_secs: u64) -> (limiter: Self)
        ensures
            limiter.wf(),
            limiter.max_attempts() == max_attempts,
            limiter.window_secs() == window_secs,
            forall|key: Seq<char>| #[trigger] limiter.recorded(key) == Seq::<u128>::empty(),
    {
        RateLimiter {
            attempts: StringHashMap::new(),
            max_attempts,
            window_secs,
            origin: clock_start(),
        }
    }

    /// The limiter of logins: five attempts in any five minutes.
    pub fn for_logins() -> (limiter: Self)
        ensures
            limiter.wf(),
            limiter.max_attempts() == LOGIN_MAX_ATTEMPTS,
            limiter.window_secs() == LOGIN_WINDOW_SECS,
            forall|key: Seq<char>| #[trigger] limiter.recorded(key) == Seq::<u128>::empty(),
    {
        RateLimiter::new(LOGIN_MAX_ATTEMPTS, LOGIN_WINDOW_SECS)
    }

    /// Nanoseconds on this limiter's clock; the stamp that `check_rate_limit` uses.
    pub fn now(&self) -> u128 {
        nanos_since(&self.origin)
    }

    /// The largest number of attempts that one window admits.
    pub fn limit(&self) -> (limit: usize)
        ensures
            limit == self.max_attempts(),
    {
        self.max_attempts
    }

    /// The length of the window, in seconds.
    pub fn window(&self) -> (secs: u64)
        ensures
            secs == self.window_secs(),
    {
        self.window_secs
    }

    /// How many attempts are on record for `key`: never more than the limit.
    pub fn attempt_count(&self, key: &str) -> (count: usize)
        requires
            self.wf(),
        ensures
            count == self.recorded(key@).len(),
            count <= self.max_attempts(),
    {
        match self.attempts.get(key) {
            Some(stamps) => stamps.len(),
            None => 0,
        }
    }

    /// `check_at` with the stamp read from this limiter's clock.
    pub fn check_rate_limit(&mut self, key: &str) -> (outcome: Result<(), RateLimited>)
        requires
            old(self).wf(),
        ensures
            final(self).wf(),
            final(self).max_attempts() == old(self).max_attempts(),
            final(self).window_secs() == old(self).window_secs(),
            forall|other: Seq<char>|
                other != key@ ==> #[trigger] final(self).recorded(other) == old(self).recorded(other),
            exists|now: u128|
                {
                    &&& final(self).recorded(key@) == #[trigger] after_check(
                        old(self).recorded(key@),
                        now,
                        old(self).window_secs(),
                        old(self).max_attempts(),
                    )
                    &&& outcome == if admits(
                        old(self).recorded(key@),
                        now,
                        old(self).window_secs(),
                        old(self).max_attempts(),
                    ) {
                        Ok::<(), RateLimited>(())
                    } else {
                        Err::<(), RateLimited>(RateLimited { retry_after: old(self).window_secs() })
                    }
                },
    {
        let now: u128 = self.now();
        self.check_at(key, now)
    }

    /// Counts an attempt for `key` at `now`. Stamps older than the window are dropped
    /// first; if the ones that remain have reached the limit the attempt is refused and not
    /// recorded, else it is recorded. No other key is touched.
    pub fn check_at(&mut self, key: &str, now: u128) -> (outcome: Result<(), RateLimited>)
        requires
            old(self).wf(),
        ensures
            final(self).wf(),
            final(self).max_attempts() == old(self).max_attempts(),
            final(self).window_secs() == old(self).window_secs(),
            forall|other: Seq<char>|
                other != key@ ==> #[trigger] final(self).recorded(other) == old(self).recorded(other),
            final(self).recorded(key@) == after_check(
                old(self).recorded(key@),
                now,
                old(self).window_secs(),
                old(self).max_attempts(),
            ),
            outcome == if admits(
                old(self).recorded(key@),
                now,
                old(self).window_secs(),
                old(self).max_attempts(),
            ) {
                Ok::<(), RateLimited>(())
            } else {
                Err::<(), RateLimited>(RateLimited { retry_after: old(self).window_secs() })
            },
    {
        let mut kept: Vec<u128> = Vec::new();
        let ghost before: Seq<u128> = self.recorded(key@);
        let window_secs: u64 = self.window_secs;
        match self.attempts.get(key) {
            Some(stamps) => {
                let mut i: usize = 0;
                proof {
                    reveal(Seq::filter);
                    assert(before.take(0) =~= Seq::<u128>::empty());
                }
                while i < stamps.len()
                    invariant
                        i <= stamps.len(),
                        stamps@ == before,
                        kept@ == recent(before.take(i as int), now, window_secs),
                    decreases stamps.len() - i,
                {
                    let stamp: u128 = stamps[i];
                    let age: u128 = if now >= stamp {
                        now - stamp
                    } else {
                        0
                    };
                    proof {
                        reveal(Seq::filter);
                        assert(before.take(i + 1).drop_last() =~= before.take(i as int));
                        assert(before.take(i + 1).last() == stamp);
                    }
                    if age <= (window_secs as u128) * NANOS_PER_SEC {
                        kept.push(stamp);
                    }
                    i = i + 1;
                }
                proof {
                    assert(before.take(i as int) =~= before);
                }
            },
            None => {
                proof {
                    reveal(Seq::filter);
                }
            },
        }
        assert(kept@ == recent(before, now, window_secs));
        proof {
            before.lemma_filter_len(|stamp: u128| in_window(now, stamp, window_secs));
        }
        let outcome = if kept.len() >= self.max_attempts {
            Err(RateLimited { retry_after: self.window_secs })
        } else {
            kept.push(now);
            Ok(())
        };
        self.attempts.insert(key.to_owned(), kept);
        proof {
            assert forall|other: Seq<char>| other != key@ implies #[trigger] final(self).recorded(other)
                == old(self).recorded(other) by {}
        }
        outcome
    }

    /// Forgets every attempt of `key`; no other key is touched.
    pub fn reset(&mut self, key: &str)
        requires
            old(self).wf(),
        ensures
            final(self).wf(),
            final(self).max_attempts() == old(self).max_attempts(),
            final(self).window_secs() == old(self).window_secs(),
            final(self).recorded(key@) == Seq::<u128>::empty(),
            forall|other: Seq<char>|
                other != key@ ==> #[trigger] final(self).recorded(other) == old(self).recorded(other),
    {
        self.attempts.remove(key);
    }
}

/// What is on record for one key after an attempt at each of `times` in turn.
pub open spec fn replay(stamps: Seq<u128>, times: Seq<u128>, window_secs: u64, max_attempts: usize) -> Seq<
    u128,
>
    decreases times.len(),
{
    if times.len() == 0 {
        stamps
    } else {
        after_check(
            replay(stamps, times.drop_last(), window_secs, max_attempts),
            times.last(),
            window_secs,
            max_attempts,
        )
    }
}

/// Pruning keeps exactly the stamps inside the window: each stamp kept is inside it, and
/// nothing that is inside it is dropped when all of `stamps` are.
pub proof fn lemma_recent_in_window(stamps: Seq<u128>, now: u128, window_secs: u64)
    ensures
        recent(stamps, now, window_secs).len() <= stamps.len(),
        forall|i: int|
            0 <= i < recent(stamps, now, window_secs).len() ==> in_window(
                now,
                #[trigger] recent(stamps, now, window_secs)[i],
                window_secs,
            ),
        (forall|i: int| 0 <= i < stamps.len() ==> in_window(now, #[trigger] stamps[i], window_secs))
            ==> recent(stamps, now, window_secs) == stamps,
        (forall|i: int| 0 <= i < stamps.len() ==> !in_window(now, #[trigger] stamps[i], window_secs))
            ==> recent(stamps, now, window_secs) == Seq::<u128>::empty(),
    decreases stamps.len(),
{
    reveal(Seq::filter);
    if stamps.len() > 0 {
        lemma_recent_in_window(stamps.drop_last(), now, window_secs);
        let rest = recent(stamps.drop_last(), now, window_secs);
        if forall|i: int| 0 <= i < stamps.len() ==> in_window(now, #[trigger] stamps[i], window_secs) {
            assert forall|i: int| 0 <= i < stamps.drop_last().len() implies in_window(
                now,
                #[trigger] stamps.drop_last()[i],
                window_secs,
            ) by {
                assert(stamps.drop_last()[i] == stamps[i]);
            }
            assert(in_window(now, stamps[stamps.len() - 1], window_secs));
            assert(rest.push(stamps.last()) =~= stamps);
        }
        if forall|i: int| 0 <= i < stamps.len() ==> !in_window(now, #[trigger] stamps[i], window_secs) {
            assert forall|i: int| 0 <= i < stamps.drop_last().len() implies !in_window(
                now,
                #[trigger] stamps.drop_last()[i],
                window_secs,
            ) by {
                assert(stamps.drop_last()[i] == stamps[i]);
            }
            assert(!in_window(now, stamps[stamps.len() - 1], window_secs));
        }
    }
}

/// After a check at `now`, every stamp on record for the checked key lies inside the
/// window that ends at `now`.
pub proof fn lemma_checked_key_holds_recent_only(
    stamps: Seq<u128>,
    now: u128,
    window_secs: u64,
    max_attempts: usize,
)
    ensures
        forall|i: int|
            0 <= i < after_check(stamps, now, window_secs, max_attempts).len() ==> in_window(
                now,
                #[trigger] after_check(stamps, now, window_secs, max_attempts)[i],
                window_secs,
            ),
{
    lemma_recent_in_window(stamps, now, window_secs);
    assert(in_window(now, now, window_secs));
}

/// Stamps in the order of time, none of them later than `bound`.
pub open spec fn in_order_up_to(stamps: Seq<u128>, bound: u128) -> bool {
    &&& forall|i: int, j: int| 0 <= i <= j < stamps.len() ==> stamps[i] <= stamps[j]
    &&& forall|i: int| 0 <= i < stamps.len() ==> stamps[i] <= bound
}

/// Pruning keeps the order of time, and brings in no stamp later than `bound`.
pub proof fn lemma_recent_keeps_order(stamps: Seq<u128>, now: u128, window_secs: u64, bound: u128)
    requires
        in_order_up_to(stamps, bound),
    ensures
        in_order_up_to(recent(stamps, now, window_secs), bound),
    decreases stamps.len(),
{
    reveal(Seq::filter);
    if stamps.len() > 0 {
        let earlier = stamps.drop_last();
        let last = stamps.last();
        assert forall|i: int| 0 <= i < earlier.len() implies earlier[i] <= last by {
            assert(earlier[i] == stamps[i]);
        }
        assert forall|i: int, j: int| 0 <= i <= j < earlier.len() implies earlier[i] <= earlier[j] by {
            assert(earlier[i] == stamps[i] && earlier[j] == stamps[j]);
        }
        lemma_recent_keeps_order(earlier, now, window_secs, last);
    }
}

/// A key's stamps stay in the order of time: if they are in that order and none lies
/// after `now`, the same holds of what a check at `now` leaves on record.
pub proof fn lemma_check_keeps_order(stamps: Seq<u128>, now: u128, window_secs: u64, max_attempts: usize)
    requires
        in_order_up_to(stamps, now),
    ensures
        in_order_up_to(after_check(stamps, now, window_secs, max_attempts), now),
{
    lemma_recent_keeps_order(stamps, now, window_secs, now);
}

/// A check never leaves more on record than the limit, if no more was on record before.
pub proof fn lemma_check_keeps_limit(stamps: Seq<u128>, now: u128, window_secs: u64, max_attempts: usize)
    requires
        stamps.len() <= max_attempts,
    ensures
        after_check(stamps, now, window_secs, max_attempts).len() <= max_attempts,
{
    lemma_recent_in_window(stamps, now, window_secs);
}

/// A key whose stamps are all older than the window is treated as one that was never seen.
pub proof fn lemma_quiet_key_is_new(stamps: Seq<u128>, now: u128, window_secs: u64, max_attempts: usize)
    requires
        forall|i: int| 0 <= i < stamps.len() ==> age(now, #[trigger] stamps[i]) > window_secs * NANOS_PER_SEC,
    ensures
        recent(stamps, now, window_secs) == Seq::<u128>::empty(),
        after_check(stamps, now, window_secs, max_attempts) == after_check(
            Seq::empty(),
            now,
            window_secs,
            max_attempts,
        ),
        admits(stamps, now, window_secs, max_attempts) == admits(
            Seq::empty(),
            now,
            window_secs,
            max_attempts,
        ),
        admits(stamps, now, window_secs, max_attempts) == (max_attempts > 0),
{
    lemma_recent_in_window(stamps, now, window_secs);
    lemma_recent_in_window(Seq::empty(), now, window_secs);
}

/// A key with nothing on record, as after `reset`, is admitted by any limiter that admits
/// anything, and the attempt is then the only one on record.
pub proof fn lemma_new_key_is_admitted(now: u128, window_secs: u64, max_attempts: usize)
    requires
        max_attempts > 0,
    ensures
        admits(Seq::empty(), now, window_secs, max_attempts),
        after_check(Seq::empty(), now, window_secs, max_attempts) == seq![now],
{
    lemma_recent_in_window(Seq::empty(), now, window_secs);
    assert(Seq::<u128>::empty().push(now) =~= seq![now]);
}

/// A burst on a new key: when every attempt lies inside the window of every other, the
/// first `max_attempts` of them are admitted and recorded, and all later ones are refused.
pub proof fn lemma_burst(times: Seq<u128>, window_secs: u64, max_attempts: usize)
    requires
        forall|i: int, j: int|
            0 <= i < times.len() && 0 <= j < times.len() ==> in_window(
                #[trigger] times[j],
                #[trigger] times[i],
                window_secs,
            ),
    ensures
        replay(Seq::empty(), times, window_secs, max_attempts) == if times.len() <= max_attempts {
            times
        } else {
            times.take(max_attempts as int)
        },
        forall|k: int|
            0 <= k < times.len() ==> (#[trigger] admits(
                replay(Seq::empty(), times.take(k), window_secs, max_attempts),
                times[k],
                window_secs,
                max_attempts,
            ) <==> k < max_attempts),
    decreases times.len(),
{
    let n = times.len();
    if n > 0 {
        let earlier = times.drop_last();
        assert forall|i: int, j: int| 0 <= i < earlier.len() && 0 <= j < earlier.len() implies in_window(
            #[trigger] earlier[j],
            #[trigger] earlier[i],
            window_secs,
        ) by {
            assert(earlier[i] == times[i] && earlier[j] == times[j]);
        }
        lemma_burst(earlier, window_secs, max_attempts);
        let before = replay(Seq::empty(), earlier, window_secs, max_attempts);
        assert forall|i: int| 0 <= i < before.len() implies in_window(
            times.last(),
            #[trigger] before[i],
            window_secs,
        ) by {
            assert(before[i] == times[i]);
            assert(in_window(times[n - 1], times[i], window_secs));
        }
        lemma_recent_in_window(before, times.last(), window_secs);
        if before.len() >= max_attempts {
            assert(earlier.take(max_attempts as int) =~= times.take(max_attempts as int));
        } else {
            assert(earlier.push(times.last()) =~= times);
        }
        assert forall|k: int| 0 <= k < n implies (#[trigger] admits(
            replay(Seq::empty(), times.take(k), window_secs, max_attempts),
            times[k],
            window_secs,
            max_attempts,
        ) <==> k < max_attempts) by {
            if k < n - 1 {
                assert(times.take(k) =~= earlier.take(k));
                assert(times[k] == earlier[k]);
            } else {
                assert(times.take(k) =~= earlier);
            }
        }
    } else {
        assert(times =~= Seq::<u128>::empty());
    }
}

} // verus!
