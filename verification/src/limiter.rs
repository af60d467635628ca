//! Rate limiting: how many requests each caller may make in a window of time.

use vstd::hash_map::StringHashMap;
use vstd::prelude::*;

verus! {

/// Admits at most `max_requests` requests of each caller in a window of `window_secs` seconds.
/// With `max_requests` zero there is no limit.
pub struct RateLimiter {
    max_requests: u32,
    window_secs: u64,
    admitted: StringHashMap<Vec<i64>>,
}

/// The difference, held within the range of an `i64`.
pub open spec fn clamped_difference(a: i64, b: i64) -> i64 {
    if a - b > i64::MAX {
        i64::MAX
    } else if a - b < i64::MIN {
        i64::MIN
    } else {
        (a - b) as i64
    }
}

/// The difference, held within the range of an `i64`.
pub fn saturating_difference(a: i64, b: i64) -> (difference: i64)
    ensures
        difference == clamped_difference(a, b),
{
    let exact: i128 = a as i128 - b as i128;
    if exact > i64::MAX as i128 {
        i64::MAX
    } else if exact < i64::MIN as i128 {
        i64::MIN
    } else {
        exact as i64
    }
}

/// A number of seconds as a signed number. One that is too large wraps.
pub open spec fn signed_seconds(seconds: u64) -> i64 {
    #[verifier::truncate]
    (seconds as i64)
}

/// The oldest time that still counts at `now`.
pub open spec fn window_floor(now: i64, window_secs: u64) -> i64 {
    clamped_difference(now, signed_seconds(window_secs))
}

/// The times that still count at `now`, in order.
pub open spec fn retained(times: Seq<i64>, now: i64, window_secs: u64) -> Seq<i64>
    decreases times.len(),
{
    if times.len() == 0 {
        Seq::empty()
    } else {
        let before = retained(times.drop_last(), now, window_secs);
        if times.last() >= window_floor(now, window_secs) {
            before.push(times.last())
        } else {
            before
        }
    }
}

/// The seconds after which a refused caller is told to try again.
pub open spec fn retry_after(times: Seq<i64>, now: i64, window_secs: u64) -> int {
    let wait = times.first() + signed_seconds(window_secs) - now;
    if wait < 1 {
        1
    } else {
        wait
    }
}

/// Whether a caller with these admitted times is refused at `now`.
pub open spec fn refused(times: Seq<i64>, now: i64, max_requests: u32, window_secs: u64) -> bool {
    max_requests > 0 && retained(times, now, window_secs).len() >= max_requests
}

/// The admitted times after a request at `now`: a refused request leaves no trace.
pub open spec fn times_after(times: Seq<i64>, now: i64, max_requests: u32, window_secs: u64) -> Seq<
    i64,
> {
    if max_requests == 0 {
        times
    } else if refused(times, now, max_requests, window_secs) {
        retained(times, now, window_secs)
    } else {
        retained(times, now, window_secs).push(now)
    }
}

/// Whether the waiting time of a refused request can be computed in 64 bits.
pub open spec fn wait_fits(times: Seq<i64>, now: i64, max_requests: u32, window_secs: u64) -> bool {
    refused(times, now, max_requests, window_secs) ==> {
        let end = retained(times, now, window_secs).first() + signed_seconds(window_secs);
        i64::MIN <= end <= i64::MAX && i64::MIN <= end - now <= i64::MAX
    }
}

fn retain(times: &Vec<i64>, now: i64, window_secs: u64) -> (kept: Vec<i64>)
    ensures
        kept@ == retained(times@, now, window_secs),
        kept.len() <= times.len(),
{
    let floor: i64 = saturating_difference(
        now,
        #[verifier::truncate]
        (window_secs as i64),
    );
    let mut kept: Vec<i64> = Vec::new();
    let mut at: usize = 0;
    while at < times.len()
        invariant
            at <= times.len(),
            floor == window_floor(now, window_secs),
            kept@ == retained(times@.take(at as int), now, window_secs),
            kept.len() <= at,
        decreases times.len() - at,
    {
        assert(times@.take(at + 1).drop_last() == times@.take(at as int));
        if times[at] >= floor {
            kept.push(times[at]);
        }
        at = at + 1;
    }
    assert(times@.take(times.len() as int) == times@);
    kept
}

impl RateLimiter {
    /// The most requests in one window; zero for no limit.
    pub closed spec fn limit(self) -> u32 {
        self.max_requests
    }

    /// The length of the window.
    pub closed spec fn window(self) -> u64 {
        self.window_secs
    }

    /// The admitted times of each caller that still counted when the caller last asked.
    pub closed spec fn times(self, key: Seq<char>) -> Seq<i64> {
        if self.admitted@.contains_key(key) {
            self.admitted@[key]@
        } else {
            Seq::empty()
        }
    }

    /// No caller has more times than the limit.
    pub open spec fn well_formed(self) -> bool {
        forall|key: Seq<char>| (#[trigger] self.times(key)).len() <= self.limit()
    }

    /// A limiter that has admitted nothing.
    pub fn new(max_requests: u32, window_secs: u64) -> (limiter: RateLimiter)
        ensures
            limiter.well_formed(),
            limiter.limit() == max_requests,
            limiter.window() == window_secs,
            forall|key: Seq<char>| (#[trigger] limiter.times(key)) == Seq::<i64>::empty(),
    {
        RateLimiter { max_requests, window_secs, admitted: StringHashMap::new() }
    }

    fn retained_for(&self, key: &str, now: i64) -> (kept: Vec<i64>)
        ensures
            kept@ == retained(self.times(key@), now, self.window()),
            kept.len() <= self.times(key@).len(),
    {
        match self.admitted.get(key) {
            Some(times) => retain(times, now, self.window_secs),
            None => Vec::new(),
        }
    }

    /// Whether `check` can be asked: where it would refuse, the waiting time can be computed.
    pub fn can_check(&self, key: &str, now: i64) -> (yes: bool)
        requires
            self.well_formed(),
        ensures
            yes == wait_fits(self.times(key@), now, self.limit(), self.window()),
    {
        if self.max_requests == 0 {
            return true;
        }
        let kept = self.retained_for(key, now);
        if kept.len() < self.max_requests as usize {
            return true;
        }
        let window: i64 = #[verifier::truncate]
        (self.window_secs as i64);
        let end: i128 = kept[0] as i128 + window as i128;
        let wait: i128 = end - now as i128;
        i64::MIN as i128 <= end && end <= i64::MAX as i128 && i64::MIN as i128 <= wait && wait
            <= i64::MAX as i128
    }

    /// Asks whether the caller may make a request at `now`; the error is the number of seconds
    /// after which to try again.
    pub fn check(&mut self, key: &str, now: i64) -> (outcome: Result<(), u64>)
        requires
            old(self).well_formed(),
            wait_fits(old(self).times(key@), now, old(self).limit(), old(self).window()),
        ensures
            final(self).well_formed(),
            final(self).limit() == old(self).limit(),
            final(self).window() == old(self).window(),
            final(self).times(key@) == times_after(
                old(self).times(key@),
                now,
                old(self).limit(),
                old(self).window(),
            ),
            forall|other: Seq<char>|
                other != key@ ==> (#[trigger] final(self).times(other)) == old(self).times(other),
            match outcome {
                Ok(_) => !refused(old(self).times(key@), now, old(self).limit(), old(self).window()),
                Err(seconds) => {
                    &&& refused(old(self).times(key@), now, old(self).limit(), old(self).window())
                    &&& seconds == retry_after(
                        retained(old(self).times(key@), now, old(self).window()),
                        now,
                        old(self).window(),
                    )
                },
            },
    {
        if self.max_requests == 0 {
            return Ok(());
        }
        let mut kept = self.retained_for(key, now);
        let outcome = if kept.len() >= self.max_requests as usize {
            let window: i64 = #[verifier::truncate]
            (self.window_secs as i64);
            let wait: i64 = (kept[0] + window) - now;
            Err(
                if wait < 1 {
                    1u64
                } else {
                    wait as u64
                },
            )
        } else {
            kept.push(now);
            Ok(())
        };
        let ghost before = *self;
        let ghost times = kept@;
        assert(self.times(key@).len() <= self.limit());
        self.admitted.insert(key.to_owned(), kept);
        assert(self.times(key@) == times);
        assert forall|other: Seq<char>| other != key@ implies (#[trigger] self.times(other))
            == before.times(other) by {};
        assert forall|other: Seq<char>| (#[trigger] self.times(other)).len() <= self.limit() by {
            if other != key@ {
                assert(before.times(other).len() <= before.limit());
            }
        }
        outcome
    }
}

/// The times at which a caller who asks at `asked`, one after the other, is admitted, and the
/// times that the limiter then holds for them.
pub open spec fn admissions(asked: Seq<i64>, max_requests: u32, window_secs: u64) -> (
    Seq<i64>,
    Seq<i64>,
)
    decreases asked.len(),
{
    if asked.len() == 0 {
        (Seq::empty(), Seq::empty())
    } else {
        let (admitted, held) = admissions(asked.drop_last(), max_requests, window_secs);
        let now = asked.last();
        (
            if refused(held, now, max_requests, window_secs) {
                admitted
            } else {
                admitted.push(now)
            },
            times_after(held, now, max_requests, window_secs),
        )
    }
}

spec fn in_order(times: Seq<i64>) -> bool {
    forall|i: int, j: int| 0 <= i <= j < times.len() ==> times[i] <= times[j]
}

proof fn lemma_retained_suffix(times: Seq<i64>, now: i64, window_secs: u64) -> (from: int)
    requires
        in_order(times),
    ensures
        0 <= from <= times.len(),
        retained(times, now, window_secs) == times.skip(from),
        forall|i: int| 0 <= i < from ==> #[trigger] times[i] < window_floor(now, window_secs),
        forall|i: int| from <= i < times.len() ==> #[trigger] times[i] >= window_floor(
            now,
            window_secs,
        ),
    decreases times.len(),
{
    if times.len() == 0 {
        assert(times.skip(0) == times);
        0
    } else {
        let before = lemma_retained_suffix(times.drop_last(), now, window_secs);
        assert forall|i: int| 0 <= i < before implies #[trigger] times[i] < window_floor(
            now,
            window_secs,
        ) by {
            assert(times.drop_last()[i] == times[i]);
        }
        assert forall|i: int| before <= i < times.len() - 1 implies #[trigger] times[i]
            >= window_floor(now, window_secs) by {
            assert(times.drop_last()[i] == times[i]);
        }
        if times.last() >= window_floor(now, window_secs) {
            assert(times.drop_last().skip(before).push(times.last()) == times.skip(before));
            before
        } else {
            assert(times.drop_last().skip(before).len() == 0) by {
                if before < times.len() - 1 {
                    assert(times.drop_last()[before] >= window_floor(now, window_secs));
                    assert(times[before] <= times[times.len() - 1]);
                }
            }
            assert(times.skip(times.len() as int) =~= retained(times, now, window_secs));
            times.len() as int
        }
    }
}

proof fn lemma_admissions(asked: Seq<i64>, max_requests: u32, window_secs: u64) -> (from: int)
    requires
        max_requests > 0,
        window_secs <= i64::MAX,
        forall|i: int, j: int| 0 <= i <= j < asked.len() ==> asked[i] <= asked[j],
    ensures
        ({
            let (admitted, held) = admissions(asked, max_requests, window_secs);
            &&& 0 <= from <= admitted.len()
            &&& held == admitted.skip(from)
            &&& held.len() <= max_requests
            &&& in_order(admitted)
            &&& admitted.len() > 0 ==> asked.len() > 0 && admitted.last() <= asked.last()
            &&& forall|i: int|
                0 <= i < from ==> #[trigger] admitted[i] < window_floor(asked.last(), window_secs)
            &&& forall|i: int|
                #![trigger admitted[i]]
                0 <= i < admitted.len() - max_requests ==> admitted[i + max_requests] - admitted[i]
                    > window_secs
        }),
    decreases asked.len(),
{
    if asked.len() == 0 {
        assert(Seq::<i64>::empty().skip(0) == Seq::<i64>::empty());
        0
    } else {
        let earlier = asked.drop_last();
        let now = asked.last();
        let start = lemma_admissions(earlier, max_requests, window_secs);
        let (admitted, held) = admissions(earlier, max_requests, window_secs);
        if earlier.len() > 0 {
            assert(earlier.last() == asked[asked.len() - 2]);
            assert(earlier.last() <= now);
        }
        let cut = lemma_retained_suffix(held, now, window_secs);
        let from = start + cut;
        assert(held.skip(cut) == admitted.skip(from));
        assert forall|i: int| 0 <= i < from implies #[trigger] admitted[i] < window_floor(
            now,
            window_secs,
        ) by {
            if i >= start {
                assert(admitted[i] == held[i - start]);
            }
        }
        let (now_admitted, now_held) = admissions(asked, max_requests, window_secs);
        if !refused(held, now, max_requests, window_secs) {
            assert(now_held == now_admitted.skip(from));
            assert forall|i: int|
                #![trigger now_admitted[i]]
                0 <= i < now_admitted.len()
                    - max_requests implies now_admitted[i + max_requests] - now_admitted[i]
                > window_secs by {
                if i + max_requests < admitted.len() {
                    assert(now_admitted[i] == admitted[i]);
                } else {
                    assert(i + max_requests == admitted.len());
                    assert(retained(held, now, window_secs).len() < max_requests);
                    assert(i < from);
                    assert(now_admitted[i] == admitted[i]);
                }
            }
        }
        from
    }
}

/// A caller who asks at times that never go back is admitted at most `max_requests` times in
/// any window: of any `max_requests + 1` admissions in a row, the last comes more than
/// `window_secs` seconds after the first.
pub proof fn law_window_holds_at_most_the_limit(
    asked: Seq<i64>,
    max_requests: u32,
    window_secs: u64,
    at: int,
)
    requires
        max_requests > 0,
        window_secs <= i64::MAX,
        forall|i: int, j: int| 0 <= i <= j < asked.len() ==> asked[i] <= asked[j],
        0 <= at,
        at + max_requests < admissions(asked, max_requests, window_secs).0.len(),
    ensures
        admissions(asked, max_requests, window_secs).0[at + max_requests] - admissions(
            asked,
            max_requests,
            window_secs,
        ).0[at] > window_secs,
{
    lemma_admissions(asked, max_requests, window_secs);
    let first = admissions(asked, max_requests, window_secs).0[at];
}

/// A limiter with limit zero refuses nothing.
pub proof fn law_zero_is_no_limit(times: Seq<i64>, now: i64, window_secs: u64)
    ensures
        !refused(times, now, 0, window_secs),
        times_after(times, now, 0, window_secs) == times,
{
}

/// A refused caller who stays away for longer than the seconds they were told is admitted.
pub proof fn law_waiting_longer_admits(
    times: Seq<i64>,
    now: i64,
    later: i64,
    max_requests: u32,
    window_secs: u64,
)
    requires
        window_secs <= i64::MAX,
        times.len() <= max_requests,
        forall|i: int, j: int| 0 <= i <= j < times.len() ==> times[i] <= times[j],
        refused(times, now, max_requests, window_secs),
        later > now + retry_after(retained(times, now, window_secs), now, window_secs),
    ensures
        !refused(
            times_after(times, now, max_requests, window_secs),
            later,
            max_requests,
            window_secs,
        ),
{
    let cut = lemma_retained_suffix(times, now, window_secs);
    let held = retained(times, now, window_secs);
    let later_cut = lemma_retained_suffix(held, later, window_secs);
    if later_cut == 0 {
        assert(held[0] >= window_floor(later, window_secs));
    }
}

/// Differences and seconds are exact wherever the result can be held, and stop at the ends of the
/// range elsewhere.
pub proof fn law_differences_stop_at_the_ends(a: i64, b: i64, seconds: u64)
    ensures
        i64::MIN <= a - b <= i64::MAX ==> clamped_difference(a, b) == a - b,
        a - b > i64::MAX ==> clamped_difference(a, b) == i64::MAX,
        a - b < i64::MIN ==> clamped_difference(a, b) == i64::MIN,
        seconds <= i64::MAX ==> signed_seconds(seconds) == seconds,
{
}

/// The times that still count are those of the last `window_secs` seconds, in order and each as
/// often as it was admitted.
pub proof fn law_times_count_for_the_window(times: Seq<i64>, now: i64, window_secs: u64)
    requires
        window_secs <= i64::MAX,
    ensures
        retained(times, now, window_secs) == times.filter(|t: i64| t >= now - window_secs),
    decreases times.len(),
{
    reveal(Seq::filter);
    if times.len() > 0 {
        law_times_count_for_the_window(times.drop_last(), now, window_secs);
    }
}

/// A caller is refused exactly if there is a limit and at least that many of their requests were
/// admitted in the last `window_secs` seconds.
pub proof fn law_callers_are_refused_at_the_limit(
    times: Seq<i64>,
    now: i64,
    max_requests: u32,
    window_secs: u64,
)
    requires
        window_secs <= i64::MAX,
    ensures
        refused(times, now, max_requests, window_secs) <==> max_requests > 0 && times.filter(
            |t: i64| t >= now - window_secs,
        ).len() >= max_requests,
{
    law_times_count_for_the_window(times, now, window_secs);
}

/// An admitted request counts from then on, after those that still count; a refused one does not
/// count.
pub proof fn law_admitted_requests_count(
    times: Seq<i64>,
    now: i64,
    max_requests: u32,
    window_secs: u64,
)
    requires
        max_requests > 0,
        window_secs <= i64::MAX,
    ensures
        ({
            let counted = times.filter(|t: i64| t >= now - window_secs);
            let after = times_after(times, now, max_requests, window_secs);
            &&& counted.len() < max_requests ==> after == counted.push(now)
            &&& counted.len() >= max_requests ==> after == counted
        }),
{
    law_times_count_for_the_window(times, now, window_secs);
}

/// A refused caller is told a time that is not too long: until it has passed, they stay refused.
pub proof fn law_waiting_time_is_needed(
    times: Seq<i64>,
    now: i64,
    later: i64,
    max_requests: u32,
    window_secs: u64,
)
    requires
        window_secs <= i64::MAX,
        forall|i: int, j: int| 0 <= i <= j < times.len() ==> times[i] <= times[j],
        refused(times, now, max_requests, window_secs),
        retained(times, now, window_secs).first() + window_secs > now,
        now <= later <= now + retry_after(retained(times, now, window_secs), now, window_secs),
    ensures
        refused(
            times_after(times, now, max_requests, window_secs),
            later,
            max_requests,
            window_secs,
        ),
        retry_after(retained(times, now, window_secs), now, window_secs) >= 1,
{
    let cut = lemma_retained_suffix(times, now, window_secs);
    let held = retained(times, now, window_secs);
    let later_cut = lemma_retained_suffix(held, later, window_secs);
    if later_cut > 0 {
        assert(held[0] < window_floor(later, window_secs));
    }
    assert(held.skip(0) =~= held);
}

/// The waiting time is what is left of the window of the oldest request that counts, and never
/// less than a second.
pub proof fn law_waiting_time_is_what_is_left_of_the_window(
    held: Seq<i64>,
    now: i64,
    window_secs: u64,
)
    requires
        held.len() > 0,
        window_secs <= i64::MAX,
    ensures
        held[0] + window_secs - now >= 1 ==> retry_after(held, now, window_secs) == held[0]
            + window_secs - now,
        held[0] + window_secs - now < 1 ==> retry_after(held, now, window_secs) == 1,
{
}

/// The limiter can be asked at every ordinary time: where it would not refuse, and where the
/// times and the window stay far from the ends of the range.
pub proof fn law_limiter_can_be_asked(
    times: Seq<i64>,
    now: i64,
    max_requests: u32,
    window_secs: u64,
)
    ensures
        !refused(times, now, max_requests, window_secs) ==> wait_fits(
            times,
            now,
            max_requests,
            window_secs,
        ),
        window_secs <= 0x2000_0000_0000_0000 && 0 <= now <= 0x2000_0000_0000_0000 && (forall|i: int|
            0 <= i < times.len() ==> 0 <= #[trigger] times[i] <= now) ==> wait_fits(
            times,
            now,
            max_requests,
            window_secs,
        ),
{
    if window_secs <= 0x2000_0000_0000_0000 && 0 <= now <= 0x2000_0000_0000_0000 && (forall|i: int|
        0 <= i < times.len() ==> 0 <= #[trigger] times[i] <= now) && refused(
        times,
        now,
        max_requests,
        window_secs,
    ) {
        lemma_retained_is_held(times, now, window_secs);
        assert(times.contains(retained(times, now, window_secs)[0]));
    }
}

proof fn lemma_retained_is_held(times: Seq<i64>, now: i64, window_secs: u64)
    ensures
        forall|i: int|
            0 <= i < retained(times, now, window_secs).len() ==> times.contains(
                #[trigger] retained(times, now, window_secs)[i],
            ),
    decreases times.len(),
{
    if times.len() > 0 {
        let earlier = times.drop_last();
        lemma_retained_is_held(earlier, now, window_secs);
        let (before, kept) = (
            retained(earlier, now, window_secs),
            retained(times, now, window_secs),
        );
        assert forall|i: int| 0 <= i < kept.len() implies times.contains(#[trigger] kept[i]) by {
            if i < before.len() {
                assert(before[i] == kept[i]);
                let j = choose|j: int| 0 <= j < earlier.len() && earlier[j] == before[i];
                assert(times[j] == kept[i]);
            } else {
                assert(times[times.len() - 1] == kept[i]);
            }
        }
    }
}

} // verus!
