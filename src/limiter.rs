//! Fixed-window rate limiting and the store keys of a query.
//!
//! The counter itself lives in the shared store: the store increments it
//! atomically, and its expiry is set once, when the count goes from 0 to 1.
//! This module decides what a count means and states the window's behaviour.
use vstd::prelude::*;

verus! {

/// Requests admitted per key within one window.
pub const REQUESTS_PER_MINUTE: u64 = 15;

/// Length of a rate-limit window, in seconds.
pub const RATE_LIMIT_WINDOW: u64 = 60;

/// How long a cached snapshot stays, in seconds.
pub const CACHE_TTL: u64 = 3600;

/// `"ratelimit:{city}:{country_code}"`, from the strings as given.
pub open spec fn rate_limit_key_view(city: Seq<char>, country_code: Seq<char>) -> Seq<char> {
    "ratelimit:"@ + city + ":"@ + country_code
}

/// `"weather:{city}:{country_code}"`, from the strings as given.
pub open spec fn cache_key_view(city: Seq<char>, country_code: Seq<char>) -> Seq<char> {
    "weather:"@ + city + ":"@ + country_code
}

/// The key of the request counter for a query; not normalised.
pub fn rate_limit_key(city: &str, country_code: &str) -> (r: String)
    ensures
        r@ == rate_limit_key_view(city@, country_code@),
{
    let mut k = String::from_str("ratelimit:");
    k.append(city);
    k.append(":");
    k.append(country_code);
    k
}

/// The key of the cached snapshot for a query; not normalised.
pub fn cache_key(city: &str, country_code: &str) -> (r: String)
    ensures
        r@ == cache_key_view(city@, country_code@),
{
    let mut k = String::from_str("weather:");
    k.append(city);
    k.append(":");
    k.append(country_code);
    k
}

/// Whether the request that brought the counter to `count` is admitted.
pub open spec fn is_admitted(count: int) -> bool {
    count <= REQUESTS_PER_MINUTE
}

/// What a post-increment count means.
#[derive(Clone, Copy, Debug, PartialEq, Eq)]
pub struct Admission {
    /// The counter's value after this request's increment.
    pub count: u64,
    /// The request may go on.
    pub allowed: bool,
    /// This request opened a fresh window, whose expiry must now be set.
    pub starts_window: bool,
}

/// Reads the counter's value after this request's increment.
pub fn check_count(count: u64) -> (r: Admission)
    ensures
        r.count == count,
        r.allowed == is_admitted(count as int),
        r.starts_window == (count == 1),
{
    Admission { count, allowed: count <= REQUESTS_PER_MINUTE, starts_window: count == 1 }
}

/// One store counter: its value and, once set, the time it expires.
pub struct WindowCounter {
    pub count: nat,
    pub expires_at: Option<int>,
}

/// The counter as the store sees it at `now`: an expired counter is absent.
pub open spec fn live_at(c: WindowCounter, now: int) -> WindowCounter {
    match c.expires_at {
        Some(t) if now >= t => WindowCounter { count: 0, expires_at: None },
        _ => c,
    }
}

/// The counter after one request at `now`: incremented, and given an expiry
/// one window ahead when the increment took it from 0 to 1.
pub open spec fn counter_after_request(c: WindowCounter, now: int) -> WindowCounter {
    let live = live_at(c, now);
    let count = live.count + 1;
    WindowCounter {
        count,
        expires_at: if count == 1 {
            Some(now + RATE_LIMIT_WINDOW)
        } else {
            live.expires_at
        },
    }
}

/// The counter after requests at each of `times`, in order.
pub open spec fn counter_after_requests(c: WindowCounter, times: Seq<int>) -> WindowCounter
    decreases times.len(),
{
    if times.len() == 0 {
        c
    } else {
        counter_after_request(counter_after_requests(c, times.drop_last()), times.last())
    }
}

/// An absent counter.
pub open spec fn fresh_counter() -> WindowCounter {
    WindowCounter { count: 0, expires_at: None }
}

/// Times in order, all inside the window that the first one opens.
pub open spec fn within_one_window(times: Seq<int>) -> bool {
    &&& times.len() > 0
    &&& forall|i: int, j: int| 0 <= i <= j < times.len() ==> times[i] <= times[j]
    &&& forall|i: int| 0 <= i < times.len() ==> #[trigger] times[i] < times[0] + RATE_LIMIT_WINDOW
}

proof fn lemma_window_counts(times: Seq<int>)
    requires
        within_one_window(times),
    ensures
        counter_after_requests(fresh_counter(), times) == (WindowCounter {
            count: times.len(),
            expires_at: Some(times[0] + RATE_LIMIT_WINDOW),
        }),
    decreases times.len(),
{
    if times.len() > 1 {
        let prefix = times.drop_last();
        assert(prefix[0] == times[0]);
        assert(within_one_window(prefix)) by {
            assert forall|i: int| 0 <= i < prefix.len() implies #[trigger] prefix[i] < prefix[0]
                + RATE_LIMIT_WINDOW by {
                assert(prefix[i] == times[i]);
            }
        }
        lemma_window_counts(prefix);
        assert(times.last() == times[times.len() - 1]);
        assert(times.last() < times[0] + RATE_LIMIT_WINDOW);
    } else {
        assert(times.drop_last().len() == 0);
        assert(counter_after_requests(fresh_counter(), times.drop_last()) == fresh_counter());
        assert(times.last() == times[0]);
    }
}

/// Within one window, starting from an absent counter, the `n`-th request
/// sees the count `n`, and it is admitted exactly when `n` is at most the
/// per-window limit: the first fifteen pass and the sixteenth does not.
pub proof fn window_admits_up_to_limit(times: Seq<int>)
    requires
        within_one_window(times),
    ensures
        counter_after_requests(fresh_counter(), times).count == times.len(),
        is_admitted(counter_after_requests(fresh_counter(), times).count as int) <==> times.len()
            <= 15,
{
    lemma_window_counts(times);
}

/// Once the window that the first request opened has elapsed, the next
/// request finds the counter reset: its count is 1 and it is admitted.
pub proof fn window_resets_after_expiry(times: Seq<int>, later: int)
    requires
        within_one_window(times),
        later >= times[0] + RATE_LIMIT_WINDOW,
    ensures
        counter_after_requests(fresh_counter(), times.push(later)).count == 1,
        is_admitted(counter_after_requests(fresh_counter(), times.push(later)).count as int),
{
    lemma_window_counts(times);
    assert(times.push(later).drop_last() == times);
}

} // verus!
