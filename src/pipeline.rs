//! The fetch pipeline as a state machine.
//!
//! A request runs `Validate -> RateLimitCheck -> CacheLookup` and then either
//! returns the cached snapshot, or goes on `RemoteFetch -> Enrich ->
//! CacheWrite` and returns the fresh one. Each store or network operation is
//! a `Command` that the caller performs; its outcome comes back as an `Event`.
//! Every decision is taken here.
use crate::enrich::{enrich, is_enriched_from};
use crate::limiter::{
    cache_key, cache_key_view, rate_limit_key, rate_limit_key_view, CACHE_TTL, RATE_LIMIT_WINDOW,
    REQUESTS_PER_MINUTE,
};
use crate::model::{Weather, WeatherResponse};
use crate::validate::{city_is_valid, is_country_code, validate_city, validate_country_code};
use vstd::prelude::*;

verus! {

/// Why the input was refused.
#[derive(Clone, Copy, Debug, PartialEq, Eq)]
pub enum InputProblem {
    /// The city or the country code is empty.
    Missing,
    /// The city or the country code is malformed.
    Malformed,
}

/// The ways a request fails.
#[derive(Clone, Copy, Debug, PartialEq, Eq)]
pub enum FetchError {
    /// Empty or malformed input; nothing was asked of the store or network.
    Validation(InputProblem),
    /// The key's quota for the current window is spent.
    RateLimitExceeded,
    /// The shared store could not be reached or refused a command.
    Store,
    /// The weather provider could not be reached.
    Network,
    /// A provider or cached payload did not have the expected shape.
    Schema,
}

pub open spec fn message_of(e: FetchError) -> Seq<char> {
    match e {
        FetchError::Validation(InputProblem::Missing) => "You must fill out all required fields"@,
        FetchError::Validation(InputProblem::Malformed) => "You must enter valid values"@,
        FetchError::RateLimitExceeded => "Rate limit exceeded"@,
        FetchError::Store => "The weather store could not be reached"@,
        FetchError::Network => "The weather service could not be reached"@,
        FetchError::Schema => "The weather data had an unexpected shape"@,
    }
}

impl FetchError {
    /// A message for people.
    pub fn message(&self) -> (r: String)
        ensures
            r@ == message_of(*self),
    {
        match self {
            FetchError::Validation(InputProblem::Missing) => String::from_str(
                "You must fill out all required fields",
            ),
            FetchError::Validation(InputProblem::Malformed) => String::from_str(
                "You must enter valid values",
            ),
            FetchError::RateLimitExceeded => String::from_str("Rate limit exceeded"),
            FetchError::Store => String::from_str("The weather store could not be reached"),
            FetchError::Network => String::from_str("The weather service could not be reached"),
            FetchError::Schema => String::from_str("The weather data had an unexpected shape"),
        }
    }
}

/// A validated city and country code, as the caller spelled them.
#[derive(Debug)]
pub struct WeatherQuery {
    pub city: String,
    pub country_code: String,
}

/// Where a request stands, with what it still needs.
#[derive(Debug)]
pub enum Stage {
    /// Waiting for the post-increment value of the rate counter.
    Counting(WeatherQuery),
    /// Waiting for the new window's expiry to be set.
    SettingWindow(WeatherQuery),
    /// Waiting for the cache lookup.
    ReadingCache(WeatherQuery),
    /// Waiting for the provider's answer.
    Fetching(WeatherQuery),
    /// Waiting for the write-back of this enriched snapshot.
    WritingCache(WeatherResponse),
    /// The request has finished.
    Done,
}

/// What the caller is to do next.
#[derive(Debug)]
pub enum Command {
    /// Atomically increment the counter at `key` and report its new value.
    Increment { key: String },
    /// Let the counter at `key` expire after `seconds`.
    Expire { key: String, seconds: u64 },
    /// Read the snapshot cached at `key`, if any.
    ReadCache { key: String },
    /// Ask the provider for the current weather at `city`,`country_code`.
    FetchRemote { city: String, country_code: String },
    /// Store `response` at `key` for `seconds`.
    WriteCache { key: String, response: WeatherResponse, seconds: u64 },
    /// Hand this result to the caller; the request is over.
    Finish(Result<WeatherResponse, FetchError>),
}

/// The outcome of the last command.
#[derive(Debug)]
pub enum Event {
    /// The counter's value after the increment.
    Counted(u64),
    /// The expiry was set.
    WindowSet,
    /// The cache held this snapshot.
    CacheHit(WeatherResponse),
    /// The cache held nothing for the key.
    CacheMiss,
    /// The provider answered with this snapshot.
    Fetched(WeatherResponse),
    /// The snapshot was written back.
    CacheWritten,
    /// The command failed.
    Failed(FetchError),
}

/// Whether `event` answers the command that led to `stage`.
pub open spec fn stage_accepts(stage: Stage, event: Event) -> bool {
    match (stage, event) {
        (Stage::Done, _) => false,
        (_, Event::Failed(_)) => true,
        (Stage::Counting(_), Event::Counted(_)) => true,
        (Stage::SettingWindow(_), Event::WindowSet) => true,
        (Stage::ReadingCache(_), Event::CacheHit(_)) => true,
        (Stage::ReadingCache(_), Event::CacheMiss) => true,
        (Stage::Fetching(_), Event::Fetched(_)) => true,
        (Stage::WritingCache(_), Event::CacheWritten) => true,
        _ => false,
    }
}

/// `a` and `b` hold the same values.
pub open spec fn same_response(a: WeatherResponse, b: WeatherResponse) -> bool {
    &&& a.main == b.main
    &&& a.wind == b.wind
    &&& a.name@ == b.name@
    &&& a.weather@.len() == b.weather@.len()
    &&& forall|i: int|
        0 <= i < a.weather@.len() ==> (#[trigger] a.weather@[i]).description@
            == b.weather@[i].description@ && a.weather@[i].icon@ == b.weather@[i].icon@
}

/// The result of `start` on a query.
pub open spec fn start_post(city: Seq<char>, country_code: Seq<char>, r: (Stage, Command)) -> bool {
    if city.len() == 0 || country_code.len() == 0 {
        r == (Stage::Done, Command::Finish(Err(FetchError::Validation(InputProblem::Missing))))
    } else if !(city_is_valid(city) && is_country_code(country_code)) {
        r == (Stage::Done, Command::Finish(Err(FetchError::Validation(InputProblem::Malformed))))
    } else {
        &&& r.0 matches Stage::Counting(q)
        &&& r.0->Counting_0.city@ == city
        &&& r.0->Counting_0.country_code@ == country_code
        &&& r.1 matches Command::Increment { key }
        &&& r.1->Increment_key@ == rate_limit_key_view(city, country_code)
    }
}

/// The command that reads the cache for `q`, with `q` waiting for its answer.
pub open spec fn is_cache_read(q: WeatherQuery, r: (Stage, Command)) -> bool {
    &&& r.0 == Stage::ReadingCache(q)
    &&& r.1 matches Command::ReadCache { key }
    &&& r.1->ReadCache_key@ == cache_key_view(q.city@, q.country_code@)
}

/// The result of `advance` from `stage` on `event`.
pub open spec fn advance_post(stage: Stage, event: Event, r: (Stage, Command)) -> bool {
    match (stage, event) {
        (Stage::WritingCache(w), _) => r == (Stage::Done, Command::Finish(Ok(w))),
        (_, Event::Failed(e)) => r == (Stage::Done, Command::Finish(Err(e))),
        (Stage::Counting(q), Event::Counted(n)) => if n > REQUESTS_PER_MINUTE {
            r == (Stage::Done, Command::Finish(Err(FetchError::RateLimitExceeded)))
        } else if n == 1 {
            &&& r.0 == Stage::SettingWindow(q)
            &&& r.1 matches Command::Expire { key, seconds }
            &&& r.1->Expire_key@ == rate_limit_key_view(q.city@, q.country_code@)
            &&& r.1->Expire_seconds == RATE_LIMIT_WINDOW
        } else {
            is_cache_read(q, r)
        },
        (Stage::SettingWindow(q), Event::WindowSet) => is_cache_read(q, r),
        (Stage::ReadingCache(_), Event::CacheHit(w)) => r == (
            Stage::Done,
            Command::Finish(Ok(w)),
        ),
        (Stage::ReadingCache(q), Event::CacheMiss) => {
            &&& r.0 == Stage::Fetching(q)
            &&& r.1 matches Command::FetchRemote { city, country_code }
            &&& r.1->FetchRemote_city@ == q.city@
            &&& r.1->FetchRemote_country_code@ == q.country_code@
        },
        (Stage::Fetching(q), Event::Fetched(w)) => if w.weather@.len() == 0 {
            r == (Stage::Done, Command::Finish(Err(FetchError::Schema)))
        } else {
            &&& r.0 matches Stage::WritingCache(e)
            &&& is_enriched_from(r.0->WritingCache_0, w)
            &&& r.1 matches Command::WriteCache { key, response, seconds }
            &&& r.1->WriteCache_key@ == cache_key_view(q.city@, q.country_code@)
            &&& same_response(r.1->WriteCache_response, r.0->WritingCache_0)
            &&& r.1->WriteCache_seconds == CACHE_TTL
        },
        _ => true,
    }
}

/// A snapshot that one request writes back, read by a later request from
/// the cache unchanged, is handed to that caller as written: the enriched
/// snapshot, icon hint included.
pub proof fn written_snapshot_is_read_back(
    q1: WeatherQuery,
    fetched: WeatherResponse,
    r1: (Stage, Command),
    q2: WeatherQuery,
    r2: (Stage, Command),
)
    requires
        fetched.weather@.len() > 0,
        advance_post(Stage::Fetching(q1), Event::Fetched(fetched), r1),
        r1.1 matches Command::WriteCache { key, response, seconds },
        advance_post(
            Stage::ReadingCache(q2),
            Event::CacheHit(r1.1->WriteCache_response),
            r2,
        ),
    ensures
        r2.1 matches Command::Finish(Ok(w)),
        same_response(r2.1->Finish_0->Ok_0, r1.0->WritingCache_0),
        is_enriched_from(r2.1->Finish_0->Ok_0, fetched),
{
    let written = r1.0->WritingCache_0;
    let read = r2.1->Finish_0->Ok_0;
    assert forall|i: int| 1 <= i < read.weather@.len() implies (#[trigger] read.weather@[
        i]).description@ == fetched.weather@[i].description@ && read.weather@[i].icon@
        == fetched.weather@[i].icon@ by {
        assert(written.weather@[i].description@ == fetched.weather@[i].description@);
    }
    assert(read.weather@[0].icon@ == written.weather@[0].icon@);
}

fn copy_string(s: &String) -> (r: String)
    ensures
        r@ == s@,
{
    String::from_str(s.as_str())
}

fn copy_response(w: &WeatherResponse) -> (r: WeatherResponse)
    ensures
        same_response(r, *w),
{
    let mut weather: Vec<Weather> = Vec::new();
    let mut i: usize = 0;
    while i < w.weather.len()
        invariant
            i <= w.weather@.len(),
            weather@.len() == i,
            forall|j: int|
                0 <= j < i ==> (#[trigger] weather@[j]).description@
                    == w.weather@[j].description@ && weather@[j].icon@ == w.weather@[j].icon@,
        decreases w.weather@.len() - i,
    {
        let item = Weather {
            description: copy_string(&w.weather[i].description),
            icon: copy_string(&w.weather[i].icon),
        };
        weather.push(item);
        i = i + 1;
    }
    WeatherResponse { main: w.main, weather, wind: w.wind, name: copy_string(&w.name) }
}

/// Validates a query and, when it passes, asks for the rate counter's
/// increment. An empty city or country code is `Missing`; otherwise a city or
/// code that does not validate is `Malformed`. No command touches the store
/// or network before validation has passed.
pub fn start(city: &str, country_code: &str) -> (r: (Stage, Command))
    ensures
        start_post(city@, country_code@, r),
{
    if city.is_empty() || country_code.is_empty() {
        return (Stage::Done, Command::Finish(Err(FetchError::Validation(InputProblem::Missing))));
    }
    if !validate_city(city) || !validate_country_code(country_code) {
        return (
            Stage::Done,
            Command::Finish(Err(FetchError::Validation(InputProblem::Malformed))),
        );
    }
    let key = rate_limit_key(city, country_code);
    let query = WeatherQuery {
        city: String::from_str(city),
        country_code: String::from_str(country_code),
    };
    (Stage::Counting(query), Command::Increment { key })
}

/// Whether `event` answers the command that led to `stage`.
pub fn accepts(stage: &Stage, event: &Event) -> (r: bool)
    ensures
        r == stage_accepts(*stage, *event),
{
    match (stage, event) {
        (Stage::Done, _) => false,
        (_, Event::Failed(_)) => true,
        (Stage::Counting(_), Event::Counted(_)) => true,
        (Stage::SettingWindow(_), Event::WindowSet) => true,
        (Stage::ReadingCache(_), Event::CacheHit(_)) => true,
        (Stage::ReadingCache(_), Event::CacheMiss) => true,
        (Stage::Fetching(_), Event::Fetched(_)) => true,
        (Stage::WritingCache(_), Event::CacheWritten) => true,
        _ => false,
    }
}

/// Takes the outcome of the last command and decides the next step.
///
/// A count above the limit fails the request (the increment stays); the count
/// that opens a window first sets its expiry; a cache hit is returned as it
/// is; a miss goes to the provider, whose answer is enriched and written back.
/// A failed write-back still returns the fresh snapshot; any other failure
/// ends the request with that error.
pub fn advance(stage: Stage, event: Event) -> (r: (Stage, Command))
    requires
        stage_accepts(stage, event),
    ensures
        advance_post(stage, event, r),
{
    match (stage, event) {
        (Stage::WritingCache(w), _) => (Stage::Done, Command::Finish(Ok(w))),
        (_, Event::Failed(e)) => (Stage::Done, Command::Finish(Err(e))),
        (Stage::Counting(q), Event::Counted(n)) => {
            if n > REQUESTS_PER_MINUTE {
                (Stage::Done, Command::Finish(Err(FetchError::RateLimitExceeded)))
            } else if n == 1 {
                let key = rate_limit_key(q.city.as_str(), q.country_code.as_str());
                (Stage::SettingWindow(q), Command::Expire { key, seconds: RATE_LIMIT_WINDOW })
            } else {
                read_cache(q)
            }
        },
        (Stage::SettingWindow(q), Event::WindowSet) => read_cache(q),
        (Stage::ReadingCache(_), Event::CacheHit(w)) => (Stage::Done, Command::Finish(Ok(w))),
        (Stage::ReadingCache(q), Event::CacheMiss) => {
            let city = copy_string(&q.city);
            let country_code = copy_string(&q.country_code);
            (Stage::Fetching(q), Command::FetchRemote { city, country_code })
        },
        (Stage::Fetching(q), Event::Fetched(w)) => {
            if w.weather.len() == 0 {
                (Stage::Done, Command::Finish(Err(FetchError::Schema)))
            } else {
                let mut w = w;
                enrich(&mut w);
                let key = cache_key(q.city.as_str(), q.country_code.as_str());
                let response = copy_response(&w);
                (Stage::WritingCache(w), Command::WriteCache { key, response, seconds: CACHE_TTL })
            }
        },
        (stage, _) => (stage, Command::Finish(Err(FetchError::Store))),
    }
}

fn read_cache(q: WeatherQuery) -> (r: (Stage, Command))
    ensures
        is_cache_read(q, r),
{
    let key = cache_key(q.city.as_str(), q.country_code.as_str());
    (Stage::ReadingCache(q), Command::ReadCache { key })
}

} // verus!
