use std::collections::HashMap;
use weather_core::measure::Measure;
use weather_core::model::{Main, Weather, WeatherResponse, Wind};
use weather_core::pipeline::{accepts, advance, start, Command, Event, FetchError, InputProblem, Stage};

/// An in-memory store with a clock, and a provider that answers with a fixed
/// snapshot; both count the calls they get.
struct World {
    now: u64,
    counters: HashMap<String, (u64, Option<u64>)>,
    cache: HashMap<String, (WeatherResponse, u64)>,
    store_calls: usize,
    remote_calls: usize,
    remote: Result<WeatherResponse, FetchError>,
    store_down: bool,
    cache_write_fails: bool,
    expiries_set: Vec<(String, u64)>,
    cache_writes: Vec<(String, u64)>,
}

fn sample(temp: Measure) -> WeatherResponse {
    WeatherResponse {
        main: Main { temp, humidity: 55, pressure: 1015 },
        weather: vec![Weather { description: "scattered clouds".to_string(), icon: "03d".to_string() }],
        wind: Wind { speed: Measure { mantissa: 7, exponent: -1 } },
        name: "Madrid".to_string(),
    }
}

fn world(remote: Result<WeatherResponse, FetchError>) -> World {
    World {
        now: 0,
        counters: HashMap::new(),
        cache: HashMap::new(),
        store_calls: 0,
        remote_calls: 0,
        remote,
        store_down: false,
        cache_write_fails: false,
        expiries_set: Vec::new(),
        cache_writes: Vec::new(),
    }
}

fn run(w: &mut World, city: &str, country_code: &str) -> Result<WeatherResponse, FetchError> {
    let (mut stage, mut command) = start(city, country_code);
    loop {
        let event = match command {
            Command::Finish(r) => return r,
            Command::Increment { key } => {
                w.store_calls += 1;
                if w.store_down {
                    Event::Failed(FetchError::Store)
                } else {
                    let now = w.now;
                    let entry = w.counters.entry(key).or_insert((0, None));
                    if let Some(t) = entry.1 {
                        if now >= t {
                            *entry = (0, None);
                        }
                    }
                    entry.0 += 1;
                    Event::Counted(entry.0)
                }
            }
            Command::Expire { key, seconds } => {
                w.store_calls += 1;
                w.expiries_set.push((key.clone(), seconds));
                let now = w.now;
                w.counters.get_mut(&key).unwrap().1 = Some(now + seconds);
                Event::WindowSet
            }
            Command::ReadCache { key } => {
                w.store_calls += 1;
                match w.cache.get(&key) {
                    Some((r, t)) if w.now < *t => Event::CacheHit(r.clone()),
                    _ => Event::CacheMiss,
                }
            }
            Command::FetchRemote { .. } => {
                w.remote_calls += 1;
                match &w.remote {
                    Ok(r) => Event::Fetched(r.clone()),
                    Err(e) => Event::Failed(*e),
                }
            }
            Command::WriteCache { key, response, seconds } => {
                w.store_calls += 1;
                if w.cache_write_fails {
                    Event::Failed(FetchError::Store)
                } else {
                    w.cache_writes.push((key.clone(), seconds));
                    let now = w.now;
                    w.cache.insert(key, (response, now + seconds));
                    Event::CacheWritten
                }
            }
        };
        assert!(accepts(&stage, &event));
        let next = advance(stage, event);
        stage = next.0;
        command = next.1;
    }
}

fn same(a: &WeatherResponse, b: &WeatherResponse) -> bool {
    a.main == b.main
        && a.wind == b.wind
        && a.name == b.name
        && a.weather.len() == b.weather.len()
        && a.weather.iter().zip(b.weather.iter()).all(|(x, y)| x.description == y.description && x.icon == y.icon)
}

#[test]
fn madrid_first_call_fetches_then_cache_serves() {
    let mut w = world(Ok(sample(Measure { mantissa: 15, exponent: 0 })));
    let first = run(&mut w, "Madrid", "ES").unwrap();
    assert_eq!(first.weather[0].icon, "rain");
    assert_eq!(w.counters["ratelimit:Madrid:ES"].0, 1);
    assert_eq!(w.expiries_set, vec![("ratelimit:Madrid:ES".to_string(), 60)]);
    assert_eq!(w.cache_writes, vec![("weather:Madrid:ES".to_string(), 3600)]);
    assert_eq!(w.remote_calls, 1);
    w.now = 30;
    let second = run(&mut w, "Madrid", "ES").unwrap();
    assert_eq!(w.remote_calls, 1);
    assert!(same(&first, &second));
    assert_eq!(second.weather[0].icon, "rain");
}

#[test]
fn empty_query_fails_before_any_store_call() {
    let mut w = world(Ok(sample(Measure { mantissa: 15, exponent: 0 })));
    let r = run(&mut w, "", "");
    assert!(matches!(r, Err(FetchError::Validation(InputProblem::Missing))));
    assert_eq!(w.store_calls, 0);
    assert_eq!(w.remote_calls, 0);
}

#[test]
fn malformed_query_fails_before_any_store_call() {
    let mut w = world(Ok(sample(Measure { mantissa: 15, exponent: 0 })));
    assert!(matches!(run(&mut w, "Madrid1", "ES"), Err(FetchError::Validation(InputProblem::Malformed))));
    assert!(matches!(run(&mut w, "Madrid", "es"), Err(FetchError::Validation(InputProblem::Malformed))));
    assert_eq!(w.store_calls, 0);
    assert_eq!(w.remote_calls, 0);
}

#[test]
fn sixteenth_call_in_window_is_limited() {
    let mut w = world(Ok(sample(Measure { mantissa: 15, exponent: 0 })));
    for i in 1..=15 {
        w.now = i;
        assert!(run(&mut w, "Madrid", "ES").is_ok());
    }
    w.now = 16;
    assert!(matches!(run(&mut w, "Madrid", "ES"), Err(FetchError::RateLimitExceeded)));
    assert_eq!(w.counters["ratelimit:Madrid:ES"].0, 16);
    assert_eq!(w.expiries_set.len(), 1);
}

#[test]
fn window_elapses_and_count_restarts() {
    let mut w = world(Ok(sample(Measure { mantissa: 15, exponent: 0 })));
    for i in 0..16 {
        w.now = i;
        let _ = run(&mut w, "Madrid", "ES");
    }
    w.now = 60;
    assert!(run(&mut w, "Madrid", "ES").is_ok());
    assert_eq!(w.counters["ratelimit:Madrid:ES"].0, 1);
    assert_eq!(w.expiries_set.len(), 2);
}

#[test]
fn keys_not_normalised() {
    let mut w = world(Ok(sample(Measure { mantissa: 15, exponent: 0 })));
    run(&mut w, "Madrid", "ES").unwrap();
    run(&mut w, "madrid", "ES").unwrap();
    assert_eq!(w.remote_calls, 2);
    assert_eq!(w.counters["ratelimit:madrid:ES"].0, 1);
}

#[test]
fn store_failure_surfaces() {
    let mut w = world(Ok(sample(Measure { mantissa: 15, exponent: 0 })));
    w.store_down = true;
    assert!(matches!(run(&mut w, "Madrid", "ES"), Err(FetchError::Store)));
    assert_eq!(w.remote_calls, 0);
}

#[test]
fn network_failure_surfaces() {
    let mut w = world(Err(FetchError::Network));
    assert!(matches!(run(&mut w, "Madrid", "ES"), Err(FetchError::Network)));
    assert!(w.cache.is_empty());
}

#[test]
fn empty_condition_list_is_schema_error() {
    let mut empty = sample(Measure { mantissa: 15, exponent: 0 });
    empty.weather.clear();
    let mut w = world(Ok(empty));
    assert!(matches!(run(&mut w, "Madrid", "ES"), Err(FetchError::Schema)));
    assert!(w.cache.is_empty());
}

#[test]
fn failed_write_back_still_returns_snapshot() {
    let mut w = world(Ok(sample(Measure { mantissa: -3, exponent: 0 })));
    w.cache_write_fails = true;
    let r = run(&mut w, "Oslo", "NO").unwrap();
    assert_eq!(r.weather[0].icon, "snow");
}

#[test]
fn cached_write_round_trips() {
    let mut w = world(Ok(sample(Measure { mantissa: 22, exponent: 0 })));
    let first = run(&mut w, "Madrid", "ES").unwrap();
    let (stored, _) = w.cache["weather:Madrid:ES"].clone();
    assert!(same(&stored, &first));
    assert_eq!(stored.weather[0].icon, "cloud");
}

#[test]
fn finished_stage_accepts_nothing() {
    assert!(!accepts(&Stage::Done, &Event::CacheMiss));
    assert!(!accepts(&Stage::Done, &Event::Failed(FetchError::Store)));
}

#[test]
fn error_messages() {
    assert_eq!(FetchError::Validation(InputProblem::Missing).message(), "You must fill out all required fields");
    assert_eq!(FetchError::Validation(InputProblem::Malformed).message(), "You must enter valid values");
    assert_eq!(FetchError::RateLimitExceeded.message(), "Rate limit exceeded");
}
