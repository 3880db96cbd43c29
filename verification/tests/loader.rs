use exilian::loader::{classify_status, plan_load, plan_load_now, resolve_fetch, FetchError};
use exilian::snapshot::{Record, Snapshot, CACHE_THRESHOLD};

fn sample(name: &str, value: &str, fetched_at: i64) -> Snapshot {
    Snapshot {
        records: vec![Record { display_name: name.to_string(), value: value.to_string() }],
        fetched_at: Some(fetched_at),
    }
}

#[test]
fn fresh_cache_skips_network() {
    let cached = Some(sample("Chaos Orb", "1", 10_000));
    assert!(!plan_load(&cached, 10_000 + 60, CACHE_THRESHOLD));
}

#[test]
fn stale_cache_triggers_fetch() {
    let cached = Some(sample("Chaos Orb", "1", 10_000));
    assert!(plan_load(&cached, 10_000 + 1_200, CACHE_THRESHOLD));
}

#[test]
fn missing_cache_triggers_fetch() {
    assert!(plan_load(&None, 10_000, CACHE_THRESHOLD));
}

#[test]
fn sentinel_cache_triggers_fetch() {
    let cached = Some(Snapshot { records: Vec::new(), fetched_at: None });
    assert!(plan_load(&cached, 10_000, CACHE_THRESHOLD));
}

#[test]
fn failed_fetch_returns_stale_cache_unchanged() {
    let s_old = sample("Chaos Orb", "1", 10_000);
    let expected = sample("Chaos Orb", "1", 10_000);
    let r = resolve_fetch(Some(s_old), Err(FetchError::Unreachable));
    assert_eq!(r.snapshot, expected);
    assert!(!r.persist);
}

#[test]
fn failed_fetch_without_cache_returns_sentinel() {
    let r = resolve_fetch(None, Err(FetchError::MalformedResponse));
    assert_eq!(r.snapshot.fetched_at, None);
    assert!(r.snapshot.records.is_empty());
    assert!(!r.persist);
}

#[test]
fn successful_fetch_replaces_cache() {
    let s_old = sample("Chaos Orb", "1", 10_000);
    let s_new = sample("Chaos Orb", "2", 20_000);
    let expected = sample("Chaos Orb", "2", 20_000);
    let r = resolve_fetch(Some(s_old), Ok(s_new));
    assert_eq!(r.snapshot, expected);
    assert!(r.persist);
}

#[test]
fn successful_fetch_without_cache_is_persisted() {
    let s_new = sample("Divine Orb", "180", 20_000);
    let r = resolve_fetch(None, Ok(s_new));
    assert_eq!(r.snapshot.fetched_at, Some(20_000));
    assert!(r.persist);
}

#[test]
fn status_classification() {
    assert_eq!(classify_status(200), None);
    assert_eq!(classify_status(404), Some(FetchError::RemoteRejected(404)));
    assert_eq!(classify_status(500), Some(FetchError::RemoteRejected(500)));
    assert_eq!(classify_status(0), Some(FetchError::RemoteRejected(0)));
}

#[test]
fn clock_reads_a_modern_instant() {
    // Seconds since the epoch; anything past 2001 shows a live clock. With
    // no cache at all, the decision against any clock is to fetch.
    let (now, fetch_needed) = plan_load_now(&None, CACHE_THRESHOLD);
    assert!(now > 1_000_000_000);
    assert!(fetch_needed);
}

#[test]
fn clocked_decision_agrees_with_pure_policy() {
    let cached = Some(sample("Chaos Orb", "1", 10_000));
    let (now, fetch_needed) = plan_load_now(&cached, CACHE_THRESHOLD);
    assert_eq!(fetch_needed, plan_load(&cached, now, CACHE_THRESHOLD));
}
