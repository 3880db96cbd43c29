use exilian::snapshot::{is_fresh, Record, Snapshot, CACHE_THRESHOLD};

fn snap_at(fetched_at: Option<i64>) -> Snapshot {
    Snapshot { records: Vec::new(), fetched_at }
}

#[test]
fn fresh_just_under_threshold() {
    let s = snap_at(Some(10_000));
    // 899 seconds elapsed is under 15 minutes.
    assert!(is_fresh(&s, 10_000 + 899, CACHE_THRESHOLD));
}

#[test]
fn stale_at_threshold_boundary() {
    let s = snap_at(Some(10_000));
    // Exactly 15 minutes elapsed is no longer strictly under the threshold.
    assert!(!is_fresh(&s, 10_000 + 900, CACHE_THRESHOLD));
    assert!(!is_fresh(&s, 10_000 + 901, CACHE_THRESHOLD));
}

#[test]
fn sentinel_is_never_fresh() {
    let s = snap_at(None);
    assert!(!is_fresh(&s, 0, CACHE_THRESHOLD));
    assert!(!is_fresh(&s, i64::MAX, 1_000_000));
    assert!(!is_fresh(&s, i64::MIN, 0));
}

#[test]
fn future_marker_counts_as_fresh() {
    // A marker ahead of the clock has negative elapsed time, which is under
    // any positive threshold.
    let s = snap_at(Some(10_000));
    assert!(is_fresh(&s, 9_000, CACHE_THRESHOLD));
}

#[test]
fn zero_threshold_admits_nothing() {
    let s = snap_at(Some(10_000));
    assert!(!is_fresh(&s, 10_000, 0));
}

#[test]
fn extreme_instants_do_not_overflow() {
    let s = snap_at(Some(i64::MIN));
    assert!(!is_fresh(&s, i64::MAX, CACHE_THRESHOLD));
    let t = snap_at(Some(i64::MAX));
    assert!(is_fresh(&t, i64::MIN, CACHE_THRESHOLD));
    let u = snap_at(Some(0));
    assert!(is_fresh(&u, 0, i64::MAX));
}

#[test]
fn records_do_not_affect_freshness() {
    let s = Snapshot {
        records: vec![Record { display_name: "Chaos Orb".to_string(), value: "1".to_string() }],
        fetched_at: Some(500),
    };
    assert!(is_fresh(&s, 500 + 60, CACHE_THRESHOLD));
    assert!(!is_fresh(&s, 500 + 900, CACHE_THRESHOLD));
}
