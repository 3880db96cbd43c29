//! One load lifecycle, end to end through the library: first fetch fills the
//! cache, a later stale read re-fetches, and a failed re-fetch degrades to
//! the cached data.
use exilian::codec::parse_cache_text;
use exilian::loader::{plan_load, resolve_fetch, FetchError};
use exilian::snapshot::{Record, Snapshot, CACHE_THRESHOLD};

fn rec(name: &str, value: &str) -> Record {
    Record { display_name: name.to_string(), value: value.to_string() }
}

#[test]
fn first_fetch_then_stale_refetch_then_fallback() {
    let t0: i64 = 1_000_000;

    // Cache empty: the first load must consult the network.
    assert!(plan_load(&None, t0, CACHE_THRESHOLD));

    // The fetch succeeds with two currency records, stamped at completion.
    let fetched = Snapshot {
        records: vec![rec("Chaos Orb", "1.0"), rec("Divine Orb", "180.0")],
        fetched_at: Some(t0),
    };
    let first = resolve_fetch(None, Ok(fetched));
    assert_eq!(first.snapshot.records.len(), 2);
    assert!(first.persist);

    // The slot is written; this text is what the cache file now holds.
    let slot_text = first.snapshot.to_cache_text();
    assert!(!slot_text.is_empty());

    // Twenty minutes later the slot reads back intact but stale, so a load
    // must consult the network again.
    let t1 = t0 + 20 * 60;
    let cached = parse_cache_text(&slot_text).expect("slot text reads back");
    assert_eq!(cached, first.snapshot);
    assert!(plan_load(&Some(cached.clone()), t1, CACHE_THRESHOLD));

    // The re-fetch fails; the load degrades to the cached snapshot, which
    // still shows the old price.
    let second = resolve_fetch(Some(cached), Err(FetchError::Unreachable));
    assert!(!second.persist);
    assert_eq!(second.snapshot.records[0].display_name, "Chaos Orb");
    assert_eq!(second.snapshot.records[0].value, "1.0");
    assert_eq!(second.snapshot.fetched_at, Some(t0));
}

#[test]
fn second_load_against_fresh_cache_is_cache_only() {
    let t0: i64 = 1_000_000;
    let fetched = Snapshot {
        records: vec![rec("Chaos Orb", "1.0")],
        fetched_at: Some(t0),
    };
    let first = resolve_fetch(None, Ok(fetched));
    let slot_text = first.snapshot.to_cache_text();

    // Immediately afterwards, the cached snapshot is fresh: the second load
    // serves it without any network call, and both loads agree.
    let cached = parse_cache_text(&slot_text).expect("slot text reads back");
    assert!(!plan_load(&Some(cached.clone()), t0 + 1, CACHE_THRESHOLD));
    assert_eq!(cached, first.snapshot);
}
