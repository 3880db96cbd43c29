use exilian::snapshot::{Record, Snapshot};

fn rec(name: &str, value: &str) -> Record {
    Record { display_name: name.to_string(), value: value.to_string() }
}

fn market() -> Snapshot {
    Snapshot {
        records: vec![
            rec("Chaos Orb", "1"),
            rec("Divine Orb", "180"),
            rec("Orb of Alchemy", "0.2"),
            rec("Mirror of Kalandra", "100000"),
        ],
        fetched_at: Some(1_700_000_000),
    }
}

fn names(records: &[Record]) -> Vec<&str> {
    records.iter().map(|r| r.display_name.as_str()).collect()
}

#[test]
fn empty_query_returns_all_in_order() {
    let s = market();
    let results = s.search("");
    assert_eq!(results, s.records);
}

#[test]
fn nonsense_query_returns_nothing() {
    let s = market();
    assert!(s.search("zzz-nonexistent-token").is_empty());
}

#[test]
fn query_matching_everything_keeps_order() {
    // Every display name holds an 'o' or 'O'.
    let s = market();
    let results = s.search("o");
    assert_eq!(results, s.records);
}

#[test]
fn matching_is_case_insensitive_for_ascii() {
    // The scorer uses smart case: a lowercase pattern matches any case.
    let s = market();
    let results = s.search("chaos");
    assert_eq!(names(&results), vec!["Chaos Orb"]);
    let results = s.search("mirror");
    assert_eq!(names(&results), vec!["Mirror of Kalandra"]);
}

#[test]
fn matches_keep_snapshot_order_not_score_order() {
    let s = market();
    let results = s.search("orb");
    assert_eq!(names(&results), vec!["Chaos Orb", "Divine Orb", "Orb of Alchemy"]);
}

#[test]
fn search_on_empty_snapshot() {
    let s = Snapshot { records: Vec::new(), fetched_at: None };
    assert!(s.search("").is_empty());
    assert!(s.search("anything").is_empty());
}

#[test]
fn find_exact_hits_and_misses() {
    let s = market();
    let hit = s.find_exact("Divine Orb").expect("present name");
    assert_eq!(hit.value, "180");
    assert!(s.find_exact("divine orb").is_none());
    assert!(s.find_exact("Divine").is_none());
    assert!(s.find_exact("").is_none());
}

#[test]
fn find_exact_returns_first_of_duplicates() {
    let s = Snapshot {
        records: vec![rec("Chaos Orb", "first"), rec("Chaos Orb", "second")],
        fetched_at: Some(0),
    };
    let hit = s.find_exact("Chaos Orb").expect("present name");
    assert_eq!(hit.value, "first");
}
