use exilian::codec::parse_cache_text;
use exilian::snapshot::{Record, Snapshot};

fn rec(name: &str, value: &str) -> Record {
    Record { display_name: name.to_string(), value: value.to_string() }
}

fn snap(records: Vec<Record>, fetched_at: i64) -> Snapshot {
    Snapshot { records, fetched_at: Some(fetched_at) }
}

#[test]
fn exact_text_of_small_snapshot() {
    let s = snap(vec![rec("ab", "1.5")], 60);
    assert_eq!(s.to_cache_text(), "60\n2:ab\n3:1.5\n");
}

#[test]
fn exact_text_of_negative_instant() {
    let s = snap(vec![], -42);
    assert_eq!(s.to_cache_text(), "-42\n");
}

#[test]
fn roundtrip_simple() {
    let s = snap(vec![rec("Chaos Orb", "1"), rec("Divine Orb", "180")], 1_700_000_000);
    let text = s.to_cache_text();
    let back = parse_cache_text(&text).expect("written text must read back");
    assert_eq!(back, s);
}

#[test]
fn roundtrip_hostile_field_contents() {
    // Field contents may hold line breaks, colons, digits, and characters
    // beyond ASCII; the length prefix carries them through.
    let s = snap(
        vec![
            rec("a\nb:c", "12:34\n56"),
            rec("", ""),
            rec("7:x\n", "-1"),
            rec("Ñandú ☼ Orb", "0.5"),
        ],
        -9_000_000,
    );
    let text = s.to_cache_text();
    let back = parse_cache_text(&text).expect("written text must read back");
    assert_eq!(back, s);
}

#[test]
fn roundtrip_extreme_instants() {
    for ts in [i64::MIN, i64::MAX, 0, -1, 1] {
        let s = snap(vec![rec("x", "y")], ts);
        let back = parse_cache_text(&s.to_cache_text()).expect("written text must read back");
        assert_eq!(back, s);
    }
}

#[test]
fn corrupt_texts_read_as_absent() {
    let bad = [
        "",
        "\n",
        "abc",
        "60",
        "60\n2:ab",
        "60\n2:ab\n3:1.5",
        "60\n2:ab\nX",
        "60\nab\n",
        "60\n2 ab\n",
        "60\n5:ab\n3:1.5\n",
        "-\n",
        "--5\n",
        "60\n18446744073709551616:x\n",
        "9223372036854775808\n",
        "-9223372036854775809\n",
        "60\n2:ab\n3:1.5\nx",
        "60\n2:ab\n3:1.5\n\n",
    ];
    for text in bad {
        assert!(parse_cache_text(text).is_none(), "accepted corrupt text {:?}", text);
    }
}

#[test]
fn noncanonical_numbers_still_parse() {
    // A reader is lenient about leading zeros; only the value matters.
    let back = parse_cache_text("007\n").expect("leading zeros are readable");
    assert_eq!(back.fetched_at, Some(7));
    assert!(back.records.is_empty());
}

#[test]
fn instant_extremes_parse_exactly() {
    let min = parse_cache_text("-9223372036854775808\n").expect("minimum instant");
    assert_eq!(min.fetched_at, Some(i64::MIN));
    let max = parse_cache_text("9223372036854775807\n").expect("maximum instant");
    assert_eq!(max.fetched_at, Some(i64::MAX));
}
