//! The snapshot data model and the freshness policy.
//!
//! A `Snapshot` is one fetched-or-cached dataset for a (league, dataset type)
//! key: an ordered sequence of priced records and a freshness marker.
//! `fetched_at` is the instant the data was obtained, as seconds since the
//! epoch; `None` is the empty sentinel, meaning no data was ever obtained.
//! The core never interprets a record's price: it is carried as the decimal
//! text the provider gave, and only the display name is read by the matcher.
use vstd::prelude::*;

verus! {

/// Default freshness threshold, in minutes: a cached snapshot younger than
/// this is served without touching the network.
pub const CACHE_THRESHOLD: i64 = 15;

/// One priced entity of a snapshot. Only `display_name` is interpreted by
/// the core; `value` is the price's decimal text, carried as opaque payload.
#[derive(Debug, PartialEq, Eq)]
pub struct Record {
    pub display_name: String,
    pub value: String,
}

/// The mathematical value of a `Record`: both fields as character sequences.
#[verifier::ext_equal]
pub ghost struct RecordView {
    pub display_name: Seq<char>,
    pub value: Seq<char>,
}

impl View for Record {
    type V = RecordView;

    open spec fn view(&self) -> RecordView {
        RecordView { display_name: self.display_name@, value: self.value@ }
    }
}

impl Clone for Record {
    fn clone(&self) -> (r: Self)
        ensures
            r == *self,
    {
        Record { display_name: self.display_name.clone(), value: self.value.clone() }
    }
}

/// One fetched-or-cached dataset: records in provider order, and the instant
/// the data was obtained (seconds since the epoch), or `None` for the empty
/// sentinel that stands for "no data ever obtained".
#[derive(Debug, PartialEq, Eq)]
pub struct Snapshot {
    pub records: Vec<Record>,
    pub fetched_at: Option<i64>,
}

/// The mathematical value of a `Snapshot`.
#[verifier::ext_equal]
pub ghost struct SnapshotView {
    pub records: Seq<RecordView>,
    pub fetched_at: Option<int>,
}

impl View for Snapshot {
    type V = SnapshotView;

    open spec fn view(&self) -> SnapshotView {
        SnapshotView {
            records: self.records@.map_values(|r: Record| r@),
            fetched_at: match self.fetched_at {
                Some(t) => Some(t as int),
                None => None,
            },
        }
    }
}

impl Clone for Snapshot {
    fn clone(&self) -> (r: Self)
        ensures
            r@ == self@,
    {
        let mut records: Vec<Record> = Vec::new();
        let n = self.records.len();
        let mut i: usize = 0;
        proof {
            assert(records@.map_values(|x: Record| x@) =~= self@.records.take(0));
        }
        while i < n
            invariant
                n == self.records.len(),
                i <= n,
                records@.map_values(|x: Record| x@) == self@.records.take(i as int),
            decreases n - i,
        {
            let rec = self.records[i].clone();
            let ghost old_views = records@.map_values(|x: Record| x@);
            proof {
                assert(rec@ == self.records@[i as int]@);
                assert(self@.records[i as int] == self.records@[i as int]@);
            }
            records.push(rec);
            proof {
                assert(records@.map_values(|x: Record| x@) =~= old_views.push(rec@));
                assert(self@.records.take(i as int + 1) =~= self@.records.take(i as int).push(
                    self@.records[i as int],
                ));
            }
            i = i + 1;
        }
        let r = Snapshot { records: records, fetched_at: self.fetched_at };
        proof {
            assert(self@.records.take(n as int) =~= self@.records);
            assert(r@ =~= self@);
        }
        r
    }
}

/// The empty sentinel as a mathematical value.
pub open spec fn empty_snapshot_view() -> SnapshotView {
    SnapshotView { records: Seq::empty(), fetched_at: None }
}

impl Snapshot {
    /// The empty sentinel: no records, no freshness marker. It is what the
    /// loader returns when neither cache nor remote source can supply data,
    /// and it is never written to the cache.
    pub fn new() -> (s: Snapshot)
        ensures
            s@ == empty_snapshot_view(),
    {
        let s = Snapshot { records: Vec::new(), fetched_at: None };
        proof {
            assert(s@.records =~= Seq::<RecordView>::empty());
            assert(s@ =~= empty_snapshot_view());
        }
        s
    }
}

/// Whether a snapshot fetched at `s.fetched_at` is still usable at instant
/// `now` under a threshold of `threshold_minutes`: the sentinel is never
/// fresh, and otherwise the elapsed time must be strictly under the
/// threshold. Instants are absolute (seconds since the epoch), so the
/// comparison does not depend on any local time zone.
pub open spec fn is_fresh_at(s: SnapshotView, now: int, threshold_minutes: int) -> bool {
    match s.fetched_at {
        None => false,
        Some(f) => now - f < threshold_minutes * 60,
    }
}

/// The freshness policy: pure, no I/O. Returns `true` iff the snapshot
/// carries a freshness marker and strictly less than `threshold_minutes`
/// minutes elapsed between it and `now`.
pub fn is_fresh(s: &Snapshot, now: i64, threshold_minutes: i64) -> (r: bool)
    ensures
        r == is_fresh_at(s@, now as int, threshold_minutes as int),
{
    match s.fetched_at {
        None => false,
        Some(f) => (now as i128) - (f as i128) < (threshold_minutes as i128) * 60,
    }
}

/// A snapshot whose marker says it was fetched `d` seconds before `now` is
/// fresh under a threshold of `t` minutes exactly when `d` is under `t`
/// minutes of seconds; the empty sentinel is never fresh, whatever the
/// threshold.
pub proof fn lemma_freshness_threshold(s: SnapshotView, now: int, d: int, t: int)
    requires
        s.fetched_at == Some(now - d),
    ensures
        is_fresh_at(s, now, t) == (d < t * 60),
        !is_fresh_at(empty_snapshot_view(), now, t),
{
}

} // verus!
