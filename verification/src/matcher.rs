//! Approximate-match search over a snapshot's records, and exact lookup.
//!
//! The scoring function is fuzzy-matcher's skim algorithm, taken as a black
//! box: deterministic for identical inputs, and named here as `skim_score`.
//! `search` is a stable filter: it keeps every record whose display name the
//! scorer matches at all, in the snapshot's original order, never re-ranked.
use vstd::prelude::*;

use crate::catalog::str_eq;
use crate::snapshot::Record;
use crate::snapshot::RecordView;
use crate::snapshot::Snapshot;

verus! {

/// What fuzzy-matcher's skim scorer, in its default configuration, answers
/// for a choice string and a pattern: a score when it matches, nothing when
/// it does not. A function of the two strings alone.
pub uninterp spec fn skim_score(choice: Seq<char>, pattern: Seq<char>) -> Option<i64>;

/// Relies on fuzzy-matcher's `SkimMatcherV2::fuzzy_match` in the default
/// configuration: the answer depends on the two strings alone, and an empty
/// pattern matches any choice, with score zero.
#[verifier::external_body]
fn fuzzy_match_score(choice: &str, pattern: &str) -> (r: Option<i64>)
    ensures
        r == skim_score(choice@, pattern@),
        pattern@.len() == 0 ==> r == Some(0i64),
{
    let matcher = fuzzy_matcher::skim::SkimMatcherV2::default();
    fuzzy_matcher::FuzzyMatcher::fuzzy_match(&matcher, choice, pattern)
}

/// Whether a record belongs to a query's results: its display name matches
/// with any confidence at all.
pub open spec fn matches_query(r: RecordView, query: Seq<char>) -> bool {
    skim_score(r.display_name, query) is Some
}

/// A query the scorer matches against every display name keeps all records,
/// in their original order: the search filter is then the identity.
pub proof fn lemma_match_all_keeps_all(rs: Seq<RecordView>, query: Seq<char>)
    requires
        forall|i: int| 0 <= i < rs.len() ==> matches_query(#[trigger] rs[i], query),
    ensures
        rs.filter(|r: RecordView| matches_query(r, query)) == rs,
    decreases rs.len(),
{
    reveal(Seq::filter);
    if rs.len() > 0 {
        let head = rs.drop_last();
        assert(forall|i: int| 0 <= i < head.len() ==> matches_query(#[trigger] head[i], query));
        lemma_match_all_keeps_all(head, query);
        assert(matches_query(rs.last(), query));
        assert(rs.filter(|r: RecordView| matches_query(r, query)) == head.push(rs.last()));
        assert(head.push(rs.last()) =~= rs);
    }
}

/// The first record bearing a display name, if any.
pub open spec fn first_named(rs: Seq<RecordView>, name: Seq<char>) -> Option<RecordView>
    decreases rs.len(),
{
    if rs.len() == 0 {
        None
    } else if rs[0].display_name == name {
        Some(rs[0])
    } else {
        first_named(rs.skip(1), name)
    }
}

impl Snapshot {
    /// Approximate search: keeps exactly the records whose display name the
    /// scorer matches, in the snapshot's original order. An empty query
    /// keeps every record.
    pub fn search(&self, query: &str) -> (results: Vec<Record>)
        ensures
            results@.map_values(|r: Record| r@) == self@.records.filter(
                |r: RecordView| matches_query(r, query@),
            ),
            query@.len() == 0 ==> results@.map_values(|r: Record| r@) == self@.records,
    {
        let ghost pred = |r: RecordView| matches_query(r, query@);
        let mut results: Vec<Record> = Vec::new();
        let n = self.records.len();
        let mut i: usize = 0;
        proof {
            reveal(Seq::filter);
            assert(self@.records.take(0) =~= Seq::<RecordView>::empty());
            assert(results@.map_values(|r: Record| r@) =~= self@.records.take(0).filter(pred));
        }
        while i < n
            invariant
                n == self.records.len(),
                i <= n,
                results@.map_values(|r: Record| r@) == self@.records.take(i as int).filter(pred),
                pred == (|r: RecordView| matches_query(r, query@)),
                query@.len() == 0 ==> results@.map_values(|r: Record| r@) == self@.records.take(
                    i as int,
                ),
            decreases n - i,
        {
            let line = &self.records[i];
            let ghost old_views = results@.map_values(|r: Record| r@);
            let score = fuzzy_match_score(line.display_name.as_str(), query);
            if score.is_some() {
                results.push(line.clone());
            }
            proof {
                reveal(Seq::filter);
                let taken = self@.records.take(i as int);
                let taken1 = self@.records.take(i as int + 1);
                assert(taken1.drop_last() =~= taken);
                assert(taken1.last() == self@.records[i as int]);
                assert(self@.records[i as int] == line@);
                if matches_query(line@, query@) {
                    assert(taken1.filter(pred) == taken.filter(pred).push(line@));
                    assert(results@.map_values(|r: Record| r@) =~= old_views.push(line@));
                } else {
                    assert(taken1.filter(pred) == taken.filter(pred));
                }
                if query@.len() == 0 {
                    assert(matches_query(line@, query@));
                    assert(taken1 =~= taken.push(line@));
                }
            }
            i = i + 1;
        }
        proof {
            assert(self@.records.take(n as int) =~= self@.records);
        }
        results
    }

    /// Exact lookup: the first record whose display name equals `name`, or
    /// nothing when no record bears it.
    pub fn find_exact(&self, name: &str) -> (r: Option<Record>)
        ensures
            match r {
                Some(rec) => first_named(self@.records, name@) == Some(rec@),
                None => first_named(self@.records, name@) is None,
            },
    {
        let n = self.records.len();
        let mut i: usize = 0;
        proof {
            assert(self@.records.skip(0) =~= self@.records);
        }
        while i < n
            invariant
                n == self.records.len(),
                i <= n,
                first_named(self@.records, name@) == first_named(
                    self@.records.skip(i as int),
                    name@,
                ),
            decreases n - i,
        {
            let line = &self.records[i];
            let ghost rest = self@.records.skip(i as int);
            proof {
                assert(rest[0] == self@.records[i as int]);
                assert(rest.skip(1) =~= self@.records.skip(i as int + 1));
            }
            if str_eq(line.display_name.as_str(), name) {
                return Some(line.clone());
            }
            i = i + 1;
        }
        proof {
            assert(self@.records.skip(n as int).len() == 0);
        }
        None
    }
}

} // verus!
