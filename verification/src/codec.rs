//! The cache file format: a human-readable text codec for snapshots.
//!
//! A cache slot holds one serialized snapshot: the freshness instant as a
//! signed decimal on the first line, then each record as two length-prefixed
//! fields (display name, then price text), one per line. Length prefixes let
//! field contents hold any character, line breaks included.
//!
//! Reading is total: any text that is not exactly the encoding of a snapshot
//! is rejected, and the store treats it as an absent slot. The round-trip
//! law `lemma_cache_text_roundtrip` states that every encodable snapshot
//! survives the write-then-read trip unchanged.
use vstd::prelude::*;

use crate::numerals::all_digits;
use crate::numerals::char_digit;
use crate::numerals::dec_digits;
use crate::numerals::dec_int;
use crate::numerals::dec_val;
use crate::numerals::digit_run_len;
use crate::numerals::digit_val;
use crate::numerals::i64_to_dec;
use crate::numerals::is_digit;
use crate::numerals::lemma_digit_run_at_least;
use crate::numerals::lemma_digit_run_digits;
use crate::numerals::lemma_digit_run_le;
use crate::numerals::lemma_dec_digits_shape;
use crate::numerals::lemma_dec_val_extend;
use crate::numerals::lemma_digit_run_exact;
use crate::numerals::lemma_parse_i64_of_dec;
use crate::numerals::lemma_parse_u64_bounds;
use crate::numerals::lemma_parse_u64_of_digits;
use crate::numerals::spec_parse_i64;
use crate::numerals::spec_parse_u64;
use crate::numerals::u64_to_dec;
use crate::snapshot::Record;
use crate::snapshot::RecordView;
use crate::snapshot::Snapshot;
use crate::snapshot::SnapshotView;

verus! {

/// One encoded field: its character count, a colon, the characters, a
/// line break.
pub open spec fn field_text(f: Seq<char>) -> Seq<char> {
    dec_digits(f.len()) + seq![':'] + f + seq!['\n']
}

/// One encoded record: its display name, then its price text.
pub open spec fn record_text(r: RecordView) -> Seq<char> {
    field_text(r.display_name) + field_text(r.value)
}

/// All records of a snapshot, in order.
pub open spec fn records_text(rs: Seq<RecordView>) -> Seq<char>
    decreases rs.len(),
{
    if rs.len() == 0 {
        Seq::empty()
    } else {
        record_text(rs[0]) + records_text(rs.skip(1))
    }
}

/// The full encoded snapshot: the freshness instant, a line break, the
/// records. Only snapshots that carry an instant are ever written.
pub open spec fn snapshot_text(v: SnapshotView) -> Seq<char>
    recommends
        v.fetched_at is Some,
{
    dec_int(v.fetched_at->0) + seq!['\n'] + records_text(v.records)
}

/// What the encoding can carry: an instant within the signed machine-word
/// range, and field lengths within the unsigned one. Every snapshot the
/// executable code builds satisfies this.
pub open spec fn encodable(v: SnapshotView) -> bool {
    &&& v.fetched_at matches Some(t) && i64::MIN <= t <= i64::MAX
    &&& forall|i: int|
        0 <= i < v.records.len() ==> (#[trigger] v.records[i]).display_name.len() <= u64::MAX
            && v.records[i].value.len() <= u64::MAX
}

/// Reading one field: the length, the colon, that many characters, the
/// line break; the field's characters and how far the field reaches.
pub open spec fn spec_parse_field(t: Seq<char>) -> Option<(Seq<char>, int)> {
    match spec_parse_u64(t) {
        None => None,
        Some((flen, k)) => if k < t.len() && t[k] == ':' && k + 1 + flen <= t.len() {
            if k + 1 + flen < t.len() && t[k + 1 + flen] == '\n' {
                Some((t.subrange(k + 1, k + 1 + flen), k + 1 + flen + 1))
            } else {
                None
            }
        } else {
            None
        },
    }
}

/// Reading one record: two fields in a row.
pub open spec fn spec_parse_record(t: Seq<char>) -> Option<(RecordView, int)> {
    match spec_parse_field(t) {
        None => None,
        Some((name, k1)) => match spec_parse_field(t.skip(k1)) {
            None => None,
            Some((value, k2)) => Some((RecordView { display_name: name, value: value }, k1 + k2)),
        },
    }
}

/// Reading records until the text is exhausted; any leftover that is no
/// record rejects the whole text.
pub open spec fn spec_parse_records(t: Seq<char>) -> Option<Seq<RecordView>>
    decreases t.len(),
{
    if t.len() == 0 {
        Some(Seq::empty())
    } else {
        match spec_parse_record(t) {
            None => None,
            Some((r, k)) => if 1 <= k <= t.len() {
                match spec_parse_records(t.skip(k)) {
                    None => None,
                    Some(rs) => Some(seq![r] + rs),
                }
            } else {
                None
            },
        }
    }
}

/// Reading a whole snapshot: the instant line, then records to the end.
pub open spec fn spec_parse_snapshot(t: Seq<char>) -> Option<SnapshotView> {
    match spec_parse_i64(t) {
        None => None,
        Some((ts, k)) => if k < t.len() && t[k] == '\n' {
            match spec_parse_records(t.skip(k + 1)) {
                None => None,
                Some(rs) => Some(SnapshotView { records: rs, fetched_at: Some(ts) }),
            }
        } else {
            None
        },
    }
}

/// A field parse lands within the text and yields a field that fits the
/// length prefix's range.
pub proof fn lemma_parse_field_consumed(t: Seq<char>)
    ensures
        spec_parse_field(t) matches Some(p) ==> 1 <= p.1 <= t.len() && p.0.len() <= u64::MAX,
{
    lemma_parse_u64_bounds(t);
}

/// Reading the encoding of a field gives the field back and consumes exactly
/// the encoding, whatever text follows it.
pub proof fn lemma_field_roundtrip(f: Seq<char>, rest: Seq<char>)
    requires
        f.len() <= u64::MAX,
    ensures
        spec_parse_field(field_text(f) + rest) == Some((f, field_text(f).len() as int)),
{
    let d = dec_digits(f.len());
    let tail = seq![':'] + f + seq!['\n'] + rest;
    let t = field_text(f) + rest;
    assert(t =~= d + tail);
    assert(!is_digit(':'));
    lemma_parse_u64_of_digits(f.len(), tail);
    let k = d.len() as int;
    assert(spec_parse_u64(t) == Some((f.len() as int, k)));
    assert(t[k] == ':');
    assert(t.len() == k + 1 + f.len() + 1 + rest.len());
    assert(t.subrange(k + 1, k + 1 + f.len() as int) =~= f);
    assert(t[k + 1 + f.len() as int] == '\n');
}

/// Reading the encoding of a record gives the record back and consumes
/// exactly the encoding, whatever text follows it.
pub proof fn lemma_record_roundtrip(r: RecordView, rest: Seq<char>)
    requires
        r.display_name.len() <= u64::MAX,
        r.value.len() <= u64::MAX,
    ensures
        spec_parse_record(record_text(r) + rest) == Some((r, record_text(r).len() as int)),
{
    let t = record_text(r) + rest;
    assert(t =~= field_text(r.display_name) + (field_text(r.value) + rest));
    lemma_field_roundtrip(r.display_name, field_text(r.value) + rest);
    let k1 = field_text(r.display_name).len() as int;
    assert(t.skip(k1) =~= field_text(r.value) + rest);
    lemma_field_roundtrip(r.value, rest);
    assert(spec_parse_record(t) matches Some(p) && p.0 =~= r);
}

/// Reading the encoding of a record sequence, and nothing more, gives the
/// sequence back.
pub proof fn lemma_records_roundtrip(rs: Seq<RecordView>)
    requires
        forall|i: int|
            0 <= i < rs.len() ==> (#[trigger] rs[i]).display_name.len() <= u64::MAX
                && rs[i].value.len() <= u64::MAX,
    ensures
        spec_parse_records(records_text(rs)) == Some(rs),
    decreases rs.len(),
{
    if rs.len() == 0 {
    } else {
        let t = records_text(rs);
        let head = rs[0];
        let tail_text = records_text(rs.skip(1));
        lemma_record_roundtrip(head, tail_text);
        let k = record_text(head).len() as int;
        assert(field_text(head.display_name).len() >= 3) by {
            lemma_dec_digits_shape(head.display_name.len());
        }
        assert(t.len() == k + tail_text.len());
        assert(t.skip(k) =~= tail_text);
        assert(forall|i: int|
            0 <= i < rs.skip(1).len() ==> (#[trigger] rs.skip(1)[i]).display_name.len()
                <= u64::MAX && rs.skip(1)[i].value.len() <= u64::MAX);
        lemma_records_roundtrip(rs.skip(1));
        assert(seq![head] + rs.skip(1) =~= rs);
    }
}

/// The round-trip law of the cache codec: reading back the written text of
/// any encodable snapshot yields exactly that snapshot.
pub proof fn lemma_cache_text_roundtrip(v: SnapshotView)
    requires
        encodable(v),
    ensures
        spec_parse_snapshot(snapshot_text(v)) == Some(v),
{
    let ts = v.fetched_at->0;
    let rest = seq!['\n'] + records_text(v.records);
    let t = snapshot_text(v);
    assert(t =~= dec_int(ts) + rest);
    assert(!is_digit('\n'));
    lemma_parse_i64_of_dec(ts, rest);
    let k = dec_int(ts).len() as int;
    assert(t[k] == '\n');
    assert(t.skip(k + 1) =~= records_text(v.records));
    lemma_records_roundtrip(v.records);
    assert(spec_parse_snapshot(t) matches Some(w) && w =~= v);
}

/// Reads the digit run at `pos`: its value and the position after it, or
/// nothing when no digit stands at `pos` or the run's value overflows.
fn parse_u64_at(s: &str, pos: usize, slen: usize) -> (r: Option<(u64, usize)>)
    requires
        slen == s@.len(),
        pos <= slen,
    ensures
        match spec_parse_u64(s@.skip(pos as int)) {
            Some(p) => r matches Some(q) && q.0 as int == p.0 && q.1 as int == pos + p.1,
            None => r is None,
        },
{
    let ghost suffix = s@.skip(pos as int);
    let mut i: usize = pos;
    let mut acc: u128 = 0;
    loop
        invariant
            slen == s@.len(),
            pos <= i <= slen,
            suffix == s@.skip(pos as int),
            forall|j: int| pos <= j < i ==> is_digit(#[trigger] s@[j]),
            acc == dec_val(s@.subrange(pos as int, i as int)),
            acc <= u64::MAX,
        ensures
            i == slen || !is_digit(s@[i as int]),
        decreases slen - i,
    {
        if i >= slen {
            break ;
        }
        let c = s.get_char(i);
        match char_digit(c) {
            None => {
                break ;
            },
            Some(d) => {
                let next: u128 = acc * 10 + d as u128;
                proof {
                    let seen = s@.subrange(pos as int, i as int);
                    let seen1 = s@.subrange(pos as int, i as int + 1);
                    assert(seen1 =~= seen.push(c));
                    assert(seen1.drop_last() =~= seen);
                    assert(dec_val(seen1) == dec_val(seen) * 10 + digit_val(c));
                }
                if next > u64::MAX as u128 {
                    proof {
                        // The run's full value can only exceed what the
                        // digits seen so far already spell.
                        let m = i + 1 - pos;
                        lemma_digit_run_at_least(suffix, m as int);
                        lemma_digit_run_le(suffix);
                        lemma_digit_run_digits(suffix);
                        let run = digit_run_len(suffix) as int;
                        let whole = suffix.take(run);
                        let head = suffix.take(m as int);
                        assert(head =~= s@.subrange(pos as int, i as int + 1));
                        assert(whole =~= head + whole.subrange(m as int, run));
                        assert(all_digits(head));
                        assert(all_digits(whole.subrange(m as int, run)));
                        lemma_dec_val_extend(head, whole.subrange(m as int, run));
                        assert(dec_val(whole) >= dec_val(head));
                        assert(dec_val(head) == next);
                        assert(spec_parse_u64(suffix) is None);
                    }
                    return None;
                }
                acc = next;
                i = i + 1;
            },
        }
    }
    proof {
        assert forall|j: int| 0 <= j < i - pos implies is_digit(#[trigger] suffix[j]) by {
            assert(suffix[j] == s@[pos + j]);
        }
        if (i - pos) < suffix.len() {
            assert(suffix[i - pos] == s@[i as int]);
        }
        lemma_digit_run_exact(suffix, i - pos);
    }
    if i == pos {
        None
    } else {
        proof {
            assert(suffix.take(i - pos) =~= s@.subrange(pos as int, i as int));
        }
        Some((acc as u64, i))
    }
}

/// Reads a signed number at `pos`: an optional minus sign, then a digit run,
/// held to the signed machine-word range.
fn parse_i64_at(s: &str, pos: usize, slen: usize) -> (r: Option<(i64, usize)>)
    requires
        slen == s@.len(),
        pos <= slen,
    ensures
        match spec_parse_i64(s@.skip(pos as int)) {
            Some(p) => r matches Some(q) && q.0 as int == p.0 && q.1 as int == pos + p.1,
            None => r is None,
        },
{
    let ghost suffix = s@.skip(pos as int);
    if pos < slen && s.get_char(pos) == '-' {
        proof {
            assert(suffix[0] == s@[pos as int]);
            assert(suffix.skip(1) =~= s@.skip(pos as int + 1));
        }
        match parse_u64_at(s, pos + 1, slen) {
            None => None,
            Some((v, np)) => {
                if v <= 9223372036854775808u64 {
                    Some((((-(v as i128)) as i64), np))
                } else {
                    None
                }
            },
        }
    } else {
        proof {
            if suffix.len() > 0 {
                assert(suffix[0] == s@[pos as int]);
            }
        }
        match parse_u64_at(s, pos, slen) {
            None => None,
            Some((v, np)) => {
                if v <= i64::MAX as u64 {
                    Some((v as i64, np))
                } else {
                    None
                }
            },
        }
    }
}

/// Reads one length-prefixed field at `pos`: its characters and the position
/// after its closing line break.
fn parse_field_at(s: &str, pos: usize, slen: usize) -> (r: Option<(String, usize)>)
    requires
        slen == s@.len(),
        pos <= slen,
    ensures
        match spec_parse_field(s@.skip(pos as int)) {
            Some(p) => r matches Some(q) && q.0@ == p.0 && q.1 as int == pos + p.1 && q.1 <= slen,
            None => r is None,
        },
{
    let ghost suffix = s@.skip(pos as int);
    match parse_u64_at(s, pos, slen) {
        None => None,
        Some((flen64, p1)) => {
            proof {
                lemma_parse_u64_bounds(suffix);
            }
            if p1 < slen && s.get_char(p1) == ':' {
                proof {
                    assert(suffix[p1 - pos] == s@[p1 as int]);
                }
                let remaining = slen - (p1 + 1);
                if flen64 <= remaining as u64 {
                    let flen = flen64 as usize;
                    let fstart = p1 + 1;
                    let fend = fstart + flen;
                    let fstr = s.substring_char(fstart, fend);
                    proof {
                        assert(suffix.subrange(
                            (p1 - pos) + 1,
                            (p1 - pos) + 1 + flen as int,
                        ) =~= s@.subrange(fstart as int, fend as int));
                    }
                    if fend < slen && s.get_char(fend) == '\n' {
                        proof {
                            assert(suffix[fend - pos] == s@[fend as int]);
                        }
                        Some((fstr.to_owned(), fend + 1))
                    } else {
                        proof {
                            if (fend - pos) < suffix.len() {
                                assert(suffix[fend - pos] == s@[fend as int]);
                            }
                        }
                        None
                    }
                } else {
                    None
                }
            } else {
                proof {
                    if (p1 - pos) < suffix.len() {
                        assert(suffix[p1 - pos] == s@[p1 as int]);
                    }
                }
                None
            }
        },
    }
}

/// Reads one record at `pos`: two fields in a row.
fn parse_record_at(s: &str, pos: usize, slen: usize) -> (r: Option<(Record, usize)>)
    requires
        slen == s@.len(),
        pos <= slen,
    ensures
        match spec_parse_record(s@.skip(pos as int)) {
            Some(p) => r matches Some(q) && q.0@ == p.0 && q.1 as int == pos + p.1 && pos < q.1
                <= slen,
            None => r is None,
        },
{
    let ghost suffix = s@.skip(pos as int);
    match parse_field_at(s, pos, slen) {
        None => None,
        Some((name, p1)) => {
            proof {
                lemma_parse_field_consumed(suffix);
                assert(suffix.skip(p1 - pos) =~= s@.skip(p1 as int));
            }
            match parse_field_at(s, p1, slen) {
                None => None,
                Some((value, p2)) => {
                    let rec = Record { display_name: name, value: value };
                    proof {
                        lemma_parse_field_consumed(s@.skip(p1 as int));
                        let p = spec_parse_record(suffix)->0;
                        assert(rec@ =~= p.0);
                    }
                    Some((rec, p2))
                },
            }
        },
    }
}

/// Reads a whole cache slot's text back into a snapshot. Any text that is
/// not exactly the encoding of a snapshot yields nothing; the store treats
/// that as an absent slot.
pub fn parse_cache_text(s: &str) -> (r: Option<Snapshot>)
    ensures
        match spec_parse_snapshot(s@) {
            Some(v) => r matches Some(snap) && snap@ == v,
            None => r is None,
        },
{
    let slen = s.unicode_len();
    proof {
        assert(s@.skip(0) =~= s@);
    }
    match parse_i64_at(s, 0, slen) {
        None => None,
        Some((ts, p)) => {
            if p < slen && s.get_char(p) == '\n' {
                proof {
                    assert(spec_parse_i64(s@) == Some((ts as int, p as int)));
                }
                let ghost base = s@.skip(p as int + 1);
                let mut pos: usize = p + 1;
                let mut records: Vec<Record> = Vec::new();
                loop
                    invariant
                        slen == s@.len(),
                        pos <= slen,
                        base == s@.skip(p as int + 1),
                        p < slen,
                        spec_parse_i64(s@) == Some((ts as int, p as int)),
                        s@[p as int] == '\n',
                        match spec_parse_records(s@.skip(pos as int)) {
                            Some(tail) => spec_parse_records(base) == Some(
                                records@.map_values(|x: Record| x@) + tail,
                            ),
                            None => spec_parse_records(base) is None,
                        },
                    ensures
                        pos == slen,
                    decreases slen - pos,
                {
                    if pos >= slen {
                        break ;
                    }
                    let ghost t0 = s@.skip(pos as int);
                    match parse_record_at(s, pos, slen) {
                        None => {
                            proof {
                                assert(t0.len() > 0);
                                assert(spec_parse_records(t0) is None);
                            }
                            return None;
                        },
                        Some((rec, np)) => {
                            proof {
                                let k = np - pos;
                                assert(t0.skip(k as int) =~= s@.skip(np as int));
                                let old_views = records@.map_values(|x: Record| x@);
                                match spec_parse_records(s@.skip(np as int)) {
                                    Some(tail2) => {
                                        assert(spec_parse_records(t0) == Some(
                                            seq![rec@] + tail2,
                                        ));
                                        assert(old_views + (seq![rec@] + tail2) =~= (
                                        old_views.push(rec@)) + tail2);
                                        assert(records@.push(rec).map_values(|x: Record| x@)
                                            =~= old_views.push(rec@));
                                    },
                                    None => {
                                        assert(spec_parse_records(t0) is None);
                                    },
                                }
                            }
                            records.push(rec);
                            pos = np;
                        },
                    }
                }
                proof {
                    assert(s@.skip(pos as int).len() == 0);
                    assert(spec_parse_records(s@.skip(pos as int)) == Some(
                        Seq::<RecordView>::empty(),
                    ));
                    let views = records@.map_values(|x: Record| x@);
                    assert(views + Seq::<RecordView>::empty() =~= views);
                }
                let snap = Snapshot { records: records, fetched_at: Some(ts) };
                proof {
                    assert(s@[p as int] == s@.skip(0)[p as int]);
                    assert(snap@ =~= spec_parse_snapshot(s@)->0);
                }
                Some(snap)
            } else {
                proof {
                    if p < slen {
                        assert(s@[p as int] == s@.skip(0)[p as int]);
                    }
                }
                None
            }
        },
    }
}

/// Appends the encoding of one field.
fn append_field(out: &mut String, f: &str)
    ensures
        final(out)@ == old(out)@ + field_text(f@),
{
    let flen = f.unicode_len();
    let digits = u64_to_dec(flen as u64);
    out.append(digits.as_str());
    proof {
        reveal_strlit(":");
        reveal_strlit("\n");
    }
    out.append(":");
    out.append(f);
    out.append("\n");
    proof {
        assert(":"@ =~= seq![':']);
        assert("\n"@ =~= seq!['\n']);
        assert(out@ =~= old(out)@ + field_text(f@));
    }
}

impl Snapshot {
    /// Writes the snapshot as cache text. Only snapshots that carry data are
    /// ever written: the empty sentinel never reaches the cache.
    pub fn to_cache_text(&self) -> (out: String)
        requires
            self@.fetched_at is Some,
        ensures
            out@ == snapshot_text(self@),
    {
        let ts: i64 = match self.fetched_at {
            Some(t) => t,
            None => vstd::pervasive::unreached(),
        };
        let mut out = i64_to_dec(ts);
        proof {
            reveal_strlit("\n");
        }
        out.append("\n");
        proof {
            assert("\n"@ =~= seq!['\n']);
            assert(self@.records.take(0) =~= Seq::<RecordView>::empty());
            assert(records_text(self@.records.take(0)) =~= Seq::<char>::empty());
            assert(out@ =~= dec_int(self@.fetched_at->0) + seq!['\n'] + records_text(
                self@.records.take(0),
            ));
        }
        let n = self.records.len();
        let mut i: usize = 0;
        while i < n
            invariant
                n == self.records.len(),
                i <= n,
                out@ == dec_int(self@.fetched_at->0) + seq!['\n'] + records_text(
                    self@.records.take(i as int),
                ),
            decreases n - i,
        {
            let rec = &self.records[i];
            append_field(&mut out, rec.display_name.as_str());
            append_field(&mut out, rec.value.as_str());
            proof {
                lemma_records_text_snoc(self@.records, i as int);
                assert(self@.records[i as int] == self.records@[i as int]@);
                assert(record_text(self@.records[i as int]) == field_text(
                    rec.display_name@,
                ) + field_text(rec.value@));
                assert(out@ =~= dec_int(self@.fetched_at->0) + seq!['\n'] + records_text(
                    self@.records.take(i as int + 1),
                ));
            }
            i = i + 1;
        }
        proof {
            assert(self@.records.take(n as int) =~= self@.records);
        }
        out
    }
}

/// Splitting a record sequence splits its text.
pub proof fn lemma_records_text_concat(a: Seq<RecordView>, b: Seq<RecordView>)
    ensures
        records_text(a + b) == records_text(a) + records_text(b),
    decreases a.len(),
{
    if a.len() == 0 {
        assert(a + b =~= b);
        assert(records_text(a) =~= Seq::<char>::empty());
        assert(records_text(a) + records_text(b) =~= records_text(b));
    } else {
        assert((a + b)[0] == a[0]);
        assert((a + b).skip(1) =~= a.skip(1) + b);
        lemma_records_text_concat(a.skip(1), b);
        assert(records_text(a + b) =~= records_text(a) + records_text(b));
    }
}

/// Appending one record to a prefix extends the prefix's text by that
/// record's text.
pub proof fn lemma_records_text_snoc(rs: Seq<RecordView>, i: int)
    requires
        0 <= i < rs.len(),
    ensures
        records_text(rs.take(i + 1)) == records_text(rs.take(i)) + record_text(rs[i]),
{
    let single = seq![rs[i]];
    assert(rs.take(i + 1) =~= rs.take(i) + single);
    lemma_records_text_concat(rs.take(i), single);
    assert(single.skip(1) =~= Seq::<RecordView>::empty());
    assert(records_text(single.skip(1)) =~= Seq::<char>::empty());
    assert(single[0] == rs[i]);
    assert(records_text(single) == record_text(rs[i]) + records_text(single.skip(1)));
    assert(records_text(single) =~= record_text(rs[i]));
}

} // verus!
