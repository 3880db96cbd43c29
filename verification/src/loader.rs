//! The dataset loader's decisions: serve the cache, refresh from the remote
//! source, or fall back. The loader never fails its caller: it always yields
//! the best snapshot available, down to the empty sentinel.
//!
//! The surrounding binary performs the reads, the fetch and the writes; this
//! module decides. `plan_load` says whether the network must be consulted,
//! and `resolve_fetch` says what a consulted fetch's outcome means: a success
//! fully replaces whatever was cached and is persisted, a failure degrades to
//! the cached snapshot when one exists, else to the empty sentinel. The full
//! operation is the mathematical function `load_spec`, and the laws below are
//! proved of it.
use vstd::prelude::*;

use crate::codec::encodable;
use crate::codec::lemma_cache_text_roundtrip;
use crate::codec::snapshot_text;
use crate::codec::spec_parse_snapshot;
use crate::snapshot::empty_snapshot_view;
use crate::snapshot::is_fresh;
use crate::snapshot::is_fresh_at;
use crate::snapshot::Snapshot;
use crate::snapshot::SnapshotView;

verus! {

/// Why a fetch failed. None of these is fatal to the loader: each merely
/// triggers the fallback rule.
#[derive(PartialEq, Eq, Structural, Clone, Copy, Debug)]
pub enum FetchError {
    /// The provider answered with a non-success status, which is carried.
    RemoteRejected(u16),
    /// The provider's body did not parse into the expected record shape.
    MalformedResponse,
    /// The provider could not be reached: timeout, connection failure, or an
    /// interrupted request.
    Unreachable,
}

/// Classifies a response status: any status other than success is a
/// rejection that carries the status.
pub fn classify_status(status: u16) -> (r: Option<FetchError>)
    ensures
        r == if status != 200 {
            Some(FetchError::RemoteRejected(status))
        } else {
            None::<FetchError>
        },
{
    if status != 200 {
        Some(FetchError::RemoteRejected(status))
    } else {
        None
    }
}

/// The mathematical value of a possibly absent cached snapshot.
pub open spec fn cached_view(cached: Option<Snapshot>) -> Option<SnapshotView> {
    match cached {
        Some(s) => Some(s@),
        None => None,
    }
}

/// The mathematical value of a fetch outcome.
pub open spec fn fetched_view(fetched: Result<Snapshot, FetchError>) -> Result<
    SnapshotView,
    FetchError,
> {
    match fetched {
        Ok(s) => Ok(s@),
        Err(e) => Err(e),
    }
}

/// Whether a load must consult the network: yes unless a cached snapshot
/// exists and is fresh.
pub open spec fn needs_fetch(cached: Option<SnapshotView>, now: int, threshold_minutes: int) -> bool {
    !(cached matches Some(c) && is_fresh_at(c, now, threshold_minutes))
}

/// What a consulted fetch's outcome resolves to: a success replaces, a
/// failure degrades to the cached snapshot when one exists, else to the
/// empty sentinel.
pub open spec fn resolved_snapshot(
    cached: Option<SnapshotView>,
    fetched: Result<SnapshotView, FetchError>,
) -> SnapshotView {
    match fetched {
        Ok(s) => s,
        Err(_) => match cached {
            Some(c) => c,
            None => empty_snapshot_view(),
        },
    }
}

/// The whole load operation: the snapshot it returns, whether the network
/// was consulted, and whether the cache slot is overwritten. `fetched` is
/// what the remote fetch would return, consulted only when needed.
pub open spec fn load_spec(
    cached: Option<SnapshotView>,
    now: int,
    threshold_minutes: int,
    fetched: Result<SnapshotView, FetchError>,
) -> (SnapshotView, bool, bool) {
    if !needs_fetch(cached, now, threshold_minutes) {
        (cached->0, false, false)
    } else {
        (resolved_snapshot(cached, fetched), true, fetched is Ok)
    }
}

/// The loader's first decision: serve the cached snapshot as it stands, or
/// consult the network. The hot path — a fresh cached snapshot — never
/// touches the network.
pub fn plan_load(cached: &Option<Snapshot>, now: i64, threshold_minutes: i64) -> (fetch_needed:
    bool)
    ensures
        fetch_needed == needs_fetch(cached_view(*cached), now as int, threshold_minutes as int),
{
    match cached {
        None => true,
        Some(s) => !is_fresh(s, now, threshold_minutes),
    }
}

/// What one load resolves to once a fetch was consulted: the snapshot to
/// hand the caller, and whether it must be persisted to the cache slot.
pub struct LoadResolution {
    pub snapshot: Snapshot,
    pub persist: bool,
}

/// The loader's second decision, applied to a consulted fetch's outcome.
/// A successful fetch fully replaces any cached data and is persisted; a
/// failed fetch never merges partial data: the cached snapshot is returned
/// unchanged when one exists, else the empty sentinel.
pub fn resolve_fetch(cached: Option<Snapshot>, fetched: Result<Snapshot, FetchError>) -> (r:
    LoadResolution)
    ensures
        r.snapshot@ == resolved_snapshot(cached_view(cached), fetched_view(fetched)),
        r.persist == (fetched is Ok),
{
    match fetched {
        Ok(s) => LoadResolution { snapshot: s, persist: true },
        Err(_) => match cached {
            Some(c) => LoadResolution { snapshot: c, persist: false },
            None => LoadResolution { snapshot: Snapshot::new(), persist: false },
        },
    }
}

/// Relies on chrono's `Local::now`: the current instant, as seconds since
/// the epoch. An absolute instant, independent of the local time zone.
#[verifier::external_body]
fn now_timestamp() -> i64 {
    chrono::Local::now().timestamp()
}

/// The first decision against the clock: reads the current instant and says
/// whether the network must be consulted, returning the instant it decided
/// at. The decision is exactly `needs_fetch` at that instant.
pub fn plan_load_now(cached: &Option<Snapshot>, threshold_minutes: i64) -> (r: (i64, bool))
    ensures
        r.1 == needs_fetch(cached_view(*cached), r.0 as int, threshold_minutes as int),
{
    let now = now_timestamp();
    (now, plan_load(cached, now, threshold_minutes))
}

/// Loading twice against a fresh cache is idempotent: both loads return the
/// cached snapshot identically, and neither consults the network or writes
/// the cache — whatever any fetch would have returned.
pub proof fn lemma_load_idempotent(
    c: SnapshotView,
    now1: int,
    now2: int,
    threshold_minutes: int,
    f1: Result<SnapshotView, FetchError>,
    f2: Result<SnapshotView, FetchError>,
)
    requires
        is_fresh_at(c, now1, threshold_minutes),
        is_fresh_at(c, now2, threshold_minutes),
    ensures
        load_spec(Some(c), now1, threshold_minutes, f1) == (c, false, false),
        load_spec(Some(c), now2, threshold_minutes, f2) == (c, false, false),
        load_spec(Some(c), now1, threshold_minutes, f1) == load_spec(
            Some(c),
            now2,
            threshold_minutes,
            f2,
        ),
{
}

/// Fallback ordering: a stale cached snapshot and a failing fetch yield
/// exactly the cached snapshot, unchanged — not the sentinel — and nothing
/// is written.
pub proof fn lemma_fallback_stale(
    s_old: SnapshotView,
    now: int,
    threshold_minutes: int,
    e: FetchError,
)
    requires
        !is_fresh_at(s_old, now, threshold_minutes),
    ensures
        load_spec(Some(s_old), now, threshold_minutes, Err(e)) == (s_old, true, false),
{
}

/// Fallback to empty: no cache entry and a failing fetch yield the empty
/// sentinel — no freshness marker, no records — and nothing is written.
pub proof fn lemma_fallback_empty(now: int, threshold_minutes: int, e: FetchError)
    ensures
        load_spec(None, now, threshold_minutes, Err(e)) == (empty_snapshot_view(), true, false),
        load_spec(None, now, threshold_minutes, Err(e)).0.fetched_at is None,
        load_spec(None, now, threshold_minutes, Err(e)).0.records.len() == 0,
{
}

/// Refresh replaces: when the cache is absent or stale and the fetch
/// succeeds, the load returns the fetched snapshot, the slot is overwritten,
/// and the written text reads back as exactly that snapshot.
pub proof fn lemma_refresh_replaces(
    cached: Option<SnapshotView>,
    now: int,
    threshold_minutes: int,
    s_new: SnapshotView,
)
    requires
        needs_fetch(cached, now, threshold_minutes),
        encodable(s_new),
    ensures
        load_spec(cached, now, threshold_minutes, Ok(s_new)) == (s_new, true, true),
        spec_parse_snapshot(snapshot_text(s_new)) == Some(s_new),
{
    lemma_cache_text_roundtrip(s_new);
}

} // verus!
