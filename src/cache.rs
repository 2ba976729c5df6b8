use vstd::prelude::*;

use crate::fetch::{now_seconds, FetchError};
use crate::pollen::Pollen;
use crate::snapshot::{OutOfRange, Silam, SilamView, STALE_AFTER_SECONDS};

verus! {

/// What the refresh loop does on a tick.
#[derive(Debug, Clone, Copy, PartialEq, Eq, Structural)]
pub enum RefreshAction {
    /// The snapshot is fresh: nothing to do until the next tick.
    Wait,
    /// The snapshot is stale: fetch a new one off to the side.
    Fetch,
}

/// The snapshot held after a refresh that produced `fetched` (`None` when
/// the fetch failed): the new snapshot as a whole, or the old one untouched.
pub open spec fn refresh_result(held: SilamView, fetched: Option<SilamView>) -> SilamView {
    match fetched {
        Some(s) => s,
        None => held,
    }
}

/// Holds the current snapshot. Queries borrow it for their duration; a
/// refresh replaces it whole.
pub struct SnapshotCache {
    current: Silam,
}

impl View for SnapshotCache {
    type V = SilamView;

    closed spec fn view(&self) -> SilamView {
        self.current@
    }
}

impl SnapshotCache {
    /// A cache holding the snapshot of the initial fetch.
    pub fn new(initial: Silam) -> (r: SnapshotCache)
        ensures
            r@ == initial@,
    {
        SnapshotCache { current: initial }
    }

    /// The current snapshot, borrowed for the duration of one query.
    pub fn snapshot(&self) -> (r: &Silam)
        ensures
            r@ == self@,
    {
        &self.current
    }

    /// Instant the current snapshot was fetched.
    pub fn fetched_at(&self) -> (r: i64)
        ensures
            r == self@.fetch_time,
    {
        self.current.fetch_time()
    }

    /// Readings for the hours `offset .. offset + length` at the grid node
    /// nearest to the rotated coordinates (`lon`, `lat`), from the current
    /// snapshot.
    pub fn get_series(&self, lon: Option<i64>, lat: Option<i64>, offset: usize, length: usize) -> (r:
        Result<Vec<Pollen>, OutOfRange>)
        ensures
            match r {
                Ok(v) => offset + length <= self@.n_times && v@ == self@.series(
                    lon,
                    lat,
                    offset as int,
                    length as nat,
                ),
                Err(e) => offset + length > self@.n_times && e.available == self@.n_times,
            },
    {
        self.current.series_at(lon, lat, offset, length)
    }

    /// The refresh loop's decision on a tick at the instant `now`.
    pub fn next_action(&self, now: i64) -> (r: RefreshAction)
        ensures
            r == (if self@.is_stale_at(now as int) {
                RefreshAction::Fetch
            } else {
                RefreshAction::Wait
            }),
    {
        if self.current.is_stale_at(now) {
            RefreshAction::Fetch
        } else {
            RefreshAction::Wait
        }
    }

    /// The refresh loop's decision on a tick now, by the system clock.
    pub fn tick(&self) -> (r: RefreshAction)
        ensures
            exists|now: i64|
                r == (if #[trigger] self@.is_stale_at(now as int) {
                    RefreshAction::Fetch
                } else {
                    RefreshAction::Wait
                }),
    {
        let now = now_seconds();
        let r = self.next_action(now);
        assert(self@.is_stale_at(now as int) ==> r == RefreshAction::Fetch);
        r
    }

    /// Whether the current snapshot is stale now, by the system clock.
    pub fn is_stale(&self) -> (r: bool)
        ensures
            exists|now: i64| r == #[trigger] self@.is_stale_at(now as int),
    {
        let r = self.current.is_stale();
        proof {
            let now = choose|now: i64| r == #[trigger] self.current@.is_stale_at(now as int);
            assert(r == self@.is_stale_at(now as int));
        }
        r
    }

    /// Seconds until the current snapshot is stale, by the system clock.
    pub fn time_until_stale(&self) -> (r: u64)
        ensures
            exists|now: i64| r == #[trigger] self@.time_until_stale_at(now as int),
    {
        let r = self.current.time_until_stale();
        proof {
            let now = choose|now: i64| r == #[trigger] self.current@.time_until_stale_at(now as int);
            assert(r == self@.time_until_stale_at(now as int));
        }
        r
    }

    /// Ends a refresh: a fetched snapshot replaces the current one in a
    /// single move; on a failed fetch the current one stays as it was, to be
    /// retried on a later tick.
    pub fn finish_refresh(&mut self, outcome: Result<Silam, FetchError>)
        ensures
            final(self)@ == refresh_result(
                old(self)@,
                match outcome {
                    Ok(s) => Some(s@),
                    Err(_) => None,
                },
            ),
    {
        match outcome {
            Ok(s) => {
                self.current = s;
            },
            Err(_) => {},
        }
    }
}

/// A snapshot is not stale at the instant it was fetched, is still fresh one
/// second before twelve hours have passed, and is stale from exactly twelve
/// hours after the fetch on.
pub proof fn lemma_stale_boundary(v: SilamView, now: int)
    ensures
        !v.is_stale_at(v.fetch_time),
        v.time_until_stale_at(v.fetch_time) == STALE_AFTER_SECONDS,
        !v.is_stale_at(v.fetch_time + STALE_AFTER_SECONDS - 1),
        v.is_stale_at(v.fetch_time + STALE_AFTER_SECONDS),
        v.time_until_stale_at(v.fetch_time + STALE_AFTER_SECONDS) == 0,
        v.is_stale_at(now) <==> now >= v.fetch_time + STALE_AFTER_SECONDS,
        v.is_stale_at(now) <==> v.time_until_stale_at(now) == 0,
{
}

/// A refresh never leaves a mixture: the held snapshot afterwards is the old
/// one or the fetched one as a whole, so its fetch instant and every series
/// it answers are those of one of the two.
pub proof fn lemma_refresh_is_whole(
    held: SilamView,
    fetched: Option<SilamView>,
    lon: Option<i64>,
    lat: Option<i64>,
    offset: int,
    length: nat,
)
    ensures
        ({
            let after = refresh_result(held, fetched);
            ||| after == held && after.fetch_time == held.fetch_time && after.series(
                lon,
                lat,
                offset,
                length,
            ) == held.series(lon, lat, offset, length)
            ||| fetched matches Some(f) && after == f && after.fetch_time == f.fetch_time
                && after.series(lon, lat, offset, length) == f.series(lon, lat, offset, length)
        }),
{
}

/// A failed refresh changes nothing a reader can observe: the fetch instant,
/// the staleness at every instant and every series stay as they were.
pub proof fn lemma_failed_refresh_keeps_results(
    held: SilamView,
    lon: Option<i64>,
    lat: Option<i64>,
    offset: int,
    length: nat,
    now: int,
)
    ensures
        refresh_result(held, None).fetch_time == held.fetch_time,
        refresh_result(held, None).is_stale_at(now) == held.is_stale_at(now),
        refresh_result(held, None).series(lon, lat, offset, length) == held.series(
            lon,
            lat,
            offset,
            length,
        ),
{
}

} // verus!
