use pollen_party::cache::{RefreshAction, SnapshotCache};
use pollen_party::fetch::FetchError;
use pollen_party::snapshot::{RawField, Silam, SnapshotError};

const START: i64 = 1_792_281_600;

fn snapshot(fetched: i64, code: i32) -> Silam {
    Silam::from_parts(
        fetched,
        START,
        vec![0, 10],
        vec![0, 10],
        RawField { shape: vec![3, 2, 2], codes: vec![code; 12] },
        RawField { shape: vec![3, 2, 2], codes: vec![code; 12] },
    )
    .unwrap()
}

#[test]
fn fresh_cache_waits_and_stale_cache_fetches() {
    let c = SnapshotCache::new(snapshot(START, 1));
    assert_eq!(c.next_action(START), RefreshAction::Wait);
    assert_eq!(c.next_action(START + 43_199), RefreshAction::Wait);
    assert_eq!(c.next_action(START + 43_200), RefreshAction::Fetch);
    assert_eq!(c.next_action(START + 100_000), RefreshAction::Fetch);
}

#[test]
fn successful_refresh_replaces_the_whole_snapshot() {
    let mut c = SnapshotCache::new(snapshot(START, 1));
    let before = c.get_series(Some(3), Some(3), 0, 3).unwrap();
    c.finish_refresh(Ok(snapshot(START + 50_000, 4)));
    assert_eq!(c.fetched_at(), START + 50_000);
    let after = c.get_series(Some(3), Some(3), 0, 3).unwrap();
    assert_ne!(before, after);
    assert_eq!(after, c.snapshot().series_at(Some(3), Some(3), 0, 3).unwrap());
    assert_eq!(c.next_action(START + 50_000), RefreshAction::Wait);
}

#[test]
fn failed_refresh_keeps_the_old_snapshot() {
    let mut c = SnapshotCache::new(snapshot(START, 2));
    let before = c.get_series(Some(7), Some(-3), 1, 2).unwrap();
    c.finish_refresh(Err(FetchError::Transport));
    assert_eq!(c.fetched_at(), START);
    assert_eq!(c.get_series(Some(7), Some(-3), 1, 2).unwrap(), before);
    c.finish_refresh(Err(FetchError::Decode(SnapshotError::TooFewHours)));
    assert_eq!(c.fetched_at(), START);
    assert_eq!(c.get_series(Some(7), Some(-3), 1, 2).unwrap(), before);
    assert_eq!(c.next_action(START + 43_200), RefreshAction::Fetch);
}

#[test]
fn reader_keeps_its_snapshot_for_the_whole_query() {
    let mut c = SnapshotCache::new(snapshot(START, 1));
    let first = {
        let s = c.snapshot();
        let a = s.series_at(Some(0), Some(0), 0, 1).unwrap();
        let b = s.series_at(Some(0), Some(0), 1, 2).unwrap();
        assert_eq!(s.fetch_time(), START);
        (a, b)
    };
    c.finish_refresh(Ok(snapshot(START + 60_000, 5)));
    assert_eq!(first.0[0].pollen_index, pollen_party::pollen::PollenIndex::VeryLow);
    assert_eq!(first.1.len(), 2);
    assert_eq!(c.fetched_at(), START + 60_000);
}

#[test]
fn clock_based_staleness_of_an_old_snapshot() {
    let c = SnapshotCache::new(snapshot(1_000, 1));
    assert!(c.is_stale());
    assert_eq!(c.time_until_stale(), 0);
    assert_eq!(c.tick(), RefreshAction::Fetch);
    assert!(c.snapshot().is_stale());
    assert_eq!(c.snapshot().time_until_stale(), 0);
}

#[test]
fn out_of_range_window_from_the_cache() {
    let c = SnapshotCache::new(snapshot(START, 1));
    assert!(c.get_series(Some(0), Some(0), 2, 2).is_err());
}
