use pollen_party::fetch::{
    build_url, current_fetch_request, decode_fetched, decode_snapshot, fetch_request,
    request_window, RawDataset, FETCH_HOURS,
};
use pollen_party::snapshot::{RawField, SnapshotError, Variable};

const PREFIX: &str = "https://thredds.silam.fmi.fi/thredds/ncss/grid/silam_europe_pollen_v5_9/silam_europe_pollen_v5_9_best.ncd?var=POLI&var=POLISRC&north=75.950&west=-47.600&east=78.059&south=19.003&horizStride=1&accept=netcdf4ext&addLatLon=true&time_start=";

// 2026-10-19T12:34:56Z
const NOW: i64 = 1_792_413_296;
// 2026-10-18T00:00:00Z
const YESTERDAY_MIDNIGHT: i64 = 1_792_281_600;

#[test]
fn window_starts_at_midnight_the_day_before() {
    let (start, end) = request_window(NOW).unwrap();
    assert_eq!(start, YESTERDAY_MIDNIGHT);
    assert_eq!(end, YESTERDAY_MIDNIGHT + 4 * 86_400 - 3_600);
    assert_eq!((end - start) / 3_600 + 1, FETCH_HOURS as i64);
}

#[test]
fn window_at_exact_midnight() {
    let (start, _) = request_window(YESTERDAY_MIDNIGHT + 86_400).unwrap();
    assert_eq!(start, YESTERDAY_MIDNIGHT);
}

#[test]
fn window_before_the_epoch() {
    // 1969-12-31T06:00:00Z: the day before began on 1969-12-30
    let (start, _) = request_window(-64_800).unwrap();
    assert_eq!(start, -2 * 86_400);
}

#[test]
fn window_that_cannot_be_represented() {
    assert_eq!(request_window(i64::MIN), None);
    assert_eq!(request_window(i64::MAX), None);
}

#[test]
fn url_names_the_window_and_contact() {
    let u = build_url("A", "B", &None);
    assert_eq!(u, format!("{}A&time_end=B", PREFIX));
    let u = build_url("A", "B", &Some("me@example.org".to_string()));
    assert_eq!(u, format!("{}A&time_end=B&email=me@example.org", PREFIX));
}

#[test]
fn request_formats_the_window_as_rfc3339() {
    let q = fetch_request(NOW, &None).unwrap();
    assert_eq!(q.start_time, YESTERDAY_MIDNIGHT);
    assert_eq!(
        q.url,
        format!("{}2026-10-18T00:00:00Z&time_end=2026-10-21T23:00:00Z", PREFIX)
    );
    let q = fetch_request(NOW, &Some("a@b.c".to_string())).unwrap();
    assert!(q.url.ends_with("&time_end=2026-10-21T23:00:00Z&email=a@b.c"));
}

#[test]
fn request_out_of_range_is_none() {
    assert!(fetch_request(i64::MAX, &None).is_none());
}

fn dataset(n_times: usize) -> RawDataset {
    RawDataset {
        rlon: Some(vec![-2_000_000, 0, 2_000_000]),
        rlat: Some(vec![-1_000_000, 1_000_000]),
        poli: Some(RawField { shape: vec![n_times, 2, 3], codes: vec![3; n_times * 6] }),
        polisrc: Some(RawField { shape: vec![n_times, 2, 3], codes: vec![2; n_times * 6] }),
    }
}

#[test]
fn complete_dataset_decodes() {
    let s = decode_snapshot(NOW, YESTERDAY_MIDNIGHT, dataset(FETCH_HOURS)).unwrap();
    assert_eq!(s.n_times(), FETCH_HOURS);
    assert_eq!(s.fetch_time(), NOW);
    assert_eq!(s.start_time(), YESTERDAY_MIDNIGHT);
    assert_eq!(s.get_at_coords(Some(0), Some(0)).len(), FETCH_HOURS);
}

#[test]
fn missing_variables_are_reported_in_order() {
    let mut d = dataset(FETCH_HOURS);
    d.rlon = None;
    d.poli = None;
    assert_eq!(
        decode_snapshot(NOW, YESTERDAY_MIDNIGHT, d).err(),
        Some(SnapshotError::Missing(Variable::Rlon))
    );
    let mut d = dataset(FETCH_HOURS);
    d.rlat = None;
    assert_eq!(
        decode_snapshot(NOW, YESTERDAY_MIDNIGHT, d).err(),
        Some(SnapshotError::Missing(Variable::Rlat))
    );
    let mut d = dataset(FETCH_HOURS);
    d.poli = None;
    assert_eq!(
        decode_snapshot(NOW, YESTERDAY_MIDNIGHT, d).err(),
        Some(SnapshotError::Missing(Variable::Poli))
    );
    let mut d = dataset(FETCH_HOURS);
    d.polisrc = None;
    assert_eq!(
        decode_snapshot(NOW, YESTERDAY_MIDNIGHT, d).err(),
        Some(SnapshotError::Missing(Variable::Polisrc))
    );
}

#[test]
fn short_time_axis_is_refused() {
    assert_eq!(
        decode_snapshot(NOW, YESTERDAY_MIDNIGHT, dataset(FETCH_HOURS - 1)).err(),
        Some(SnapshotError::TooFewHours)
    );
}

#[test]
fn structural_errors_come_before_the_hour_count() {
    let mut d = dataset(4);
    d.rlat = Some(vec![5, 4]);
    assert_eq!(
        decode_snapshot(NOW, YESTERDAY_MIDNIGHT, d).err(),
        Some(SnapshotError::UnsortedAxis(Variable::Rlat))
    );
}

#[test]
fn current_request_starts_at_a_midnight() {
    let q = current_fetch_request(&None).unwrap();
    assert_eq!(q.start_time % 86_400, 0);
    assert!(q.start_time > YESTERDAY_MIDNIGHT - 86_400 * 365 * 50);
    assert!(q.url.starts_with(PREFIX));
    assert!(q.url.contains("T00:00:00Z&time_end="));
    assert!(q.url.ends_with("T23:00:00Z"));
}

#[test]
fn decoding_now_stamps_the_current_instant() {
    let s = decode_fetched(YESTERDAY_MIDNIGHT, dataset(FETCH_HOURS)).unwrap();
    assert!(s.fetch_time() >= 1_700_000_000);
    assert!(!s.is_stale());
    assert!(s.time_until_stale() > 43_000);
    assert_eq!(
        decode_fetched(YESTERDAY_MIDNIGHT, dataset(3)).err(),
        Some(SnapshotError::TooFewHours)
    );
}

#[test]
fn far_but_representable_window_gets_a_request() {
    // about 220,000 years after the epoch
    let q = fetch_request(7_000_000_000_000, &None).unwrap();
    assert_eq!(q.start_time % 86_400, 0);
    assert!(q.url.starts_with(PREFIX));
    let q = fetch_request(-7_000_000_000_000, &None).unwrap();
    assert_eq!(q.start_time % 86_400, 0);
}
