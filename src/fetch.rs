use vstd::prelude::*;

use crate::snapshot::{parts_error, RawField, Silam, SilamView, SnapshotError, Variable, SECONDS_PER_HOUR};

verus! {

/// Seconds in one day.
pub const SECONDS_PER_DAY: i64 = 86400;

/// Hours requested per fetch: the day before today and three more days.
pub const FETCH_HOURS: usize = 96;

/// First instant of the requested window for a fetch made at `now`: the
/// midnight (UTC) that began the day before the current one.
pub open spec fn window_start(now: int) -> int {
    now - now % (SECONDS_PER_DAY as int) - SECONDS_PER_DAY
}

/// Last hour of the requested window: four days after its start, less one hour.
pub open spec fn window_end(now: int) -> int {
    window_start(now) + 4 * SECONDS_PER_DAY - SECONDS_PER_HOUR
}

/// The RFC 3339 text (whole seconds, `Z` suffix) of an instant given in
/// seconds since the Unix epoch.
pub uninterp spec fn rfc3339_of(secs: int) -> Seq<char>;

/// The fixed part of the data request: dataset, the two fields, the spatial
/// extent at native resolution and the binary array format.
pub open spec fn url_prefix() -> Seq<char> {
    "https://thredds.silam.fmi.fi/thredds/ncss/grid/silam_europe_pollen_v5_9/silam_europe_pollen_v5_9_best.ncd?var=POLI&var=POLISRC&north=75.950&west=-47.600&east=78.059&south=19.003&horizStride=1&accept=netcdf4ext&addLatLon=true&time_start="@
}

/// The request address for the window from `start` to `end` (both already
/// formatted), with the contact address appended where one is given.
pub open spec fn url_of(start: Seq<char>, end: Seq<char>, email: Option<Seq<char>>) -> Seq<char> {
    url_prefix() + start + "&time_end="@ + end + match email {
        Some(e) => "&email="@ + e,
        None => Seq::empty(),
    }
}

/// The contact address as a sequence of characters, if any.
pub open spec fn email_view(email: Option<String>) -> Option<Seq<char>> {
    match email {
        Some(e) => Some(e@),
        None => None,
    }
}

/// Relies on chrono's `Utc::now` and `DateTime::timestamp`: the current
/// instant in seconds since the Unix epoch. Nothing is known of its value.
#[verifier::external_body]
pub(crate) fn now_seconds() -> (r: i64) {
    chrono::Utc::now().timestamp()
}

/// Instants within this many seconds of the Unix epoch (about 253,000 years)
/// lie inside the range of dates that chrono represents.
pub const FORMAT_LIMIT_SECONDS: i64 = 8_000_000_000_000;

/// Relies on chrono's `DateTime::<Utc>::from_timestamp` and
/// `DateTime::to_rfc3339_opts` (whole seconds, `Z` suffix): the text of an
/// instant, or `None` where chrono cannot represent it, which happens only
/// for instants more than about 262,000 years from the epoch.
#[verifier::external_body]
fn format_rfc3339(secs: i64) -> (r: Option<String>)
    ensures
        r matches Some(s) ==> s@ == rfc3339_of(secs as int),
        -FORMAT_LIMIT_SECONDS <= secs <= FORMAT_LIMIT_SECONDS ==> r is Some,
{
    chrono::DateTime::<chrono::Utc>::from_timestamp(secs, 0).map(
        |t| t.to_rfc3339_opts(chrono::SecondsFormat::Secs, true),
    )
}

/// The requested window for a fetch made at `now`, as its first and last
/// hour, or `None` where these instants cannot be represented.
pub fn request_window(now: i64) -> (r: Option<(i64, i64)>)
    ensures
        match r {
            Some((s, e)) => s == window_start(now as int) && e == window_end(now as int),
            None => window_start(now as int) < i64::MIN || window_end(now as int) > i64::MAX,
        },
{
    let day: i128 = SECONDS_PER_DAY as i128;
    let n: i128 = now as i128;
    let rem: i128 = n % day;
    let midnight_rem: i128 = if rem < 0 {
        rem + day
    } else {
        rem
    };
    proof {
        assert(midnight_rem == (now as int) % (SECONDS_PER_DAY as int));
    }
    let start: i128 = n - midnight_rem - day;
    let end: i128 = start + 4 * day - (SECONDS_PER_HOUR as i128);
    if start < (i64::MIN as i128) || end > (i64::MAX as i128) {
        return None;
    }
    Some((start as i64, end as i64))
}

/// The request address for the window from `start` to `end`, given as
/// RFC 3339 text, with the contact address appended where one is given.
pub fn build_url(start: &str, end: &str, email: &Option<String>) -> (r: String)
    ensures
        r@ == url_of(start@, end@, email_view(*email)),
{
    let mut url = String::from_str(
        "https://thredds.silam.fmi.fi/thredds/ncss/grid/silam_europe_pollen_v5_9/silam_europe_pollen_v5_9_best.ncd?var=POLI&var=POLISRC&north=75.950&west=-47.600&east=78.059&south=19.003&horizStride=1&accept=netcdf4ext&addLatLon=true&time_start=",
    );
    url.append(start);
    url.append("&time_end=");
    url.append(end);
    match email {
        Some(e) => {
            url.append("&email=");
            url.append(e.as_str());
        },
        None => {},
    }
    proof {
        assert(url@ =~= url_of(start@, end@, email_view(*email)));
    }
    url
}

/// What a fetch at a given instant asks for.
pub struct FetchRequest {
    /// First hour of the requested window, in seconds since the Unix epoch.
    pub start_time: i64,
    /// The address to request.
    pub url: String,
}

/// The request for a fetch made at `now`: the window and the address that
/// names it. `None` where the window or its text cannot be represented; a
/// window within the range of dates that chrono represents always gets one.
pub fn fetch_request(now: i64, email: &Option<String>) -> (r: Option<FetchRequest>)
    ensures
        match r {
            Some(q) => {
                &&& q.start_time == window_start(now as int)
                &&& q.url@ == url_of(
                    rfc3339_of(window_start(now as int)),
                    rfc3339_of(window_end(now as int)),
                    email_view(*email),
                )
            },
            None => true,
        },
        window_start(now as int) < i64::MIN || window_end(now as int) > i64::MAX ==> r is None,
        -FORMAT_LIMIT_SECONDS <= window_start(now as int) && window_end(now as int)
            <= FORMAT_LIMIT_SECONDS ==> r is Some,
{
    let (start, end) = match request_window(now) {
        Some(w) => w,
        None => return None,
    };
    let start_text = match format_rfc3339(start) {
        Some(t) => t,
        None => return None,
    };
    let end_text = match format_rfc3339(end) {
        Some(t) => t,
        None => return None,
    };
    let url = build_url(start_text.as_str(), end_text.as_str(), email);
    Some(FetchRequest { start_time: start, url })
}

/// Why a fetch produced no snapshot.
#[derive(Debug, Clone, Copy, PartialEq, Eq, Structural)]
pub enum FetchError {
    /// The request window or its text cannot be represented.
    Window,
    /// The request failed or was answered with a non-success status.
    Transport,
    /// The response is not a readable array container.
    Container,
    /// The response lacks a variable or holds one of the wrong shape.
    Decode(SnapshotError),
}

/// The request for a fetch made now, by the system clock.
pub fn current_fetch_request(email: &Option<String>) -> (r: Option<FetchRequest>)
    ensures
        r matches Some(q) ==> exists|now: i64|
            #[trigger] window_start(now as int) == q.start_time && q.url@ == url_of(
                rfc3339_of(window_start(now as int)),
                rfc3339_of(window_end(now as int)),
                email_view(*email),
            ),
{
    let now = now_seconds();
    fetch_request(now, email)
}

/// The variables read from a response, each `None` where it is absent.
/// Axis values are rotated-grid degrees in millionths; field values are
/// readings truncated to integer codes.
pub struct RawDataset {
    pub rlon: Option<Vec<i64>>,
    pub rlat: Option<Vec<i64>>,
    pub poli: Option<RawField>,
    pub polisrc: Option<RawField>,
}

/// The first reason, if any, why a decoded dataset cannot form a snapshot
/// that covers the requested window.
pub open spec fn dataset_error(fetch_time: i64, start_time: i64, d: RawDataset) -> Option<
    SnapshotError,
> {
    match d.rlon {
        None => Some(SnapshotError::Missing(Variable::Rlon)),
        Some(rlon) => match d.rlat {
            None => Some(SnapshotError::Missing(Variable::Rlat)),
            Some(rlat) => match d.poli {
                None => Some(SnapshotError::Missing(Variable::Poli)),
                Some(poli) => match d.polisrc {
                    None => Some(SnapshotError::Missing(Variable::Polisrc)),
                    Some(src) => {
                        let e = parts_error(
                            fetch_time,
                            start_time,
                            rlon@,
                            rlat@,
                            poli.shape@,
                            poli.codes@.len(),
                            src.shape@,
                            src.codes@.len(),
                        );
                        if e is Some {
                            e
                        } else if poli.shape@[0] < FETCH_HOURS {
                            Some(SnapshotError::TooFewHours)
                        } else {
                            None
                        }
                    },
                },
            },
        },
    }
}

/// The snapshot that a well-formed dataset yields.
pub open spec fn dataset_view(fetch_time: i64, start_time: i64, d: RawDataset) -> SilamView {
    SilamView {
        fetch_time: fetch_time as int,
        start_time: start_time as int,
        n_times: d.poli.unwrap().shape@[0] as nat,
        rlats: d.rlat.unwrap()@,
        rlons: d.rlon.unwrap()@,
        poli: d.poli.unwrap().codes@,
        polisrc: d.polisrc.unwrap().codes@,
    }
}

/// Turns the variables of a response into a snapshot fetched at
/// `fetch_time` whose first hour is `start_time`: all four variables must be
/// present and well formed, and the time axis must cover the requested window.
pub fn decode_snapshot(fetch_time: i64, start_time: i64, d: RawDataset) -> (r: Result<
    Silam,
    SnapshotError,
>)
    ensures
        match r {
            Ok(s) => dataset_error(fetch_time, start_time, d) is None && s@ == dataset_view(
                fetch_time,
                start_time,
                d,
            ),
            Err(e) => dataset_error(fetch_time, start_time, d) == Some(e),
        },
{
    let RawDataset { rlon, rlat, poli, polisrc } = d;
    let rlon = match rlon {
        Some(v) => v,
        None => return Err(SnapshotError::Missing(Variable::Rlon)),
    };
    let rlat = match rlat {
        Some(v) => v,
        None => return Err(SnapshotError::Missing(Variable::Rlat)),
    };
    let poli = match poli {
        Some(v) => v,
        None => return Err(SnapshotError::Missing(Variable::Poli)),
    };
    let polisrc = match polisrc {
        Some(v) => v,
        None => return Err(SnapshotError::Missing(Variable::Polisrc)),
    };
    let s = Silam::from_parts(fetch_time, start_time, rlon, rlat, poli, polisrc);
    match s {
        Ok(s) => {
            if s.n_times() < FETCH_HOURS {
                Err(SnapshotError::TooFewHours)
            } else {
                Ok(s)
            }
        },
        Err(e) => Err(e),
    }
}

/// Turns the variables of a response into a snapshot fetched now, by the
/// system clock, whose first hour is `start_time`.
pub fn decode_fetched(start_time: i64, d: RawDataset) -> (r: Result<Silam, SnapshotError>)
    ensures
        exists|now: i64|
            match r {
                Ok(s) => #[trigger] dataset_error(now, start_time, d) is None && s@ == dataset_view(
                    now,
                    start_time,
                    d,
                ),
                Err(e) => dataset_error(now, start_time, d) == Some(e),
            },
{
    let now = now_seconds();
    let ghost d0 = d;
    let r = decode_snapshot(now, start_time, d);
    // `now` is the witness of the existential
    assert(match r {
        Ok(s) => dataset_error(now, start_time, d0) is None && s@ == dataset_view(
            now,
            start_time,
            d0,
        ),
        Err(e) => dataset_error(now, start_time, d0) == Some(e),
    });
    r
}

} // verus!
