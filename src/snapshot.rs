use vstd::prelude::*;

use crate::fetch::now_seconds;
use crate::grid::{array_codes, array_shape, code_array_from_vec, code_at, nonzero_product, CodeArray};
use crate::locate::{find_closest, nearest_of, strictly_ascending};
use crate::pollen::{index_class, source_class, Pollen, PollenIndex, PollenType};

verus! {

/// Seconds in one hour of the time axis.
pub const SECONDS_PER_HOUR: i64 = 3600;

/// A snapshot goes stale this many seconds after it was fetched (12 hours).
pub const STALE_AFTER_SECONDS: i64 = 43200;

/// The four variables of a forecast dataset.
#[derive(Debug, Clone, Copy, PartialEq, Eq, Structural)]
pub enum Variable {
    /// Rotated-grid longitude axis.
    Rlon,
    /// Rotated-grid latitude axis.
    Rlat,
    /// Pollen index field.
    Poli,
    /// Pollen source-type field.
    Polisrc,
}

/// Why a set of arrays cannot form a snapshot.
#[derive(Debug, Clone, Copy, PartialEq, Eq, Structural)]
pub enum SnapshotError {
    /// A required variable is absent from the dataset.
    Missing(Variable),
    /// A field does not have exactly three dimensions.
    NotThreeDimensional(Variable),
    /// The two fields have different shapes.
    ShapeMismatch,
    /// A field holds a number of values other than the product of its shape,
    /// or a shape too large to index.
    DataLength(Variable),
    /// An axis is empty or its length differs from the matching field dimension.
    AxisLength(Variable),
    /// An axis is not strictly ascending.
    UnsortedAxis(Variable),
    /// The fetch instant or the last hour of the time axis cannot be represented.
    TimeOutOfRange,
    /// The time axis is shorter than the requested window.
    TooFewHours,
}

/// A field as decoded: its shape and its values truncated to integer codes,
/// in row-major order.
pub struct RawField {
    pub shape: Vec<usize>,
    pub codes: Vec<i32>,
}

/// A requested window of hours does not lie within the time axis.
#[derive(Debug, Clone, Copy, PartialEq, Eq, Structural)]
pub struct OutOfRange {
    /// Number of hours the snapshot covers.
    pub available: usize,
}

/// Mathematical content of a snapshot.
pub struct SilamView {
    pub fetch_time: int,
    pub start_time: int,
    pub n_times: nat,
    pub rlats: Seq<i64>,
    pub rlons: Seq<i64>,
    pub poli: Seq<i32>,
    pub polisrc: Seq<i32>,
}

impl SilamView {
    /// Shapes agree, axes are non-empty and strictly ascending, and every
    /// instant the snapshot names is representable.
    pub open spec fn wf(&self) -> bool {
        &&& self.rlats.len() > 0
        &&& self.rlons.len() > 0
        &&& strictly_ascending(self.rlats)
        &&& strictly_ascending(self.rlons)
        &&& self.poli.len() == self.n_times * self.rlats.len() * self.rlons.len()
        &&& self.polisrc.len() == self.poli.len()
        &&& i64::MIN <= self.fetch_time
        &&& self.fetch_time + STALE_AFTER_SECONDS <= i64::MAX
        &&& i64::MIN <= self.start_time
        &&& self.start_time + SECONDS_PER_HOUR * self.n_times <= i64::MAX
    }

    /// Position of cell (time `t`, latitude `la`, longitude `lo`) in the flat fields.
    pub open spec fn cell(&self, t: int, la: int, lo: int) -> int {
        (t * self.rlats.len() + la) * self.rlons.len() + lo
    }

    /// The classified reading of one cell, stamped with its hour.
    pub open spec fn reading(&self, t: int, la: int, lo: int) -> Pollen {
        Pollen {
            time: (self.start_time + SECONDS_PER_HOUR * t) as i64,
            pollen_index: index_class(self.poli[self.cell(t, la, lo)]),
            pollen_index_source: source_class(self.polisrc[self.cell(t, la, lo)]),
        }
    }

    /// Readings at the grid node nearest to the rotated coordinates
    /// (`lon`, `lat`) for the hours `offset .. offset + length`.
    pub open spec fn series(
        &self,
        lon: Option<i64>,
        lat: Option<i64>,
        offset: int,
        length: nat,
    ) -> Seq<Pollen> {
        Seq::new(
            length,
            |k: int| self.reading(offset + k, nearest_of(self.rlats, lat), nearest_of(self.rlons, lon)),
        )
    }

    /// The instant at which the snapshot goes stale.
    pub open spec fn stale_at(&self) -> int {
        self.fetch_time + STALE_AFTER_SECONDS
    }

    /// The snapshot is stale at `now` (the boundary instant included).
    pub open spec fn is_stale_at(&self, now: int) -> bool {
        now >= self.stale_at()
    }

    /// Seconds left until the snapshot is stale, never negative.
    pub open spec fn time_until_stale_at(&self, now: int) -> int {
        if self.stale_at() > now {
            self.stale_at() - now
        } else {
            0
        }
    }
}

/// A field of three axis lengths `shape` can hold `len` values: their count
/// is the product of the lengths, and the product of the lengths that are
/// not zero can be indexed.
pub open spec fn fits_shape(shape: Seq<usize>, len: nat) -> bool {
    &&& shape[0] * shape[1] * shape[2] == len
    &&& nonzero_product(shape[0], shape[1], shape[2]) <= isize::MAX
}

/// The first reason, if any, why the given parts cannot form a snapshot.
pub open spec fn parts_error(
    fetch_time: i64,
    start_time: i64,
    rlons: Seq<i64>,
    rlats: Seq<i64>,
    poli_shape: Seq<usize>,
    poli_len: nat,
    src_shape: Seq<usize>,
    src_len: nat,
) -> Option<SnapshotError> {
    if poli_shape.len() != 3 {
        Some(SnapshotError::NotThreeDimensional(Variable::Poli))
    } else if src_shape.len() != 3 {
        Some(SnapshotError::NotThreeDimensional(Variable::Polisrc))
    } else if poli_shape != src_shape {
        Some(SnapshotError::ShapeMismatch)
    } else if !fits_shape(poli_shape, poli_len) {
        Some(SnapshotError::DataLength(Variable::Poli))
    } else if !fits_shape(src_shape, src_len) {
        Some(SnapshotError::DataLength(Variable::Polisrc))
    } else if rlats.len() == 0 || rlats.len() != poli_shape[1] {
        Some(SnapshotError::AxisLength(Variable::Rlat))
    } else if rlons.len() == 0 || rlons.len() != poli_shape[2] {
        Some(SnapshotError::AxisLength(Variable::Rlon))
    } else if !strictly_ascending(rlats) {
        Some(SnapshotError::UnsortedAxis(Variable::Rlat))
    } else if !strictly_ascending(rlons) {
        Some(SnapshotError::UnsortedAxis(Variable::Rlon))
    } else if fetch_time + STALE_AFTER_SECONDS > i64::MAX || start_time + SECONDS_PER_HOUR
        * poli_shape[0] > i64::MAX {
        Some(SnapshotError::TimeOutOfRange)
    } else {
        None
    }
}

/// Checks that an axis is strictly ascending.
fn is_strictly_ascending(a: &Vec<i64>) -> (r: bool)
    ensures
        r == strictly_ascending(a@),
{
    let mut i: usize = 1;
    if a.len() == 0 {
        return true;
    }
    while i < a.len()
        invariant
            1 <= i <= a@.len(),
            forall|p: int, q: int| 0 <= p < q < i ==> #[trigger] a@[p] < #[trigger] a@[q],
        decreases a@.len() - i,
    {
        if a[i - 1] >= a[i] {
            assert(!(a@[i - 1] < a@[i as int]));
            return false;
        }
        assert forall|p: int, q: int| 0 <= p < q < i + 1 implies #[trigger] a@[p] < #[trigger] a@[q] by {
            if q == i && p < i - 1 {
                assert(a@[p] < a@[i - 1]);
            }
        }
        i = i + 1;
    }
    true
}

/// One immutable forecast snapshot: two rotated-grid axes, two fields of
/// integer codes indexed by (time, latitude, longitude), the instant of the
/// first hour and the instant the data was fetched. Instants are seconds since
/// the Unix epoch; axis values are rotated-grid degrees in millionths.
pub struct Silam {
    fetch_time: i64,
    start_time: i64,
    n_times: usize,
    poli: CodeArray,
    polisrc: CodeArray,
    rlats: Vec<i64>,
    rlons: Vec<i64>,
}

impl View for Silam {
    type V = SilamView;

    closed spec fn view(&self) -> SilamView {
        SilamView {
            fetch_time: self.fetch_time as int,
            start_time: self.start_time as int,
            n_times: self.n_times as nat,
            rlats: self.rlats@,
            rlons: self.rlons@,
            poli: array_codes(self.poli),
            polisrc: array_codes(self.polisrc),
        }
    }
}

impl Silam {
    #[verifier::type_invariant]
    spec fn inv(&self) -> bool {
        &&& self@.wf()
        &&& array_shape(self.poli).len() == 3
        &&& array_shape(self.poli)[0] == self.n_times
        &&& array_shape(self.poli)[1] == self.rlats@.len()
        &&& array_shape(self.poli)[2] == self.rlons@.len()
        &&& array_shape(self.polisrc) == array_shape(self.poli)
    }

    /// Builds a snapshot from its decoded parts, checking their structure.
    pub fn from_parts(
        fetch_time: i64,
        start_time: i64,
        rlons: Vec<i64>,
        rlats: Vec<i64>,
        poli: RawField,
        polisrc: RawField,
    ) -> (r: Result<Silam, SnapshotError>)
        ensures
            match r {
                Ok(s) => {
                    &&& parts_error(
                        fetch_time,
                        start_time,
                        rlons@,
                        rlats@,
                        poli.shape@,
                        poli.codes@.len(),
                        polisrc.shape@,
                        polisrc.codes@.len(),
                    ) is None
                    &&& s@ == SilamView {
                        fetch_time: fetch_time as int,
                        start_time: start_time as int,
                        n_times: poli.shape@[0] as nat,
                        rlats: rlats@,
                        rlons: rlons@,
                        poli: poli.codes@,
                        polisrc: polisrc.codes@,
                    }
                },
                Err(e) => parts_error(
                    fetch_time,
                    start_time,
                    rlons@,
                    rlats@,
                    poli.shape@,
                    poli.codes@.len(),
                    polisrc.shape@,
                    polisrc.codes@.len(),
                ) == Some(e),
            },
    {
        if poli.shape.len() != 3 {
            return Err(SnapshotError::NotThreeDimensional(Variable::Poli));
        }
        if polisrc.shape.len() != 3 {
            return Err(SnapshotError::NotThreeDimensional(Variable::Polisrc));
        }
        if poli.shape[0] != polisrc.shape[0] || poli.shape[1] != polisrc.shape[1]
            || poli.shape[2] != polisrc.shape[2] {
            return Err(SnapshotError::ShapeMismatch);
        }
        assert(poli.shape@ =~= polisrc.shape@);
        let n_times = poli.shape[0];
        let n_lat = poli.shape[1];
        let n_lon = poli.shape[2];
        let poli_array = match code_array_from_vec(n_times, n_lat, n_lon, poli.codes) {
            Some(a) => a,
            None => return Err(SnapshotError::DataLength(Variable::Poli)),
        };
        let src_array = match code_array_from_vec(n_times, n_lat, n_lon, polisrc.codes) {
            Some(a) => a,
            None => return Err(SnapshotError::DataLength(Variable::Polisrc)),
        };
        if rlats.len() == 0 || rlats.len() != n_lat {
            return Err(SnapshotError::AxisLength(Variable::Rlat));
        }
        if rlons.len() == 0 || rlons.len() != n_lon {
            return Err(SnapshotError::AxisLength(Variable::Rlon));
        }
        if !is_strictly_ascending(&rlats) {
            return Err(SnapshotError::UnsortedAxis(Variable::Rlat));
        }
        if !is_strictly_ascending(&rlons) {
            return Err(SnapshotError::UnsortedAxis(Variable::Rlon));
        }
        let end_of_axis: i128 = (start_time as i128) + (SECONDS_PER_HOUR as i128) * (n_times as i128);
        let stale_at: i128 = (fetch_time as i128) + (STALE_AFTER_SECONDS as i128);
        if stale_at > (i64::MAX as i128) || end_of_axis > (i64::MAX as i128) {
            return Err(SnapshotError::TimeOutOfRange);
        }
        Ok(Silam {
            fetch_time,
            start_time,
            n_times,
            poli: poli_array,
            polisrc: src_array,
            rlats,
            rlons,
        })
    }

    /// Instant the data was fetched, in seconds since the Unix epoch.
    pub fn fetch_time(&self) -> (r: i64)
        ensures
            r == self@.fetch_time,
    {
        self.fetch_time
    }

    /// Instant of the first hour of the time axis, in seconds since the Unix epoch.
    pub fn start_time(&self) -> (r: i64)
        ensures
            r == self@.start_time,
    {
        self.start_time
    }

    /// Number of hours on the time axis.
    pub fn n_times(&self) -> (r: usize)
        ensures
            r == self@.n_times,
    {
        self.n_times
    }

    /// The classified reading of one cell.
    fn reading(&self, t: usize, la: usize, lo: usize) -> (r: Pollen)
        requires
            t < self@.n_times,
            la < self@.rlats.len(),
            lo < self@.rlons.len(),
        ensures
            r == self@.reading(t as int, la as int, lo as int),
    {
        proof {
            use_type_invariant(self);
        }
        let time: i128 = (self.start_time as i128) + (SECONDS_PER_HOUR as i128) * (t as i128);
        Pollen {
            time: time as i64,
            pollen_index: PollenIndex::from_raw(code_at(&self.poli, t, la, lo)),
            pollen_index_source: PollenType::from_raw(code_at(&self.polisrc, t, la, lo)),
        }
    }

    /// Readings for the hours `offset .. offset + length` at the grid node
    /// nearest to the rotated coordinates (`lon`, `lat`), in millionths of a
    /// degree; `None` stands for a coordinate that is not a number (NaN), and
    /// an infinite coordinate is given as `i64::MIN` or `i64::MAX`.
    /// Fails when the window reaches past the end of the time axis.
    pub fn series_at(&self, lon: Option<i64>, lat: Option<i64>, offset: usize, length: usize) -> (r:
        Result<Vec<Pollen>, OutOfRange>)
        ensures
            match r {
                Ok(v) => {
                    &&& offset + length <= self@.n_times
                    &&& v@ == self@.series(lon, lat, offset as int, length as nat)
                    &&& v@.len() == length
                    &&& forall|k: int|
                        0 <= k < length ==> #[trigger] v@[k].time == self@.start_time
                            + SECONDS_PER_HOUR * (offset + k)
                    &&& forall|k: int|
                        0 <= k < length - 1 ==> #[trigger] v@[k + 1].time == v@[k].time
                            + SECONDS_PER_HOUR
                },
                Err(e) => offset + length > self@.n_times && e.available == self@.n_times,
            },
    {
        proof {
            use_type_invariant(self);
        }
        if offset > self.n_times || length > self.n_times - offset {
            return Err(OutOfRange { available: self.n_times });
        }
        let lon_idx = find_closest(&self.rlons, lon);
        let lat_idx = find_closest(&self.rlats, lat);
        let ghost want = self@.series(lon, lat, offset as int, length as nat);
        let mut out: Vec<Pollen> = Vec::new();
        let mut k: usize = 0;
        while k < length
            invariant
                offset + length <= self@.n_times,
                lat_idx == nearest_of(self@.rlats, lat),
                lon_idx == nearest_of(self@.rlons, lon),
                lat_idx < self@.rlats.len(),
                lon_idx < self@.rlons.len(),
                want == self@.series(lon, lat, offset as int, length as nat),
                k <= length,
                out@ =~= want.subrange(0, k as int),
            decreases length - k,
        {
            let p = self.reading(offset + k, lat_idx, lon_idx);
            out.push(p);
            k = k + 1;
        }
        assert(out@ =~= want);
        proof {
            assert forall|k: int| 0 <= k < length implies #[trigger] out@[k].time == self@.start_time
                + SECONDS_PER_HOUR * (offset + k) by {
                assert(self@.start_time + SECONDS_PER_HOUR * (offset + k) <= i64::MAX) by (
                nonlinear_arith)
                    requires
                        0 <= offset + k < self@.n_times,
                        self@.start_time + SECONDS_PER_HOUR * self@.n_times <= i64::MAX,
                ;
            }
            assert forall|k: int| 0 <= k < length - 1 implies #[trigger] out@[k + 1].time == out@[k].time
                + SECONDS_PER_HOUR by {
                assert(out@[k].time == self@.start_time + SECONDS_PER_HOUR * (offset + k));
                assert(out@[k + 1].time == self@.start_time + SECONDS_PER_HOUR * (offset + k + 1));
            }
        }
        Ok(out)
    }

    /// Readings for every hour of the time axis at the grid node nearest to the
    /// rotated coordinates (`lon`, `lat`).
    pub fn get_at_coords(&self, lon: Option<i64>, lat: Option<i64>) -> (r: Vec<Pollen>)
        ensures
            r@ == self@.series(lon, lat, 0, self@.n_times),
    {
        match self.series_at(lon, lat, 0, self.n_times) {
            Ok(v) => v,
            Err(_) => Vec::new(),
        }
    }

    /// Whether the snapshot is stale at the instant `now`: from 12 hours
    /// after the fetch on, that instant included.
    pub fn is_stale_at(&self, now: i64) -> (r: bool)
        ensures
            r == self@.is_stale_at(now as int),
    {
        proof {
            use_type_invariant(self);
        }
        now >= self.fetch_time + STALE_AFTER_SECONDS
    }

    /// Seconds from `now` until the snapshot is stale, or 0 once it is.
    pub fn time_until_stale_at(&self, now: i64) -> (r: u64)
        ensures
            r == self@.time_until_stale_at(now as int),
    {
        proof {
            use_type_invariant(self);
        }
        let stale_at = self.fetch_time + STALE_AFTER_SECONDS;
        if stale_at > now {
            ((stale_at as i128) - (now as i128)) as u64
        } else {
            0
        }
    }
    /// Whether the snapshot is stale now, by the system clock.
    pub fn is_stale(&self) -> (r: bool)
        ensures
            exists|now: i64| r == #[trigger] self@.is_stale_at(now as int),
    {
        let now = now_seconds();
        let r = self.is_stale_at(now);
        assert(r == self@.is_stale_at(now as int));
        r
    }

    /// Seconds until the snapshot is stale, by the system clock; 0 once it is.
    pub fn time_until_stale(&self) -> (r: u64)
        ensures
            exists|now: i64| r == #[trigger] self@.time_until_stale_at(now as int),
    {
        let now = now_seconds();
        let r = self.time_until_stale_at(now);
        assert(r == self@.time_until_stale_at(now as int));
        r
    }
}



} // verus!
