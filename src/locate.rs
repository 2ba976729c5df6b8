use vstd::prelude::*;

verus! {

/// Every element of the axis is smaller than the next one.
pub open spec fn strictly_ascending(a: Seq<i64>) -> bool {
    forall|i: int, j: int| 0 <= i < j < a.len() ==> #[trigger] a[i] < #[trigger] a[j]
}

/// Distance between an axis value and a target.
pub open spec fn dist(x: i64, t: i64) -> int {
    if x >= t {
        x - t
    } else {
        t - x
    }
}

/// `i` is the index of the axis element closest to `target`, the lowest such
/// index on a tie. A missing target (a coordinate that is not a number,
/// NaN) is placed below all elements, at index 0; infinite coordinates are
/// given as the extreme values of `i64`.
pub open spec fn is_nearest(a: Seq<i64>, target: Option<i64>, i: int) -> bool {
    &&& 0 <= i < a.len()
    &&& match target {
        None => i == 0,
        Some(t) => {
            &&& forall|j: int| 0 <= j < a.len() ==> dist(a[i], t) <= #[trigger] dist(a[j], t)
            &&& forall|j: int| 0 <= j < i ==> dist(a[i], t) < #[trigger] dist(a[j], t)
        },
    }
}

/// The index that `is_nearest` singles out.
pub open spec fn nearest_of(a: Seq<i64>, target: Option<i64>) -> int {
    choose|i: int| is_nearest(a, target, i)
}

/// At most one index is the nearest one.
pub proof fn lemma_nearest_unique(a: Seq<i64>, target: Option<i64>, i: int, k: int)
    requires
        is_nearest(a, target, i),
        is_nearest(a, target, k),
    ensures
        i == k,
{
    if let Some(t) = target {
        if i < k {
            assert(dist(a[k], t) < dist(a[i], t));
            assert(dist(a[i], t) <= dist(a[k], t));
        } else if k < i {
            assert(dist(a[i], t) < dist(a[k], t));
            assert(dist(a[k], t) <= dist(a[i], t));
        }
    }
}

/// Once an index is known to be the nearest, it is the one `nearest_of` names.
pub proof fn lemma_nearest_of(a: Seq<i64>, target: Option<i64>, i: int)
    requires
        is_nearest(a, target, i),
    ensures
        nearest_of(a, target) == i,
{
    let k = nearest_of(a, target);
    assert(is_nearest(a, target, k));
    lemma_nearest_unique(a, target, i, k);
}

/// Index of the element of the ascending axis `a` that is closest to
/// `target`, by binary search. Ties go to the lower index; a target below
/// all elements gives 0, one above all gives the last index, and a missing
/// target (NaN) gives 0.
pub fn find_closest(a: &Vec<i64>, target: Option<i64>) -> (r: usize)
    requires
        a@.len() > 0,
        strictly_ascending(a@),
    ensures
        is_nearest(a@, target, r as int),
        r as int == nearest_of(a@, target),
{
    let t = match target {
        None => {
            proof {
                lemma_nearest_of(a@, target, 0);
            }
            return 0;
        },
        Some(t) => t,
    };
    let n = a.len();
    // first index whose element is at least the target
    let mut lo: usize = 0;
    let mut hi: usize = n;
    while lo < hi
        invariant
            n == a@.len(),
            0 <= lo <= hi <= n,
            forall|j: int| 0 <= j < lo ==> #[trigger] a@[j] < t,
            forall|j: int| hi <= j < n ==> #[trigger] a@[j] >= t,
            strictly_ascending(a@),
        decreases hi - lo,
    {
        let mid = lo + (hi - lo) / 2;
        if a[mid] < t {
            proof {
                assert forall|j: int| 0 <= j < mid + 1 implies #[trigger] a@[j] < t by {
                    if j < mid {
                        assert(a@[j] < a@[mid as int]);
                    }
                }
            }
            lo = mid + 1;
        } else {
            proof {
                assert forall|j: int| mid <= j < n implies #[trigger] a@[j] >= t by {
                    if j > mid {
                        assert(a@[mid as int] < a@[j]);
                    }
                }
            }
            hi = mid;
        }
    }
    let idx = lo;
    let r: usize = if idx < n && a[idx] == t {
        idx
    } else if idx == 0 {
        0
    } else if idx == n {
        n - 1
    } else {
        let prev_diff: i128 = (t as i128) - (a[idx - 1] as i128);
        let next_diff: i128 = (a[idx] as i128) - (t as i128);
        if prev_diff > next_diff {
            idx
        } else {
            idx - 1
        }
    };
    proof {
        let s = a@;
        assert forall|j: int| 0 <= j < n implies dist(s[r as int], t) <= #[trigger] dist(s[j], t) by {
            if j < r {
                assert(s[j] < s[r as int]);
            } else if j > r {
                assert(s[r as int] < s[j]);
            }
        }
        assert forall|j: int| 0 <= j < r implies dist(s[r as int], t) < #[trigger] dist(s[j], t) by {
            assert(s[j] < s[r as int]);
            if j < r - 1 {
                assert(s[j] < s[r - 1]);
            }
        }
        lemma_nearest_of(s, target, r as int);
    }
    r
}

/// A target at or below the first element is nearest to index 0; one at or
/// above the last element is nearest to the last index.
pub proof fn lemma_nearest_at_edges(a: Seq<i64>, t: i64)
    requires
        a.len() > 0,
        strictly_ascending(a),
    ensures
        t <= a[0] ==> nearest_of(a, Some(t)) == 0,
        t >= a[a.len() - 1] ==> nearest_of(a, Some(t)) == a.len() - 1,
{
    let last = a.len() - 1;
    if t <= a[0] {
        assert forall|j: int| 0 <= j < a.len() implies dist(a[0], t) <= #[trigger] dist(a[j], t) by {
            if j > 0 {
                assert(a[0] < a[j]);
            }
        }
        lemma_nearest_of(a, Some(t), 0);
    }
    if t >= a[last] {
        assert forall|j: int| 0 <= j < a.len() implies dist(a[last], t) <= #[trigger] dist(a[j], t) by {
            if j < last {
                assert(a[j] < a[last]);
            }
        }
        assert forall|j: int| 0 <= j < last implies dist(a[last], t) < #[trigger] dist(a[j], t) by {
            assert(a[j] < a[last]);
        }
        lemma_nearest_of(a, Some(t), last);
    }
}

/// A target that lies exactly on the axis node `k` is located at `k`.
pub proof fn lemma_node_located(a: Seq<i64>, k: int)
    requires
        strictly_ascending(a),
        0 <= k < a.len(),
    ensures
        nearest_of(a, Some(a[k])) == k,
{
    let t = a[k];
    assert forall|j: int| 0 <= j < k implies dist(a[k], t) < #[trigger] dist(a[j], t) by {
        assert(a[j] < a[k]);
    }
    assert forall|j: int| 0 <= j < a.len() implies dist(a[k], t) <= #[trigger] dist(a[j], t) by {}
    lemma_nearest_of(a, Some(t), k);
}

} // verus!
