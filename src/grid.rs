use vstd::prelude::*;

verus! {

/// A three-dimensional array of integer codes, held by ndarray.
#[verifier::external_body]
pub struct CodeArray {
    inner: ndarray::Array3<i32>,
}

/// The codes an array holds, in row-major order.
pub uninterp spec fn array_codes(a: CodeArray) -> Seq<i32>;

/// The three axis lengths of an array.
pub uninterp spec fn array_shape(a: CodeArray) -> Seq<usize>;

/// Product of the axis lengths that are not zero.
pub open spec fn nonzero_product(d0: usize, d1: usize, d2: usize) -> int {
    (if d0 == 0 { 1 } else { d0 as int }) * (if d1 == 0 { 1 } else { d1 as int }) * (if d2 == 0 {
        1
    } else {
        d2 as int
    })
}

/// Position of index (`i`, `j`, `k`) in the row-major order of an array of shape `s`.
pub open spec fn row_major(s: Seq<usize>, i: int, j: int, k: int) -> int {
    (i * s[1] + j) * s[2] + k
}

/// Relies on ndarray's `Array3::from_shape_vec` with a plain shape: it
/// refuses exactly when the shape's element count differs from the length of
/// the vector, or when the product of the non-zero axis lengths exceeds
/// `isize::MAX`; otherwise the array holds the vector in row-major order.
#[verifier::external_body]
pub(crate) fn code_array_from_vec(d0: usize, d1: usize, d2: usize, codes: Vec<i32>) -> (r: Option<
    CodeArray,
>)
    ensures
        r is Some <==> (d0 * d1 * d2 == codes@.len() && nonzero_product(d0, d1, d2) <= isize::MAX),
        r matches Some(a) ==> array_codes(a) == codes@ && array_shape(a) == seq![d0, d1, d2],
{
    ndarray::Array3::from_shape_vec((d0, d1, d2), codes).ok().map(|inner| CodeArray { inner })
}

/// Relies on ndarray's indexing by `[i, j, k]`, which panics only out of
/// bounds: the element at that index in row-major order.
#[verifier::external_body]
pub(crate) fn code_at(a: &CodeArray, i: usize, j: usize, k: usize) -> (r: i32)
    requires
        i < array_shape(*a)[0],
        j < array_shape(*a)[1],
        k < array_shape(*a)[2],
    ensures
        r == array_codes(*a)[row_major(array_shape(*a), i as int, j as int, k as int)],
{
    a.inner[[i, j, k]]
}

} // verus!
