//! Pixel frames: dense three-dimensional arrays of unsigned 8-bit samples,
//! addressed by `(channel, row, column)` and backed by `ndarray`.
//!
//! The rest of the crate reasons about a frame only through two names:
//! [`arr_dims`], the axis lengths `(channels, rows, columns)`, and
//! [`arr_elems`], the samples as a map from a coordinate to its value.

use vstd::prelude::*;

verus! {

/// A dense `(channels, rows, columns)` array of unsigned 8-bit samples.
///
/// The backing store is an `ndarray::Array3<u8>`; it is reached only through
/// the trusted accessors below.
#[verifier::external_body]
pub struct Frame {
    data: ndarray::Array3<u8>,
}

/// The axis lengths of a frame, as `(channels, rows, columns)`.
pub uninterp spec fn arr_dims(f: Frame) -> (usize, usize, usize);

/// The samples a frame holds, keyed by coordinate `(channel, row, column)`.
pub uninterp spec fn arr_elems(f: Frame) -> Map<(int, int, int), u8>;

/// Whether a coordinate lies inside a shape of `d` channels, `h` rows and
/// `w` columns.
pub open spec fn in_bounds(t: (int, int, int), d: int, h: int, w: int) -> bool {
    0 <= t.0 < d && 0 <= t.1 < h && 0 <= t.2 < w
}

/// The all-zero sample map of the given shape.
pub open spec fn zero_map(d: int, h: int, w: int) -> Map<(int, int, int), u8> {
    Map::new(|t: (int, int, int)| in_bounds(t, d, h, w), |t: (int, int, int)| 0u8)
}

/// An axis length as it enters an allocation-size product: a zero-length
/// axis contributes a factor of one.
pub open spec fn nonzero_or_one(n: int) -> int {
    if n == 0 {
        1
    } else {
        n
    }
}

/// Whether a shape is small enough to allocate: the product of its non-zero
/// axis lengths stays within `isize` range.
pub open spec fn alloc_ok(d: int, h: int, w: int) -> bool {
    nonzero_or_one(d) * nonzero_or_one(h) * nonzero_or_one(w) <= usize::MAX as int / 2
}

/// Relies on `ndarray::ArrayBase::zeros`: a freshly allocated array of the
/// given shape whose every sample is zero. Its documented panic (the product
/// of the non-zero axis lengths overflowing `isize`) is excluded by the
/// precondition.
#[verifier::external_body]
fn zeros_arr(d: usize, h: usize, w: usize) -> (r: Frame)
    requires
        alloc_ok(d as int, h as int, w as int),
    ensures
        arr_dims(r) == (d, h, w),
        arr_elems(r) == zero_map(d as int, h as int, w as int),
{
    Frame { data: ndarray::Array3::zeros((d, h, w)) }
}

/// Relies on `ndarray::ArrayBase::dim`, which returns the axis lengths as a
/// tuple.
#[verifier::external_body]
fn dims_arr(f: &Frame) -> (r: (usize, usize, usize))
    ensures
        r == arr_dims(*f),
{
    f.data.dim()
}

/// Relies on `ndarray`'s index operator, which returns the sample at the
/// given coordinate and panics only when it is out of bounds.
#[verifier::external_body]
fn read_arr(f: &Frame, c: usize, y: usize, x: usize) -> (r: u8)
    requires
        in_bounds(
            (c as int, y as int, x as int),
            arr_dims(*f).0 as int,
            arr_dims(*f).1 as int,
            arr_dims(*f).2 as int,
        ),
    ensures
        r == arr_elems(*f)[(c as int, y as int, x as int)],
{
    f.data[[c, y, x]]
}

/// Relies on `ndarray`'s mutable index operator, which replaces the sample
/// at the given coordinate and panics only when it is out of bounds.
#[verifier::external_body]
fn write_arr(f: &mut Frame, c: usize, y: usize, x: usize, v: u8)
    requires
        in_bounds(
            (c as int, y as int, x as int),
            arr_dims(*old(f)).0 as int,
            arr_dims(*old(f)).1 as int,
            arr_dims(*old(f)).2 as int,
        ),
    ensures
        arr_dims(*final(f)) == arr_dims(*old(f)),
        arr_elems(*final(f)) == arr_elems(*old(f)).insert((c as int, y as int, x as int), v),
{
    f.data[[c, y, x]] = v;
}

/// Relies on `Clone` for owned `ndarray` arrays: the clone has the same axis
/// lengths and the same samples as the original.
#[verifier::external_body]
pub(crate) fn clone_frame(f: &Frame) -> (r: Frame)
    ensures
        arr_dims(r) == arr_dims(*f),
        arr_elems(r) == arr_elems(*f),
{
    Frame { data: f.data.clone() }
}

impl Frame {
    /// A zero-filled frame of `d` channels, `h` rows and `w` columns.
    pub fn zeros(d: usize, h: usize, w: usize) -> (r: Frame)
        requires
            alloc_ok(d as int, h as int, w as int),
        ensures
            arr_dims(r) == (d, h, w),
            arr_elems(r) == zero_map(d as int, h as int, w as int),
    {
        zeros_arr(d, h, w)
    }

    /// The axis lengths, as `(channels, rows, columns)`.
    pub fn dims(&self) -> (r: (usize, usize, usize))
        ensures
            r == arr_dims(*self),
    {
        dims_arr(self)
    }

    /// The sample at `(channel c, row y, column x)`.
    pub fn sample(&self, c: usize, y: usize, x: usize) -> (r: u8)
        requires
            in_bounds(
                (c as int, y as int, x as int),
                arr_dims(*self).0 as int,
                arr_dims(*self).1 as int,
                arr_dims(*self).2 as int,
            ),
        ensures
            r == arr_elems(*self)[(c as int, y as int, x as int)],
    {
        read_arr(self, c, y, x)
    }

    /// Replaces the sample at `(channel c, row y, column x)` with `v`.
    pub fn set_sample(&mut self, c: usize, y: usize, x: usize, v: u8)
        requires
            in_bounds(
                (c as int, y as int, x as int),
                arr_dims(*old(self)).0 as int,
                arr_dims(*old(self)).1 as int,
                arr_dims(*old(self)).2 as int,
            ),
        ensures
            arr_dims(*final(self)) == arr_dims(*old(self)),
            arr_elems(*final(self)) == arr_elems(*old(self)).insert(
                (c as int, y as int, x as int),
                v,
            ),
    {
        write_arr(self, c, y, x, v)
    }
}

} // verus!
