//! The frame differencer engine and its correctness arguments.

use vstd::prelude::*;

use crate::frame::alloc_ok;
use crate::frame::arr_dims;
use crate::frame::arr_elems;
use crate::frame::in_bounds;
use crate::frame::zero_map;
use crate::frame::Frame;

verus! {

/// Saturating subtraction over unsigned 8-bit samples: floors at zero
/// instead of wrapping.
pub open spec fn sat_sub(a: u8, b: u8) -> u8 {
    if a < b {
        0u8
    } else {
        (a - b) as u8
    }
}

/// The per-sample saturating difference of two sample maps over the given
/// shape.
pub open spec fn delta_map(
    n: Map<(int, int, int), u8>,
    o: Map<(int, int, int), u8>,
    d: int,
    h: int,
    w: int,
) -> Map<(int, int, int), u8> {
    Map::new(
        |t: (int, int, int)| in_bounds(t, d, h, w),
        |t: (int, int, int)| sat_sub(n[t], o[t]),
    )
}

/// The error returned when an ingested frame's shape differs from the
/// engine's configured shape. Both shapes are `(channels, rows, columns)`.
#[derive(Clone, Copy, Debug)]
pub struct ShapeMismatch {
    pub expected: (usize, usize, usize),
    pub actual: (usize, usize, usize),
}

/// A frame-to-frame differencer with one step of history.
///
/// It owns two same-shaped frames: `latest`, the most recently ingested
/// frame, and `previous`, the one before that. Both start out all zero.
pub struct ImageDiff {
    latest: Frame,
    previous: Frame,
}

impl ImageDiff {
    /// The configured shape, as `(color_depth, height, width)`.
    pub closed spec fn cfg(self) -> (usize, usize, usize) {
        arr_dims(self.latest)
    }

    /// The samples of the most recently ingested frame.
    pub closed spec fn held(self) -> Map<(int, int, int), u8> {
        arr_elems(self.latest)
    }

    /// The samples of the frame ingested before the most recent one.
    pub closed spec fn held_previous(self) -> Map<(int, int, int), u8> {
        arr_elems(self.previous)
    }

    /// Both held frames have the configured shape, and that shape is small
    /// enough for a same-shaped frame to be allocated.
    pub closed spec fn wf(self) -> bool {
        &&& arr_dims(self.previous) == arr_dims(self.latest)
        &&& alloc_ok(
            arr_dims(self.latest).0 as int,
            arr_dims(self.latest).1 as int,
            arr_dims(self.latest).2 as int,
        )
    }

    /// A differencer of the given dimensions whose two held frames are all
    /// zero, so the first ingested frame is diffed against zero.
    pub fn new(image_width: usize, image_height: usize, color_depth: usize) -> (r: ImageDiff)
        requires
            alloc_ok(color_depth as int, image_height as int, image_width as int),
        ensures
            r.wf(),
            r.cfg() == (color_depth, image_height, image_width),
            r.held() == zero_map(color_depth as int, image_height as int, image_width as int),
            r.held_previous() == zero_map(
                color_depth as int,
                image_height as int,
                image_width as int,
            ),
    {
        ImageDiff {
            latest: Frame::zeros(color_depth, image_height, image_width),
            previous: Frame::zeros(color_depth, image_height, image_width),
        }
    }

    /// A differencer for single-channel (grayscale) frames.
    pub fn create_gray_scale(image_width: usize, image_height: usize) -> (r: ImageDiff)
        requires
            alloc_ok(1, image_height as int, image_width as int),
        ensures
            r.wf(),
            r.cfg() == (1usize, image_height, image_width),
            r.held() == zero_map(1, image_height as int, image_width as int),
            r.held_previous() == zero_map(1, image_height as int, image_width as int),
    {
        let color_depth: usize = 1;
        Self::new(image_width, image_height, color_depth)
    }

    /// A differencer for three-channel (RGB) frames.
    pub fn create_rgb(image_width: usize, image_height: usize) -> (r: ImageDiff)
        requires
            alloc_ok(3, image_height as int, image_width as int),
        ensures
            r.wf(),
            r.cfg() == (3usize, image_height, image_width),
            r.held() == zero_map(3, image_height as int, image_width as int),
            r.held_previous() == zero_map(3, image_height as int, image_width as int),
    {
        let color_depth: usize = 3;
        Self::new(image_width, image_height, color_depth)
    }

    /// The configured shape, as `(color_depth, height, width)`.
    pub fn shape(&self) -> (r: (usize, usize, usize))
        ensures
            r == self.cfg(),
    {
        self.latest.dims()
    }

    /// Ingests a new frame.
    ///
    /// On success the result is the per-sample saturating difference of the
    /// new frame against the held frame, the new frame becomes the held one,
    /// and the old held frame becomes the previous one. A frame of the wrong
    /// shape is rejected with both shapes reported and the engine unchanged.
    #[verifier::loop_isolation(false)]
    pub fn get_new_delta_from_new_frame(&mut self, new_image_frame: &Frame) -> (r: Result<
        Frame,
        ShapeMismatch,
    >)
        requires
            old(self).wf(),
        ensures
            final(self).wf(),
            final(self).cfg() == old(self).cfg(),
            match r {
                Ok(delta) => {
                    &&& arr_dims(*new_image_frame) == old(self).cfg()
                    &&& arr_dims(delta) == old(self).cfg()
                    &&& arr_elems(delta) == delta_map(
                        arr_elems(*new_image_frame),
                        old(self).held(),
                        old(self).cfg().0 as int,
                        old(self).cfg().1 as int,
                        old(self).cfg().2 as int,
                    )
                    &&& final(self).held() == arr_elems(*new_image_frame)
                    &&& final(self).held_previous() == old(self).held()
                },
                Err(e) => {
                    &&& arr_dims(*new_image_frame) != old(self).cfg()
                    &&& e.expected == old(self).cfg()
                    &&& e.actual == arr_dims(*new_image_frame)
                    &&& *final(self) == *old(self)
                },
            },
    {
        let expected = self.latest.dims();
        let actual = new_image_frame.dims();
        if actual.0 != expected.0 || actual.1 != expected.1 || actual.2 != expected.2 {
            return Err(ShapeMismatch { expected, actual });
        }
        let d = expected.0;
        let h = expected.1;
        let w = expected.2;
        let ghost dd = d as int;
        let ghost hh = h as int;
        let ghost ww = w as int;
        let ghost n_elems = arr_elems(*new_image_frame);
        let ghost o_elems = arr_elems(self.latest);
        let mut delta = Frame::zeros(d, h, w);
        let mut c: usize = 0;
        while c < d
            invariant
                c <= d,
                arr_dims(delta) == (d, h, w),
                forall|t: (int, int, int)|
                    #[trigger] arr_elems(delta).dom().contains(t) <==> in_bounds(t, dd, hh, ww),
                forall|t: (int, int, int)|
                    in_bounds(t, dd, hh, ww) && lex_before(t, c as int, 0, 0)
                        ==> #[trigger] arr_elems(delta)[t] == sat_sub(n_elems[t], o_elems[t]),
                forall|t: (int, int, int)|
                    in_bounds(t, dd, hh, ww) && !lex_before(t, c as int, 0, 0)
                        ==> #[trigger] arr_elems(delta)[t] == 0,
            decreases d - c,
        {
            let mut y: usize = 0;
            while y < h
                invariant
                    c < d,
                    y <= h,
                    arr_dims(delta) == (d, h, w),
                    forall|t: (int, int, int)|
                        #[trigger] arr_elems(delta).dom().contains(t) <==> in_bounds(
                            t,
                            dd,
                            hh,
                            ww,
                        ),
                    forall|t: (int, int, int)|
                        in_bounds(t, dd, hh, ww) && lex_before(t, c as int, y as int, 0)
                            ==> #[trigger] arr_elems(delta)[t] == sat_sub(n_elems[t], o_elems[t]),
                    forall|t: (int, int, int)|
                        in_bounds(t, dd, hh, ww) && !lex_before(t, c as int, y as int, 0)
                            ==> #[trigger] arr_elems(delta)[t] == 0,
                decreases h - y,
            {
                let mut x: usize = 0;
                while x < w
                    invariant
                        c < d,
                        y < h,
                        x <= w,
                        arr_dims(delta) == (d, h, w),
                        forall|t: (int, int, int)|
                            #[trigger] arr_elems(delta).dom().contains(t) <==> in_bounds(
                                t,
                                dd,
                                hh,
                                ww,
                            ),
                        forall|t: (int, int, int)|
                            in_bounds(t, dd, hh, ww) && lex_before(t, c as int, y as int, x as int)
                                ==> #[trigger] arr_elems(delta)[t] == sat_sub(
                                n_elems[t],
                                o_elems[t],
                            ),
                        forall|t: (int, int, int)|
                            in_bounds(t, dd, hh, ww) && !lex_before(
                                t,
                                c as int,
                                y as int,
                                x as int,
                            ) ==> #[trigger] arr_elems(delta)[t] == 0,
                    decreases w - x,
                {
                    let nv = new_image_frame.sample(c, y, x);
                    let ov = self.latest.sample(c, y, x);
                    delta.set_sample(c, y, x, nv.saturating_sub(ov));
                    x = x + 1;
                }
                y = y + 1;
            }
            c = c + 1;
        }
        proof {
            assert(arr_elems(delta) =~= delta_map(n_elems, o_elems, dd, hh, ww));
        }
        let mut stash = crate::frame::clone_frame(new_image_frame);
        core::mem::swap(&mut self.latest, &mut stash);
        core::mem::swap(&mut self.previous, &mut stash);
        Ok(delta)
    }
}

/// Whether coordinate `t` is visited strictly before position `(c, y, x)`
/// when a shape is walked channel-major, then by row, then by column.
pub open spec fn lex_before(t: (int, int, int), c: int, y: int, x: int) -> bool {
    ||| t.0 < c
    ||| (t.0 == c && t.1 < y)
    ||| (t.0 == c && t.1 == y && t.2 < x)
}

/// First-frame identity: diffing any frame against an all-zero frame of the
/// same shape gives back the frame itself, sample for sample, since
/// saturating-subtracting zero from an unsigned sample returns the sample
/// unchanged. A freshly constructed engine holds the all-zero frame, so its
/// first delta equals the first ingested frame.
pub proof fn lemma_first_frame_identity(n: Map<(int, int, int), u8>, d: int, h: int, w: int)
    ensures
        forall|t: (int, int, int)|
            in_bounds(t, d, h, w) ==> #[trigger] delta_map(n, zero_map(d, h, w), d, h, w)[t]
                == n[t],
{
    assert forall|t: (int, int, int)| in_bounds(t, d, h, w) implies #[trigger] delta_map(
        n,
        zero_map(d, h, w),
        d,
        h,
        w,
    )[t] == n[t] by {
        assert(zero_map(d, h, w)[t] == 0u8);
    }
}

/// Saturating floor: wherever the new frame's sample is below the held
/// frame's sample, the delta sample is exactly zero — it never wraps around.
pub proof fn lemma_saturating_floor(
    n: Map<(int, int, int), u8>,
    o: Map<(int, int, int), u8>,
    d: int,
    h: int,
    w: int,
)
    ensures
        forall|t: (int, int, int)|
            in_bounds(t, d, h, w) && n[t] < o[t] ==> #[trigger] delta_map(n, o, d, h, w)[t]
                == 0u8,
{
}

} // verus!
