//! The viewport parameter store and the interaction controller: the current
//! fractal-space view (extent, offset, iteration budget) plus the fixed pixel
//! resolution, and the zoom and pan operations that screen-space input events
//! translate into.
//!
//! The view is held in decimal fixed point (see [`crate::fixed`]). Zoom and
//! pan are total: the iteration budget follows the scroll events alone,
//! saturating only at the ends of `i64`; the extent and the offsets are
//! updated exactly as long as the intermediate products fit in `i128`, which
//! covers extents between `10^-30` and about `10^8` — hundreds of zoom
//! events in either direction and any number of pan events — and are left
//! alone beyond that.

use vstd::prelude::*;

use crate::fixed::div_trunc;
use crate::fixed::div_trunc_i128;
use crate::fixed::in_i128;
use crate::fixed::lemma_div_trunc_bound;
use crate::fixed::Fixed;
use crate::fixed::SCALE;
use crate::rational::Rational;

verus! {

/// The fractal-space view: pixel resolution (fixed after startup), visible
/// extent, center translation, and iteration budget. `height` is always
/// derived from `width` so that the fractal-space aspect ratio matches the
/// pixel aspect ratio (see [`RenderParams::aspect_ok`]).
#[derive(Clone, Copy, PartialEq, Eq, Structural, Debug)]
pub struct RenderParams {
    pub width_pixels: u32,
    pub height_pixels: u32,
    pub width: Fixed,
    pub height: Fixed,
    pub offset_x: Fixed,
    pub offset_y: Fixed,
    pub iters: i64,
}

impl RenderParams {
    /// The aspect invariant: the extent height is the extent width scaled by
    /// the pixel aspect ratio, at the store's precision.
    pub open spec fn aspect_ok(self) -> bool {
        self.height.units == div_trunc(
            self.width.units * self.height_pixels,
            self.width_pixels as int,
        )
    }

    /// The initial view for a viewport of `width_pixels x height_pixels`:
    /// extent width 10, height derived from the aspect invariant, centered at
    /// the origin, iteration budget 100.
    pub fn new(width_pixels: u32, height_pixels: u32) -> (r: RenderParams)
        requires
            width_pixels > 0,
            10 * SCALE * height_pixels <= i128::MAX,
        ensures
            r.width_pixels == width_pixels,
            r.height_pixels == height_pixels,
            r.width.units == 10 * SCALE,
            r.height.units == div_trunc(10 * SCALE * height_pixels, width_pixels as int),
            r.offset_x.units == 0,
            r.offset_y.units == 0,
            r.iters == 100,
            r.aspect_ok(),
    {
        let width = Fixed::from_int(10);
        let height_units = div_trunc_i128(
            width.units * (height_pixels as i128),
            width_pixels as i128,
        );
        RenderParams {
            width_pixels,
            height_pixels,
            width,
            height: Fixed { units: height_units },
            offset_x: Fixed::zero(),
            offset_y: Fixed::zero(),
            iters: 100,
        }
    }
}

impl Default for RenderParams {
    /// The all-zero view (with unit extent height), before startup seeds the
    /// real initial parameters.
    fn default() -> (r: Self)
        ensures
            r == RenderParams::default_spec(),
    {
        RenderParams {
            width_pixels: 0,
            height_pixels: 0,
            width: Fixed::zero(),
            height: Fixed { units: SCALE },
            offset_x: Fixed::zero(),
            offset_y: Fixed::zero(),
            iters: 0,
        }
    }
}

/// The iteration budget after a zoom-in event: two more, saturating at the
/// top of `i64`.
pub open spec fn sat_add_2(i: int) -> int {
    if i + 2 > i64::MAX {
        i64::MAX as int
    } else {
        i + 2
    }
}

/// The iteration budget after a zoom-out event: two fewer, saturating at the
/// bottom of `i64`. No other lower bound exists: the budget goes negative
/// freely.
pub open spec fn sat_sub_2(i: int) -> int {
    if i - 2 < i64::MIN {
        i64::MIN as int
    } else {
        i - 2
    }
}

/// Whether a zoom-in step's extent update stays within `i128`: the scaled
/// width and the rederived height numerator both fit (strictly above
/// `i128::MIN`, so truncating division is defined on them).
pub open spec fn spec_zoom_in_ok(p: RenderParams) -> bool {
    &&& -i128::MAX <= p.width.units * 9 <= i128::MAX
    &&& -i128::MAX <= div_trunc(p.width.units * 9, 10) * p.height_pixels <= i128::MAX
}

/// Whether a zoom-out step's extent update stays within `i128`.
pub open spec fn spec_zoom_out_ok(p: RenderParams) -> bool {
    &&& -i128::MAX <= p.width.units * 11 <= i128::MAX
    &&& -i128::MAX <= div_trunc(p.width.units * 11, 10) * p.height_pixels <= i128::MAX
}

/// One zoom step for a scroll event of signed magnitude `y`: zooming in
/// scales the extent width by 9/10 and adds 2 to the iteration budget,
/// zooming out scales it by 11/10 and subtracts 2; either way the extent
/// height is rederived from the aspect invariant and the offsets are left
/// alone. A zero magnitude has no effect. The budget always follows the
/// event; the extent is left alone in the rare case that its update would
/// leave `i128`.
pub open spec fn spec_zoom(p: RenderParams, y: int) -> RenderParams {
    if y > 0 {
        let we = if spec_zoom_in_ok(p) {
            Fixed { units: div_trunc(p.width.units * 9, 10) as i128 }
        } else {
            p.width
        };
        let he = if spec_zoom_in_ok(p) {
            Fixed {
                units: div_trunc(
                    div_trunc(p.width.units * 9, 10) * p.height_pixels,
                    p.width_pixels as int,
                ) as i128,
            }
        } else {
            p.height
        };
        RenderParams { width: we, height: he, iters: sat_add_2(p.iters as int) as i64, ..p }
    } else if y < 0 {
        let we = if spec_zoom_out_ok(p) {
            Fixed { units: div_trunc(p.width.units * 11, 10) as i128 }
        } else {
            p.width
        };
        let he = if spec_zoom_out_ok(p) {
            Fixed {
                units: div_trunc(
                    div_trunc(p.width.units * 11, 10) * p.height_pixels,
                    p.width_pixels as int,
                ) as i128,
            }
        } else {
            p.height
        };
        RenderParams { width: we, height: he, iters: sat_sub_2(p.iters as int) as i64, ..p }
    } else {
        p
    }
}

impl RenderParams {
    /// Whether a zoom-in step's extent update stays within `i128`.
    fn zoom_in_ok(&self) -> (b: bool)
        ensures
            b == spec_zoom_in_ok(*self),
    {
        match self.width.units.checked_mul(9) {
            None => false,
            Some(n9) => {
                if n9 == i128::MIN {
                    return false;
                }
                let w = div_trunc_i128(n9, 10);
                match w.checked_mul(self.height_pixels as i128) {
                    None => false,
                    Some(nh) => nh != i128::MIN,
                }
            },
        }
    }

    /// Whether a zoom-out step's extent update stays within `i128`.
    fn zoom_out_ok(&self) -> (b: bool)
        ensures
            b == spec_zoom_out_ok(*self),
    {
        match self.width.units.checked_mul(11) {
            None => false,
            Some(n11) => {
                if n11 == i128::MIN {
                    return false;
                }
                let w = div_trunc_i128(n11, 10);
                match w.checked_mul(self.height_pixels as i128) {
                    None => false,
                    Some(nh) => nh != i128::MIN,
                }
            },
        }
    }

    /// Apply one scroll event of signed magnitude `y` to the view.
    pub fn zoom(&mut self, y: i64)
        requires
            old(self).width_pixels > 0,
        ensures
            *final(self) == spec_zoom(*old(self), y as int),
            final(self).offset_x == old(self).offset_x,
            final(self).offset_y == old(self).offset_y,
            final(self).width_pixels == old(self).width_pixels,
            final(self).height_pixels == old(self).height_pixels,
            old(self).aspect_ok() ==> final(self).aspect_ok(),
    {
        proof {
            if self.aspect_ok() {
                lemma_zoom_preserves_aspect(*self, y as int);
            }
        }
        if y > 0 {
            if self.zoom_in_ok() {
                let n9 = self.width.units * 9;
                let w = div_trunc_i128(n9, 10);
                let h = div_trunc_i128(
                    w * (self.height_pixels as i128),
                    self.width_pixels as i128,
                );
                self.width = Fixed { units: w };
                self.height = Fixed { units: h };
            }
            self.iters = if self.iters > i64::MAX - 2 {
                i64::MAX
            } else {
                self.iters + 2
            };
        } else if y < 0 {
            if self.zoom_out_ok() {
                let n11 = self.width.units * 11;
                let w = div_trunc_i128(n11, 10);
                let h = div_trunc_i128(
                    w * (self.height_pixels as i128),
                    self.width_pixels as i128,
                );
                self.width = Fixed { units: w };
                self.height = Fixed { units: h };
            }
            self.iters = if self.iters < i64::MIN + 2 {
                i64::MIN
            } else {
                self.iters - 2
            };
        }
    }
}

/// A pointer-motion event's pixel delta, as exact fractions.
#[derive(Clone, Copy, PartialEq, Eq, Structural, Debug)]
pub struct MotionDelta {
    pub dx: Rational,
    pub dy: Rational,
}

impl MotionDelta {
    /// Well-formedness: both components are valid fractions.
    pub open spec fn wf(self) -> bool {
        self.dx.wf() && self.dy.wf()
    }
}

/// Whether a pan step's offset updates stay within `i128`: the scaled delta
/// numerators, their divisors and the shifted offsets all fit.
pub open spec fn spec_pan_ok(p: RenderParams, dx: Rational, dy: Rational) -> bool {
    &&& -i128::MAX <= dx.num * p.width.units <= i128::MAX
    &&& in_i128(dx.den * p.width_pixels)
    &&& -i128::MAX <= dy.num * p.height.units <= i128::MAX
    &&& in_i128(dy.den * p.height_pixels)
    &&& in_i128(
        p.offset_x.units - div_trunc(dx.num * p.width.units, dx.den * p.width_pixels),
    )
    &&& in_i128(
        p.offset_y.units - div_trunc(dy.num * p.height.units, dy.den * p.height_pixels),
    )
}

/// One pan step for a pointer-motion event with pixel delta `(dx, dy)`:
/// `offset_x -= dx * width / width_pixels` and
/// `offset_y -= dy * height / height_pixels`, scaling pixel movement into
/// fractal-space movement by the current extent. The extent, resolution and
/// iteration budget are left alone. The offsets are left alone in the rare
/// case that their update would leave `i128`.
pub open spec fn spec_pan(p: RenderParams, dx: Rational, dy: Rational) -> RenderParams {
    if spec_pan_ok(p, dx, dy) {
        RenderParams {
            offset_x: Fixed {
                units: (p.offset_x.units - div_trunc(
                    dx.num * p.width.units,
                    dx.den * p.width_pixels,
                )) as i128,
            },
            offset_y: Fixed {
                units: (p.offset_y.units - div_trunc(
                    dy.num * p.height.units,
                    dy.den * p.height_pixels,
                )) as i128,
            },
            ..p
        }
    } else {
        p
    }
}

impl RenderParams {
    /// Whether a pan step's offset updates stay within `i128`.
    fn pan_ok(&self, dx: Rational, dy: Rational) -> (b: bool)
        requires
            dx.wf(),
            dy.wf(),
            self.width_pixels > 0,
            self.height_pixels > 0,
        ensures
            b == spec_pan_ok(*self, dx, dy),
    {
        let txn = dx.num.checked_mul(self.width.units);
        let txd = dx.den.checked_mul(self.width_pixels as i128);
        if txn.is_none() || txd.is_none() {
            return false;
        }
        let txn = txn.unwrap();
        if txn == i128::MIN {
            return false;
        }
        let txd = txd.unwrap();
        proof {
            assert(txd > 0) by (nonlinear_arith)
                requires
                    txd == dx.den * self.width_pixels,
                    dx.den > 0,
                    self.width_pixels > 0,
            ;
        }
        let incx = div_trunc_i128(txn, txd);
        if self.offset_x.units.checked_sub(incx).is_none() {
            return false;
        }
        let tyn = dy.num.checked_mul(self.height.units);
        let tyd = dy.den.checked_mul(self.height_pixels as i128);
        if tyn.is_none() || tyd.is_none() {
            return false;
        }
        let tyn = tyn.unwrap();
        if tyn == i128::MIN {
            return false;
        }
        let tyd = tyd.unwrap();
        proof {
            assert(tyd > 0) by (nonlinear_arith)
                requires
                    tyd == dy.den * self.height_pixels,
                    dy.den > 0,
                    self.height_pixels > 0,
            ;
        }
        let incy = div_trunc_i128(tyn, tyd);
        self.offset_y.units.checked_sub(incy).is_some()
    }

    /// Apply one pointer-motion event with pixel delta `(dx, dy)` to the
    /// view.
    pub fn pan(&mut self, dx: Rational, dy: Rational)
        requires
            dx.wf(),
            dy.wf(),
            old(self).width_pixels > 0,
            old(self).height_pixels > 0,
        ensures
            *final(self) == spec_pan(*old(self), dx, dy),
            final(self).width == old(self).width,
            final(self).height == old(self).height,
            final(self).iters == old(self).iters,
            final(self).width_pixels == old(self).width_pixels,
            final(self).height_pixels == old(self).height_pixels,
            final(self).aspect_ok() == old(self).aspect_ok(),
    {
        if self.pan_ok(dx, dy) {
            let txd = dx.den * (self.width_pixels as i128);
            let tyd = dy.den * (self.height_pixels as i128);
            proof {
                assert(txd > 0 && tyd > 0) by (nonlinear_arith)
                    requires
                        txd == dx.den * self.width_pixels,
                        tyd == dy.den * self.height_pixels,
                        dx.den > 0,
                        dy.den > 0,
                        self.width_pixels > 0,
                        self.height_pixels > 0,
                ;
            }
            let incx = div_trunc_i128(dx.num * self.width.units, txd);
            let incy = div_trunc_i128(dy.num * self.height.units, tyd);
            self.offset_x = Fixed { units: self.offset_x.units - incx };
            self.offset_y = Fixed { units: self.offset_y.units - incy };
        }
    }
}

/// The view after a whole tick's scroll events, applied sequentially in
/// event order.
pub open spec fn spec_apply_scrolls(p: RenderParams, ys: Seq<i64>) -> RenderParams
    decreases ys.len(),
{
    if ys.len() == 0 {
        p
    } else {
        spec_apply_scrolls(spec_zoom(p, ys[0] as int), ys.drop_first())
    }
}

/// The view after a whole tick's pointer-motion events, applied sequentially
/// in event order.
pub open spec fn spec_apply_motions(p: RenderParams, ms: Seq<MotionDelta>) -> RenderParams
    decreases ms.len(),
{
    if ms.len() == 0 {
        p
    } else {
        spec_apply_motions(spec_pan(p, ms[0].dx, ms[0].dy), ms.drop_first())
    }
}

/// The view after one whole input tick: all scroll events in order, then,
/// only while the primary button is held, all pointer-motion events in
/// order.
pub open spec fn spec_update_params(
    p: RenderParams,
    ys: Seq<i64>,
    dragging: bool,
    ms: Seq<MotionDelta>,
) -> RenderParams {
    if dragging {
        spec_apply_motions(spec_apply_scrolls(p, ys), ms)
    } else {
        spec_apply_scrolls(p, ys)
    }
}

/// Folding one more scroll event onto a sequence applies it last.
pub proof fn lemma_apply_scrolls_push(p: RenderParams, ys: Seq<i64>, y: i64)
    ensures
        spec_apply_scrolls(p, ys.push(y)) == spec_zoom(spec_apply_scrolls(p, ys), y as int),
    decreases ys.len(),
{
    if ys.len() == 0 {
        assert(ys.push(y)[0] == y);
        assert(ys.push(y).drop_first() =~= Seq::<i64>::empty());
        assert(spec_apply_scrolls(spec_zoom(p, y as int), Seq::<i64>::empty())
            == spec_zoom(p, y as int));
    } else {
        assert(ys.push(y)[0] == ys[0]);
        assert(ys.push(y).drop_first() =~= ys.drop_first().push(y));
        lemma_apply_scrolls_push(spec_zoom(p, ys[0] as int), ys.drop_first(), y);
    }
}

/// Folding one more pointer-motion event onto a sequence applies it last.
pub proof fn lemma_apply_motions_push(p: RenderParams, ms: Seq<MotionDelta>, m: MotionDelta)
    ensures
        spec_apply_motions(p, ms.push(m)) == spec_pan(spec_apply_motions(p, ms), m.dx, m.dy),
    decreases ms.len(),
{
    if ms.len() == 0 {
        assert(ms.push(m)[0] == m);
        assert(ms.push(m).drop_first() =~= Seq::<MotionDelta>::empty());
        assert(spec_apply_motions(spec_pan(p, m.dx, m.dy), Seq::<MotionDelta>::empty())
            == spec_pan(p, m.dx, m.dy));
    } else {
        assert(ms.push(m)[0] == ms[0]);
        assert(ms.push(m).drop_first() =~= ms.drop_first().push(m));
        lemma_apply_motions_push(spec_pan(p, ms[0].dx, ms[0].dy), ms.drop_first(), m);
    }
}

/// The parameter store as the simulation phase owns it; the render phase only
/// ever reads a copied snapshot of `render_params`.
#[derive(Clone, Copy, PartialEq, Eq, Structural, Debug)]
pub struct RenderParamsResource {
    pub render_params: RenderParams,
}

impl Default for RenderParamsResource {
    /// A store holding the default view.
    fn default() -> (r: Self)
        ensures
            r.render_params == RenderParams::default_spec(),
    {
        RenderParamsResource { render_params: RenderParams::default() }
    }
}

/// Run one input tick over the parameter store: apply every scroll event in
/// event order, then, only while the primary button is held, every
/// pointer-motion event in event order.
pub fn update_params(
    params: &mut RenderParamsResource,
    scrolls: &Vec<i64>,
    dragging: bool,
    motions: &Vec<MotionDelta>,
)
    requires
        old(params).render_params.width_pixels > 0,
        old(params).render_params.height_pixels > 0,
        forall|i: int| 0 <= i < motions@.len() ==> motions@[i].wf(),
    ensures
        final(params).render_params == spec_update_params(
            old(params).render_params,
            scrolls@,
            dragging,
            motions@,
        ),
        final(params).render_params.width_pixels == old(params).render_params.width_pixels,
        final(params).render_params.height_pixels == old(params).render_params.height_pixels,
{
    let ghost p0 = params.render_params;
    let n = scrolls.len();
    let mut i: usize = 0;
    while i < n
        invariant
            i <= n,
            n == scrolls@.len(),
            params.render_params == spec_apply_scrolls(p0, scrolls@.take(i as int)),
            params.render_params.width_pixels == p0.width_pixels,
            params.render_params.height_pixels == p0.height_pixels,
            p0.width_pixels > 0,
            p0.height_pixels > 0,
        decreases n - i,
    {
        let y = scrolls[i];
        params.render_params.zoom(y);
        proof {
            lemma_apply_scrolls_push(p0, scrolls@.take(i as int), y);
            assert(scrolls@.take(i as int).push(y) =~= scrolls@.take(i as int + 1));
        }
        i = i + 1;
    }
    proof {
        assert(scrolls@.take(n as int) =~= scrolls@);
    }
    if dragging {
        let ghost p1 = params.render_params;
        let k = motions.len();
        let mut j: usize = 0;
        while j < k
            invariant
                j <= k,
                k == motions@.len(),
                params.render_params == spec_apply_motions(p1, motions@.take(j as int)),
                params.render_params.width_pixels == p1.width_pixels,
                params.render_params.height_pixels == p1.height_pixels,
                p1.width_pixels > 0,
                p1.height_pixels > 0,
                forall|t: int| 0 <= t < motions@.len() ==> motions@[t].wf(),
            decreases k - j,
        {
            let m = motions[j];
            params.render_params.pan(m.dx, m.dy);
            proof {
                lemma_apply_motions_push(p1, motions@.take(j as int), m);
                assert(motions@.take(j as int).push(m) =~= motions@.take(j as int + 1));
            }
            j = j + 1;
        }
        proof {
            assert(motions@.take(k as int) =~= motions@);
        }
    }
}

/// A zoom event never changes the fractal-space offsets or the resolution.
pub proof fn lemma_zoom_keeps_offsets(p: RenderParams, y: int)
    ensures
        spec_zoom(p, y).offset_x == p.offset_x,
        spec_zoom(p, y).offset_y == p.offset_y,
        spec_zoom(p, y).width_pixels == p.width_pixels,
        spec_zoom(p, y).height_pixels == p.height_pixels,
{
}

/// The iteration budget follows the scroll events alone: every nonzero zoom
/// event adjusts it by two, whether or not the extent update applied.
pub proof fn lemma_zoom_always_adjusts_iters(p: RenderParams, y: int)
    ensures
        y > 0 ==> spec_zoom(p, y).iters == sat_add_2(p.iters as int),
        y < 0 ==> spec_zoom(p, y).iters == sat_sub_2(p.iters as int),
        y == 0 ==> spec_zoom(p, y).iters == p.iters,
{
}

/// A pan event never changes the extent, the resolution or the iteration
/// budget; in particular it preserves the aspect invariant.
pub proof fn lemma_pan_keeps_extent(p: RenderParams, dx: Rational, dy: Rational)
    ensures
        spec_pan(p, dx, dy).width == p.width,
        spec_pan(p, dx, dy).height == p.height,
        spec_pan(p, dx, dy).iters == p.iters,
        spec_pan(p, dx, dy).width_pixels == p.width_pixels,
        spec_pan(p, dx, dy).height_pixels == p.height_pixels,
        spec_pan(p, dx, dy).aspect_ok() == p.aspect_ok(),
{
}

/// A zoom event preserves the aspect invariant: a zoom whose extent update
/// applies rederives the extent height from the new width, and one whose
/// update is out of range, or of zero magnitude, leaves the extent alone.
pub proof fn lemma_zoom_preserves_aspect(p: RenderParams, y: int)
    requires
        p.aspect_ok(),
        p.width_pixels > 0,
    ensures
        spec_zoom(p, y).aspect_ok(),
{
    if y > 0 && spec_zoom_in_ok(p) {
        lemma_div_trunc_bound(p.width.units * 9, 10);
        lemma_div_trunc_bound(
            div_trunc(p.width.units * 9, 10) * p.height_pixels,
            p.width_pixels as int,
        );
    } else if y < 0 && spec_zoom_out_ok(p) {
        lemma_div_trunc_bound(p.width.units * 11, 10);
        lemma_div_trunc_bound(
            div_trunc(p.width.units * 11, 10) * p.height_pixels,
            p.width_pixels as int,
        );
    }
}

/// A whole tick's scroll events preserve the aspect invariant and the
/// resolution.
pub proof fn lemma_apply_scrolls_preserves(p: RenderParams, ys: Seq<i64>)
    requires
        p.aspect_ok(),
        p.width_pixels > 0,
    ensures
        spec_apply_scrolls(p, ys).aspect_ok(),
        spec_apply_scrolls(p, ys).width_pixels == p.width_pixels,
        spec_apply_scrolls(p, ys).height_pixels == p.height_pixels,
    decreases ys.len(),
{
    if ys.len() > 0 {
        lemma_zoom_preserves_aspect(p, ys[0] as int);
        lemma_apply_scrolls_preserves(spec_zoom(p, ys[0] as int), ys.drop_first());
    }
}

/// A whole tick's pointer-motion events preserve the aspect invariant and
/// the resolution.
pub proof fn lemma_apply_motions_preserves(p: RenderParams, ms: Seq<MotionDelta>)
    requires
        p.aspect_ok(),
    ensures
        spec_apply_motions(p, ms).aspect_ok(),
        spec_apply_motions(p, ms).width_pixels == p.width_pixels,
        spec_apply_motions(p, ms).height_pixels == p.height_pixels,
    decreases ms.len(),
{
    if ms.len() > 0 {
        lemma_pan_keeps_extent(p, ms[0].dx, ms[0].dy);
        lemma_apply_motions_preserves(spec_pan(p, ms[0].dx, ms[0].dy), ms.drop_first());
    }
}

/// The standing invariant of the parameter store: one whole input tick —
/// every scroll event, then, while dragging, every pointer-motion event —
/// preserves the aspect invariant and the resolution.
pub proof fn lemma_update_params_preserves_aspect(
    p: RenderParams,
    ys: Seq<i64>,
    dragging: bool,
    ms: Seq<MotionDelta>,
)
    requires
        p.aspect_ok(),
        p.width_pixels > 0,
    ensures
        spec_update_params(p, ys, dragging, ms).aspect_ok(),
        spec_update_params(p, ys, dragging, ms).width_pixels == p.width_pixels,
        spec_update_params(p, ys, dragging, ms).height_pixels == p.height_pixels,
{
    lemma_apply_scrolls_preserves(p, ys);
    if dragging {
        lemma_apply_motions_preserves(spec_apply_scrolls(p, ys), ms);
    }
}

/// The iteration budget after a sequence of scroll events, two up per
/// zoom-in and two down per zoom-out, saturating only at the ends of `i64`.
pub open spec fn spec_iters_after(i: int, ys: Seq<i64>) -> int
    decreases ys.len(),
{
    if ys.len() == 0 {
        i
    } else {
        let j = if ys[0] > 0 {
            sat_add_2(i)
        } else if ys[0] < 0 {
            sat_sub_2(i)
        } else {
            i
        };
        spec_iters_after(j, ys.drop_first())
    }
}

/// The iteration budget depends on the scroll events alone — never on the
/// extent or on its representability. In particular a tick of `k` zoom-out
/// events from budget `b` always ends at `b - 2k` until `i64` itself runs
/// out, with no lower bound above that.
pub proof fn lemma_scrolls_drive_iters(p: RenderParams, ys: Seq<i64>)
    ensures
        spec_apply_scrolls(p, ys).iters == spec_iters_after(p.iters as int, ys),
    decreases ys.len(),
{
    if ys.len() > 0 {
        lemma_scrolls_drive_iters(spec_zoom(p, ys[0] as int), ys.drop_first());
    }
}

impl RenderParams {
    /// The value that [`RenderParams::default`] returns.
    pub open spec fn default_spec() -> RenderParams {
        RenderParams {
            width_pixels: 0,
            height_pixels: 0,
            width: Fixed { units: 0 },
            height: Fixed { units: SCALE },
            offset_x: Fixed { units: 0 },
            offset_y: Fixed { units: 0 },
            iters: 0,
        }
    }
}

} // verus!
