use vstd::prelude::*;
use vstd::arithmetic::div_mod::{lemma_div_is_ordered, lemma_div_multiples_vanish, lemma_fundamental_div_mod};
use vstd::arithmetic::mul::{lemma_mul_inequality, lemma_mul_is_commutative};

verus! {

/// Zoom factors are held in thousandths: this value is a factor of 1.0.
pub const ZOOM_UNIT: u64 = 1000;

/// The smallest zoom factor (1.0).
pub const ZOOM_MIN: u64 = 1000;

/// The largest zoom factor (10.0).
pub const ZOOM_MAX: u64 = 10000;

/// How strongly a wheel scroll changes the zoom factor.
pub const SCALE_MULTIPLIER: i64 = 2;

/// A rectangle in pixels, with its offset from the containing area's origin.
#[derive(Debug, Clone, Copy, PartialEq, Eq, Structural)]
pub struct Rect {
    pub x: u64,
    pub y: u64,
    pub w: u64,
    pub h: u64,
}

/// The rectangles derived from a video's size, a viewport and a zoom factor.
#[derive(Debug, Clone, Copy, PartialEq, Eq, Structural)]
pub struct ViewGeometry {
    /// The video's intrinsic size times the zoom factor, at the origin.
    pub scaled: Rect,
    /// Where the video is shown.
    pub fitted: Rect,
}

/// The largest rectangle with the aspect ratio of `src_w` x `src_h` that fits in
/// `dst_w` x `dst_h`, centered in it (sizes rounded down).
pub open spec fn centered_fit(src_w: int, src_h: int, dst_w: int, dst_h: int) -> Rect {
    if src_w * dst_h > dst_w * src_h {
        let h = dst_w * src_h / src_w;
        Rect { x: 0, y: ((dst_h - h) / 2) as u64, w: dst_w as u64, h: h as u64 }
    } else if src_w * dst_h < dst_w * src_h {
        let w = dst_h * src_w / src_h;
        Rect { x: ((dst_w - w) / 2) as u64, y: 0, w: w as u64, h: dst_h as u64 }
    } else {
        Rect { x: 0, y: 0, w: dst_w as u64, h: dst_h as u64 }
    }
}

/// `v` scaled by the zoom factor `zoom` (in thousandths), rounded down.
pub open spec fn zoomed(v: int, zoom: int) -> int {
    v * zoom / ZOOM_UNIT as int
}

/// Where a `w` x `h` rectangle is shown in a `view_w` x `view_h` viewport at `zoom`:
/// at a factor of 1.0 the centered fit; otherwise the fit is scaled, fitted again
/// in the scaled viewport, and centered in the viewport with offsets no less than 0.
pub open spec fn fitted_rect(w: int, h: int, view_w: int, view_h: int, zoom: int) -> Rect {
    let fit = centered_fit(zoomed(w, zoom), zoomed(h, zoom), view_w, view_h);
    if zoom == ZOOM_UNIT {
        fit
    } else {
        let r = centered_fit(
            zoomed(fit.w as int, zoom),
            zoomed(fit.h as int, zoom),
            zoomed(view_w, zoom),
            zoomed(view_h, zoom),
        );
        Rect {
            x: if view_w >= r.w { ((view_w - r.w) / 2) as u64 } else { 0 },
            y: if view_h >= r.h { ((view_h - r.h) / 2) as u64 } else { 0 },
            w: r.w,
            h: r.h,
        }
    }
}

/// The geometry of a `w` x `h` video in a `view_w` x `view_h` viewport at `zoom`.
pub open spec fn view_geometry(w: int, h: int, view_w: int, view_h: int, zoom: int) -> ViewGeometry {
    ViewGeometry {
        scaled: Rect { x: 0, y: 0, w: zoomed(w, zoom) as u64, h: zoomed(h, zoom) as u64 },
        fitted: fitted_rect(w, h, view_w, view_h, zoom),
    }
}

/// `z` limited to the zoom factors from 1.0 to 10.0.
pub open spec fn clamped_zoom(z: int) -> int {
    if z < ZOOM_MIN as int {
        ZOOM_MIN as int
    } else if z > ZOOM_MAX as int {
        ZOOM_MAX as int
    } else {
        z
    }
}

/// The scroll offset that keeps the content under `pointer` in place when the
/// zoom changes from `old_zoom` to `new_zoom`:
/// `offset - (pointer / old_zoom) * (old_zoom - new_zoom)`, rounded toward `offset`.
pub open spec fn anchored(offset: int, pointer: int, old_zoom: int, new_zoom: int) -> int {
    if new_zoom >= old_zoom {
        offset + pointer * (new_zoom - old_zoom) / old_zoom
    } else {
        offset - pointer * (old_zoom - new_zoom) / old_zoom
    }
}

/// The zoom change (in thousandths) for a vertical scroll of `dy` thousandths of a
/// step: a tenth of the scroll times the multiplier, rounded toward zero and
/// inverted, so that scrolling up zooms in.
pub open spec fn wheel_delta(dy: int) -> int {
    if dy >= 0 {
        -(dy * SCALE_MULTIPLIER as int / 10)
    } else {
        (-dy) * SCALE_MULTIPLIER as int / 10
    }
}

proof fn lemma_div_le(a: int, b: int, d: int)
    requires
        0 <= a <= b * d,
        d > 0,
        b >= 0,
    ensures
        a / d <= b,
        a / d >= 0,
{
    lemma_div_is_ordered(a, b * d, d);
    lemma_mul_is_commutative(b, d);
    lemma_div_multiples_vanish(b, d);
    lemma_div_is_ordered(0, a, d);
}

proof fn lemma_centered_fit_inside(src_w: int, src_h: int, dst_w: int, dst_h: int)
    requires
        src_w >= 0,
        src_h >= 0,
        dst_w >= 0,
        dst_h >= 0,
        dst_w <= u64::MAX,
        dst_h <= u64::MAX,
    ensures
        centered_fit(src_w, src_h, dst_w, dst_h).w as int + 2 * centered_fit(src_w, src_h, dst_w, dst_h).x as int <= dst_w,
        centered_fit(src_w, src_h, dst_w, dst_h).h as int + 2 * centered_fit(src_w, src_h, dst_w, dst_h).y as int <= dst_h,
        centered_fit(src_w, src_h, dst_w, dst_h).x as int == (dst_w - centered_fit(src_w, src_h, dst_w, dst_h).w) / 2,
        centered_fit(src_w, src_h, dst_w, dst_h).y as int == (dst_h - centered_fit(src_w, src_h, dst_w, dst_h).h) / 2,
        centered_fit(src_w, src_h, dst_w, dst_h).w as int <= dst_w,
        centered_fit(src_w, src_h, dst_w, dst_h).h as int <= dst_h,
{
    if src_w * dst_h > dst_w * src_h {
        lemma_mul_is_commutative(src_w, dst_h);
        assert(0 <= dst_w * src_h) by (nonlinear_arith)
            requires dst_w >= 0, src_h >= 0;
        assert(src_w > 0) by (nonlinear_arith)
            requires src_w * dst_h > dst_w * src_h, src_w >= 0, dst_w >= 0, src_h >= 0;
        lemma_div_le(dst_w * src_h, dst_h, src_w);
    } else if src_w * dst_h < dst_w * src_h {
        lemma_mul_is_commutative(src_w, dst_h);
        assert(0 <= dst_h * src_w) by (nonlinear_arith)
            requires dst_h >= 0, src_w >= 0;
        assert(src_h > 0) by (nonlinear_arith)
            requires src_w * dst_h < dst_w * src_h, src_w >= 0, dst_h >= 0, dst_w >= 0;
        lemma_div_le(dst_h * src_w, dst_w, src_h);
    }
}

/// The largest rectangle with the aspect ratio of `src_w` x `src_h` that fits in
/// `dst_w` x `dst_h`, centered in it.
pub fn center_fit(src_w: u64, src_h: u64, dst_w: u64, dst_h: u64) -> (r: Rect)
    ensures
        r == centered_fit(src_w as int, src_h as int, dst_w as int, dst_h as int),
        r.w <= dst_w,
        r.h <= dst_h,
{
    proof {
        lemma_centered_fit_inside(src_w as int, src_h as int, dst_w as int, dst_h as int);
        assert(src_w as int * dst_h as int <= u64::MAX as int * u64::MAX as int) by (nonlinear_arith)
            requires src_w <= u64::MAX, dst_h <= u64::MAX;
        assert(dst_w as int * src_h as int <= u64::MAX as int * u64::MAX as int) by (nonlinear_arith)
            requires dst_w <= u64::MAX, src_h <= u64::MAX;
        lemma_mul_is_commutative(dst_h as int, src_w as int);
    }
    let wide = src_w as u128 * dst_h as u128;
    let tall = dst_w as u128 * src_h as u128;
    if wide > tall {
        let h = (tall / src_w as u128) as u64;
        Rect { x: 0, y: (dst_h - h) / 2, w: dst_w, h }
    } else if wide < tall {
        let w = ((dst_h as u128 * src_w as u128) / src_h as u128) as u64;
        Rect { x: (dst_w - w) / 2, y: 0, w, h: dst_h }
    } else {
        Rect { x: 0, y: 0, w: dst_w, h: dst_h }
    }
}

fn zoom_length(v: u64, zoom: u64) -> (r: u64)
    requires
        v <= u32::MAX,
        zoom <= ZOOM_MAX,
    ensures
        r == zoomed(v as int, zoom as int),
{
    proof {
        assert(v * zoom <= u32::MAX * ZOOM_MAX) by (nonlinear_arith)
            requires v <= u32::MAX, zoom <= ZOOM_MAX;
    }
    v * zoom / ZOOM_UNIT
}

/// Limits a zoom factor (in thousandths) to the range 1.0 to 10.0.
pub fn clamp_zoom(z: i64) -> (r: u64)
    ensures
        r == clamped_zoom(z as int),
        ZOOM_MIN <= r <= ZOOM_MAX,
{
    if z < ZOOM_MIN as i64 {
        ZOOM_MIN
    } else if z > ZOOM_MAX as i64 {
        ZOOM_MAX
    } else {
        z as u64
    }
}

/// Computes the scaled and the fitted rectangle of a `width` x `height` video in a
/// `view_w` x `view_h` viewport, at `zoom` (in thousandths) limited to 1.0 to 10.0.
pub fn compute(width: u32, height: u32, view_w: u32, view_h: u32, zoom: i64) -> (r: ViewGeometry)
    ensures
        r == view_geometry(width as int, height as int, view_w as int, view_h as int, clamped_zoom(zoom as int)),
{
    let zoom = clamp_zoom(zoom);
    let scaled = Rect { x: 0, y: 0, w: zoom_length(width as u64, zoom), h: zoom_length(height as u64, zoom) };
    let fit = center_fit(scaled.w, scaled.h, view_w as u64, view_h as u64);
    if zoom == ZOOM_UNIT {
        return ViewGeometry { scaled, fitted: fit };
    }
    let zoomed_fit = center_fit(
        zoom_length(fit.w, zoom),
        zoom_length(fit.h, zoom),
        zoom_length(view_w as u64, zoom),
        zoom_length(view_h as u64, zoom),
    );
    let x = if view_w as u64 >= zoomed_fit.w { (view_w as u64 - zoomed_fit.w) / 2 } else { 0 };
    let y = if view_h as u64 >= zoomed_fit.h { (view_h as u64 - zoomed_fit.h) / 2 } else { 0 };
    ViewGeometry { scaled, fitted: Rect { x, y, w: zoomed_fit.w, h: zoomed_fit.h } }
}

/// The zoom change (in thousandths) for a vertical wheel scroll of `dy` thousandths
/// of a step.
pub fn wheel_zoom_delta(dy: i64) -> (r: i64)
    requires
        -(i64::MAX / 2) <= dy <= i64::MAX / 2,
    ensures
        r == wheel_delta(dy as int),
{
    if dy >= 0 {
        -(dy * SCALE_MULTIPLIER / 10)
    } else {
        (-dy) * SCALE_MULTIPLIER / 10
    }
}

/// The zoom factor after adding `delta` (in thousandths) to `zoom`, limited to 1.0 to 10.0.
pub fn relative_zoom(zoom: u64, delta: i64) -> (r: u64)
    requires
        zoom <= ZOOM_MAX,
        -(i64::MAX / 2) <= delta <= i64::MAX / 2,
    ensures
        r == clamped_zoom(zoom + delta),
{
    clamp_zoom(zoom as i64 + delta)
}

/// The scroll offset after a zoom change from `old_zoom` to `new_zoom` that keeps the
/// content under the pointer in place; `pointer` is the pointer's position on the
/// video picture before the change.
pub fn anchored_offset(offset: i64, pointer: u32, old_zoom: u64, new_zoom: u64) -> (r: i64)
    requires
        ZOOM_MIN <= old_zoom <= ZOOM_MAX,
        ZOOM_MIN <= new_zoom <= ZOOM_MAX,
        i64::MIN / 2 <= offset <= i64::MAX / 2,
    ensures
        r == anchored(offset as int, pointer as int, old_zoom as int, new_zoom as int),
{
    if new_zoom >= old_zoom {
        proof {
            assert(pointer * (new_zoom - old_zoom) <= u32::MAX * ZOOM_MAX) by (nonlinear_arith)
                requires pointer <= u32::MAX, new_zoom - old_zoom <= ZOOM_MAX;
        }
        let shift = pointer as u64 * (new_zoom - old_zoom) / old_zoom;
        offset + shift as i64
    } else {
        proof {
            assert(pointer * (old_zoom - new_zoom) <= u32::MAX * ZOOM_MAX) by (nonlinear_arith)
                requires pointer <= u32::MAX, old_zoom - new_zoom <= ZOOM_MAX;
        }
        let shift = pointer as u64 * (old_zoom - new_zoom) / old_zoom;
        offset - shift as i64
    }
}

/// At a zoom factor of 1.0 the fitted rectangle is centered in the viewport and lies
/// inside it; at any zoom factor its offsets are no less than 0, and centered where
/// it is narrower or lower than the viewport.
pub proof fn lemma_fitted_in_viewport(width: u32, height: u32, view_w: u32, view_h: u32, zoom: int)
    requires
        ZOOM_MIN <= zoom <= ZOOM_MAX,
    ensures
        ({
            let f = view_geometry(width as int, height as int, view_w as int, view_h as int, zoom).fitted;
            &&& f.x >= 0
            &&& f.y >= 0
            &&& (f.w <= view_w ==> f.x == (view_w - f.w) / 2)
            &&& (f.h <= view_h ==> f.y == (view_h - f.h) / 2)
            &&& (zoom == ZOOM_UNIT ==> {
                &&& f.x + f.w <= view_w
                &&& f.y + f.h <= view_h
                &&& f.x == (view_w - f.w) / 2
                &&& f.y == (view_h - f.h) / 2
            })
        }),
{
    let sw = zoomed(width as int, zoom);
    let sh = zoomed(height as int, zoom);
    assert(sw >= 0 && sh >= 0) by (nonlinear_arith)
        requires sw == width as int * zoom / 1000, sh == height as int * zoom / 1000, zoom >= 1000;
    lemma_centered_fit_inside(sw, sh, view_w as int, view_h as int);
}

/// Zooming with the anchored offset keeps the content under the pointer in place:
/// the content at position `pointer` of the picture, shown at `pointer - offset` in the
/// viewport before, is shown at `pointer * new_zoom / old_zoom - r` after, which is
/// the same position up to the rounding of the new offset (exact when
/// `old_zoom` divides `pointer * (new_zoom - old_zoom)`).
pub proof fn lemma_anchor_keeps_pointer(offset: int, pointer: int, old_zoom: int, new_zoom: int)
    requires
        ZOOM_MIN <= old_zoom <= ZOOM_MAX,
        ZOOM_MIN <= new_zoom <= ZOOM_MAX,
        pointer >= 0,
    ensures
        ({
            let r = anchored(offset, pointer, old_zoom, new_zoom);
            let moved = pointer * new_zoom - r * old_zoom - (pointer - offset) * old_zoom;
            &&& -old_zoom < moved < old_zoom
            &&& (pointer * (new_zoom - old_zoom)) % old_zoom == 0 ==> moved == 0
        }),
{
    let r = anchored(offset, pointer, old_zoom, new_zoom);
    if new_zoom >= old_zoom {
        let p = pointer * (new_zoom - old_zoom);
        lemma_fundamental_div_mod(p, old_zoom);
        assert(pointer * new_zoom - r * old_zoom - (pointer - offset) * old_zoom == p - old_zoom * (p
            / old_zoom)) by (nonlinear_arith)
            requires r == offset + p / old_zoom, p == pointer * (new_zoom - old_zoom);
        assert(0 <= p % old_zoom < old_zoom);
        assert(pointer * new_zoom - r * old_zoom - (pointer - offset) * old_zoom == p % old_zoom);
    } else {
        let p = pointer * (old_zoom - new_zoom);
        lemma_fundamental_div_mod(p, old_zoom);
        assert(pointer * new_zoom - r * old_zoom - (pointer - offset) * old_zoom == old_zoom * (p
            / old_zoom) - p) by (nonlinear_arith)
            requires r == offset - p / old_zoom, p == pointer * (old_zoom - new_zoom);
        assert(0 <= p % old_zoom < old_zoom);
        assert(pointer * (new_zoom - old_zoom) == -p) by (nonlinear_arith)
            requires p == pointer * (old_zoom - new_zoom);
        assert(pointer * new_zoom - r * old_zoom - (pointer - offset) * old_zoom == -(p % old_zoom));
        if (-p) % old_zoom == 0 {
            lemma_fundamental_div_mod(-p, old_zoom);
            let q = (-p) / old_zoom;
            assert(p == (-q) * old_zoom) by (nonlinear_arith)
                requires -p == old_zoom * q + 0;
            vstd::arithmetic::div_mod::lemma_mod_multiples_basic(-q, old_zoom);
        }
    }
}

} // verus!
