use vstd::prelude::*;

use crate::geometry::{clamp_coord, clamp_coord_exec, Point};
use crate::random::draw_between;

verus! {

/// Largest deviation, in percent of the segment length.
pub const MAX_DEVIATION: u32 = 100;

/// A cubic Bezier curve from `start` to `end` shaped by two control points.
#[derive(Clone, Copy, Debug, PartialEq, Eq, Structural)]
pub struct MotionCurve {
    pub start: Point,
    pub ctrl1: Point,
    pub ctrl2: Point,
    pub end: Point,
}

/// One coordinate of the curve through `p0..p3` at `t = i / n`, rounded down.
pub open spec fn bezier_coord(p0: int, p1: int, p2: int, p3: int, i: int, n: int) -> int {
    let u = n - i;
    (u * u * u * p0 + 3 * u * u * i * p1 + 3 * u * i * i * p2 + i * i * i * p3) / (n * n * n)
}

/// The point of curve `c` at `t = i / n`.
pub open spec fn curve_at(c: MotionCurve, i: int, n: int) -> Point {
    Point {
        x: bezier_coord(
            c.start.x as int,
            c.ctrl1.x as int,
            c.ctrl2.x as int,
            c.end.x as int,
            i,
            n,
        ) as u32,
        y: bezier_coord(
            c.start.y as int,
            c.ctrl1.y as int,
            c.ctrl2.y as int,
            c.end.y as int,
            i,
            n,
        ) as u32,
    }
}

/// `v * pct / 100`, rounded toward zero.
pub open spec fn scaled(v: int, pct: int) -> int {
    let m = (abs(v) * abs(pct)) / 100;
    if (v < 0) != (pct < 0) {
        -m
    } else {
        m
    }
}

pub open spec fn abs(v: int) -> int {
    if v < 0 {
        -v
    } else {
        v
    }
}

/// The deviation actually applied: at most `MAX_DEVIATION` percent.
pub open spec fn effective_deviation(deviation: u32) -> int {
    if deviation > MAX_DEVIATION {
        MAX_DEVIATION as int
    } else {
        deviation as int
    }
}

/// A signed offset percentage allowed for `deviation`: its size lies between
/// half the deviation and the whole of it.
pub open spec fn offset_ok(pct: int, deviation: u32) -> bool {
    effective_deviation(deviation) / 2 <= abs(pct) <= effective_deviation(deviation)
}

/// The control point placed at `(w1 * a + w2 * b) / 3` along the segment from
/// `a` to `b`, pushed sideways by `pct` percent of the segment length.
pub open spec fn control_point(a: Point, b: Point, w1: int, w2: int, pct: int) -> Point {
    let bx = (w1 * a.x + w2 * b.x) / 3;
    let by = (w1 * a.y + w2 * b.y) / 3;
    Point {
        x: clamp_coord(bx - scaled(b.y - a.y, pct)),
        y: clamp_coord(by + scaled(b.x - a.x, pct)),
    }
}

/// The curve from `start` to `end` whose control points sit at one and two
/// thirds of the segment, offset sideways by `pct1` and `pct2` percent of it.
pub open spec fn spec_mouse_bez(start: Point, end: Point, pct1: int, pct2: int) -> MotionCurve {
    MotionCurve {
        start,
        ctrl1: control_point(start, end, 2, 1, pct1),
        ctrl2: control_point(start, end, 1, 2, pct2),
        end,
    }
}


fn scaled_exec(v: i64, pct: i64) -> (r: i64)
    requires
        -0x1_0000_0000 <= v <= 0x1_0000_0000,
        -100 <= pct <= 100,
    ensures
        r == scaled(v as int, pct as int),
        -0x1_0000_0000 <= r <= 0x1_0000_0000,
{
    let av: i64 = if v < 0 {
        -v
    } else {
        v
    };
    let ap: i64 = if pct < 0 {
        -pct
    } else {
        pct
    };
    proof {
        assert(av * ap <= 0x1_0000_0000 * 100) by (nonlinear_arith)
            requires
                0 <= av <= 0x1_0000_0000,
                0 <= ap <= 100,
        ;
        assert((av * ap) / 100 <= 0x1_0000_0000) by (nonlinear_arith)
            requires
                0 <= av * ap <= 0x1_0000_0000 * 100,
        ;
    }
    let m = (av * ap) / 100;
    if (v < 0) != (pct < 0) {
        -m
    } else {
        m
    }
}

fn control_point_exec(a: Point, b: Point, w1: u64, w2: u64, pct: i64) -> (r: Point)
    requires
        w1 + w2 == 3,
        -100 <= pct <= 100,
    ensures
        r == control_point(a, b, w1 as int, w2 as int, pct as int),
{
    proof {
        let (w1i, w2i) = (w1 as int, w2 as int);
        let (ax, bx, ay, by) = (a.x as int, b.x as int, a.y as int, b.y as int);
        assert(w1i * ax <= 3 * 0xffff_ffff && w2i * bx <= 3 * 0xffff_ffff && w1i * ay <= 3
            * 0xffff_ffff && w2i * by <= 3 * 0xffff_ffff) by (nonlinear_arith)
            requires
                0 <= w1i <= 3,
                0 <= w2i <= 3,
                0 <= ax <= 0xffff_ffff,
                0 <= bx <= 0xffff_ffff,
                0 <= ay <= 0xffff_ffff,
                0 <= by <= 0xffff_ffff,
        ;
    }
    let bx = (w1 * a.x as u64 + w2 * b.x as u64) / 3;
    let by = (w1 * a.y as u64 + w2 * b.y as u64) / 3;
    let ox = scaled_exec(b.y as i64 - a.y as i64, pct);
    let oy = scaled_exec(b.x as i64 - a.x as i64, pct);
    Point { x: clamp_coord_exec(bx as i64 - ox), y: clamp_coord_exec(by as i64 + oy) }
}

/// The motion curve from `init_pos` to `fin_pos` with its control points
/// offset sideways by the signed percentages `pct1` and `pct2`.
pub fn mouse_bez_with(init_pos: Point, fin_pos: Point, pct1: i64, pct2: i64) -> (r: MotionCurve)
    requires
        -100 <= pct1 <= 100,
        -100 <= pct2 <= 100,
    ensures
        r == spec_mouse_bez(init_pos, fin_pos, pct1 as int, pct2 as int),
{
    MotionCurve {
        start: init_pos,
        ctrl1: control_point_exec(init_pos, fin_pos, 2, 1, pct1),
        ctrl2: control_point_exec(init_pos, fin_pos, 1, 2, pct2),
        end: fin_pos,
    }
}

fn effective_deviation_exec(deviation: u32) -> (r: i64)
    ensures
        r == effective_deviation(deviation),
{
    if deviation > MAX_DEVIATION {
        MAX_DEVIATION as i64
    } else {
        deviation as i64
    }
}

/// A signed offset percentage drawn at random, allowed for `deviation`.
fn draw_offset(deviation: u32) -> (pct: i64)
    ensures
        offset_ok(pct as int, deviation),
        -100 <= pct <= 100,
{
    let d = effective_deviation_exec(deviation);
    let size = draw_between((d / 2) as u64, d as u64) as i64;
    if draw_between(0, 1) == 0 {
        size
    } else {
        -size
    }
}

/// A randomized motion curve from `init_pos` to `fin_pos`: each control point
/// is pushed sideways by a fresh random share of the segment length, between
/// half of `deviation` percent and all of it (at most 100 percent).
pub fn mouse_bez(init_pos: Point, fin_pos: Point, deviation: u32) -> (r: MotionCurve)
    ensures
        exists|pct1: int, pct2: int|
            offset_ok(pct1, deviation) && offset_ok(pct2, deviation) && r == #[trigger] spec_mouse_bez(
                init_pos,
                fin_pos,
                pct1,
                pct2,
            ),
{
    let pct1 = draw_offset(deviation);
    let pct2 = draw_offset(deviation);
    let r = mouse_bez_with(init_pos, fin_pos, pct1, pct2);
    assert(offset_ok(pct1 as int, deviation) && offset_ok(pct2 as int, deviation) && r
        == spec_mouse_bez(init_pos, fin_pos, pct1 as int, pct2 as int));
    r
}


proof fn lemma_bezier_coord_bounded(p0: int, p1: int, p2: int, p3: int, i: int, n: int, m: int)
    requires
        0 <= i <= n,
        1 <= n,
        0 <= p0 <= m,
        0 <= p1 <= m,
        0 <= p2 <= m,
        0 <= p3 <= m,
    ensures
        0 <= bezier_coord(p0, p1, p2, p3, i, n) <= m,
{
    let u = n - i;
    let (w0, w1, w2, w3) = (u * u * u, 3 * u * u * i, 3 * u * i * i, i * i * i);
    assert(w0 + w1 + w2 + w3 == n * n * n) by (nonlinear_arith)
        requires
            u == n - i,
            w0 == u * u * u,
            w1 == 3 * u * u * i,
            w2 == 3 * u * i * i,
            w3 == i * i * i,
    ;
    assert(0 <= w0 && 0 <= w1 && 0 <= w2 && 0 <= w3) by (nonlinear_arith)
        requires
            0 <= u,
            0 <= i,
            w0 == u * u * u,
            w1 == 3 * u * u * i,
            w2 == 3 * u * i * i,
            w3 == i * i * i,
    ;
    let num = w0 * p0 + w1 * p1 + w2 * p2 + w3 * p3;
    assert(0 <= num <= m * (w0 + w1 + w2 + w3)) by (nonlinear_arith)
        requires
            num == w0 * p0 + w1 * p1 + w2 * p2 + w3 * p3,
            0 <= w0,
            0 <= w1,
            0 <= w2,
            0 <= w3,
            0 <= p0 <= m,
            0 <= p1 <= m,
            0 <= p2 <= m,
            0 <= p3 <= m,
    ;
    let d = n * n * n;
    assert(d >= 1) by (nonlinear_arith)
        requires
            d == n * n * n,
            n >= 1,
    ;
    assert(0 <= num / d <= m) by (nonlinear_arith)
        requires
            0 <= num <= m * d,
            d >= 1,
    ;
    assert(bezier_coord(p0, p1, p2, p3, i, n) == num / d);
}

fn bezier_coord_exec(p0: u32, p1: u32, p2: u32, p3: u32, i: u16, n: u16) -> (r: u32)
    requires
        i <= n,
        1 <= n,
    ensures
        r == bezier_coord(p0 as int, p1 as int, p2 as int, p3 as int, i as int, n as int),
{
    let u = (n - i) as u128;
    let t = i as u128;
    let nn = n as u128;
    proof {
        lemma_bezier_coord_bounded(
            p0 as int,
            p1 as int,
            p2 as int,
            p3 as int,
            i as int,
            n as int,
            u32::MAX as int,
        );
        assert(u * u <= 0x1_0000_0000 && t * t <= 0x1_0000_0000 && 3 * u * u <= 0x3_0000_0000 && 3
            * u * t <= 0x3_0000_0000 && nn * nn <= 0x1_0000_0000) by (nonlinear_arith)
            requires
                0 <= u <= 0xffff,
                0 <= t <= 0xffff,
                1 <= nn <= 0xffff,
        ;
        assert(u * u * u <= 0x1_0000_0000_0000 && 3 * u * u * t <= 0x3_0000_0000_0000 && 3 * u
            * t * t <= 0x3_0000_0000_0000 && t * t * t <= 0x1_0000_0000_0000 && nn * nn * nn
            <= 0x1_0000_0000_0000 && nn * nn * nn >= 1) by (nonlinear_arith)
            requires
                0 <= u <= 0xffff,
                0 <= t <= 0xffff,
                1 <= nn <= 0xffff,
        ;
        assert(u * u * u * p0 <= 0x1_0000_0000_0000 * 0xffff_ffff && 3 * u * u * t * p1
            <= 0x3_0000_0000_0000 * 0xffff_ffff && 3 * u * t * t * p2 <= 0x3_0000_0000_0000
            * 0xffff_ffff && t * t * t * p3 <= 0x1_0000_0000_0000 * 0xffff_ffff) by (nonlinear_arith)
            requires
                0 <= u * u * u <= 0x1_0000_0000_0000,
                0 <= 3 * u * u * t <= 0x3_0000_0000_0000,
                0 <= 3 * u * t * t <= 0x3_0000_0000_0000,
                0 <= t * t * t <= 0x1_0000_0000_0000,
                0 <= p0 <= 0xffff_ffff,
                0 <= p1 <= 0xffff_ffff,
                0 <= p2 <= 0xffff_ffff,
                0 <= p3 <= 0xffff_ffff,
        ;
    }
    let num = u * u * u * (p0 as u128) + 3 * u * u * t * (p1 as u128) + 3 * u * t * t * (
    p2 as u128) + t * t * t * (p3 as u128);
    (num / (nn * nn * nn)) as u32
}

/// The point of curve `c` at `t = i / n`, each coordinate rounded down.
pub fn curve_point(c: &MotionCurve, i: u16, n: u16) -> (p: Point)
    requires
        i <= n,
        1 <= n,
    ensures
        p == curve_at(*c, i as int, n as int),
{
    let x = bezier_coord_exec(c.start.x, c.ctrl1.x, c.ctrl2.x, c.end.x, i, n);
    let y = bezier_coord_exec(c.start.y, c.ctrl1.y, c.ctrl2.y, c.end.y, i, n);
    Point { x, y }
}


proof fn lemma_bezier_ends(p0: int, p1: int, p2: int, p3: int, n: int)
    requires
        n >= 1,
    ensures
        bezier_coord(p0, p1, p2, p3, 0, n) == p0,
        bezier_coord(p0, p1, p2, p3, n, n) == p3,
{
    let d = n * n * n;
    assert(d >= 1) by (nonlinear_arith)
        requires
            d == n * n * n,
            n >= 1,
    ;
    assert(bezier_coord(p0, p1, p2, p3, 0, n) == (d * p0) / d) by (nonlinear_arith)
        requires
            d == n * n * n,
    ;
    assert(bezier_coord(p0, p1, p2, p3, n, n) == (d * p3) / d) by (nonlinear_arith)
        requires
            d == n * n * n,
    ;
    assert((d * p0) / d == p0 && (d * p3) / d == p3) by (nonlinear_arith)
        requires
            d >= 1,
    ;
}

/// Every curve passes exactly through its start at `t = 0` and exactly
/// through its end at `t = 1`, however finely it is sampled.
pub proof fn lemma_curve_endpoints(c: MotionCurve, n: int)
    requires
        n >= 1,
    ensures
        curve_at(c, 0, n) == c.start,
        curve_at(c, n, n) == c.end,
{
    lemma_bezier_ends(c.start.x as int, c.ctrl1.x as int, c.ctrl2.x as int, c.end.x as int, n);
    lemma_bezier_ends(c.start.y as int, c.ctrl1.y as int, c.ctrl2.y as int, c.end.y as int, n);
}

/// A motion curve starts at `start` and ends at `end` whatever offsets shaped it.
pub proof fn lemma_motion_endpoints(start: Point, end: Point, pct1: int, pct2: int, n: int)
    requires
        n >= 1,
    ensures
        curve_at(spec_mouse_bez(start, end, pct1, pct2), 0, n) == start,
        curve_at(spec_mouse_bez(start, end, pct1, pct2), n, n) == end,
{
    lemma_curve_endpoints(spec_mouse_bez(start, end, pct1, pct2), n);
}

proof fn lemma_straight_mid_coord(s: int, e: int, p1: int, p2: int)
    requires
        0 <= s,
        0 <= e,
        p1 == (2 * s + e) / 3,
        p2 == (s + 2 * e) / 3,
    ensures
        s + e - 2 <= 2 * bezier_coord(s, p1, p2, e, 1, 2) <= s + e,
{
    assert(3 * p1 <= 2 * s + e < 3 * p1 + 3);
    assert(3 * p2 <= s + 2 * e < 3 * p2 + 3);
    let num = s + 3 * p1 + 3 * p2 + e;
    assert(bezier_coord(s, p1, p2, e, 1, 2) == num / 8) by (nonlinear_arith)
        requires
            num == s + 3 * p1 + 3 * p2 + e,
    ;
    let m = num / 8;
    assert(8 * m <= num < 8 * m + 8);
}

/// With no deviation the midpoint of the curve lies within one pixel of the
/// midpoint of the segment on each axis.
pub proof fn lemma_straight_midpoint(start: Point, end: Point, pct1: int, pct2: int)
    requires
        offset_ok(pct1, 0),
        offset_ok(pct2, 0),
    ensures
        ({
            let m = curve_at(spec_mouse_bez(start, end, pct1, pct2), 1, 2);
            &&& start.x + end.x - 2 <= 2 * m.x <= start.x + end.x
            &&& start.y + end.y - 2 <= 2 * m.y <= start.y + end.y
        }),
{
    assert(pct1 == 0 && pct2 == 0);
    let c = spec_mouse_bez(start, end, pct1, pct2);
    let (sx, sy, ex, ey) = (start.x as int, start.y as int, end.x as int, end.y as int);
    assert(scaled(ey - sy, 0) == 0 && scaled(ex - sx, 0) == 0) by (nonlinear_arith);
    assert(c.ctrl1.x == (2 * sx + ex) / 3);
    assert(c.ctrl1.y == (2 * sy + ey) / 3);
    assert(c.ctrl2.x == (sx + 2 * ex) / 3);
    assert(c.ctrl2.y == (sy + 2 * ey) / 3);
    lemma_straight_mid_coord(sx, ex, c.ctrl1.x as int, c.ctrl2.x as int);
    lemma_straight_mid_coord(sy, ey, c.ctrl1.y as int, c.ctrl2.y as int);
    lemma_bezier_coord_bounded(sx, c.ctrl1.x as int, c.ctrl2.x as int, ex, 1, 2, u32::MAX as int);
    lemma_bezier_coord_bounded(sy, c.ctrl1.y as int, c.ctrl2.y as int, ey, 1, 2, u32::MAX as int);
}

} // verus!
