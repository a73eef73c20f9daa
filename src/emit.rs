use vstd::prelude::*;

use crate::curve::{curve_at, curve_point, mouse_bez, offset_ok, spec_mouse_bez, MotionCurve};
use crate::geometry::Point;
use crate::script::ClickKind;

verus! {

/// Samples every curve gets, whatever the speed.
pub const BASE_SAMPLES: u32 = 25;

/// Extra samples at speed 1; a speed `s` gets this divided by `s`.
pub const SPEED_SAMPLES: u32 = 1000;

/// Pause between the last move and the final action, in milliseconds.
pub const SETTLE_MS: u32 = 100;

/// One step for the injector to perform.
#[derive(Clone, Copy, Debug, PartialEq, Eq, Structural)]
pub enum InputStep {
    /// Put the pointer at this point.
    MoveTo(Point),
    /// Wait this many milliseconds.
    Pause(u32),
    /// Perform the action at the pointer's position.
    Click(ClickKind),
}

/// The number of intervals a curve is cut into at `speed`: fewer as the speed
/// grows, never fewer than `BASE_SAMPLES`. A speed of 0 counts as 1.
pub open spec fn sample_count(speed: u32) -> int {
    let s: int = if speed == 0 {
        1
    } else {
        speed as int
    };
    BASE_SAMPLES as int + (SPEED_SAMPLES as int) / s
}

/// The moves along `c` at `t = 0, 1/n, ..., 1`, then the settle pause, then `kind`.
pub open spec fn spec_motion_steps(c: MotionCurve, speed: u32, kind: ClickKind) -> Seq<InputStep> {
    let n = sample_count(speed);
    Seq::new((n + 1) as nat, |i: int| InputStep::MoveTo(curve_at(c, i, n))) + seq![
        InputStep::Pause(SETTLE_MS),
        InputStep::Click(kind),
    ]
}

fn sample_count_exec(speed: u32) -> (n: u16)
    ensures
        n == sample_count(speed),
        BASE_SAMPLES <= n <= BASE_SAMPLES + SPEED_SAMPLES,
{
    let s = if speed == 0 {
        1
    } else {
        speed
    };
    (BASE_SAMPLES + SPEED_SAMPLES / s) as u16
}

/// Cuts `c` into moves according to `speed`, then appends a short settle pause
/// and the final action.
pub fn motion_steps(c: &MotionCurve, speed: u32, kind: ClickKind) -> (r: Vec<InputStep>)
    ensures
        r@ == spec_motion_steps(*c, speed, kind),
{
    let n = sample_count_exec(speed);
    let mut out: Vec<InputStep> = Vec::new();
    let mut i: u16 = 0;
    while i <= n
        invariant
            n == sample_count(speed),
            1 <= n <= BASE_SAMPLES + SPEED_SAMPLES,
            i <= n + 1,
            out@ == Seq::new(i as nat, |k: int| InputStep::MoveTo(curve_at(*c, k, n as int))),
        decreases n + 1 - i,
    {
        let p = curve_point(c, i, n);
        out.push(InputStep::MoveTo(p));
        assert(out@ =~= Seq::new((i + 1) as nat, |k: int| InputStep::MoveTo(curve_at(*c, k, n as int))));
        i = i + 1;
    }
    out.push(InputStep::Pause(SETTLE_MS));
    out.push(InputStep::Click(kind));
    assert(out@ =~= spec_motion_steps(*c, speed, kind));
    out
}

/// Plans the pointer's way from `from` to `to`: a fresh random curve bent by
/// up to `deviation` percent, cut into moves at `speed`, ending with `kind`.
pub fn plan_motion(from: Point, to: Point, deviation: u32, speed: u32, kind: ClickKind) -> (r: Vec<
    InputStep,
>)
    ensures
        exists|pct1: int, pct2: int|
            offset_ok(pct1, deviation) && offset_ok(pct2, deviation) && r@ == spec_motion_steps(
                #[trigger] spec_mouse_bez(from, to, pct1, pct2),
                speed,
                kind,
            ),
{
    let c = mouse_bez(from, to, deviation);
    motion_steps(&c, speed, kind)
}

} // verus!
