use colorbot::curve::{curve_point, mouse_bez, mouse_bez_with, MotionCurve};
use colorbot::emit::{motion_steps, plan_motion, InputStep, SETTLE_MS};
use colorbot::geometry::Point;
use colorbot::script::ClickKind;

#[test]
fn straight_curve_midpoint_is_segment_midpoint() {
    let cases = [((0, 0), (100, 60)), ((300, 20), (17, 999)), ((5, 5), (5, 5)), ((1, 2), (4, 3))];
    for ((sx, sy), (ex, ey)) in cases {
        let c = mouse_bez(Point::new(sx, sy), Point::new(ex, ey), 0);
        let mid = curve_point(&c, 1, 2);
        let twice_x = 2 * mid.x as i64;
        let twice_y = 2 * mid.y as i64;
        assert!((twice_x - (sx + ex) as i64).abs() <= 2, "{:?}", mid);
        assert!((twice_y - (sy + ey) as i64).abs() <= 2, "{:?}", mid);
    }
}

#[test]
fn curves_are_drawn_afresh_each_call() {
    let a = Point::new(100, 100);
    let b = Point::new(500, 400);
    let first = mouse_bez(a, b, 50);
    let mut differs = false;
    for _ in 0..20 {
        let next = mouse_bez(a, b, 50);
        if next.ctrl1 != first.ctrl1 || next.ctrl2 != first.ctrl2 {
            differs = true;
        }
    }
    assert!(differs);
}

#[test]
fn curve_ends_are_exact_for_every_deviation() {
    let a = Point::new(12, 900);
    let b = Point::new(640, 3);
    for dev in [0u32, 1, 30, 77, 100, 250] {
        let c = mouse_bez(a, b, dev);
        for n in [1u16, 2, 57, 1025] {
            assert_eq!(curve_point(&c, 0, n), a);
            assert_eq!(curve_point(&c, n, n), b);
        }
    }
}

#[test]
fn control_points_follow_offsets() {
    let c = mouse_bez_with(Point::new(0, 0), Point::new(300, 0), 50, -20);
    // thirds of the segment, pushed sideways by half and minus a fifth of its length
    assert_eq!(c.ctrl1, Point::new(100, 150));
    assert_eq!(c.ctrl2, Point::new(200, 0));
    let d = mouse_bez_with(Point::new(0, 0), Point::new(300, 0), -20, 50);
    assert_eq!(d.ctrl1, Point::new(100, 0));
    assert_eq!(d.ctrl2, Point::new(200, 150));
    let e = mouse_bez_with(Point::new(10, 10), Point::new(10, 310), 100, 0);
    assert_eq!(e.ctrl1, Point::new(0, 110));
    assert_eq!(e.ctrl2, Point::new(10, 210));
}

#[test]
fn deviation_bounds_control_points() {
    let a = Point::new(1000, 1000);
    let b = Point::new(1400, 1000);
    for _ in 0..200 {
        let c = mouse_bez(a, b, 40);
        // sideways offset of 20% to 40% of a 400 pixel segment
        let off1 = (c.ctrl1.y as i64 - 1000).abs();
        let off2 = (c.ctrl2.y as i64 - 1000).abs();
        assert!(off1 >= 80 && off1 <= 160, "{:?}", c);
        assert!(off2 >= 80 && off2 <= 160, "{:?}", c);
        assert_eq!(c.ctrl1.x, 1133);
        assert_eq!(c.ctrl2.x, 1266);
    }
}

#[test]
fn curve_point_formula() {
    let c = MotionCurve {
        start: Point::new(0, 0),
        ctrl1: Point::new(0, 100),
        ctrl2: Point::new(100, 100),
        end: Point::new(100, 0),
    };
    // (0 + 3*0 + 3*100 + 100) / 8 = 50, (0 + 300 + 300 + 0) / 8 = 75
    assert_eq!(curve_point(&c, 1, 2), Point::new(50, 75));
    // u = 3, i = 1, n = 4: (27*0 + 27*0 + 9*100 + 1*100) / 64 = 15; (27*100 + 9*100) / 64 = 56
    assert_eq!(curve_point(&c, 1, 4), Point::new(15, 56));
}

#[test]
fn motion_steps_sample_by_speed() {
    let c = mouse_bez_with(Point::new(0, 0), Point::new(250, 90), 0, 0);
    let steps = motion_steps(&c, 10, ClickKind::RightClick);
    // 25 + 1000 / 10 = 125 intervals, so 126 moves, a pause and the click
    assert_eq!(steps.len(), 126 + 2);
    assert_eq!(steps[0], InputStep::MoveTo(Point::new(0, 0)));
    assert_eq!(steps[125], InputStep::MoveTo(Point::new(250, 90)));
    assert_eq!(steps[126], InputStep::Pause(SETTLE_MS));
    assert_eq!(steps[127], InputStep::Click(ClickKind::RightClick));
    let slow = motion_steps(&c, 1, ClickKind::LeftClick);
    assert_eq!(slow.len(), 1026 + 2);
    let zero = motion_steps(&c, 0, ClickKind::LeftClick);
    assert_eq!(zero.len(), 1026 + 2);
    let fast = motion_steps(&c, 5000, ClickKind::ShiftClick);
    assert_eq!(fast.len(), 26 + 2);
}

#[test]
fn planned_motion_runs_from_start_to_target() {
    let from = Point::new(40, 700);
    let to = Point::new(900, 80);
    let steps = plan_motion(from, to, 30, 3, ClickKind::ShiftClick);
    let n = 25 + 1000 / 3;
    assert_eq!(steps.len(), n + 1 + 2);
    assert_eq!(steps[0], InputStep::MoveTo(from));
    assert_eq!(steps[n], InputStep::MoveTo(to));
    assert_eq!(steps[n + 2], InputStep::Click(ClickKind::ShiftClick));
}
