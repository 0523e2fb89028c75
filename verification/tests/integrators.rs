use decimal::d128;
use decimal_ode::{
    ab4_step, integrate_adams4, integrate_rk4, rk4_step, sample_exact, yexact, yprime, OdeError,
    Point, Trajectory,
};
use std::str::FromStr;

fn dec(s: &str) -> d128 {
    d128::from_str(s).unwrap()
}

fn same_bits(a: d128, b: d128) -> bool {
    a.to_raw_bytes() == b.to_raw_bytes()
}

fn same_points(a: &Trajectory, b: &Trajectory) -> bool {
    if a.len() != b.len() {
        return false;
    }
    for i in 0..a.len() {
        let p = a.get(i).unwrap();
        let q = b.get(i).unwrap();
        if !same_bits(p.x, q.x) || !same_bits(p.y, q.y) {
            return false;
        }
    }
    true
}

fn identity_in_x(x: d128, _y: d128) -> d128 {
    x
}

fn identity_in_y(_x: d128, y: d128) -> d128 {
    y
}

#[test]
fn rk4_step_of_y_prime_equals_y() {
    let q = rk4_step(&identity_in_y, dec("0.6"), Point { x: dec("0"), y: dec("1") });
    assert_eq!(q.x, dec("0.6"));
    assert_eq!(q.y, dec("1.8214"));
}

#[test]
fn rk4_step_of_y_prime_equals_x() {
    let q = rk4_step(&identity_in_x, dec("0.24"), Point { x: dec("1"), y: dec("0.5") });
    assert_eq!(q.x, dec("1.24"));
    assert_eq!(q.y, dec("0.7688"));
}

#[test]
fn rk4_divides_after_multiplying_by_the_step() {
    let t = integrate_rk4(dec("0"), dec("18"), dec("1"), 3, &yprime).unwrap();
    assert_eq!(t.len(), 4);
    let expected = [("0", "18"), ("1", "48"), ("2", "768"), ("3", "49408")];
    for (i, (x, y)) in expected.iter().enumerate() {
        let p = t.get(i).unwrap();
        assert_eq!(p.x, dec(x));
        assert_eq!(p.y, dec(y));
    }
}

#[test]
fn rk4_step_divides_after_multiplying_by_the_step() {
    let q = rk4_step(&yprime, dec("1"), Point { x: dec("0"), y: dec("18") });
    assert_eq!(q.x, dec("1"));
    assert_eq!(q.y, dec("48"));
    assert_ne!(q.y, dec("48.00000000000000000000000000000001"));
}

#[test]
fn adams4_divides_after_multiplying_by_the_step() {
    let t = integrate_adams4(dec("0"), dec("18"), dec("1"), 4, &yprime).unwrap();
    assert_eq!(t.len(), 5);
    let expected = [("0", "18"), ("1", "48"), ("2", "768"), ("3", "49408"), ("4", "721364")];
    for (i, (x, y)) in expected.iter().enumerate() {
        let p = t.get(i).unwrap();
        assert_eq!(p.x, dec(x));
        assert_eq!(p.y, dec(y));
    }
}

#[test]
fn ab4_step_divides_after_multiplying_by_the_step() {
    let back3 = Point { x: dec("0"), y: dec("18") };
    let back2 = Point { x: dec("1"), y: dec("48") };
    let back1 = Point { x: dec("2"), y: dec("768") };
    let newest = Point { x: dec("3"), y: dec("49408") };
    let q = ab4_step(&yprime, dec("1"), back3, back2, back1, newest);
    assert_eq!(q.x, dec("4"));
    assert_eq!(q.y, dec("721364"));
}

#[test]
fn rk4_follows_a_parabola_exactly() {
    let t = integrate_rk4(dec("1"), dec("0.5"), dec("0.24"), 3, &identity_in_x).unwrap();
    assert_eq!(t.len(), 4);
    let expected = [("1", "0.5"), ("1.24", "0.7688"), ("1.48", "1.0952"), ("1.72", "1.4792")];
    for (i, (x, y)) in expected.iter().enumerate() {
        let p = t.get(i).unwrap();
        assert_eq!(p.x, dec(x));
        assert_eq!(p.y, dec(y));
    }
}

#[test]
fn ab4_step_weighs_the_four_slopes() {
    let back3 = Point { x: dec("1"), y: dec("0.5") };
    let back2 = Point { x: dec("1.24"), y: dec("0.7688") };
    let back1 = Point { x: dec("1.48"), y: dec("1.0952") };
    let newest = Point { x: dec("1.72"), y: dec("1.4792") };
    let q = ab4_step(&identity_in_x, dec("0.24"), back3, back2, back1, newest);
    assert_eq!(q.x, dec("1.96"));
    assert_eq!(q.y, dec("1.9208"));
}

#[test]
fn adams4_follows_a_parabola_exactly() {
    let t = integrate_adams4(dec("1"), dec("0.5"), dec("0.24"), 5, &identity_in_x).unwrap();
    assert_eq!(t.len(), 6);
    let fifth = t.get(4).unwrap();
    assert_eq!(fifth.x, dec("1.96"));
    assert_eq!(fifth.y, dec("1.9208"));
    let sixth = t.last().unwrap();
    assert_eq!(sixth.x, dec("2.20"));
    assert_eq!(sixth.y, dec("2.42"));
}

#[test]
fn rk4_with_no_steps_is_the_start() {
    let t = integrate_rk4(dec("2"), dec("7"), dec("0.5"), 0, &yprime).unwrap();
    assert_eq!(t.len(), 1);
    let p = t.last().unwrap();
    assert!(same_bits(p.x, dec("2")));
    assert!(same_bits(p.y, dec("7")));
}

#[test]
fn producers_return_one_point_more_than_steps() {
    let x0 = dec("0");
    let y0 = dec("6");
    let h = dec("0.001");
    for n in [0usize, 1, 2, 3, 4, 17] {
        assert_eq!(integrate_rk4(x0, y0, h, n, &yprime).unwrap().len(), n + 1);
        assert_eq!(sample_exact(x0, y0, h, n, &yexact).unwrap().len(), n + 1);
    }
    for n in [3usize, 4, 17] {
        assert_eq!(integrate_adams4(x0, y0, h, n, &yprime).unwrap().len(), n + 1);
    }
}

#[test]
fn producers_share_one_grid() {
    let x0 = dec("0.3");
    let y0 = dec("6");
    let h = dec("0.001");
    let n = 50;
    let rk4 = integrate_rk4(x0, y0, h, n, &yprime).unwrap();
    let adams = integrate_adams4(x0, y0, h, n, &yprime).unwrap();
    let exact = sample_exact(x0, y0, h, n, &yexact).unwrap();
    let mut x = x0;
    for i in 0..=n {
        assert!(same_bits(rk4.get(i).unwrap().x, x));
        assert!(same_bits(adams.get(i).unwrap().x, x));
        assert!(same_bits(exact.get(i).unwrap().x, x));
        assert_eq!(x, x0 + d128::from(i as u32) * h);
        x = x + h;
    }
}

#[test]
fn grid_runs_backwards_for_a_negative_step() {
    let t = integrate_rk4(dec("1"), dec("1"), dec("-0.25"), 4, &identity_in_y).unwrap();
    let xs = ["1", "0.75", "0.50", "0.25", "0.00"];
    for (i, x) in xs.iter().enumerate() {
        assert_eq!(t.get(i).unwrap().x, dec(x));
    }
}

#[test]
fn adams4_starts_with_the_rk4_points() {
    let x0 = dec("0");
    let y0 = dec("6");
    let h = dec("0.001");
    let adams = integrate_adams4(x0, y0, h, 40, &yprime).unwrap();
    let rk4_long = integrate_rk4(x0, y0, h, 40, &yprime).unwrap();
    let rk4_short = integrate_rk4(x0, y0, h, 3, &yprime).unwrap();
    for i in 0..4 {
        let a = adams.get(i).unwrap();
        let r = rk4_long.get(i).unwrap();
        let s = rk4_short.get(i).unwrap();
        assert!(same_bits(a.x, r.x) && same_bits(a.y, r.y));
        assert!(same_bits(a.x, s.x) && same_bits(a.y, s.y));
    }
    let a4 = adams.get(4).unwrap();
    let r4 = rk4_long.get(4).unwrap();
    assert!(same_bits(a4.x, r4.x));
    assert!(!same_bits(a4.y, r4.y));
}

#[test]
fn adams4_of_three_steps_is_rk4() {
    let adams = integrate_adams4(dec("0"), dec("6"), dec("0.01"), 3, &yprime).unwrap();
    let rk4 = integrate_rk4(dec("0"), dec("6"), dec("0.01"), 3, &yprime).unwrap();
    assert!(same_points(&adams, &rk4));
}

#[test]
fn adams4_refuses_fewer_than_three_steps() {
    for n in [0usize, 1, 2] {
        let r = integrate_adams4(dec("0"), dec("6"), dec("0.001"), n, &yprime);
        assert_eq!(r.unwrap_err(), OdeError::TooFewSteps);
    }
    let r = integrate_adams4(dec("0"), dec("6"), dec("0"), 2, &yprime);
    assert_eq!(r.unwrap_err(), OdeError::TooFewSteps);
}

#[test]
fn zero_step_is_refused() {
    for h in ["0", "-0", "0.000", "0E+5"] {
        let h = dec(h);
        assert_eq!(integrate_rk4(dec("0"), dec("6"), h, 5, &yprime).unwrap_err(), OdeError::ZeroStep);
        assert_eq!(integrate_adams4(dec("0"), dec("6"), h, 5, &yprime).unwrap_err(), OdeError::ZeroStep);
        assert_eq!(sample_exact(dec("0"), dec("6"), h, 5, &yexact).unwrap_err(), OdeError::ZeroStep);
    }
    assert_eq!(integrate_rk4(dec("0"), dec("6"), dec("0"), 0, &yprime).unwrap_err(), OdeError::ZeroStep);
}

#[test]
fn integrators_repeat_themselves() {
    let x0 = dec("0");
    let y0 = dec("6");
    let h = dec("0.001");
    let n = 100;
    let a = integrate_rk4(x0, y0, h, n, &yprime).unwrap();
    let b = integrate_rk4(x0, y0, h, n, &yprime).unwrap();
    assert!(same_points(&a, &b));
    let a = integrate_adams4(x0, y0, h, n, &yprime).unwrap();
    let b = integrate_adams4(x0, y0, h, n, &yprime).unwrap();
    assert!(same_points(&a, &b));
    let a = sample_exact(x0, y0, h, n, &yexact).unwrap();
    let b = sample_exact(x0, y0, h, n, &yexact).unwrap();
    assert!(same_points(&a, &b));
}

#[test]
fn sample_exact_evaluates_at_every_grid_point() {
    let shifted = |x: d128, y0: d128| x * x + y0;
    let t = sample_exact(dec("2"), dec("10"), dec("0.5"), 3, &shifted).unwrap();
    let expected = [("2", "14"), ("2.5", "16.25"), ("3.0", "19"), ("3.5", "22.25")];
    assert_eq!(t.len(), 4);
    for (i, (x, y)) in expected.iter().enumerate() {
        let p = t.get(i).unwrap();
        assert_eq!(p.x, dec(x));
        assert_eq!(p.y, dec(y));
    }
}

#[test]
fn trajectory_reads_back_its_points() {
    let points = vec![
        Point { x: dec("1"), y: dec("2") },
        Point { x: dec("3"), y: dec("4") },
    ];
    let t = Trajectory::from_points(points);
    assert_eq!(t.len(), 2);
    assert_eq!(t.get(0).unwrap().y, dec("2"));
    assert_eq!(t.get(1).unwrap().x, dec("3"));
    assert_eq!(t.point(1).y, dec("4"));
    assert!(t.get(2).is_none());
    assert_eq!(t.last().unwrap().y, dec("4"));
    let empty = Trajectory::from_points(Vec::new());
    assert_eq!(empty.len(), 0);
    assert!(empty.last().is_none());
    assert!(empty.get(0).is_none());
}
