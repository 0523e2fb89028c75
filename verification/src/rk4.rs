//! The classical fourth-order Runge-Kutta method with a fixed step.

use vstd::prelude::*;
use decimal::d128;
use crate::arith::{
    add_spec, dec_add, dec_div, dec_from_u32, dec_is_zero, dec_mul, div_spec, from_u32_spec,
    is_zero_spec, mul_spec,
};
use crate::error::OdeError;
use crate::problem::{computes, total};
use crate::trajectory::{grid_x, Point, Trajectory};

verus! {

/// One Runge-Kutta step of size `h` from `p` for the right-hand side `f`:
///
/// ```text
/// k1 = f(x, y)
/// k2 = f(x + h/2, y + h*k1/2)
/// k3 = f(x + h/2, y + h*k2/2)
/// k4 = f(x + h,   y + h*k3)
/// y' = y + h*(k1 + 2*k2 + 2*k3 + k4)/6
/// x' = x + h
/// ```
///
/// Products and quotients are taken from left to right, sums too: the
/// step is multiplied by the sum of the slopes before the division by 6.
pub open spec fn rk4_step_spec(f: spec_fn(d128, d128) -> d128, h: d128, p: Point) -> Point {
    let two = from_u32_spec(2);
    let x_mid = add_spec(p.x, div_spec(h, two));
    let k1 = f(p.x, p.y);
    let k2 = f(x_mid, add_spec(p.y, div_spec(mul_spec(h, k1), two)));
    let k3 = f(x_mid, add_spec(p.y, div_spec(mul_spec(h, k2), two)));
    let k4 = f(add_spec(p.x, h), add_spec(p.y, mul_spec(h, k3)));
    let slopes = add_spec(add_spec(add_spec(k1, mul_spec(two, k2)), mul_spec(two, k3)), k4);
    Point {
        x: add_spec(p.x, h),
        y: add_spec(p.y, div_spec(mul_spec(h, slopes), from_u32_spec(6))),
    }
}

/// The `i`-th point of the Runge-Kutta trajectory from `(x0, y0)`.
pub open spec fn rk4_point(f: spec_fn(d128, d128) -> d128, x0: d128, y0: d128, h: d128, i: nat) -> Point
    decreases i,
{
    if i == 0 {
        Point { x: x0, y: y0 }
    } else {
        rk4_step_spec(f, h, rk4_point(f, x0, y0, h, (i - 1) as nat))
    }
}

/// The Runge-Kutta trajectory of `n` steps: `n + 1` points.
pub open spec fn rk4_trajectory(f: spec_fn(d128, d128) -> d128, x0: d128, y0: d128, h: d128, n: nat) -> Seq<Point> {
    Seq::new(n + 1, |i: int| rk4_point(f, x0, y0, h, i as nat))
}

/// What `integrate_rk4` returns for a run of `n` steps.
pub open spec fn rk4_outcome<F: Fn(d128, d128) -> d128>(
    derivative: &F,
    x0: d128,
    y0: d128,
    h: d128,
    n: nat,
    r: Result<Trajectory, OdeError>,
) -> bool {
    if is_zero_spec(h) {
        r == Err::<Trajectory, OdeError>(OdeError::ZeroStep)
    } else {
        &&& r is Ok
        &&& r->Ok_0@.len() == n + 1
        &&& r->Ok_0@[0] == (Point { x: x0, y: y0 })
        &&& r->Ok_0.on_grid(x0, h)
        &&& forall|f: spec_fn(d128, d128) -> d128| #[trigger]
            computes(derivative, f) ==> r->Ok_0@ == rk4_trajectory(f, x0, y0, h, n)
    }
}

/// Advances `p` by one Runge-Kutta step of size `h`.
pub fn rk4_step<F: Fn(d128, d128) -> d128>(derivative: &F, h: d128, p: Point) -> (q: Point)
    requires
        total(derivative),
    ensures
        q.x == add_spec(p.x, h),
        forall|f: spec_fn(d128, d128) -> d128| #[trigger]
            computes(derivative, f) ==> q == rk4_step_spec(f, h, p),
{
    let two = dec_from_u32(2);
    let x_mid = dec_add(p.x, dec_div(h, two));
    let x_next = dec_add(p.x, h);
    let k1 = derivative(p.x, p.y);
    let k2 = derivative(x_mid, dec_add(p.y, dec_div(dec_mul(h, k1), two)));
    let k3 = derivative(x_mid, dec_add(p.y, dec_div(dec_mul(h, k2), two)));
    let k4 = derivative(x_next, dec_add(p.y, dec_mul(h, k3)));
    let slopes = dec_add(dec_add(dec_add(k1, dec_mul(two, k2)), dec_mul(two, k3)), k4);
    let y_next = dec_add(p.y, dec_div(dec_mul(h, slopes), dec_from_u32(6)));
    Point { x: x_next, y: y_next }
}

/// Integrates `y' = derivative(x, y)` from `(x0, y0)` over `n` steps of
/// size `h` and returns the `n + 1` points, the starting point first.
///
/// A zero step size is refused. Whatever `derivative` returns, the points
/// lie on the grid `x0, x0 + h, ...`; where `derivative` computes a
/// function `f`, they are the Runge-Kutta trajectory of `f`.
pub fn integrate_rk4<F: Fn(d128, d128) -> d128>(
    x0: d128,
    y0: d128,
    h: d128,
    n: usize,
    derivative: &F,
) -> (r: Result<Trajectory, OdeError>)
    requires
        total(derivative),
    ensures
        rk4_outcome(derivative, x0, y0, h, n as nat, r),
{
    if dec_is_zero(h) {
        return Err(OdeError::ZeroStep);
    }
    let mut current = Point { x: x0, y: y0 };
    let mut points: Vec<Point> = Vec::new();
    points.push(current);
    let mut i: usize = 0;
    while i < n
        invariant
            total(derivative),
            i <= n,
            points@.len() == i + 1,
            current == points@[i as int],
            points@[0] == (Point { x: x0, y: y0 }),
            forall|j: int| 0 <= j <= i ==> (#[trigger] points@[j]).x == grid_x(x0, h, j as nat),
            forall|f: spec_fn(d128, d128) -> d128| #[trigger]
                computes(derivative, f) ==> forall|j: int|
                    0 <= j <= i ==> #[trigger] points@[j] == rk4_point(f, x0, y0, h, j as nat),
        decreases n - i,
    {
        let next = rk4_step(derivative, h, current);
        points.push(next);
        current = next;
        i = i + 1;
    }
    let t = Trajectory::from_points(points);
    proof {
        assert forall|f: spec_fn(d128, d128) -> d128| #[trigger]
            computes(derivative, f) implies t@ == rk4_trajectory(f, x0, y0, h, n as nat) by {
            assert(t@ =~= rk4_trajectory(f, x0, y0, h, n as nat));
        }
    }
    Ok(t)
}

} // verus!
