//! The explicit four-step Adams-Bashforth method with a fixed step,
//! started by three Runge-Kutta steps.

use vstd::prelude::*;
use decimal::d128;
use crate::arith::{
    add_spec, dec_add, dec_div, dec_from_u32, dec_mul, dec_sub, div_spec, from_u32_spec,
    is_zero_spec, mul_spec, sub_spec,
};
use crate::error::OdeError;
use crate::problem::{computes, total};
use crate::rk4::{integrate_rk4, rk4_point};
use crate::trajectory::{grid_x, Point, Trajectory};

verus! {

/// One Adams-Bashforth step of size `h` from `newest = (x, y)`, with
/// `back1`, `back2` and `back3` the points one, two and three steps before
/// it, for the right-hand side `f`:
///
/// ```text
/// y' = y + h*(55*f(newest) - 59*f(back1) + 37*f(back2) - 9*f(back3))/24
/// x' = x + h
/// ```
///
/// The four terms are combined from left to right, and the step is
/// multiplied by their sum before the division by 24.
pub open spec fn ab4_step_spec(
    f: spec_fn(d128, d128) -> d128,
    h: d128,
    back3: Point,
    back2: Point,
    back1: Point,
    newest: Point,
) -> Point {
    let t0 = mul_spec(from_u32_spec(55), f(newest.x, newest.y));
    let t1 = mul_spec(from_u32_spec(59), f(back1.x, back1.y));
    let t2 = mul_spec(from_u32_spec(37), f(back2.x, back2.y));
    let t3 = mul_spec(from_u32_spec(9), f(back3.x, back3.y));
    let slopes = sub_spec(add_spec(sub_spec(t0, t1), t2), t3);
    Point {
        x: add_spec(newest.x, h),
        y: add_spec(newest.y, div_spec(mul_spec(h, slopes), from_u32_spec(24))),
    }
}

/// The `i`-th point of the Adams-Bashforth trajectory from `(x0, y0)`:
/// a Runge-Kutta point up to index 3, a multistep point after that.
pub open spec fn adams4_point(f: spec_fn(d128, d128) -> d128, x0: d128, y0: d128, h: d128, i: nat) -> Point
    decreases i,
{
    if i <= 3 {
        rk4_point(f, x0, y0, h, i)
    } else {
        ab4_step_spec(
            f,
            h,
            adams4_point(f, x0, y0, h, (i - 4) as nat),
            adams4_point(f, x0, y0, h, (i - 3) as nat),
            adams4_point(f, x0, y0, h, (i - 2) as nat),
            adams4_point(f, x0, y0, h, (i - 1) as nat),
        )
    }
}

/// The Adams-Bashforth trajectory of `n` steps: `n + 1` points.
pub open spec fn adams4_trajectory(f: spec_fn(d128, d128) -> d128, x0: d128, y0: d128, h: d128, n: nat) -> Seq<Point> {
    Seq::new(n + 1, |i: int| adams4_point(f, x0, y0, h, i as nat))
}

/// What `integrate_adams4` returns for a run of `n` steps.
pub open spec fn adams4_outcome<F: Fn(d128, d128) -> d128>(
    derivative: &F,
    x0: d128,
    y0: d128,
    h: d128,
    n: nat,
    r: Result<Trajectory, OdeError>,
) -> bool {
    if n < 3 {
        r == Err::<Trajectory, OdeError>(OdeError::TooFewSteps)
    } else if is_zero_spec(h) {
        r == Err::<Trajectory, OdeError>(OdeError::ZeroStep)
    } else {
        &&& r is Ok
        &&& r->Ok_0@.len() == n + 1
        &&& r->Ok_0@[0] == (Point { x: x0, y: y0 })
        &&& r->Ok_0.on_grid(x0, h)
        &&& forall|f: spec_fn(d128, d128) -> d128| #[trigger]
            computes(derivative, f) ==> r->Ok_0@ == adams4_trajectory(f, x0, y0, h, n)
    }
}

/// Advances by one Adams-Bashforth step of size `h` from `newest`, with
/// `back1`, `back2` and `back3` the points one, two and three steps before
/// it.
pub fn ab4_step<F: Fn(d128, d128) -> d128>(
    derivative: &F,
    h: d128,
    back3: Point,
    back2: Point,
    back1: Point,
    newest: Point,
) -> (q: Point)
    requires
        total(derivative),
    ensures
        q.x == add_spec(newest.x, h),
        forall|f: spec_fn(d128, d128) -> d128| #[trigger]
            computes(derivative, f) ==> q == ab4_step_spec(f, h, back3, back2, back1, newest),
{
    let t0 = dec_mul(dec_from_u32(55), derivative(newest.x, newest.y));
    let t1 = dec_mul(dec_from_u32(59), derivative(back1.x, back1.y));
    let t2 = dec_mul(dec_from_u32(37), derivative(back2.x, back2.y));
    let t3 = dec_mul(dec_from_u32(9), derivative(back3.x, back3.y));
    let slopes = dec_sub(dec_add(dec_sub(t0, t1), t2), t3);
    let y_next = dec_add(newest.y, dec_div(dec_mul(h, slopes), dec_from_u32(24)));
    Point { x: dec_add(newest.x, h), y: y_next }
}

/// Integrates `y' = derivative(x, y)` from `(x0, y0)` over `n` steps of
/// size `h` and returns the `n + 1` points, the starting point first.
///
/// The method needs four points before its first step: fewer than three
/// steps are refused, and so is a zero step size. The points up to index 3
/// come from `integrate_rk4`; each later point comes from the four points
/// before it. Whatever `derivative` returns, the points lie on the grid
/// `x0, x0 + h, ...`; where `derivative` computes a function `f`, they are
/// the Adams-Bashforth trajectory of `f`.
pub fn integrate_adams4<F: Fn(d128, d128) -> d128>(
    x0: d128,
    y0: d128,
    h: d128,
    n: usize,
    derivative: &F,
) -> (r: Result<Trajectory, OdeError>)
    requires
        total(derivative),
    ensures
        adams4_outcome(derivative, x0, y0, h, n as nat, r),
{
    if n < 3 {
        return Err(OdeError::TooFewSteps);
    }
    let mut t = match integrate_rk4(x0, y0, h, 3, derivative) {
        Ok(t) => t,
        Err(e) => {
            return Err(e);
        },
    };
    let mut i: usize = 3;
    while i < n
        invariant
            total(derivative),
            3 <= i <= n,
            t@.len() == i + 1,
            t@[0] == (Point { x: x0, y: y0 }),
            forall|j: int| 0 <= j <= i ==> (#[trigger] t@[j]).x == grid_x(x0, h, j as nat),
            forall|f: spec_fn(d128, d128) -> d128| #[trigger]
                computes(derivative, f) ==> forall|j: int|
                    0 <= j <= i ==> #[trigger] t@[j] == adams4_point(f, x0, y0, h, j as nat),
        decreases n - i,
    {
        let back3 = t.point(i - 3);
        let back2 = t.point(i - 2);
        let back1 = t.point(i - 1);
        let newest = t.point(i);
        let next = ab4_step(derivative, h, back3, back2, back1, newest);
        t.push(next);
        i = i + 1;
    }
    proof {
        assert forall|f: spec_fn(d128, d128) -> d128| #[trigger]
            computes(derivative, f) implies t@ == adams4_trajectory(f, x0, y0, h, n as nat) by {
            assert(t@ =~= adams4_trajectory(f, x0, y0, h, n as nat));
        }
    }
    Ok(t)
}

} // verus!
