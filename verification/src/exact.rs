//! Sampling a closed-form solution on the integration grid.

use vstd::prelude::*;
use decimal::d128;
use crate::arith::{dec_add, dec_is_zero, is_zero_spec};
use crate::error::OdeError;
use crate::problem::{computes, total};
use crate::trajectory::{grid_x, Point, Trajectory};

verus! {

/// The `i`-th point of the reference trajectory: the solution `g` with
/// initial value `y0`, evaluated at the `i`-th grid abscissa.
pub open spec fn exact_point(g: spec_fn(d128, d128) -> d128, x0: d128, y0: d128, h: d128, i: nat) -> Point {
    Point { x: grid_x(x0, h, i), y: g(grid_x(x0, h, i), y0) }
}

/// The reference trajectory of `n` steps: `n + 1` points.
pub open spec fn exact_trajectory(g: spec_fn(d128, d128) -> d128, x0: d128, y0: d128, h: d128, n: nat) -> Seq<Point> {
    Seq::new(n + 1, |i: int| exact_point(g, x0, y0, h, i as nat))
}

/// What `sample_exact` returns for a run of `n` steps.
pub open spec fn exact_outcome<G: Fn(d128, d128) -> d128>(
    exact_fn: &G,
    x0: d128,
    y0: d128,
    h: d128,
    n: nat,
    r: Result<Trajectory, OdeError>,
) -> bool {
    if is_zero_spec(h) {
        r == Err::<Trajectory, OdeError>(OdeError::ZeroStep)
    } else {
        &&& r is Ok
        &&& r->Ok_0@.len() == n + 1
        &&& r->Ok_0.on_grid(x0, h)
        &&& forall|g: spec_fn(d128, d128) -> d128| #[trigger]
            computes(exact_fn, g) ==> r->Ok_0@ == exact_trajectory(g, x0, y0, h, n)
    }
}

/// Evaluates the solution `exact_fn(x, y0)` at the `n + 1` grid abscissas
/// `x0, x0 + h, ...`, each reached from the one before by adding `h`.
///
/// A zero step size is refused. Whatever `exact_fn` returns, the points lie
/// on the grid; where `exact_fn` computes a function `g`, they are the
/// reference trajectory of `g`.
pub fn sample_exact<G: Fn(d128, d128) -> d128>(
    x0: d128,
    y0: d128,
    h: d128,
    n: usize,
    exact_fn: &G,
) -> (r: Result<Trajectory, OdeError>)
    requires
        total(exact_fn),
    ensures
        exact_outcome(exact_fn, x0, y0, h, n as nat, r),
{
    if dec_is_zero(h) {
        return Err(OdeError::ZeroStep);
    }
    let mut x = x0;
    let mut points: Vec<Point> = Vec::new();
    points.push(Point { x: x0, y: exact_fn(x0, y0) });
    let mut i: usize = 0;
    while i < n
        invariant
            total(exact_fn),
            i <= n,
            points@.len() == i + 1,
            x == grid_x(x0, h, i as nat),
            forall|j: int| 0 <= j <= i ==> (#[trigger] points@[j]).x == grid_x(x0, h, j as nat),
            forall|g: spec_fn(d128, d128) -> d128| #[trigger]
                computes(exact_fn, g) ==> forall|j: int|
                    0 <= j <= i ==> #[trigger] points@[j] == exact_point(g, x0, y0, h, j as nat),
        decreases n - i,
    {
        x = dec_add(x, h);
        points.push(Point { x, y: exact_fn(x, y0) });
        i = i + 1;
    }
    let t = Trajectory::from_points(points);
    proof {
        assert forall|g: spec_fn(d128, d128) -> d128| #[trigger]
            computes(exact_fn, g) implies t@ == exact_trajectory(g, x0, y0, h, n as nat) by {
            assert(t@ =~= exact_trajectory(g, x0, y0, h, n as nat));
        }
    }
    Ok(t)
}

} // verus!
