//! Laws that relate the integrators, the sampler and the grid.

use vstd::prelude::*;
use decimal::d128;
use crate::adams::{adams4_outcome, adams4_point};
use crate::arith::add_spec;
use crate::error::OdeError;
use crate::exact::{exact_outcome, exact_point};
use crate::problem::{deterministic, graph, lemma_deterministic_computes_graph};
use crate::rk4::{rk4_outcome, rk4_point};
use crate::trajectory::{grid_x, Trajectory};

verus! {

/// Two results are the same error, or trajectories with the same points.
pub open spec fn same_result(r1: Result<Trajectory, OdeError>, r2: Result<Trajectory, OdeError>) -> bool {
    match (r1, r2) {
        (Ok(t1), Ok(t2)) => t1@ == t2@,
        (Err(e1), Err(e2)) => e1 == e2,
        _ => false,
    }
}

/// The abscissa of the `i`-th Runge-Kutta point is the `i`-th grid
/// abscissa.
pub proof fn lemma_rk4_on_grid(f: spec_fn(d128, d128) -> d128, x0: d128, y0: d128, h: d128, i: nat)
    ensures
        rk4_point(f, x0, y0, h, i).x == grid_x(x0, h, i),
    decreases i,
{
    if i > 0 {
        lemma_rk4_on_grid(f, x0, y0, h, (i - 1) as nat);
    }
}

/// The abscissa of the `i`-th Adams-Bashforth point is the `i`-th grid
/// abscissa.
pub proof fn lemma_adams4_on_grid(f: spec_fn(d128, d128) -> d128, x0: d128, y0: d128, h: d128, i: nat)
    ensures
        adams4_point(f, x0, y0, h, i).x == grid_x(x0, h, i),
    decreases i,
{
    if i <= 3 {
        lemma_rk4_on_grid(f, x0, y0, h, i);
    } else {
        lemma_adams4_on_grid(f, x0, y0, h, (i - 1) as nat);
    }
}

/// Grid alignment: for any start, step and index, the Runge-Kutta point,
/// the Adams-Bashforth point and the reference point at that index have
/// the same abscissa, the one of the grid, whatever the right-hand side
/// `f` and the solution `g` are.
pub proof fn lemma_grid_alignment(
    f: spec_fn(d128, d128) -> d128,
    g: spec_fn(d128, d128) -> d128,
    x0: d128,
    y0: d128,
    h: d128,
    i: nat,
)
    ensures
        rk4_point(f, x0, y0, h, i).x == grid_x(x0, h, i),
        adams4_point(f, x0, y0, h, i).x == grid_x(x0, h, i),
        exact_point(g, x0, y0, h, i).x == grid_x(x0, h, i),
{
    lemma_rk4_on_grid(f, x0, y0, h, i);
    lemma_adams4_on_grid(f, x0, y0, h, i);
}

/// Grid alignment of the three producers: trajectories that they return
/// for the same start and step have equal abscissas at every index that
/// they share, whatever the functions handed to them return.
pub proof fn lemma_producers_aligned<F: Fn(d128, d128) -> d128, G: Fn(d128, d128) -> d128>(
    derivative: &F,
    exact_fn: &G,
    x0: d128,
    y0: d128,
    h: d128,
    n_rk4: nat,
    n_adams: nat,
    n_exact: nat,
    rk4: Trajectory,
    adams: Trajectory,
    exact: Trajectory,
    i: int,
)
    requires
        rk4_outcome(derivative, x0, y0, h, n_rk4, Ok(rk4)),
        adams4_outcome(derivative, x0, y0, h, n_adams, Ok(adams)),
        exact_outcome(exact_fn, x0, y0, h, n_exact, Ok(exact)),
        0 <= i <= n_rk4,
        i <= n_adams,
        i <= n_exact,
    ensures
        rk4@[i].x == grid_x(x0, h, i as nat),
        adams@[i].x == grid_x(x0, h, i as nat),
        exact@[i].x == grid_x(x0, h, i as nat),
{
}

/// Spacing: consecutive points of a trajectory on a grid of step `h` lie
/// exactly `h` apart, the later abscissa being the earlier one plus `h`.
pub proof fn lemma_grid_spacing(t: Trajectory, x0: d128, h: d128, i: int)
    requires
        t.on_grid(x0, h),
        0 <= i,
        i + 1 < t@.len(),
    ensures
        t@[i + 1].x == add_spec(t@[i].x, h),
{
    assert(t@[i + 1].x == grid_x(x0, h, (i + 1) as nat));
    assert(t@[i].x == grid_x(x0, h, i as nat));
}

/// Bootstrap equivalence: up to index 3 the Adams-Bashforth points are the
/// Runge-Kutta points.
pub proof fn lemma_bootstrap_points(f: spec_fn(d128, d128) -> d128, x0: d128, y0: d128, h: d128, i: nat)
    requires
        i <= 3,
    ensures
        adams4_point(f, x0, y0, h, i) == rk4_point(f, x0, y0, h, i),
{
}

/// Bootstrap equivalence of the two integrators: for a deterministic
/// right-hand side, the trajectories that they return for the same start
/// and step hold the same points at the indices 0 to 3, as far as the
/// Runge-Kutta run reaches.
pub proof fn lemma_bootstrap_equivalence<F: Fn(d128, d128) -> d128>(
    derivative: &F,
    x0: d128,
    y0: d128,
    h: d128,
    n_adams: nat,
    n_rk4: nat,
    adams: Trajectory,
    rk4: Trajectory,
    i: int,
)
    requires
        deterministic(derivative),
        adams4_outcome(derivative, x0, y0, h, n_adams, Ok(adams)),
        rk4_outcome(derivative, x0, y0, h, n_rk4, Ok(rk4)),
        0 <= i <= 3,
        i <= n_rk4,
    ensures
        i < adams@.len(),
        adams@[i] == rk4@[i],
{
    lemma_deterministic_computes_graph(derivative);
    lemma_bootstrap_points(graph(derivative), x0, y0, h, i as nat);
}

/// Determinism of the Runge-Kutta integrator: for a deterministic
/// right-hand side, two runs on the same arguments give the same result.
pub proof fn lemma_rk4_deterministic<F: Fn(d128, d128) -> d128>(
    derivative: &F,
    x0: d128,
    y0: d128,
    h: d128,
    n: nat,
    r1: Result<Trajectory, OdeError>,
    r2: Result<Trajectory, OdeError>,
)
    requires
        deterministic(derivative),
        rk4_outcome(derivative, x0, y0, h, n, r1),
        rk4_outcome(derivative, x0, y0, h, n, r2),
    ensures
        same_result(r1, r2),
{
    lemma_deterministic_computes_graph(derivative);
}

/// Determinism of the Adams-Bashforth integrator: for a deterministic
/// right-hand side, two runs on the same arguments give the same result.
pub proof fn lemma_adams4_deterministic<F: Fn(d128, d128) -> d128>(
    derivative: &F,
    x0: d128,
    y0: d128,
    h: d128,
    n: nat,
    r1: Result<Trajectory, OdeError>,
    r2: Result<Trajectory, OdeError>,
)
    requires
        deterministic(derivative),
        adams4_outcome(derivative, x0, y0, h, n, r1),
        adams4_outcome(derivative, x0, y0, h, n, r2),
    ensures
        same_result(r1, r2),
{
    lemma_deterministic_computes_graph(derivative);
}

/// Determinism of the sampler: for a deterministic solution function, two
/// runs on the same arguments give the same result.
pub proof fn lemma_sample_exact_deterministic<G: Fn(d128, d128) -> d128>(
    exact_fn: &G,
    x0: d128,
    y0: d128,
    h: d128,
    n: nat,
    r1: Result<Trajectory, OdeError>,
    r2: Result<Trajectory, OdeError>,
)
    requires
        deterministic(exact_fn),
        exact_outcome(exact_fn, x0, y0, h, n, r1),
        exact_outcome(exact_fn, x0, y0, h, n, r2),
    ensures
        same_result(r1, r2),
{
    lemma_deterministic_computes_graph(exact_fn);
}

} // verus!
