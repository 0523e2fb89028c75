//! Trajectory points, trajectories and the grid they lie on.

use vstd::prelude::*;
use decimal::d128;
use crate::arith::add_spec;

verus! {

/// A point `(x, y)` of a trajectory.
#[derive(Clone, Copy, Debug)]
pub struct Point {
    pub x: d128,
    pub y: d128,
}

/// The `i`-th grid abscissa: `x0` with `h` added `i` times, one addition
/// after the other.
pub open spec fn grid_x(x0: d128, h: d128, i: nat) -> d128
    decreases i,
{
    if i == 0 {
        x0
    } else {
        add_spec(grid_x(x0, h, (i - 1) as nat), h)
    }
}

/// An ordered sequence of points, indexed from 0.
#[derive(Clone, Debug)]
pub struct Trajectory {
    points: Vec<Point>,
}

impl View for Trajectory {
    type V = Seq<Point>;

    closed spec fn view(&self) -> Seq<Point> {
        self.points@
    }
}

impl Trajectory {
    /// Every point lies on the grid that starts at `x0` and advances by `h`.
    pub open spec fn on_grid(&self, x0: d128, h: d128) -> bool {
        forall|i: int| 0 <= i < self@.len() ==> (#[trigger] self@[i]).x == grid_x(x0, h, i as nat)
    }

    /// The trajectory that holds the given points in their order.
    pub fn from_points(points: Vec<Point>) -> (t: Trajectory)
        ensures
            t@ == points@,
    {
        Trajectory { points }
    }

    /// The number of points.
    pub fn len(&self) -> (n: usize)
        ensures
            n == self@.len(),
    {
        self.points.len()
    }

    /// The point at index `i`, if there is one.
    pub fn get(&self, i: usize) -> (p: Option<Point>)
        ensures
            i < self@.len() ==> p == Some(self@[i as int]),
            i >= self@.len() ==> p is None,
    {
        if i < self.points.len() {
            Some(self.points[i])
        } else {
            None
        }
    }

    /// The point at index `i` of a trajectory that reaches so far.
    pub fn point(&self, i: usize) -> (p: Point)
        requires
            i < self@.len(),
        ensures
            p == self@[i as int],
    {
        self.points[i]
    }

    /// The last point, if there is one.
    pub fn last(&self) -> (p: Option<Point>)
        ensures
            self@.len() > 0 ==> p == Some(self@.last()),
            self@.len() == 0 ==> p is None,
    {
        let n = self.points.len();
        if n > 0 {
            Some(self.points[n - 1])
        } else {
            None
        }
    }

    /// Appends a point.
    pub(crate) fn push(&mut self, p: Point)
        ensures
            final(self)@ == old(self)@.push(p),
    {
        self.points.push(p);
    }
}

} // verus!
