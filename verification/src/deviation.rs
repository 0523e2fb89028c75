//! The signed error of an approximate trajectory against a reference.

use vstd::prelude::*;
use decimal::d128;
use crate::arith::{dec_sub, sub_spec};
use crate::error::OdeError;
use crate::trajectory::{Point, Trajectory};

verus! {

/// The signed error at one grid abscissa.
#[derive(Clone, Copy, Debug)]
pub struct Deviation {
    /// The abscissa of the approximate point.
    pub x: d128,
    /// The approximate value less the reference value.
    pub error: d128,
}

/// The deviation of the point `a` from the reference point `e`.
pub open spec fn deviation_at(a: Point, e: Point) -> Deviation {
    Deviation { x: a.x, error: sub_spec(a.y, e.y) }
}

/// The deviations of `approx` from `exact`, paired index by index.
pub open spec fn deviation_spec(approx: Seq<Point>, exact: Seq<Point>) -> Seq<Deviation> {
    Seq::new(approx.len(), |i: int| deviation_at(approx[i], exact[i]))
}

/// Pairs the points of `approx` and `exact` at equal index and returns, for
/// each pair, the abscissa of the approximate point with the approximate
/// value less the reference value.
///
/// Trajectories of different lengths are refused; neither is changed.
pub fn deviation(approx: &Trajectory, exact: &Trajectory) -> (r: Result<Vec<Deviation>, OdeError>)
    ensures
        approx@.len() != exact@.len() ==> r == Err::<Vec<Deviation>, OdeError>(
            OdeError::LengthMismatch,
        ),
        approx@.len() == exact@.len() ==> r is Ok && r->Ok_0@ == deviation_spec(approx@, exact@),
{
    let n = approx.len();
    if n != exact.len() {
        return Err(OdeError::LengthMismatch);
    }
    let mut out: Vec<Deviation> = Vec::new();
    let mut i: usize = 0;
    while i < n
        invariant
            n == approx@.len(),
            n == exact@.len(),
            i <= n,
            out@.len() == i,
            forall|j: int| 0 <= j < i ==> #[trigger] out@[j] == deviation_at(approx@[j], exact@[j]),
        decreases n - i,
    {
        let a = approx.point(i);
        let e = exact.point(i);
        out.push(Deviation { x: a.x, error: dec_sub(a.y, e.y) });
        i = i + 1;
    }
    proof {
        assert(out@ =~= deviation_spec(approx@, exact@));
    }
    Ok(out)
}

} // verus!
