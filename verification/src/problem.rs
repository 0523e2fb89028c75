//! The problem definition: a right-hand side `f(x, y)` supplied by the
//! caller and, where the solution is known in closed form, `exact(x, y0)`.
//!
//! Both are executable functions of two decimals. Contracts speak of such a
//! function through a mathematical function that it computes.

use vstd::prelude::*;
use decimal::d128;
use crate::arith::{dec_from_u32, dec_mul, dec_parse, dec_pow, from_u32_spec, mul_spec, parse_spec, pow_spec};

verus! {

/// The function accepts every pair of decimals.
pub open spec fn total<F: Fn(d128, d128) -> d128>(f: &F) -> bool {
    forall|a: d128, b: d128| call_requires(f, (a, b))
}

/// Every result of the function at `(a, b)` is `m(a, b)`.
pub open spec fn computes<F: Fn(d128, d128) -> d128>(f: &F, m: spec_fn(d128, d128) -> d128) -> bool {
    forall|a: d128, b: d128, r: d128| #[trigger] call_ensures(f, (a, b), r) ==> r == m(a, b)
}

/// Two calls of the function on the same arguments give the same result.
pub open spec fn deterministic<F: Fn(d128, d128) -> d128>(f: &F) -> bool {
    forall|a: d128, b: d128, r1: d128, r2: d128|
        #[trigger] call_ensures(f, (a, b), r1) && #[trigger] call_ensures(f, (a, b), r2) ==> r1 == r2
}

/// The mathematical function that a deterministic function computes: at
/// each pair of arguments, the one result it can give there.
pub open spec fn graph<F: Fn(d128, d128) -> d128>(f: &F) -> spec_fn(d128, d128) -> d128 {
    |a: d128, b: d128| choose|r: d128| call_ensures(f, (a, b), r)
}

/// A deterministic function computes its graph.
pub proof fn lemma_deterministic_computes_graph<F: Fn(d128, d128) -> d128>(f: &F)
    requires
        deterministic(f),
    ensures
        computes(f, graph(f)),
{
    assert forall|a: d128, b: d128, r: d128| #[trigger] call_ensures(f, (a, b), r) implies r == graph(
        f,
    )(a, b) by {
        let c = choose|c: d128| call_ensures(f, (a, b), c);
        assert(call_ensures(f, (a, b), c));
    }
}

/// Euler's number to 34 significant digits.
pub open spec fn euler_spec() -> d128 {
    parse_spec("2.718281828459045235360287471352662"@)
}

/// `e` raised to `x`: the power of the 34-digit `e`.
pub open spec fn exp_spec(x: d128) -> d128 {
    pow_spec(euler_spec(), x)
}

/// `e` raised to `x`.
///
/// This is `d128::pow` on the 34-digit `e`. `d128::exp` is of no use here:
/// it takes a second operand and hands it to the underlying routine in
/// the place of the arithmetic context.
pub fn exp(x: d128) -> (r: d128)
    ensures
        r == exp_spec(x),
{
    dec_pow(dec_parse("2.718281828459045235360287471352662"), x)
}

/// The right-hand side `2xy`, evaluated as `(2 * x) * y`.
pub open spec fn yprime_spec(x: d128, y: d128) -> d128 {
    mul_spec(mul_spec(from_u32_spec(2), x), y)
}

/// The right-hand side of the problem `y' = 2xy`.
pub fn yprime(x: d128, y: d128) -> (r: d128)
    ensures
        r == yprime_spec(x, y),
{
    dec_mul(dec_mul(dec_from_u32(2), x), y)
}

/// The solution `y0 * e^(x * x)` of `y' = 2xy` with `y(0) = y0`.
pub open spec fn yexact_spec(x: d128, y0: d128) -> d128 {
    mul_spec(y0, exp_spec(mul_spec(x, x)))
}

/// The exact solution of the problem `y' = 2xy` with `y(0) = y0`.
pub fn yexact(x: d128, y0: d128) -> (r: d128)
    ensures
        r == yexact_spec(x, y0),
{
    dec_mul(y0, exp(dec_mul(x, x)))
}

} // verus!
