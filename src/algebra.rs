//! Identities of the dot and cross product over integer triples, proved by
//! expanding each product into monomials.
use vstd::prelude::*;
use vstd::arithmetic::mul::{
    lemma_mul_is_associative, lemma_mul_is_distributive_add, lemma_mul_is_distributive_add_other_way,
    lemma_mul_is_distributive_sub, lemma_mul_is_distributive_sub_other_way,
};
use crate::vector::{cross, dot, Triple};

verus! {

/// `a * x + b * y - n * t`.
pub open spec fn combination(a: int, b: int, n: int, x: Triple, y: Triple, t: Triple) -> Triple {
    (a * x.0 + b * y.0 - n * t.0, a * x.1 + b * y.1 - n * t.1, a * x.2 + b * y.2 - n * t.2)
}

proof fn monomial_orders(a: int, b: int, c: int)
    ensures
        a * (b * c) == b * (c * a),
        a * (b * c) == c * (a * b),
        a * (b * c) == a * (c * b),
        a * (b * c) == b * (a * c),
        a * (b * c) == c * (b * a),
{
    assert(a * (b * c) == b * (c * a) && a * (b * c) == c * (a * b) && a * (b * c) == a * (c * b)
        && a * (b * c) == b * (a * c) && a * (b * c) == c * (b * a)) by (nonlinear_arith);
}
proof fn cyclic_components(t0: int, t1: int, t2: int, x0: int, x1: int, x2: int, y0: int, y1: int, y2: int)
    ensures
        y0 * (t1 * x2 - t2 * x1) + y1 * (t2 * x0 - t0 * x2) + y2 * (t0 * x1 - t1 * x0)
            == t0 * (x1 * y2 - x2 * y1) + t1 * (x2 * y0 - x0 * y2) + t2 * (x0 * y1 - x1 * y0),
{
    lemma_mul_is_distributive_sub(y0, t1 * x2, t2 * x1);
    lemma_mul_is_distributive_sub(y1, t2 * x0, t0 * x2);
    lemma_mul_is_distributive_sub(y2, t0 * x1, t1 * x0);
    lemma_mul_is_distributive_sub(t0, x1 * y2, x2 * y1);
    lemma_mul_is_distributive_sub(t1, x2 * y0, x0 * y2);
    lemma_mul_is_distributive_sub(t2, x0 * y1, x1 * y0);
    monomial_orders(t0, x1, y2);
    monomial_orders(t0, x2, y1);
    monomial_orders(t1, x2, y0);
    monomial_orders(t1, x0, y2);
    monomial_orders(t2, x0, y1);
    monomial_orders(t2, x1, y0);
}
proof fn orthogonal_components(x0: int, x1: int, x2: int, y0: int, y1: int, y2: int)
    ensures
        x0 * (x1 * y2 - x2 * y1) + x1 * (x2 * y0 - x0 * y2) + x2 * (x0 * y1 - x1 * y0) == 0,
        y0 * (x1 * y2 - x2 * y1) + y1 * (x2 * y0 - x0 * y2) + y2 * (x0 * y1 - x1 * y0) == 0,
{
    lemma_mul_is_distributive_sub(x0, x1 * y2, x2 * y1);
    lemma_mul_is_distributive_sub(x1, x2 * y0, x0 * y2);
    lemma_mul_is_distributive_sub(x2, x0 * y1, x1 * y0);
    lemma_mul_is_distributive_sub(y0, x1 * y2, x2 * y1);
    lemma_mul_is_distributive_sub(y1, x2 * y0, x0 * y2);
    lemma_mul_is_distributive_sub(y2, x0 * y1, x1 * y0);
    monomial_orders(x0, x1, y2);
    monomial_orders(x0, x2, y1);
    monomial_orders(x1, x2, y0);
    monomial_orders(y0, x1, y2);
    monomial_orders(y0, x2, y1);
    monomial_orders(y1, x0, y2);
}
proof fn swap_components(t0: int, t1: int, t2: int, x0: int, x1: int, x2: int, y0: int, y1: int, y2: int)
    ensures
        x0 * (t1 * y2 - t2 * y1) + x1 * (t2 * y0 - t0 * y2) + x2 * (t0 * y1 - t1 * y0)
            == -(t0 * (x1 * y2 - x2 * y1) + t1 * (x2 * y0 - x0 * y2) + t2 * (x0 * y1 - x1 * y0)),
{
    lemma_mul_is_distributive_sub(x0, t1 * y2, t2 * y1);
    lemma_mul_is_distributive_sub(x1, t2 * y0, t0 * y2);
    lemma_mul_is_distributive_sub(x2, t0 * y1, t1 * y0);
    lemma_mul_is_distributive_sub(t0, x1 * y2, x2 * y1);
    lemma_mul_is_distributive_sub(t1, x2 * y0, x0 * y2);
    lemma_mul_is_distributive_sub(t2, x0 * y1, x1 * y0);
    monomial_orders(t0, x1, y2);
    monomial_orders(t0, x2, y1);
    monomial_orders(t1, x2, y0);
    monomial_orders(t1, x0, y2);
    monomial_orders(t2, x0, y1);
    monomial_orders(t2, x1, y0);
}
proof fn combination_cross_component(a: int, b: int, n: int, x1: int, x2: int, y1: int, y2: int, t1: int, t2: int)
    ensures
        (a * x1 + b * y1 - n * t1) * y2 - (a * x2 + b * y2 - n * t2) * y1
            == a * (x1 * y2 - x2 * y1) - n * (t1 * y2 - t2 * y1),
{
    lemma_mul_is_distributive_sub_other_way(y2, a * x1 + b * y1, n * t1);
    lemma_mul_is_distributive_add_other_way(y2, a * x1, b * y1);
    lemma_mul_is_distributive_sub_other_way(y1, a * x2 + b * y2, n * t2);
    lemma_mul_is_distributive_add_other_way(y1, a * x2, b * y2);
    lemma_mul_is_associative(a, x1, y2);
    lemma_mul_is_associative(b, y1, y2);
    lemma_mul_is_associative(n, t1, y2);
    lemma_mul_is_associative(a, x2, y1);
    lemma_mul_is_associative(b, y2, y1);
    lemma_mul_is_associative(n, t2, y1);
    monomial_orders(b, y1, y2);
    lemma_mul_is_distributive_sub(a, x1 * y2, x2 * y1);
    lemma_mul_is_distributive_sub(n, t1 * y2, t2 * y1);
}
proof fn dot_difference_components(a: int, n: int, e0: int, e1: int, e2: int, p0: int, p1: int, p2: int, q0: int, q1: int, q2: int)
    ensures
        e0 * (a * p0 - n * q0) + e1 * (a * p1 - n * q1) + e2 * (a * p2 - n * q2)
            == a * (e0 * p0 + e1 * p1 + e2 * p2) - n * (e0 * q0 + e1 * q1 + e2 * q2),
{
    lemma_mul_is_distributive_sub(e0, a * p0, n * q0);
    lemma_mul_is_distributive_sub(e1, a * p1, n * q1);
    lemma_mul_is_distributive_sub(e2, a * p2, n * q2);
    monomial_orders(a, e0, p0);
    monomial_orders(a, e1, p1);
    monomial_orders(a, e2, p2);
    monomial_orders(n, e0, q0);
    monomial_orders(n, e1, q1);
    monomial_orders(n, e2, q2);
    lemma_mul_is_distributive_add(a, e0 * p0 + e1 * p1, e2 * p2);
    lemma_mul_is_distributive_add(a, e0 * p0, e1 * p1);
    lemma_mul_is_distributive_add(n, e0 * q0 + e1 * q1, e2 * q2);
    lemma_mul_is_distributive_add(n, e0 * q0, e1 * q1);
}
proof fn dot_combination_components(a: int, b: int, n: int, x0: int, x1: int, x2: int, y0: int, y1: int, y2: int,
    t0: int, t1: int, t2: int, r0: int, r1: int, r2: int)
    ensures
        (a * x0 + b * y0 - n * t0) * r0 + (a * x1 + b * y1 - n * t1) * r1 + (a * x2 + b * y2 - n * t2) * r2
            == a * (x0 * r0 + x1 * r1 + x2 * r2) + b * (y0 * r0 + y1 * r1 + y2 * r2) - n * (t0 * r0 + t1 * r1 + t2 * r2),
{
    lemma_mul_is_distributive_sub_other_way(r0, a * x0 + b * y0, n * t0);
    lemma_mul_is_distributive_add_other_way(r0, a * x0, b * y0);
    lemma_mul_is_distributive_sub_other_way(r1, a * x1 + b * y1, n * t1);
    lemma_mul_is_distributive_add_other_way(r1, a * x1, b * y1);
    lemma_mul_is_distributive_sub_other_way(r2, a * x2 + b * y2, n * t2);
    lemma_mul_is_distributive_add_other_way(r2, a * x2, b * y2);
    lemma_mul_is_associative(a, x0, r0);
    lemma_mul_is_associative(a, x1, r1);
    lemma_mul_is_associative(a, x2, r2);
    lemma_mul_is_associative(b, y0, r0);
    lemma_mul_is_associative(b, y1, r1);
    lemma_mul_is_associative(b, y2, r2);
    lemma_mul_is_associative(n, t0, r0);
    lemma_mul_is_associative(n, t1, r1);
    lemma_mul_is_associative(n, t2, r2);
    lemma_mul_is_distributive_add(a, x0 * r0 + x1 * r1, x2 * r2);
    lemma_mul_is_distributive_add(a, x0 * r0, x1 * r1);
    lemma_mul_is_distributive_add(b, y0 * r0 + y1 * r1, y2 * r2);
    lemma_mul_is_distributive_add(b, y0 * r0, y1 * r1);
    lemma_mul_is_distributive_add(n, t0 * r0 + t1 * r1, t2 * r2);
    lemma_mul_is_distributive_add(n, t0 * r0, t1 * r1);
}

/// `y · (t × x) == t · (x × y)`.
pub proof fn lemma_cyclic(t: Triple, x: Triple, y: Triple)
    ensures
        dot(y, cross(t, x)) == dot(t, cross(x, y)),
{
    cyclic_components(t.0, t.1, t.2, x.0, x.1, x.2, y.0, y.1, y.2);
}

/// `x × y` is orthogonal to `x` and to `y`.
pub proof fn lemma_orthogonal(x: Triple, y: Triple)
    ensures
        dot(x, cross(x, y)) == 0,
        dot(y, cross(x, y)) == 0,
{
    orthogonal_components(x.0, x.1, x.2, y.0, y.1, y.2);
}

/// `x · (t × y) == -(t · (x × y))`.
pub proof fn lemma_swap(t: Triple, x: Triple, y: Triple)
    ensures
        dot(x, cross(t, y)) == -dot(t, cross(x, y)),
{
    swap_components(t.0, t.1, t.2, x.0, x.1, x.2, y.0, y.1, y.2);
}

/// `(a * x + b * y - n * t) × y == a * (x × y) - n * (t × y)`.
pub proof fn lemma_cross_combination(a: int, b: int, n: int, x: Triple, y: Triple, t: Triple)
    ensures
        cross(combination(a, b, n, x, y, t), y) == (
            a * cross(x, y).0 - n * cross(t, y).0,
            a * cross(x, y).1 - n * cross(t, y).1,
            a * cross(x, y).2 - n * cross(t, y).2,
        ),
{
    combination_cross_component(a, b, n, x.1, x.2, y.1, y.2, t.1, t.2);
    combination_cross_component(a, b, n, x.2, x.0, y.2, y.0, t.2, t.0);
    combination_cross_component(a, b, n, x.0, x.1, y.0, y.1, t.0, t.1);
}

/// `e · (a * p - n * q) == a * (e · p) - n * (e · q)`.
pub proof fn lemma_dot_difference(a: int, n: int, e: Triple, p: Triple, q: Triple)
    ensures
        dot(e, (a * p.0 - n * q.0, a * p.1 - n * q.1, a * p.2 - n * q.2)) == a * dot(e, p) - n * dot(e, q),
{
    dot_difference_components(a, n, e.0, e.1, e.2, p.0, p.1, p.2, q.0, q.1, q.2);
}

/// `(a * x + b * y - n * t) · r == a * (x · r) + b * (y · r) - n * (t · r)`.
pub proof fn lemma_dot_combination(a: int, b: int, n: int, x: Triple, y: Triple, t: Triple, r: Triple)
    ensures
        dot(combination(a, b, n, x, y, t), r) == a * dot(x, r) + b * dot(y, r) - n * dot(t, r),
{
    dot_combination_components(a, b, n, x.0, x.1, x.2, y.0, y.1, y.2, t.0, t.1, t.2, r.0, r.1, r.2);
}

} // verus!
