//! Equal subdivision of a range of coordinates.

use crate::mesh::GeometryError;
use vstd::prelude::*;

verus! {

/// The `i`-th of the `n + 1` boundaries that divide the range from `a` to `b`
/// into `n` equal steps, rounded towards `a` to a whole coordinate.
pub open spec fn boundary(a: int, b: int, n: int, i: int) -> int {
    if b >= a {
        a + ((b - a) * i) / n
    } else {
        a - ((a - b) * i) / n
    }
}

/// A scaled distance: `d * i / n`, which is at most `d` where `i <= n`.
proof fn lemma_scaled_bounds(d: int, n: int, i: int)
    requires
        0 <= d,
        0 < n,
        0 <= i <= n,
    ensures
        0 <= (d * i) / n <= d,
        i == 0 ==> (d * i) / n == 0,
        i == n ==> (d * i) / n == d,
{
    assert(0 <= d * i <= d * n) by (nonlinear_arith)
        requires
            0 <= d,
            0 <= i <= n,
    ;
    vstd::arithmetic::div_mod::lemma_div_is_ordered(0, d * i, n);
    vstd::arithmetic::div_mod::lemma_div_is_ordered(d * i, d * n, n);
    vstd::arithmetic::div_mod::lemma_div_multiples_vanish(d, n);
    assert(d * n == n * d) by (nonlinear_arith);
    assert(0int / n == 0) by (nonlinear_arith)
        requires
            0 < n,
    ;
    if i == 0 {
        assert(d * i == 0) by (nonlinear_arith)
            requires
                i == 0,
        ;
    }
}

/// The first boundary is `a`, the last is `b`, and every one lies between them.
pub proof fn lemma_boundary_within(a: int, b: int, n: int, i: int)
    requires
        0 < n,
        0 <= i <= n,
    ensures
        boundary(a, b, n, 0) == a,
        boundary(a, b, n, n) == b,
        a <= b ==> a <= boundary(a, b, n, i) <= b,
        b <= a ==> b <= boundary(a, b, n, i) <= a,
{
    if b >= a {
        lemma_scaled_bounds(b - a, n, i);
        lemma_scaled_bounds(b - a, n, 0);
        lemma_scaled_bounds(b - a, n, n);
    } else {
        lemma_scaled_bounds(a - b, n, i);
        lemma_scaled_bounds(a - b, n, 0);
        lemma_scaled_bounds(a - b, n, n);
    }
}

/// The boundaries are in order: from `a` towards `b`, a later one is never
/// nearer to `a` than an earlier one.
pub proof fn lemma_boundary_ordered(a: int, b: int, n: int, i: int, j: int)
    requires
        0 < n,
        0 <= i <= j <= n,
    ensures
        a <= b ==> boundary(a, b, n, i) <= boundary(a, b, n, j),
        b <= a ==> boundary(a, b, n, i) >= boundary(a, b, n, j),
{
    let d = if b >= a {
        b - a
    } else {
        a - b
    };
    assert(d * i <= d * j) by (nonlinear_arith)
        requires
            0 <= d,
            0 <= i <= j,
    ;
    vstd::arithmetic::div_mod::lemma_div_is_ordered(d * i, d * j, n);
}

/// The quotient of a sum is the sum of the quotients, or one more.
proof fn lemma_div_of_sum(x: int, y: int, n: int)
    requires
        0 <= x,
        0 <= y,
        0 < n,
    ensures
        x / n + y / n <= (x + y) / n <= x / n + y / n + 1,
{
    vstd::arithmetic::div_mod::lemma_fundamental_div_mod(x, n);
    vstd::arithmetic::div_mod::lemma_fundamental_div_mod(y, n);
    vstd::arithmetic::div_mod::lemma_fundamental_div_mod(x + y, n);
    vstd::arithmetic::div_mod::lemma_mod_bound(x, n);
    vstd::arithmetic::div_mod::lemma_mod_bound(y, n);
    vstd::arithmetic::div_mod::lemma_mod_bound(x + y, n);
    let k = (x + y) / n - x / n - y / n;
    assert(n * k == n * ((x + y) / n) - n * (x / n) - n * (y / n)) by (nonlinear_arith)
        requires
            k == (x + y) / n - x / n - y / n,
    ;
    assert(k == 0 || k == 1) by (nonlinear_arith)
        requires
            -n < n * k < 2 * n,
            0 < n,
    ;
}

/// The steps are equal up to rounding: each is the `n`-th part of the range,
/// rounded down, or one millionth more.
pub proof fn lemma_boundary_steps_even(a: int, b: int, n: int, i: int)
    requires
        0 < n,
        0 <= i < n,
    ensures
        a <= b ==> (b - a) / n <= boundary(a, b, n, i + 1) - boundary(a, b, n, i) <= (b - a) / n
            + 1,
        b <= a ==> (a - b) / n <= boundary(a, b, n, i) - boundary(a, b, n, i + 1) <= (a - b) / n
            + 1,
{
    let d = if b >= a {
        b - a
    } else {
        a - b
    };
    assert(d * (i + 1) == d * i + d) by (nonlinear_arith);
    assert(0 <= d * i) by (nonlinear_arith)
        requires
            0 <= d,
            0 <= i,
    ;
    lemma_div_of_sum(d * i, d, n);
}

/// The `i`-th boundary of the range from `a` to `b` in `n` steps.
fn boundary_of(a: i64, b: i64, n: u32, i: u32) -> (x: i64)
    requires
        0 < n,
        i <= n,
    ensures
        x == boundary(a as int, b as int, n as int, i as int),
{
    proof {
        lemma_boundary_within(a as int, b as int, n as int, i as int);
    }
    let d: u128 = if b >= a {
        (b as i128 - a as i128) as u128
    } else {
        (a as i128 - b as i128) as u128
    };
    proof {
        lemma_scaled_bounds(d as int, n as int, i as int);
        assert(d * i <= d * n <= 0x1_0000_0000_0000_0000 * 0x1_0000_0000) by (nonlinear_arith)
            requires
                0 <= d <= 0x1_0000_0000_0000_0000,
                0 <= i <= n <= 0x1_0000_0000,
        ;
    }
    let q: u128 = d * (i as u128) / (n as u128);
    if b >= a {
        (a as i128 + q as i128) as i64
    } else {
        (a as i128 - q as i128) as i64
    }
}

/// The `i`-th boundary of the range from `a` to `b` in `n` steps, where there
/// is one: `n` is not 0 and `i` is at most `n`.
pub fn boundary_at(a: i64, b: i64, n: u32, i: u32) -> (r: Option<i64>)
    ensures
        match r {
            Some(x) => 0 < n && i <= n && x == boundary(a as int, b as int, n as int, i as int),
            None => n == 0 || i > n,
        },
{
    if n == 0 || i > n {
        None
    } else {
        Some(boundary_of(a, b, n, i))
    }
}

/// The `n + 1` boundaries of the range from `a` to `b` in `n` equal steps, in
/// order from `a` to `b`. No steps are refused.
pub fn strip_bounds(a: i64, b: i64, n: u32) -> (r: Result<Vec<i64>, GeometryError>)
    ensures
        match r {
            Ok(bounds) => {
                &&& n > 0
                &&& bounds@.len() == n + 1
                &&& forall|i: int|
                    0 <= i <= n ==> #[trigger] bounds@[i] == boundary(
                        a as int,
                        b as int,
                        n as int,
                        i,
                    )
                &&& bounds@[0] == a
                &&& bounds@[n as int] == b
            },
            Err(e) => e == GeometryError::NoSegments && n == 0,
        },
{
    if n == 0 {
        return Err(GeometryError::NoSegments);
    }
    let mut bounds: Vec<i64> = Vec::new();
    let mut i: u32 = 0;
    while i < n
        invariant
            0 < n,
            i <= n,
            bounds@.len() == i,
            forall|j: int|
                0 <= j < i ==> #[trigger] bounds@[j] == boundary(a as int, b as int, n as int, j),
        decreases n - i,
    {
        bounds.push(boundary_of(a, b, n, i));
        i = i + 1;
    }
    bounds.push(boundary_of(a, b, n, n));
    proof {
        lemma_boundary_within(a as int, b as int, n as int, 0);
    }
    Ok(bounds)
}

} // verus!
