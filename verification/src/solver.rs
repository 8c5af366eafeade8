//! The decisions around the search for a rope's shape: whether a rope of the
//! given length can hang between the two ends at all, and when the iteration
//! goes on, has converged, or has failed.

use vstd::prelude::*;

verus! {

/// The most iterations that the search may make.
pub const ITERATION_LIMIT: u32 = 1000;

/// What the search does next.
#[derive(Clone, Copy, Debug, PartialEq, Eq, Structural)]
pub enum Step {
    /// Make one more iteration.
    Iterate,
    /// Stop: the shape found meets both ends within the tolerance.
    Converged,
    /// Stop: no shape was found.
    Failed,
}

/// The state of a search: how many iterations it has made.
#[derive(Clone, Copy, Debug, PartialEq, Eq, Structural)]
pub struct Search {
    pub iterations: u32,
}

impl Search {
    /// Whether the search has made no more iterations than the limit allows.
    pub open spec fn within_limit(self) -> bool {
        self.iterations <= ITERATION_LIMIT
    }

    /// A search that has made no iteration yet.
    pub fn start() -> (search: Search)
        ensures
            search.iterations == 0,
            search.within_limit(),
    {
        Search { iterations: 0 }
    }

    /// Takes what is known of the error at the ends for the current shape,
    /// says what to do next, and counts the iteration where there is one.
    pub fn observe(&mut self, above_tolerance: bool, finite: bool) -> (step: Step)
        ensures
            step == decide(old(self).iterations as int, above_tolerance, finite),
            step == Step::Iterate ==> final(self).iterations == old(self).iterations + 1,
            step != Step::Iterate ==> *final(self) == *old(self),
            old(self).within_limit() ==> final(self).within_limit(),
    {
        let step = newton_step(self.iterations, above_tolerance, finite);
        if step == Step::Iterate {
            self.iterations = self.iterations + 1;
        }
        step
    }
}

/// Whether a rope of length `s` reaches from `(x0, z0)` to `(x1, z1)`: its
/// length is at least the straight distance between them.
pub open spec fn reaches(x0: int, z0: int, x1: int, z1: int, s: int) -> bool {
    s >= 0 && s * s >= (x1 - x0) * (x1 - x0) + (z1 - z0) * (z1 - z0)
}

/// The step after `iterations` iterations, from what is known of the error at
/// the ends: whether it is above the tolerance, and whether it is finite.
///
/// The search goes on while the error is above the tolerance and the limit is
/// not reached. Once it stops, it has failed if the limit was reached or the
/// error is not finite, and converged otherwise.
pub open spec fn decide(iterations: int, above_tolerance: bool, finite: bool) -> Step {
    if above_tolerance && iterations < ITERATION_LIMIT {
        Step::Iterate
    } else if iterations >= ITERATION_LIMIT || !finite {
        Step::Failed
    } else {
        Step::Converged
    }
}

/// The search goes on exactly while the error is above the tolerance and the
/// limit is not reached, so it never makes more iterations than the limit.
pub proof fn lemma_search_bounded(iterations: int, above_tolerance: bool, finite: bool)
    ensures
        decide(iterations, above_tolerance, finite) == Step::Iterate <==> above_tolerance
            && iterations < ITERATION_LIMIT,
        iterations >= ITERATION_LIMIT ==> decide(iterations, above_tolerance, finite)
            == Step::Failed,
{
}

/// The search reports a shape exactly where it stopped before the limit on an
/// error that is finite and within the tolerance.
pub proof fn lemma_converged_within_tolerance(iterations: int, above_tolerance: bool, finite: bool)
    ensures
        decide(iterations, above_tolerance, finite) == Step::Converged <==> !above_tolerance
            && finite && iterations < ITERATION_LIMIT,
{
}

/// The distance between two coordinates.
fn distance(a: i64, b: i64) -> (d: u128)
    ensures
        d == (if a <= b {
            b - a
        } else {
            a - b
        }),
        d <= 0xffff_ffff_ffff_ffff,
{
    if a <= b {
        (b as i128 - a as i128) as u128
    } else {
        (a as i128 - b as i128) as u128
    }
}

/// Whether a rope of length `s` reaches from `(x0, z0)` to `(x1, z1)`.
pub fn length_feasible(x0: i64, z0: i64, x1: i64, z1: i64, s: i64) -> (r: bool)
    ensures
        r == reaches(x0 as int, z0 as int, x1 as int, z1 as int, s as int),
{
    if s < 0 {
        return false;
    }
    let h: u128 = distance(x0, x1);
    let v: u128 = distance(z0, z1);
    let len: u128 = s as u128;
    proof {
        assert(h * h <= 0xffff_ffff_ffff_ffff * 0xffff_ffff_ffff_ffff) by (nonlinear_arith)
            requires
                0 <= h <= 0xffff_ffff_ffff_ffff,
        ;
        assert(v * v <= 0xffff_ffff_ffff_ffff * 0xffff_ffff_ffff_ffff) by (nonlinear_arith)
            requires
                0 <= v <= 0xffff_ffff_ffff_ffff,
        ;
        assert(len * len <= 0x7fff_ffff_ffff_ffff * 0x7fff_ffff_ffff_ffff) by (nonlinear_arith)
            requires
                0 <= len <= 0x7fff_ffff_ffff_ffff,
        ;
        assert(h * h == (x1 - x0) * (x1 - x0)) by (nonlinear_arith)
            requires
                h == x1 - x0 || h == x0 - x1,
        ;
        assert(v * v == (z1 - z0) * (z1 - z0)) by (nonlinear_arith)
            requires
                v == z1 - z0 || v == z0 - z1,
        ;
    }
    let h2: u128 = h * h;
    let v2: u128 = v * v;
    let s2: u128 = len * len;
    match h2.checked_add(v2) {
        Some(d2) => s2 >= d2,
        None => false,
    }
}

/// The step after `iterations` iterations.
pub fn newton_step(iterations: u32, above_tolerance: bool, finite: bool) -> (step: Step)
    ensures
        step == decide(iterations as int, above_tolerance, finite),
{
    if above_tolerance && iterations < ITERATION_LIMIT {
        Step::Iterate
    } else if iterations >= ITERATION_LIMIT || !finite {
        Step::Failed
    } else {
        Step::Converged
    }
}

} // verus!
