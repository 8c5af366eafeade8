//! The two map documents, from the request to the text.

use crate::brush::{emit_map, faces_of, map_text, Generator};
use crate::mesh::{
    catenary_brushes, curve_faces, rayto_brushes, strip_fits, sweep_faces, CurveTextures,
    GeometryError, WedgeTextures,
};
use crate::partition::{boundary, strip_bounds};
use crate::solver::{length_feasible, reaches};
use vstd::prelude::*;

verus! {

/// A rope: the two points that it hangs between and its length.
#[derive(Clone, Copy, Debug, PartialEq, Eq, Structural)]
pub struct Rope {
    pub x0: i64,
    pub z0: i64,
    pub x1: i64,
    pub z1: i64,
    pub s: i64,
}

/// Why no document was made.
#[derive(Clone, Copy, Debug, PartialEq, Eq, Structural)]
pub enum MapError {
    /// The rope is shorter than the straight distance between its ends.
    TooShort,
    /// There is no segment to make.
    NoSegments,
    /// A corner's coordinate does not fit a coordinate's range.
    OutOfRange,
}

impl Rope {
    /// Whether the rope reaches from one end to the other.
    pub open spec fn feasible(self) -> bool {
        reaches(self.x0 as int, self.z0 as int, self.x1 as int, self.z1 as int, self.s as int)
    }

    /// Whether the rope reaches from one end to the other.
    pub fn is_feasible(&self) -> (r: bool)
        ensures
            r == self.feasible(),
    {
        length_feasible(self.x0, self.z0, self.x1, self.z1, self.s)
    }
}

/// The horizontal positions at which a rope's curve is sampled for `n`
/// segments: the `n + 1` boundaries of `n` equal strips between its ends.
///
/// A rope that is too short is refused before anything else, then a count of
/// no segments.
pub fn sample_positions(rope: &Rope, n: u32) -> (r: Result<Vec<i64>, MapError>)
    ensures
        match r {
            Ok(xs) => {
                &&& rope.feasible()
                &&& n > 0
                &&& xs@.len() == n + 1
                &&& forall|i: int|
                    0 <= i <= n ==> #[trigger] xs@[i] == boundary(
                        rope.x0 as int,
                        rope.x1 as int,
                        n as int,
                        i,
                    )
                &&& xs@[0] == rope.x0
                &&& xs@[n as int] == rope.x1
            },
            Err(MapError::TooShort) => !rope.feasible(),
            Err(MapError::NoSegments) => rope.feasible() && n == 0,
            Err(MapError::OutOfRange) => false,
        },
{
    if !rope.is_feasible() {
        return Err(MapError::TooShort);
    }
    match strip_bounds(rope.x0, rope.x1, n) {
        Ok(xs) => Ok(xs),
        Err(_) => Err(MapError::NoSegments),
    }
}

/// The document of a rope's curve, sampled at `n + 1` positions, as `n` strips
/// of the given width and thickness.
///
/// A rope that is too short gives no document, whatever the samples are; nor
/// do fewer than two samples, nor a corner out of range.
pub fn catenary_map(
    rope: &Rope,
    samples: &Vec<(i64, i64)>,
    width: i64,
    thickness: i64,
    tex: &CurveTextures,
) -> (r: Result<String, MapError>)
    ensures
        match r {
            Ok(text) => {
                &&& rope.feasible()
                &&& samples@.len() >= 2
                &&& forall|i: int| 0 <= i < samples@.len() - 1 ==> strip_fits(samples@, i, thickness)
                &&& text@ == map_text(
                    Generator::Catenary,
                    curve_faces(samples@, width, thickness, *tex),
                )
            },
            Err(MapError::TooShort) => !rope.feasible(),
            Err(MapError::NoSegments) => rope.feasible() && samples@.len() < 2,
            Err(MapError::OutOfRange) => rope.feasible() && samples@.len() >= 2 && exists|i: int|
                0 <= i < samples@.len() - 1 && !strip_fits(samples@, i, thickness),
        },
{
    if !rope.is_feasible() {
        return Err(MapError::TooShort);
    }
    match catenary_brushes(samples, width, thickness, tex) {
        Ok(brushes) => {
            assert(faces_of(brushes@) =~= curve_faces(samples@, width, thickness, *tex));
            Ok(emit_map(Generator::Catenary, &brushes))
        },
        Err(GeometryError::NoSegments) => Err(MapError::NoSegments),
        Err(GeometryError::OutOfRange) => Err(MapError::OutOfRange),
    }
}

/// The radius and the angle at each of the `n + 1` boundaries of a sweep in `n`
/// equal steps, from `(r0, theta0)` to `(r1, theta1)`. No steps are refused.
pub fn polar_steps(r0: i64, r1: i64, theta0: i64, theta1: i64, n: u32) -> (r: Result<
    Vec<(i64, i64)>,
    MapError,
>)
    ensures
        match r {
            Ok(steps) => {
                &&& n > 0
                &&& steps@.len() == n + 1
                &&& forall|i: int|
                    0 <= i <= n ==> (#[trigger] steps@[i]).0 == boundary(
                        r0 as int,
                        r1 as int,
                        n as int,
                        i,
                    ) && steps@[i].1 == boundary(theta0 as int, theta1 as int, n as int, i)
                &&& steps@[0] == (r0, theta0)
                &&& steps@[n as int] == (r1, theta1)
            },
            Err(e) => e == MapError::NoSegments && n == 0,
        },
{
    let radii = match strip_bounds(r0, r1, n) {
        Ok(radii) => radii,
        Err(_) => {
            return Err(MapError::NoSegments);
        },
    };
    let angles = match strip_bounds(theta0, theta1, n) {
        Ok(angles) => angles,
        Err(_) => {
            return Err(MapError::NoSegments);
        },
    };
    let mut steps: Vec<(i64, i64)> = Vec::new();
    let mut i: usize = 0;
    while i < radii.len()
        invariant
            radii@.len() == n + 1,
            angles@.len() == n + 1,
            i <= radii@.len(),
            steps@.len() == i,
            forall|j: int| 0 <= j < i ==> #[trigger] steps@[j] == (radii@[j], angles@[j]),
        decreases radii.len() - i,
    {
        steps.push((radii[i], angles[i]));
        i = i + 1;
    }
    Ok(steps)
}

/// The document of a sweep: `n` wedges from the apex along an arc sampled at
/// `n + 1` points. Fewer than two points give no document.
pub fn rayto_map(apex: (i64, i64), arc: &Vec<(i64, i64)>, height: i64, tex: &WedgeTextures) -> (r:
    Result<String, MapError>)
    ensures
        match r {
            Ok(text) => arc@.len() >= 2 && text@ == map_text(
                Generator::Rayto,
                sweep_faces(apex, arc@, height, *tex),
            ),
            Err(e) => e == MapError::NoSegments && arc@.len() < 2,
        },
{
    match rayto_brushes(apex, arc, height, tex) {
        Ok(brushes) => {
            assert(faces_of(brushes@) =~= sweep_faces(apex, arc@, height, *tex));
            Ok(emit_map(Generator::Rayto, &brushes))
        },
        Err(_) => Err(MapError::NoSegments),
    }
}

} // verus!
