//! The brushes of the two shapes: six-faced strips under a sampled curve, and
//! five-faced wedges swept from an apex along a sampled arc.

use crate::brush::{Brush, Face, Point3};
use vstd::prelude::*;

verus! {

/// Why no brushes were made.
#[derive(Clone, Copy, Debug, PartialEq, Eq, Structural)]
pub enum GeometryError {
    /// Fewer than two samples: there is no strip or wedge between them.
    NoSegments,
    /// A corner's coordinate does not fit a coordinate's range.
    OutOfRange,
}

/// The texture names of a curve strip, one for each role of a face.
#[derive(Clone, Debug)]
pub struct CurveTextures {
    pub top: String,
    pub bottom: String,
    pub right: String,
    pub left: String,
    pub hidden: String,
}

/// The texture names of a wedge, one for each role of a face.
#[derive(Clone, Debug)]
pub struct WedgeTextures {
    pub top: String,
    pub bottom: String,
    pub face: String,
    pub hidden: String,
}

/// Whether `v` is in a coordinate's range.
pub open spec fn fits(v: int) -> bool {
    i64::MIN <= v <= i64::MAX
}

/// Whether the lower corners of the strip between samples `i` and `i + 1`
/// are in range. A sample is a horizontal position and the curve's height
/// there.
pub open spec fn strip_fits(samples: Seq<(i64, i64)>, i: int, thickness: i64) -> bool {
    fits(samples[i].1 - thickness) && fits(samples[i + 1].1 - thickness)
}

/// The six faces of the strip between two samples. The upper corners lie on the
/// curve, the lower ones `thickness` below it; the front lies at depth 0, the
/// back at depth `width`. The faces come in this order and winding: the right
/// face at depth 0, the left face at depth `width`, the hidden face at the
/// strip's start, the hidden face at its end, the underside, the top.
pub open spec fn strip_faces(
    start: (i64, i64),
    end: (i64, i64),
    width: i64,
    thickness: i64,
    tex: CurveTextures,
) -> Seq<Face> {
    let xs = start.0;
    let xe = end.0;
    let zs1 = start.1;
    let ze1 = end.1;
    let zs0 = (start.1 - thickness) as i64;
    let ze0 = (end.1 - thickness) as i64;
    let pa = Point3 { x: xe, y: 0, z: ze0 };
    let pb = Point3 { x: xs, y: 0, z: zs0 };
    let pc = Point3 { x: xs, y: width, z: zs0 };
    let pd = Point3 { x: xe, y: width, z: ze0 };
    let pe = Point3 { x: xe, y: 0, z: ze1 };
    let pf = Point3 { x: xs, y: 0, z: zs1 };
    let pg = Point3 { x: xs, y: width, z: zs1 };
    let ph = Point3 { x: xe, y: width, z: ze1 };
    seq![
        Face { a: pa, b: pb, c: pf, texture: tex.right },
        Face { a: pc, b: pd, c: ph, texture: tex.left },
        Face { a: pb, b: pc, c: pg, texture: tex.hidden },
        Face { a: pe, b: ph, c: pd, texture: tex.hidden },
        Face { a: pa, b: pd, c: pc, texture: tex.bottom },
        Face { a: pe, b: pf, c: pg, texture: tex.top },
    ]
}

/// The strips under a sampled curve: one between each two neighbouring
/// samples, in order.
pub open spec fn curve_faces(
    samples: Seq<(i64, i64)>,
    width: i64,
    thickness: i64,
    tex: CurveTextures,
) -> Seq<Seq<Face>> {
    Seq::new(
        (samples.len() - 1) as nat,
        |i: int| strip_faces(samples[i], samples[i + 1], width, thickness, tex),
    )
}

/// The five faces of the wedge with its apex at `apex`, swept from `start` to
/// `end` in the plane and raised from height 0 to `height`. The faces come in
/// this order and winding: the hidden side from the apex to the start, the
/// hidden side from the apex to the end, the outer face, the underside, the top.
pub open spec fn wedge_faces(
    apex: (i64, i64),
    start: (i64, i64),
    end: (i64, i64),
    height: i64,
    tex: WedgeTextures,
) -> Seq<Face> {
    let pa = Point3 { x: apex.0, y: apex.1, z: 0 };
    let pb = Point3 { x: start.0, y: start.1, z: 0 };
    let pc = Point3 { x: end.0, y: end.1, z: 0 };
    let pd = Point3 { x: apex.0, y: apex.1, z: height };
    let pe = Point3 { x: start.0, y: start.1, z: height };
    let pf = Point3 { x: end.0, y: end.1, z: height };
    seq![
        Face { a: pa, b: pb, c: pe, texture: tex.hidden },
        Face { a: pd, b: pf, c: pc, texture: tex.hidden },
        Face { a: pc, b: pe, c: pb, texture: tex.face },
        Face { a: pa, b: pc, c: pb, texture: tex.bottom },
        Face { a: pd, b: pe, c: pf, texture: tex.top },
    ]
}

/// The wedges along a sampled arc: one between each two neighbouring points,
/// in order.
pub open spec fn sweep_faces(
    apex: (i64, i64),
    arc: Seq<(i64, i64)>,
    height: i64,
    tex: WedgeTextures,
) -> Seq<Seq<Face>> {
    Seq::new(
        (arc.len() - 1) as nat,
        |i: int| wedge_faces(apex, arc[i], arc[i + 1], height, tex),
    )
}

/// A curve sampled at `n + 1` positions has `n` strips, of six faces each.
pub proof fn lemma_curve_counts(
    samples: Seq<(i64, i64)>,
    width: i64,
    thickness: i64,
    tex: CurveTextures,
)
    requires
        samples.len() >= 1,
    ensures
        curve_faces(samples, width, thickness, tex).len() == samples.len() - 1,
        forall|i: int|
            0 <= i < samples.len() - 1 ==> (#[trigger] curve_faces(
                samples,
                width,
                thickness,
                tex,
            )[i]).len() == 6,
{
}

/// An arc sampled at `n + 1` points has `n` wedges, of five faces each.
pub proof fn lemma_sweep_counts(
    apex: (i64, i64),
    arc: Seq<(i64, i64)>,
    height: i64,
    tex: WedgeTextures,
)
    requires
        arc.len() >= 1,
    ensures
        sweep_faces(apex, arc, height, tex).len() == arc.len() - 1,
        forall|i: int|
            0 <= i < arc.len() - 1 ==> (#[trigger] sweep_faces(apex, arc, height, tex)[i]).len()
                == 5,
{
}

/// A face from its three points and a copy of its texture name.
fn make_face(a: Point3, b: Point3, c: Point3, texture: &String) -> (f: Face)
    ensures
        f == (Face { a, b, c, texture: *texture }),
{
    Face { a, b, c, texture: texture.clone() }
}

/// The brush of the strip between two samples of the curve.
pub fn strip_brush(
    start: (i64, i64),
    end: (i64, i64),
    width: i64,
    thickness: i64,
    tex: &CurveTextures,
) -> (r: Result<Brush, GeometryError>)
    ensures
        match r {
            Ok(brush) => fits(start.1 - thickness) && fits(end.1 - thickness) && brush.faces@
                == strip_faces(start, end, width, thickness, *tex),
            Err(e) => e == GeometryError::OutOfRange && !(fits(start.1 - thickness) && fits(
                end.1 - thickness,
            )),
        },
{
    let xs: i64 = start.0;
    let xe: i64 = end.0;
    let zs1: i64 = start.1;
    let ze1: i64 = end.1;
    let zs0: i64 = match zs1.checked_sub(thickness) {
        Some(z) => z,
        None => {
            return Err(GeometryError::OutOfRange);
        },
    };
    let ze0: i64 = match ze1.checked_sub(thickness) {
        Some(z) => z,
        None => {
            return Err(GeometryError::OutOfRange);
        },
    };
    let pa = Point3 { x: xe, y: 0, z: ze0 };
    let pb = Point3 { x: xs, y: 0, z: zs0 };
    let pc = Point3 { x: xs, y: width, z: zs0 };
    let pd = Point3 { x: xe, y: width, z: ze0 };
    let pe = Point3 { x: xe, y: 0, z: ze1 };
    let pf = Point3 { x: xs, y: 0, z: zs1 };
    let pg = Point3 { x: xs, y: width, z: zs1 };
    let ph = Point3 { x: xe, y: width, z: ze1 };
    let mut faces: Vec<Face> = Vec::new();
    faces.push(make_face(pa, pb, pf, &tex.right));
    faces.push(make_face(pc, pd, ph, &tex.left));
    faces.push(make_face(pb, pc, pg, &tex.hidden));
    faces.push(make_face(pe, ph, pd, &tex.hidden));
    faces.push(make_face(pa, pd, pc, &tex.bottom));
    faces.push(make_face(pe, pf, pg, &tex.top));
    assert(faces@ =~= strip_faces(start, end, width, thickness, *tex));
    Ok(Brush { faces })
}

/// The brushes of the strips under a sampled curve.
///
/// `n + 1` samples give `n` brushes of six faces each. Fewer than two samples
/// are refused, and so is a curve with a lower corner out of range.
pub fn catenary_brushes(
    samples: &Vec<(i64, i64)>,
    width: i64,
    thickness: i64,
    tex: &CurveTextures,
) -> (r: Result<Vec<Brush>, GeometryError>)
    ensures
        match r {
            Ok(brushes) => {
                &&& samples@.len() >= 2
                &&& brushes@.len() == samples@.len() - 1
                &&& forall|i: int| 0 <= i < brushes@.len() ==> strip_fits(samples@, i, thickness)
                &&& forall|i: int|
                    0 <= i < brushes@.len() ==> (#[trigger] brushes@[i]).faces@ == strip_faces(
                        samples@[i],
                        samples@[i + 1],
                        width,
                        thickness,
                        *tex,
                    )
                &&& forall|i: int|
                    0 <= i < brushes@.len() ==> (#[trigger] brushes@[i]).faces@.len() == 6
            },
            Err(GeometryError::NoSegments) => samples@.len() < 2,
            Err(GeometryError::OutOfRange) => samples@.len() >= 2 && exists|i: int|
                0 <= i < samples@.len() - 1 && !strip_fits(samples@, i, thickness),
        },
{
    if samples.len() < 2 {
        return Err(GeometryError::NoSegments);
    }
    let n: usize = samples.len() - 1;
    let mut brushes: Vec<Brush> = Vec::new();
    let mut i: usize = 0;
    while i < n
        invariant
            i <= n,
            n == samples@.len() - 1,
            brushes@.len() == i,
            forall|j: int| 0 <= j < i ==> strip_fits(samples@, j, thickness),
            forall|j: int|
                0 <= j < i ==> (#[trigger] brushes@[j]).faces@ == strip_faces(
                    samples@[j],
                    samples@[j + 1],
                    width,
                    thickness,
                    *tex,
                ),
        decreases n - i,
    {
        match strip_brush(samples[i], samples[i + 1], width, thickness, tex) {
            Ok(brush) => {
                brushes.push(brush);
            },
            Err(_) => {
                assert(!strip_fits(samples@, i as int, thickness));
                return Err(GeometryError::OutOfRange);
            },
        }
        i = i + 1;
    }
    Ok(brushes)
}

/// The brush of one wedge.
pub fn lump_tprism(
    apex: (i64, i64),
    start: (i64, i64),
    end: (i64, i64),
    height: i64,
    tex: &WedgeTextures,
) -> (brush: Brush)
    ensures
        brush.faces@ == wedge_faces(apex, start, end, height, *tex),
{
    let pa = Point3 { x: apex.0, y: apex.1, z: 0 };
    let pb = Point3 { x: start.0, y: start.1, z: 0 };
    let pc = Point3 { x: end.0, y: end.1, z: 0 };
    let pd = Point3 { x: apex.0, y: apex.1, z: height };
    let pe = Point3 { x: start.0, y: start.1, z: height };
    let pf = Point3 { x: end.0, y: end.1, z: height };
    let mut faces: Vec<Face> = Vec::new();
    faces.push(make_face(pa, pb, pe, &tex.hidden));
    faces.push(make_face(pd, pf, pc, &tex.hidden));
    faces.push(make_face(pc, pe, pb, &tex.face));
    faces.push(make_face(pa, pc, pb, &tex.bottom));
    faces.push(make_face(pd, pe, pf, &tex.top));
    assert(faces@ =~= wedge_faces(apex, start, end, height, *tex));
    Brush { faces }
}

/// The brushes of the wedges along a sampled arc.
///
/// `n + 1` points give `n` brushes of five faces each. Fewer than two points
/// are refused.
pub fn rayto_brushes(
    apex: (i64, i64),
    arc: &Vec<(i64, i64)>,
    height: i64,
    tex: &WedgeTextures,
) -> (r: Result<Vec<Brush>, GeometryError>)
    ensures
        match r {
            Ok(brushes) => {
                &&& arc@.len() >= 2
                &&& brushes@.len() == arc@.len() - 1
                &&& forall|i: int|
                    0 <= i < brushes@.len() ==> (#[trigger] brushes@[i]).faces@ == wedge_faces(
                        apex,
                        arc@[i],
                        arc@[i + 1],
                        height,
                        *tex,
                    )
                &&& forall|i: int|
                    0 <= i < brushes@.len() ==> (#[trigger] brushes@[i]).faces@.len() == 5
            },
            Err(e) => e == GeometryError::NoSegments && arc@.len() < 2,
        },
{
    if arc.len() < 2 {
        return Err(GeometryError::NoSegments);
    }
    let n: usize = arc.len() - 1;
    let mut brushes: Vec<Brush> = Vec::new();
    let mut i: usize = 0;
    while i < n
        invariant
            i <= n,
            n == arc@.len() - 1,
            brushes@.len() == i,
            forall|j: int|
                0 <= j < i ==> (#[trigger] brushes@[j]).faces@ == wedge_faces(
                    apex,
                    arc@[j],
                    arc@[j + 1],
                    height,
                    *tex,
                ),
        decreases n - i,
    {
        let brush = lump_tprism(apex, arc[i], arc[i + 1], height, tex);
        brushes.push(brush);
        i = i + 1;
    }
    Ok(brushes)
}

} // verus!
