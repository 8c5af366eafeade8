//! Points, faces and brushes, and the text of a map document.

use crate::decimal::{micro_text, push_micro};
use vstd::prelude::*;
use vstd::string::*;

verus! {

/// A point in space, each coordinate in millionths of a map unit.
#[derive(Clone, Copy, Debug, PartialEq, Eq, Structural)]
pub struct Point3 {
    pub x: i64,
    pub y: i64,
    pub z: i64,
}

/// One plane of a brush: three points in winding order and a texture name.
#[derive(Clone, Debug)]
pub struct Face {
    pub a: Point3,
    pub b: Point3,
    pub c: Point3,
    pub texture: String,
}

/// A convex solid, given by the planes that bound it.
#[derive(Debug)]
pub struct Brush {
    pub faces: Vec<Face>,
}

/// The shape that a map document was generated for.
#[derive(Clone, Copy, Debug, PartialEq, Eq, Structural)]
pub enum Generator {
    Catenary,
    Rayto,
}

/// The three coordinates of a point, separated by single spaces.
pub open spec fn point_text(p: Point3) -> Seq<char> {
    micro_text(p.x as int) + " "@ + micro_text(p.y as int) + " "@ + micro_text(p.z as int)
}

/// The line of one face: three bracketed points, the texture name as given,
/// and the fixed alignment fields.
pub open spec fn side_text(points: (Point3, Point3, Point3), texture: Seq<char>) -> Seq<char> {
    "( "@ + point_text(points.0) + " ) ( "@ + point_text(points.1) + " ) ( "@ + point_text(
        points.2,
    ) + " ) "@ + texture + " 0 0 0 0.500000 0.500000 0 0 0\n"@
}

/// The line of a face.
pub open spec fn face_text(f: Face) -> Seq<char> {
    side_text((f.a, f.b, f.c), f.texture@)
}

/// The lines of a list of faces, in order.
pub open spec fn faces_text(faces: Seq<Face>) -> Seq<char>
    decreases faces.len(),
{
    if faces.len() == 0 {
        Seq::empty()
    } else {
        faces_text(faces.drop_last()) + face_text(faces.last())
    }
}

/// The block of one brush: its faces between braces.
pub open spec fn brush_text(faces: Seq<Face>) -> Seq<char> {
    "{\n"@ + faces_text(faces) + "}\n"@
}

/// The blocks of a list of brushes, in order.
pub open spec fn brushes_text(brushes: Seq<Seq<Face>>) -> Seq<char>
    decreases brushes.len(),
{
    if brushes.len() == 0 {
        Seq::empty()
    } else {
        brushes_text(brushes.drop_last()) + brush_text(brushes.last())
    }
}

/// The name that the document's comment line gives the generator.
pub open spec fn generator_name(g: Generator) -> Seq<char> {
    match g {
        Generator::Catenary => "catenary"@,
        Generator::Rayto => "rayto"@,
    }
}

/// The whole document: the world entity's header, a comment that names the
/// generator, the brushes, and the closing brace.
pub open spec fn map_text(g: Generator, brushes: Seq<Seq<Face>>) -> Seq<char> {
    "{\n\"classname\" \"worldspawn\"\n// This curve was generated using "@ + generator_name(g)
        + "\n"@ + brushes_text(brushes) + "}\n"@
}

/// The faces of each brush of a list.
pub open spec fn faces_of(brushes: Seq<Brush>) -> Seq<Seq<Face>> {
    Seq::new(brushes.len(), |i: int| brushes[i].faces@)
}

/// Appends the coordinates of `p` to `out`.
pub fn push_point(out: &mut String, p: Point3)
    ensures
        final(out)@ == old(out)@ + point_text(p),
{
    push_micro(out, p.x);
    out.append(" ");
    push_micro(out, p.y);
    out.append(" ");
    push_micro(out, p.z);
    assert(final(out)@ =~= old(out)@ + point_text(p));
}

/// Appends the line of one face to `out`.
pub fn push_side(out: &mut String, points: (Point3, Point3, Point3), texture: &str)
    ensures
        final(out)@ == old(out)@ + side_text(points, texture@),
{
    out.append("( ");
    push_point(out, points.0);
    out.append(" ) ( ");
    push_point(out, points.1);
    out.append(" ) ( ");
    push_point(out, points.2);
    out.append(" ) ");
    out.append(texture);
    out.append(" 0 0 0 0.500000 0.500000 0 0 0\n");
    assert(final(out)@ =~= old(out)@ + side_text(points, texture@));
}

/// The line of one face.
pub fn side(points: (Point3, Point3, Point3), texture: &str) -> (line: String)
    ensures
        line@ == side_text(points, texture@),
{
    let mut line = String::new();
    push_side(&mut line, points, texture);
    assert(line@ =~= side_text(points, texture@));
    line
}

/// Appends the block of one brush to `out`.
pub fn push_brush(out: &mut String, brush: &Brush)
    ensures
        final(out)@ == old(out)@ + brush_text(brush.faces@),
{
    out.append("{\n");
    let ghost start = out@;
    let mut i: usize = 0;
    while i < brush.faces.len()
        invariant
            i <= brush.faces.len(),
            out@ == start + faces_text(brush.faces@.take(i as int)),
        decreases brush.faces.len() - i,
    {
        let face = &brush.faces[i];
        push_side(out, (face.a, face.b, face.c), face.texture.as_str());
        proof {
            let next = brush.faces@.take(i + 1);
            assert(next.drop_last() =~= brush.faces@.take(i as int));
            assert(next.last() == brush.faces@[i as int]);
            assert(out@ =~= start + faces_text(next));
        }
        i = i + 1;
    }
    assert(brush.faces@.take(i as int) =~= brush.faces@);
    out.append("}\n");
    assert(final(out)@ =~= old(out)@ + brush_text(brush.faces@));
}

/// The whole document for a list of brushes.
pub fn emit_map(g: Generator, brushes: &Vec<Brush>) -> (text: String)
    ensures
        text@ == map_text(g, faces_of(brushes@)),
{
    let mut text = String::new();
    text.append("{\n\"classname\" \"worldspawn\"\n// This curve was generated using ");
    match g {
        Generator::Catenary => text.append("catenary"),
        Generator::Rayto => text.append("rayto"),
    }
    text.append("\n");
    let ghost start = text@;
    let ghost all = faces_of(brushes@);
    let mut i: usize = 0;
    while i < brushes.len()
        invariant
            i <= brushes.len(),
            all == faces_of(brushes@),
            text@ == start + brushes_text(all.take(i as int)),
        decreases brushes.len() - i,
    {
        push_brush(&mut text, &brushes[i]);
        proof {
            let next = all.take(i + 1);
            assert(next.drop_last() =~= all.take(i as int));
            assert(next.last() == brushes@[i as int].faces@);
            assert(text@ =~= start + brushes_text(next));
        }
        i = i + 1;
    }
    assert(all.take(i as int) =~= all);
    text.append("}\n");
    assert(text@ =~= map_text(g, all));
    text
}

} // verus!
