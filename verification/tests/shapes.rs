use brushgen::brush::{Face, Point3};
use brushgen::document::{
    catenary_map, polar_steps, rayto_map, sample_positions, MapError, Rope,
};
use brushgen::mesh::{
    catenary_brushes, lump_tprism, rayto_brushes, strip_brush, CurveTextures, GeometryError,
    WedgeTextures,
};
use brushgen::partition::{boundary_at, strip_bounds};

fn pt(x: i64, y: i64, z: i64) -> Point3 {
    Point3 { x, y, z }
}

fn curve_textures() -> CurveTextures {
    CurveTextures {
        top: String::from("top"),
        bottom: String::from("bot"),
        right: String::from("right"),
        left: String::from("left"),
        hidden: String::from("hid"),
    }
}

fn wedge_textures() -> WedgeTextures {
    WedgeTextures {
        top: String::from("top"),
        bottom: String::from("bot"),
        face: String::from("face"),
        hidden: String::from("hid"),
    }
}

fn check_face(f: &Face, a: Point3, b: Point3, c: Point3, texture: &str) {
    assert_eq!(f.a, a);
    assert_eq!(f.b, b);
    assert_eq!(f.c, c);
    assert_eq!(f.texture, texture);
}

fn micro(f: f64) -> i64 {
    (f * 1_000_000.0).round() as i64
}

#[test]
fn strip_has_six_faces_in_fixed_order_and_winding() {
    // start at x = 1, height 5; end at x = 2, height 7; width 3, thickness 1
    let brush = strip_brush((1, 5), (2, 7), 3, 1, &curve_textures()).unwrap();
    let pa = pt(2, 0, 6);
    let pb = pt(1, 0, 4);
    let pc = pt(1, 3, 4);
    let pd = pt(2, 3, 6);
    let pe = pt(2, 0, 7);
    let pf = pt(1, 0, 5);
    let pg = pt(1, 3, 5);
    let ph = pt(2, 3, 7);
    assert_eq!(brush.faces.len(), 6);
    check_face(&brush.faces[0], pa, pb, pf, "right");
    check_face(&brush.faces[1], pc, pd, ph, "left");
    check_face(&brush.faces[2], pb, pc, pg, "hid");
    check_face(&brush.faces[3], pe, ph, pd, "hid");
    check_face(&brush.faces[4], pa, pd, pc, "bot");
    check_face(&brush.faces[5], pe, pf, pg, "top");
}

#[test]
fn strip_with_a_corner_out_of_range_is_refused() {
    let r = strip_brush((0, i64::MIN), (1, 0), 1, 1, &curve_textures());
    assert_eq!(r.err(), Some(GeometryError::OutOfRange));
    let r = strip_brush((0, 0), (1, i64::MAX), 1, -1, &curve_textures());
    assert_eq!(r.err(), Some(GeometryError::OutOfRange));
    assert!(strip_brush((0, i64::MIN + 1), (1, 0), 1, 1, &curve_textures()).is_ok());
}

#[test]
fn curve_gives_one_six_faced_brush_per_segment() {
    for n in 1..8usize {
        let samples: Vec<(i64, i64)> = (0..=n).map(|i| (i as i64 * 10, 100 - i as i64)).collect();
        let brushes = catenary_brushes(&samples, 4, 2, &curve_textures()).unwrap();
        assert_eq!(brushes.len(), n);
        for (i, b) in brushes.iter().enumerate() {
            assert_eq!(b.faces.len(), 6);
            // top face starts at the upper end corner of this strip
            assert_eq!(b.faces[5].a, pt((i as i64 + 1) * 10, 0, 100 - (i as i64 + 1)));
            // underside lies the thickness below
            assert_eq!(b.faces[4].a, pt((i as i64 + 1) * 10, 0, 100 - (i as i64 + 1) - 2));
        }
    }
}

#[test]
fn curve_with_fewer_than_two_samples_has_no_segments() {
    let none: Vec<(i64, i64)> = Vec::new();
    assert_eq!(
        catenary_brushes(&none, 1, 1, &curve_textures()).err(),
        Some(GeometryError::NoSegments)
    );
    let one = vec![(0i64, 0i64)];
    assert_eq!(
        catenary_brushes(&one, 1, 1, &curve_textures()).err(),
        Some(GeometryError::NoSegments)
    );
}

#[test]
fn curve_with_a_corner_out_of_range_is_refused() {
    let samples = vec![(0i64, 0i64), (1, 0), (2, i64::MIN), (3, 0)];
    assert_eq!(
        catenary_brushes(&samples, 1, 1, &curve_textures()).err(),
        Some(GeometryError::OutOfRange)
    );
}

#[test]
fn wedge_has_five_faces_in_fixed_order_and_winding() {
    let brush = lump_tprism((10, 20), (1, 2), (3, 4), 9, &wedge_textures());
    let pa = pt(10, 20, 0);
    let pb = pt(1, 2, 0);
    let pc = pt(3, 4, 0);
    let pd = pt(10, 20, 9);
    let pe = pt(1, 2, 9);
    let pf = pt(3, 4, 9);
    assert_eq!(brush.faces.len(), 5);
    check_face(&brush.faces[0], pa, pb, pe, "hid");
    check_face(&brush.faces[1], pd, pf, pc, "hid");
    check_face(&brush.faces[2], pc, pe, pb, "face");
    check_face(&brush.faces[3], pa, pc, pb, "bot");
    check_face(&brush.faces[4], pd, pe, pf, "top");
}

#[test]
fn sweep_gives_one_five_faced_brush_per_step() {
    for n in 1..8usize {
        let arc: Vec<(i64, i64)> = (0..=n).map(|i| (i as i64, -(i as i64))).collect();
        let brushes = rayto_brushes((0, 0), &arc, 1, &wedge_textures()).unwrap();
        assert_eq!(brushes.len(), n);
        for (i, b) in brushes.iter().enumerate() {
            assert_eq!(b.faces.len(), 5);
            assert_eq!(b.faces[0].b, pt(i as i64, -(i as i64), 0));
            assert_eq!(b.faces[2].a, pt(i as i64 + 1, -(i as i64 + 1), 0));
        }
    }
}

#[test]
fn sweep_with_fewer_than_two_points_has_no_segments() {
    let one = vec![(1i64, 1i64)];
    assert_eq!(
        rayto_brushes((0, 0), &one, 1, &wedge_textures()).err(),
        Some(GeometryError::NoSegments)
    );
    assert_eq!(rayto_map((0, 0), &one, 1, &wedge_textures()).err(), Some(MapError::NoSegments));
}

#[test]
fn quarter_turn_places_the_arc_end_on_the_second_axis() {
    // radius 1 from 0 to 90 degrees in one step
    let r0: f64 = 1.0;
    let r1: f64 = 1.0;
    let t0: f64 = 0.0;
    let t1: f64 = 90.0;
    let start = (
        micro(r0 * f64::cos(t0 * std::f64::consts::PI / 180.0)),
        micro(r0 * f64::sin(t0 * std::f64::consts::PI / 180.0)),
    );
    let end = (
        micro(r1 * f64::cos(t1 * std::f64::consts::PI / 180.0)),
        micro(r1 * f64::sin(t1 * std::f64::consts::PI / 180.0)),
    );
    assert_eq!(start, (1_000_000, 0));
    assert_eq!(end, (0, 1_000_000));
    let arc = vec![start, end];
    let brushes = rayto_brushes((0, 0), &arc, 1_000_000, &wedge_textures()).unwrap();
    assert_eq!(brushes.len(), 1);
    // the outer face begins at the arc's end, on the ground
    assert_eq!(brushes[0].faces[2].a, pt(0, 1_000_000, 0));
    // the top face ends at the arc's end, raised
    assert_eq!(brushes[0].faces[4].c, pt(0, 1_000_000, 1_000_000));
}

#[test]
fn quarter_turn_document_is_exact() {
    let arc = vec![(1_000_000i64, 0i64), (0, 1_000_000)];
    let text = rayto_map((0, 0), &arc, 1_000_000, &wedge_textures()).unwrap();
    let tail = " 0 0 0 0.500000 0.500000 0 0 0\n";
    let expected = format!(
        "{{\n\"classname\" \"worldspawn\"\n// This curve was generated using rayto\n{{\n\
( 0.000000 0.000000 0.000000 ) ( 1.000000 0.000000 0.000000 ) ( 1.000000 0.000000 1.000000 ) hid{t}\
( 0.000000 0.000000 1.000000 ) ( 0.000000 1.000000 1.000000 ) ( 0.000000 1.000000 0.000000 ) hid{t}\
( 0.000000 1.000000 0.000000 ) ( 1.000000 0.000000 1.000000 ) ( 1.000000 0.000000 0.000000 ) face{t}\
( 0.000000 0.000000 0.000000 ) ( 0.000000 1.000000 0.000000 ) ( 1.000000 0.000000 0.000000 ) bot{t}\
( 0.000000 0.000000 1.000000 ) ( 1.000000 0.000000 1.000000 ) ( 0.000000 1.000000 1.000000 ) top{t}\
}}\n}}\n",
        t = tail
    );
    assert_eq!(text, expected);
}

#[test]
fn curve_document_is_exact_for_one_flat_strip() {
    let rope = Rope { x0: 0, z0: 0, x1: 1_000_000, z1: 0, s: 1_000_000 };
    let samples = vec![(0i64, 0i64), (1_000_000, 0)];
    let text = catenary_map(&rope, &samples, 2_000_000, 500_000, &curve_textures()).unwrap();
    let tail = " 0 0 0 0.500000 0.500000 0 0 0\n";
    let expected = format!(
        "{{\n\"classname\" \"worldspawn\"\n// This curve was generated using catenary\n{{\n\
( 1.000000 0.000000 -0.500000 ) ( 0.000000 0.000000 -0.500000 ) ( 0.000000 0.000000 0.000000 ) right{t}\
( 0.000000 2.000000 -0.500000 ) ( 1.000000 2.000000 -0.500000 ) ( 1.000000 2.000000 0.000000 ) left{t}\
( 0.000000 0.000000 -0.500000 ) ( 0.000000 2.000000 -0.500000 ) ( 0.000000 2.000000 0.000000 ) hid{t}\
( 1.000000 0.000000 0.000000 ) ( 1.000000 2.000000 0.000000 ) ( 1.000000 2.000000 -0.500000 ) hid{t}\
( 1.000000 0.000000 -0.500000 ) ( 1.000000 2.000000 -0.500000 ) ( 0.000000 2.000000 -0.500000 ) bot{t}\
( 1.000000 0.000000 0.000000 ) ( 0.000000 0.000000 0.000000 ) ( 0.000000 2.000000 0.000000 ) top{t}\
}}\n}}\n",
        t = tail
    );
    assert_eq!(text, expected);
}

#[test]
fn document_has_one_block_of_six_lines_per_segment() {
    let rope = Rope { x0: 0, z0: 0, x1: 5_000_000, z1: 0, s: 6_000_000 };
    let samples: Vec<(i64, i64)> = (0..=5).map(|i| (i * 1_000_000, -i * (5 - i) * 100_000)).collect();
    let text = catenary_map(&rope, &samples, 1, 1, &curve_textures()).unwrap();
    let lines: Vec<&str> = text.lines().collect();
    let opens = lines.iter().filter(|l| **l == "{").count();
    let faces = lines.iter().filter(|l| l.starts_with("( ")).count();
    assert_eq!(opens, 1 + 5);
    assert_eq!(faces, 5 * 6);
}

#[test]
fn rope_shorter_than_the_straight_distance_gives_no_document() {
    let rope = Rope { x0: 0, z0: 0, x1: 3_000_000, z1: 4_000_000, s: 4_999_999 };
    let samples = vec![(0i64, 0i64), (3_000_000, 4_000_000)];
    assert_eq!(
        catenary_map(&rope, &samples, 1, 1, &curve_textures()).err(),
        Some(MapError::TooShort)
    );
    assert_eq!(sample_positions(&rope, 4).err(), Some(MapError::TooShort));
    // too short is reported before a missing segment count
    assert_eq!(sample_positions(&rope, 0).err(), Some(MapError::TooShort));
}

#[test]
fn document_errors_follow_the_samples() {
    let rope = Rope { x0: 0, z0: 0, x1: 3_000_000, z1: 4_000_000, s: 5_000_000 };
    let one = vec![(0i64, 0i64)];
    assert_eq!(catenary_map(&rope, &one, 1, 1, &curve_textures()).err(), Some(MapError::NoSegments));
    let low = vec![(0i64, i64::MIN), (1, 0)];
    assert_eq!(catenary_map(&rope, &low, 1, 1, &curve_textures()).err(), Some(MapError::OutOfRange));
}

#[test]
fn sample_positions_divide_the_span_evenly() {
    let rope = Rope { x0: 0, z0: 0, x1: 10_000_000, z1: 0, s: 12_000_000 };
    assert_eq!(
        sample_positions(&rope, 4).unwrap(),
        vec![0, 2_500_000, 5_000_000, 7_500_000, 10_000_000]
    );
    assert_eq!(sample_positions(&rope, 0).err(), Some(MapError::NoSegments));
}

#[test]
fn boundaries_start_and_end_on_the_range() {
    assert_eq!(strip_bounds(-5, 5, 1).unwrap(), vec![-5, 5]);
    assert_eq!(strip_bounds(0, 10, 3).unwrap(), vec![0, 3, 6, 10]);
    assert_eq!(strip_bounds(10, 0, 3).unwrap(), vec![10, 7, 4, 0]);
    assert_eq!(strip_bounds(7, 7, 2).unwrap(), vec![7, 7, 7]);
    assert_eq!(strip_bounds(0, 10, 0).err(), Some(GeometryError::NoSegments));
}

#[test]
fn boundaries_cover_the_whole_coordinate_range() {
    let b = strip_bounds(i64::MIN, i64::MAX, 2).unwrap();
    assert_eq!(b, vec![i64::MIN, -1, i64::MAX]);
    let b = strip_bounds(i64::MAX, i64::MIN, 2).unwrap();
    assert_eq!(b, vec![i64::MAX, 0, i64::MIN]);
    assert_eq!(boundary_at(i64::MIN, i64::MAX, u32::MAX, u32::MAX), Some(i64::MAX));
}

#[test]
fn boundary_needs_a_step_count_and_an_index_within_it() {
    assert_eq!(boundary_at(0, 10, 4, 1), Some(2));
    assert_eq!(boundary_at(0, 10, 4, 4), Some(10));
    assert_eq!(boundary_at(0, 10, 0, 0), None);
    assert_eq!(boundary_at(0, 10, 4, 5), None);
}

#[test]
fn boundaries_are_in_order() {
    let up = strip_bounds(-17, 1000, 13).unwrap();
    for w in up.windows(2) {
        assert!(w[0] <= w[1]);
    }
    let down = strip_bounds(1000, -17, 13).unwrap();
    for w in down.windows(2) {
        assert!(w[0] >= w[1]);
    }
}

#[test]
fn sweep_steps_pair_radius_and_angle() {
    assert_eq!(
        polar_steps(1_000_000, 3_000_000, 0, 90_000_000, 2).unwrap(),
        vec![(1_000_000, 0), (2_000_000, 45_000_000), (3_000_000, 90_000_000)]
    );
    assert_eq!(
        polar_steps(5, 5, 90, -90, 3).unwrap(),
        vec![(5, 90), (5, 30), (5, -30), (5, -90)]
    );
    assert_eq!(polar_steps(1, 2, 3, 4, 0).err(), Some(MapError::NoSegments));
}
