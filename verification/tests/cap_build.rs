use glam::Vec2;
use polymesh::{InvalidInput, Polygon};

fn square() -> Vec<Vec2> {
    vec![
        Vec2::new(0.0, 0.0),
        Vec2::new(1.0, 0.0),
        Vec2::new(1.0, 1.0),
        Vec2::new(0.0, 1.0),
    ]
}

fn signed_area_2d(a: Vec2, b: Vec2, c: Vec2) -> f32 {
    0.5 * ((b.x - a.x) * (c.y - a.y) - (b.y - a.y) * (c.x - a.x))
}

#[test]
fn unit_square_cap_has_expected_buffers() {
    let mesh = Polygon { points: square() }.try_build().unwrap();
    assert_eq!(mesh.positions.len(), 4);
    assert_eq!(mesh.normals.len(), 4);
    assert_eq!(mesh.uvs.len(), 4);
    assert_eq!(mesh.indices.len(), 6);

    let expected_positions = [
        [0.0, 0.0, 0.0],
        [1.0, 0.0, 0.0],
        [1.0, 0.0, 1.0],
        [0.0, 0.0, 1.0],
    ];
    for (p, e) in mesh.positions.iter().zip(expected_positions.iter()) {
        assert_eq!([p.x, p.y, p.z], *e);
    }
    for nrm in &mesh.normals {
        assert_eq!([nrm.x, nrm.y, nrm.z], [0.0, 1.0, 0.0]);
    }
    let expected_uvs = [[0.0, 0.0], [1.0, 0.0], [1.0, 1.0], [0.0, 1.0]];
    for (uv, e) in mesh.uvs.iter().zip(expected_uvs.iter()) {
        assert_eq!([uv.x, uv.y], *e);
    }
}

#[test]
fn unit_square_cap_is_split_along_one_diagonal() {
    let mesh = Polygon { points: square() }.try_build().unwrap();
    assert_eq!(mesh.indices, vec![2, 1, 0, 3, 2, 0]);
    for i in &mesh.indices {
        assert!(*i < 4);
    }
    let first: Vec<u32> = mesh.indices[0..3].to_vec();
    let second: Vec<u32> = mesh.indices[3..6].to_vec();
    let shared: Vec<u32> = first.iter().copied().filter(|v| second.contains(v)).collect();
    assert_eq!(shared.len(), 2, "the two triangles share one diagonal edge");
}

#[test]
fn cap_triangle_count_is_n_minus_2_and_indices_in_range() {
    for n in 3usize..=8 {
        let points: Vec<Vec2> = (0..n)
            .map(|i| {
                let theta = 2.0 * std::f32::consts::PI * i as f32 / n as f32;
                Vec2::new(theta.cos(), theta.sin())
            })
            .collect();
        let mesh = Polygon { points }.try_build().unwrap();
        assert_eq!(mesh.indices.len(), 3 * (n - 2));
        for i in &mesh.indices {
            assert!((*i as usize) < n);
        }
    }
}

#[test]
fn cap_triangle_areas_sum_to_polygon_area() {
    let n = 6usize;
    let points: Vec<Vec2> = (0..n)
        .map(|i| {
            let theta = 2.0 * std::f32::consts::PI * i as f32 / n as f32;
            Vec2::new(2.0 * theta.cos(), 2.0 * theta.sin())
        })
        .collect();
    let mut polygon_area = 0.0f32;
    for i in 0..n {
        let a = points[i];
        let b = points[(i + 1) % n];
        polygon_area += 0.5 * (a.x * b.y - b.x * a.y);
    }
    let mesh = Polygon { points: points.clone() }.try_build().unwrap();
    let mut triangles_area = 0.0f32;
    for t in mesh.indices.chunks(3) {
        let (a, b, c) = (points[t[0] as usize], points[t[1] as usize], points[t[2] as usize]);
        triangles_area += signed_area_2d(a, b, c).abs();
    }
    assert!((triangles_area - polygon_area.abs()).abs() < 1e-4);
}

#[test]
fn cap_triangles_have_one_consistent_winding() {
    let points = square();
    let mesh = Polygon { points: points.clone() }.try_build().unwrap();
    let mut signs: Vec<f32> = Vec::new();
    for t in mesh.indices.chunks(3) {
        let s = signed_area_2d(
            points[t[0] as usize],
            points[t[1] as usize],
            points[t[2] as usize],
        );
        signs.push(s);
    }
    // A counter-clockwise input loop yields clockwise triples in the 2-D
    // input plane: the deliberate winding flip that makes the cap face +Y
    // once points are placed at (x, 0, y).
    for s in &signs {
        assert!(*s < 0.0);
    }
}

#[test]
fn too_few_points_is_invalid_input() {
    assert!(matches!(Polygon { points: vec![] }.try_build(), Err(InvalidInput)));
    assert!(matches!(Polygon { points: vec![Vec2::new(0.0, 0.0)] }.try_build(), Err(InvalidInput)));
    assert!(matches!(Polygon { points: vec![Vec2::new(0.0, 0.0), Vec2::new(1.0, 0.0)] }.try_build(), Err(InvalidInput)));
}

#[test]
fn self_intersecting_quadrilateral_is_invalid_input() {
    let bowtie = vec![
        Vec2::new(0.0, 0.0),
        Vec2::new(1.0, 1.0),
        Vec2::new(1.0, 0.0),
        Vec2::new(0.0, 1.0),
    ];
    assert!(matches!(Polygon { points: bowtie }.try_build(), Err(InvalidInput)));
}

#[test]
fn repeated_and_collinear_vertices_are_invalid_input() {
    let repeated = vec![
        Vec2::new(0.0, 0.0),
        Vec2::new(0.0, 0.0),
        Vec2::new(1.0, 1.0),
    ];
    assert!(matches!(Polygon { points: repeated }.try_build(), Err(InvalidInput)));
    let collinear = vec![
        Vec2::new(0.0, 0.0),
        Vec2::new(1.0, 0.0),
        Vec2::new(2.0, 0.0),
        Vec2::new(1.0, 1.0),
    ];
    assert!(matches!(Polygon { points: collinear }.try_build(), Err(InvalidInput)));
}

#[test]
fn concave_loop_is_invalid_input() {
    // Design choice made explicit: the deterministic fan triangulator covers
    // strictly convex loops only, so a concave loop is reported as invalid
    // input rather than mis-triangulated.
    let concave = vec![
        Vec2::new(0.0, 0.0),
        Vec2::new(2.0, 0.0),
        Vec2::new(2.0, 2.0),
        Vec2::new(1.0, 0.5),
        Vec2::new(0.0, 2.0),
    ];
    assert!(matches!(Polygon { points: concave }.try_build(), Err(InvalidInput)));
}

#[test]
fn clockwise_convex_loop_also_builds() {
    let mut points = square();
    points.reverse();
    let mesh = Polygon { points }.try_build().unwrap();
    assert_eq!(mesh.indices.len(), 6);
}
