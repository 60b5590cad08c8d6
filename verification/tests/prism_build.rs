use glam::{Vec2, Vec3};
use polymesh::{InvalidInput, Prism};

fn square() -> Vec<Vec2> {
    vec![
        Vec2::new(0.0, 0.0),
        Vec2::new(1.0, 0.0),
        Vec2::new(1.0, 1.0),
        Vec2::new(0.0, 1.0),
    ]
}

fn up(h: f32) -> Vec3 {
    Vec3::new(0.0, h, 0.0)
}

fn signed_area_2d(a: Vec2, b: Vec2, c: Vec2) -> f32 {
    0.5 * ((b.x - a.x) * (c.y - a.y) - (b.y - a.y) * (c.x - a.x))
}

#[test]
fn square_prism_has_expected_counts_and_rings() {
    let prism = Prism::new(up(2.0), square()).unwrap();
    let mesh = prism.try_build().unwrap();
    assert_eq!(mesh.positions.len(), 8);
    assert_eq!(mesh.normals.len(), 8);
    assert_eq!(mesh.uvs.len(), 8);
    // 8 side-wall triangles plus 2 + 2 cap triangles: 12 triangles in all.
    assert_eq!(mesh.indices.len(), 36);
    for i in 0..4 {
        assert_eq!(mesh.positions[i].y, 0.0, "bottom ring at ground level");
        assert_eq!(
            [mesh.normals[i].x, mesh.normals[i].y, mesh.normals[i].z],
            [0.0, -1.0, 0.0]
        );
    }
    for i in 4..8 {
        assert_eq!(mesh.positions[i].y, 2.0, "top ring at the given height");
        assert_eq!(
            [mesh.normals[i].x, mesh.normals[i].y, mesh.normals[i].z],
            [0.0, 1.0, 0.0]
        );
    }
    // Prism UVs are the raw input coordinates on both rings, deliberately not
    // extent-normalised like the flat cap's.
    let pts = square();
    for i in 0..4 {
        assert_eq!([mesh.uvs[i].x, mesh.uvs[i].y], [pts[i].x, pts[i].y]);
        assert_eq!([mesh.uvs[4 + i].x, mesh.uvs[4 + i].y], [pts[i].x, pts[i].y]);
    }
}

#[test]
fn square_prism_index_buffer_is_exact() {
    let prism = Prism::new(up(2.0), square()).unwrap();
    let mesh = prism.try_build().unwrap();
    let walls: Vec<u32> = vec![
        4, 5, 0, 5, 1, 0,
        5, 6, 1, 6, 2, 1,
        6, 7, 2, 7, 3, 2,
        7, 4, 3, 4, 0, 3,
    ];
    assert_eq!(&mesh.indices[0..24], &walls[..]);
    // Bottom cap: the cap triangulation re-emitted back to front.
    assert_eq!(&mesh.indices[24..30], &[0, 2, 3, 0, 1, 2]);
    // Top cap: the same cap triangulation translated onto the top ring.
    assert_eq!(&mesh.indices[30..36], &[6, 5, 4, 7, 6, 4]);
    for i in &mesh.indices {
        assert!(*i < 8);
    }
}

#[test]
fn prism_cap_windings_are_opposite() {
    let pts = square();
    let prism = Prism::new(up(1.0), pts.clone()).unwrap();
    let mesh = prism.try_build().unwrap();
    for t in mesh.indices[24..30].chunks(3) {
        let s = signed_area_2d(
            pts[t[0] as usize % 4],
            pts[t[1] as usize % 4],
            pts[t[2] as usize % 4],
        );
        assert!(s > 0.0, "bottom cap winds opposite to the top cap");
    }
    for t in mesh.indices[30..36].chunks(3) {
        let s = signed_area_2d(
            pts[t[0] as usize % 4],
            pts[t[1] as usize % 4],
            pts[t[2] as usize % 4],
        );
        assert!(s < 0.0, "top cap winds like a flat cap");
    }
}

#[test]
fn rebuilding_a_prism_is_bit_identical() {
    let prism = Prism::new(up(3.5), square()).unwrap();
    let first = prism.try_build().unwrap();
    let second = prism.try_build().unwrap();
    assert_eq!(first.indices, second.indices);
    assert_eq!(first.positions.len(), second.positions.len());
    for (a, b) in first.positions.iter().zip(second.positions.iter()) {
        assert_eq!(
            [a.x.to_bits(), a.y.to_bits(), a.z.to_bits()],
            [b.x.to_bits(), b.y.to_bits(), b.z.to_bits()]
        );
    }
    for (a, b) in first.normals.iter().zip(second.normals.iter()) {
        assert_eq!(
            [a.x.to_bits(), a.y.to_bits(), a.z.to_bits()],
            [b.x.to_bits(), b.y.to_bits(), b.z.to_bits()]
        );
    }
    for (a, b) in first.uvs.iter().zip(second.uvs.iter()) {
        assert_eq!([a.x.to_bits(), a.y.to_bits()], [b.x.to_bits(), b.y.to_bits()]);
    }
}

#[test]
fn prism_constructor_rejects_bad_input() {
    // Precondition violations surface as reportable errors, never a crash:
    // the design choice called out in the error taxonomy.
    assert!(Prism::new(up(1.0), vec![Vec2::new(0.0, 0.0), Vec2::new(1.0, 0.0)]).is_err());
    assert!(Prism::new(up(0.0), square()).is_err());
    assert!(Prism::new(up(-1.0), square()).is_err());
    assert!(Prism::new(Vec3::new(1.0, 1.0, 0.0), square()).is_err());
    assert!(Prism::new(up(1.0), square()).is_ok());
}

#[test]
fn prism_build_rejects_degenerate_loops() {
    let prism = Prism { height: up(1.0), points: vec![Vec2::new(0.0, 0.0)] };
    assert!(matches!(prism.try_build(), Err(InvalidInput)));
    let bowtie = Prism {
        height: up(1.0),
        points: vec![
            Vec2::new(0.0, 0.0),
            Vec2::new(1.0, 1.0),
            Vec2::new(1.0, 0.0),
            Vec2::new(0.0, 1.0),
        ],
    };
    assert!(matches!(bowtie.try_build(), Err(InvalidInput)));
}

#[test]
fn pentagon_prism_counts_follow_the_formula() {
    for n in [3usize, 5, 6, 8] {
        let points: Vec<Vec2> = (0..n)
            .map(|i| {
                let theta = 2.0 * std::f32::consts::PI * i as f32 / n as f32;
                Vec2::new(theta.cos(), theta.sin())
            })
            .collect();
        let mesh = Prism::new(up(1.0), points).unwrap().try_build().unwrap();
        assert_eq!(mesh.positions.len(), 2 * n);
        assert_eq!(mesh.indices.len() / 3, 2 * n + 2 * (n - 2));
        for i in &mesh.indices {
            assert!((*i as usize) < 2 * n);
        }
    }
}
