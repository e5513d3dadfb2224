use cgmath::InnerSpace;
use star_scene::geometry::{
    add_partial_vertices, calculate_normal, diffuse, generate_vertices, in_limit, Color, Geometry,
    Vertex,
};
use star_scene::vector::{Vector3, COORD_LIMIT, UNIT};

fn default_geometry() -> Geometry {
    Geometry {
        center: Vector3::new(0, 0, 0),
        left_canyon_offset: Vector3::new(50, 100, 0),
        right_canyon_offset: Vector3::new(100, 50, 0),
        long_spike_length: 800,
        short_spike_length: 300,
        thickness: 100,
    }
}

fn other_geometry() -> Geometry {
    Geometry {
        center: Vector3::new(7, -3, 20),
        left_canyon_offset: Vector3::new(60, 90, 5),
        right_canyon_offset: Vector3::new(110, 40, -5),
        long_spike_length: 700,
        short_spike_length: 250,
        thickness: 81,
    }
}

fn v(x: i64, y: i64, z: i64) -> Vector3 {
    Vector3 { x, y, z }
}

fn unit_length(n: Vector3) -> f32 {
    let f = cgmath::Vector3::new(n.x as f32, n.y as f32, n.z as f32).normalize();
    f.magnitude()
}

fn partner(j: usize) -> usize {
    let t = j / 3;
    let k = j % 3;
    3 * (3 - t) + if k == 0 { 0 } else { 3 - k }
}

#[test]
fn default_star_has_48_vertices() {
    let vertices = generate_vertices(&default_geometry());
    assert_eq!(vertices.len(), 48);
    assert_eq!(vertices.len() / 3, 16);
}

#[test]
fn default_star_top_right_quadrant_is_exact() {
    let vs = generate_vertices(&default_geometry());
    let yellow = Color { red: 900, green: 900, blue: 0, alpha: 1000 };
    let apex = v(0, 0, 50);
    let expected: Vec<(Vector3, Vector3)> = vec![
        (apex, v(35000, 2500, 40000)),
        (v(0, 800, 0), v(35000, 2500, 40000)),
        (v(50, 100, 0), v(35000, 2500, 40000)),
        (apex, v(-10000, 12500, 15000)),
        (v(50, 100, 0), v(-10000, 12500, 15000)),
        (v(300, 300, 0), v(-10000, 12500, 15000)),
        (apex, v(12500, -10000, 15000)),
        (v(300, 300, 0), v(12500, -10000, 15000)),
        (v(100, 50, 0), v(12500, -10000, 15000)),
        (apex, v(2500, 35000, 40000)),
        (v(100, 50, 0), v(2500, 35000, 40000)),
        (v(800, 0, 0), v(2500, 35000, 40000)),
    ];
    for (i, (position, normal)) in expected.iter().enumerate() {
        assert_eq!(
            vs[i],
            Vertex { position: *position, normal: *normal, diffuse_color: yellow },
            "vertex {}",
            i
        );
    }
}

#[test]
fn default_star_other_quadrants_begin_as_expected() {
    let vs = generate_vertices(&default_geometry());
    assert_eq!(vs[13].position, v(800, 0, 0));
    assert_eq!(vs[14].position, v(100, -50, 0));
    assert_eq!(vs[13].normal, v(2500, -35000, 40000));
    assert_eq!(vs[23].position, v(0, -800, 0));
    assert_eq!(vs[25].position, v(0, -800, 0));
    assert_eq!(vs[26].position, v(-50, -100, 0));
    assert_eq!(vs[29].position, v(-300, -300, 0));
    assert_eq!(vs[24].normal, v(-35000, -2500, 40000));
    assert_eq!(vs[37].position, v(-800, 0, 0));
    assert_eq!(vs[38].position, v(-100, 50, 0));
    assert_eq!(vs[41].position, v(-300, 300, 0));
    assert_eq!(vs[47].position, v(0, 800, 0));
    assert_eq!(vs[47].normal, v(-35000, 2500, 40000));
}

#[test]
fn off_centre_star_is_exact() {
    let vs = generate_vertices(&other_geometry());
    assert_eq!(vs.len(), 48);
    assert_eq!(vs[0].position, v(7, -3, 60));
    assert_eq!(vs[0].normal, v(24400, 2400, 42000));
    assert_eq!(vs[13].position, v(707, -3, 20));
    assert_eq!(vs[13].normal, v(1600, -23600, 28000));
    assert_eq!(vs[47].position, v(7, 697, 20));
    assert_eq!(vs[47].normal, v(-24400, 2400, 42000));
}

#[test]
fn apex_lies_half_the_thickness_above_the_centre() {
    let mut g = default_geometry();
    g.thickness = 100;
    assert_eq!(generate_vertices(&g)[0].position.z, 50);
    g.thickness = 81;
    assert_eq!(generate_vertices(&g)[0].position.z, 40);
    g.thickness = 1;
    assert_eq!(generate_vertices(&g)[0].position.z, 0);
}

#[test]
fn every_normal_scales_to_unit_length() {
    for g in [default_geometry(), other_geometry()] {
        for vertex in generate_vertices(&g) {
            let len = unit_length(vertex.normal);
            assert!((len - 1.0).abs() < 1e-5, "length {}", len);
        }
    }
}

#[test]
fn every_facet_is_flat() {
    for g in [default_geometry(), other_geometry()] {
        let vs = generate_vertices(&g);
        for f in 0..16 {
            let (a, b, c) = (vs[3 * f], vs[3 * f + 1], vs[3 * f + 2]);
            assert_eq!(a.normal, b.normal);
            assert_eq!(a.normal, c.normal);
            assert_eq!(a.normal, calculate_normal(&a.position, &c.position, &b.position));
            let n = a.normal;
            for p in [b.position, c.position] {
                let e = v(p.x - a.position.x, p.y - a.position.y, p.z - a.position.z);
                assert_eq!(n.x * e.x + n.y * e.y + n.z * e.z, 0);
            }
            assert!(n.z > 0);
        }
    }
}

#[test]
fn every_vertex_has_the_star_colour() {
    let yellow = Color { red: 900, green: 900, blue: 0, alpha: 1000 };
    assert_eq!(diffuse(), yellow);
    for vertex in generate_vertices(&other_geometry()) {
        assert_eq!(vertex.diffuse_color, yellow);
    }
}

#[test]
fn quadrants_are_mirror_images() {
    for g in [default_geometry(), other_geometry()] {
        let vs = generate_vertices(&g);
        let (cx, cy) = (g.center.x, g.center.y);
        for j in 0..12 {
            let tr = vs[j];
            let bl = vs[24 + j];
            assert_eq!(bl.position, v(2 * cx - tr.position.x, 2 * cy - tr.position.y, tr.position.z));
            assert_eq!(bl.normal, v(-tr.normal.x, -tr.normal.y, tr.normal.z));

            let tr = vs[partner(j)];
            let br = vs[12 + j];
            assert_eq!(br.position, v(tr.position.x, 2 * cy - tr.position.y, tr.position.z));
            assert_eq!(br.normal, v(tr.normal.x, -tr.normal.y, tr.normal.z));
            let tl = vs[36 + j];
            assert_eq!(tl.position, v(2 * cx - tr.position.x, tr.position.y, tr.position.z));
            assert_eq!(tl.normal, v(-tr.normal.x, tr.normal.y, tr.normal.z));
        }
    }
}

#[test]
fn quadrants_come_from_the_sign_rule() {
    let g = other_geometry();
    let vs = generate_vertices(&g);
    let (lco, rco) = (g.left_canyon_offset, g.right_canyon_offset);
    let (ls, ss, d) = (g.long_spike_length, g.short_spike_length, g.thickness / 2);
    let mut quarters: Vec<Vertex> = Vec::new();
    add_partial_vertices(g.center, lco, rco, v(0, ls, 0), v(ls, 0, 0), v(ss, ss, 0), d, &mut quarters);
    add_partial_vertices(
        g.center,
        v(rco.x, -rco.y, 0),
        v(lco.x, -lco.y, 0),
        v(ls, 0, 0),
        v(0, -ls, 0),
        v(ss, -ss, 0),
        d,
        &mut quarters,
    );
    add_partial_vertices(
        g.center,
        v(-lco.x, -lco.y, 0),
        v(-rco.x, -rco.y, 0),
        v(0, -ls, 0),
        v(-ls, 0, 0),
        v(-ss, -ss, 0),
        d,
        &mut quarters,
    );
    add_partial_vertices(
        g.center,
        v(-rco.x, rco.y, 0),
        v(-lco.x, lco.y, 0),
        v(-ls, 0, 0),
        v(0, ls, 0),
        v(-ss, ss, 0),
        d,
        &mut quarters,
    );
    assert_eq!(quarters, vs);
}

#[test]
fn add_partial_vertices_appends_twelve() {
    let yellow = Color { red: 900, green: 900, blue: 0, alpha: 1000 };
    let first = Vertex { position: v(1, 2, 3), normal: v(4, 5, 6), diffuse_color: yellow };
    let mut vertices = vec![first];
    add_partial_vertices(
        v(0, 0, 0),
        v(50, 100, 0),
        v(100, 50, 0),
        v(0, 800, 0),
        v(800, 0, 0),
        v(300, 300, 0),
        50,
        &mut vertices,
    );
    assert_eq!(vertices.len(), 13);
    assert_eq!(vertices[0], first);
    assert_eq!(vertices[1].position, v(0, 0, 50));
    assert_eq!(vertices[2].position, v(0, 800, 0));
    assert_eq!(vertices[3].position, v(50, 100, 0));
    assert_eq!(vertices[12].position, v(800, 0, 0));
    assert_eq!(vertices[12].normal, v(2500, 35000, 40000));
}

#[test]
fn generation_is_deterministic() {
    for g in [default_geometry(), other_geometry()] {
        assert_eq!(generate_vertices(&g), generate_vertices(&g));
    }
}

#[test]
fn zero_canyon_offsets_give_degenerate_facets() {
    let mut g = default_geometry();
    g.left_canyon_offset = v(0, 0, 0);
    g.right_canyon_offset = v(0, 0, 0);
    assert!(g.is_valid());
    let vs = generate_vertices(&g);
    assert_eq!(vs.len(), 48);
    assert_eq!(vs[2].position, v(0, 0, 0));
    assert_eq!(vs[0].normal, v(40000, 0, 0));
}

#[test]
fn calculate_normal_is_the_cross_product_of_the_edges() {
    let n = calculate_normal(&v(0, 0, 0), &v(1, 0, 0), &v(0, 1, 0));
    assert_eq!(n, v(0, 0, 1));
    let n = calculate_normal(&v(0, 0, 0), &v(0, 1, 0), &v(1, 0, 0));
    assert_eq!(n, v(0, 0, -1));
    let n = calculate_normal(&v(1, 2, 3), &v(4, 6, 8), &v(-2, 0, 7));
    assert_eq!(n, v(26, -27, 6));
    let far = 1_000_000_000;
    let n = calculate_normal(&v(-far, -far, 0), &v(far, -far, 0), &v(-far, far, 0));
    assert_eq!(n, v(0, 0, 4_000_000_000_000_000_000));
}

#[test]
fn validity_of_parameters() {
    assert!(default_geometry().is_valid());
    assert!(other_geometry().is_valid());
    let mut g = default_geometry();
    g.thickness = 0;
    assert!(!g.is_valid());
    let mut g = default_geometry();
    g.long_spike_length = -1;
    assert!(!g.is_valid());
    let mut g = default_geometry();
    g.short_spike_length = 0;
    assert!(!g.is_valid());
    let mut g = default_geometry();
    g.center = v(COORD_LIMIT + 1, 0, 0);
    assert!(!g.is_valid());
    let mut g = default_geometry();
    g.center = v(COORD_LIMIT, -COORD_LIMIT, COORD_LIMIT);
    g.long_spike_length = COORD_LIMIT;
    g.short_spike_length = COORD_LIMIT;
    g.thickness = COORD_LIMIT;
    g.left_canyon_offset = v(-COORD_LIMIT, COORD_LIMIT, 0);
    assert!(g.is_valid());
    assert_eq!(generate_vertices(&g).len(), 48);
    assert!(in_limit(&v(COORD_LIMIT, 0, -COORD_LIMIT)));
    assert!(!in_limit(&v(0, 0, -COORD_LIMIT - 1)));
    assert_eq!(UNIT, 1000);
}
