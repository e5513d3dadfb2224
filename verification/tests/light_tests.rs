use star_scene::backend::{Attribute, Command, GlResource, Phase, Reply, Shape, Step, Topology, UniformName};
use star_scene::control::State;
use star_scene::game::Object;
use star_scene::geometry::Color;
use star_scene::light::directional::{calculate_vertices, Light, PolarPoint, Vertex, DELTA};
use star_scene::light::Directional;
use star_scene::mesh::Mesh;
use star_scene::setup::SetupStatus;
use star_scene::vector::{Vector3, COORD_LIMIT};

fn keys(up: bool, down: bool, left: bool, right: bool) -> State {
    State { move_up: up, move_down: down, move_left: left, move_right: right }
}

fn healthy(name: u32) -> Reply {
    Reply { name, status: 1, log: Vec::new(), error: 0 }
}

fn ready_light(position: Vector3) -> Light {
    let mut light = Light::new(position);
    let mut setup = light.begin_init();
    let mut name = 20;
    while setup.pending().is_some() {
        name += 1;
        setup.advance(healthy(name));
    }
    assert_eq!(light.init(&setup), Ok(()));
    light
}

#[test]
fn vector_from_is_the_difference() {
    let light = Light::new(Vector3::new(1000, 2000, 3000));
    assert_eq!(light.vector_from(&Vector3::new(0, 0, 0)), Vector3::new(1000, 2000, 3000));
    assert_eq!(light.vector_from(&Vector3::new(1000, 2000, 3000)), Vector3::new(0, 0, 0));
    assert_eq!(light.vector_from(&Vector3::new(-5, 7, 4000)), Vector3::new(1005, 1993, -1000));
    let far = Light::new(Vector3::new(COORD_LIMIT, -COORD_LIMIT, 0));
    assert_eq!(
        far.vector_from(&Vector3::new(-COORD_LIMIT, COORD_LIMIT, 1)),
        Vector3::new(2 * COORD_LIMIT, -2 * COORD_LIMIT, -1)
    );
    let farthest = Light::new(Vector3::new(i64::MAX, i64::MIN, -1));
    assert_eq!(
        farthest.vector_from(&Vector3::new(0, -1, i64::MAX)),
        Vector3::new(i64::MAX, i64::MIN + 1, i64::MIN)
    );
}

#[test]
fn update_up_and_left_moves_diagonally() {
    let mut light = ready_light(Vector3::new(400, 500, 1000));
    assert_eq!(light.update(&keys(true, false, true, false)), Ok(()));
    assert_eq!(light.position, Vector3::new(390, 510, 1000));
    assert_eq!(DELTA, 10);
}

#[test]
fn update_without_keys_changes_nothing() {
    let mut light = ready_light(Vector3::new(400, 500, 1000));
    let before = light;
    assert_eq!(light.update(&State::new()), Ok(()));
    assert_eq!(light, before);
}

#[test]
fn update_each_key_alone() {
    let start = Vector3::new(0, 0, 7);
    let mut light = ready_light(start);
    light.update(&keys(true, false, false, false)).unwrap();
    assert_eq!(light.position, Vector3::new(0, 10, 7));
    light.update(&keys(false, true, false, false)).unwrap();
    light.update(&keys(false, true, false, false)).unwrap();
    assert_eq!(light.position, Vector3::new(0, -10, 7));
    light.update(&keys(false, false, true, false)).unwrap();
    assert_eq!(light.position, Vector3::new(-10, -10, 7));
    light.update(&keys(false, false, false, true)).unwrap();
    light.update(&keys(false, false, false, true)).unwrap();
    assert_eq!(light.position, Vector3::new(10, -10, 7));
}

#[test]
fn update_opposite_keys_cancel() {
    let mut light = ready_light(Vector3::new(1, 2, 3));
    light.update(&keys(true, true, false, false)).unwrap();
    assert_eq!(light.position, Vector3::new(1, 2, 3));
    light.update(&keys(true, true, true, true)).unwrap();
    assert_eq!(light.position, Vector3::new(1, 2, 3));
    light.update(&keys(true, true, false, true)).unwrap();
    assert_eq!(light.position, Vector3::new(11, 2, 3));
}

#[test]
fn update_never_fails_and_knows_no_edge_of_the_grid() {
    let mut light = ready_light(Vector3::new(COORD_LIMIT, -COORD_LIMIT, 0));
    assert!(light.is_updatable(&keys(false, true, false, true)));
    assert_eq!(light.update(&keys(false, true, false, true)), Ok(()));
    assert_eq!(light.position, Vector3::new(COORD_LIMIT + 10, -COORD_LIMIT - 10, 0));
    for _ in 0..100 {
        assert_eq!(light.update(&keys(true, false, true, false)), Ok(()));
    }
    assert_eq!(light.position, Vector3::new(COORD_LIMIT - 990, -COORD_LIMIT + 990, 0));
}

#[test]
fn update_up_to_the_last_number() {
    let mut light = ready_light(Vector3::new(i64::MAX - 10, i64::MIN + 10, i64::MAX));
    let right_down = keys(false, true, false, true);
    assert!(light.is_updatable(&right_down));
    assert_eq!(light.next_position(&right_down), Vector3::new(i64::MAX, i64::MIN, i64::MAX));
    assert_eq!(light.update(&right_down), Ok(()));
    assert_eq!(light.position, Vector3::new(i64::MAX, i64::MIN, i64::MAX));
    assert!(!light.is_updatable(&right_down));
    assert!(!light.is_updatable(&keys(false, false, false, true)));
    assert!(!light.is_updatable(&keys(false, true, false, false)));
    assert!(light.is_updatable(&keys(true, true, true, true)));
    assert!(light.is_updatable(&State::new()));
    assert!(light.is_updatable(&keys(true, false, true, false)));
    assert_eq!(light.update(&keys(true, true, true, true)), Ok(()));
    assert_eq!(light.position, Vector3::new(i64::MAX, i64::MIN, i64::MAX));
    assert_eq!(light.update(&keys(true, false, true, false)), Ok(()));
    assert_eq!(light.position, Vector3::new(i64::MAX - 10, i64::MIN + 10, i64::MAX));
}

#[test]
fn ring_has_eight_corners() {
    let red = Color { red: 1000, green: 0, blue: 0, alpha: 1000 };
    let mut vertices = Vec::new();
    calculate_vertices(&mut vertices);
    assert_eq!(vertices.len(), 8);
    for (i, vertex) in vertices.iter().enumerate() {
        assert_eq!(
            *vertex,
            Vertex {
                position: PolarPoint { radius: 30, step: i as u32, divisions: 8 },
                diffuse_color: red
            }
        );
    }
    calculate_vertices(&mut vertices);
    assert_eq!(vertices.len(), 16);
    assert_eq!(vertices[8], vertices[0]);
    assert_eq!(vertices[15], vertices[7]);
    assert_eq!(Vertex::new(vertices[3].position, red), vertices[3]);
}

#[test]
fn light_setup_builds_the_ring() {
    let light = Light::new(Vector3::new(400, 500, 1000));
    assert_eq!(light.phase, Phase::Uninitialized);
    assert_eq!(light.resource, GlResource::empty());
    let setup = light.begin_init();
    let mut ring = Vec::new();
    calculate_vertices(&mut ring);
    assert_eq!(setup.mesh, Mesh::Ring(ring));
    assert_eq!(setup.mesh.kind(), Shape::LightGizmo);
    assert_eq!(setup.mesh.vertex_count(), 8);
    assert_eq!(setup.mesh.vertex_components(), 7);
    assert_eq!(setup.mesh.byte_count(), 8 * 28);
    assert_eq!(
        setup.layout,
        vec![
            Attribute { slot: 0, components: 3, stride: 28, offset: 0 },
            Attribute { slot: 1, components: 4, stride: 28, offset: 12 },
        ]
    );
    assert_eq!(setup.status, SetupStatus::Running);
}

#[test]
fn light_lifecycle() {
    let mut light = ready_light(Vector3::new(400, 500, 1000));
    assert_eq!(light.phase, Phase::Ready);
    assert_eq!(
        light.resource,
        GlResource { shader_program: 23, vao: 26, vbo: 28, indice_num: 8 }
    );
    let checked = |command| Step { command, checked: true };
    let plain = |command| Step { command, checked: false };
    assert_eq!(
        light.draw(),
        vec![
            checked(Command::UseProgram { program: 23 }),
            checked(Command::LocateUniform { program: 23, name: UniformName::Mvp }),
            checked(Command::SetTranslation { translation: Vector3::new(400, 500, 1000) }),
            checked(Command::BindVertexArray { vao: 26 }),
            checked(Command::DrawArrays { topology: Topology::LineLoop, first: 0, count: 8 }),
            plain(Command::BindVertexArray { vao: 0 }),
            plain(Command::UseProgram { program: 0 }),
        ]
    );
    assert_eq!(
        light.close(),
        vec![
            Command::DeleteBuffer { vbo: 28 },
            Command::DeleteVertexArray { vao: 26 },
            Command::RemoveProgram { program: 23 },
        ]
    );
    assert_eq!(light.phase, Phase::Closed);
    assert_eq!(light.resource, GlResource::empty());
    assert_eq!(
        light.close(),
        vec![
            Command::DeleteBuffer { vbo: 0 },
            Command::DeleteVertexArray { vao: 0 },
            Command::RemoveProgram { program: 0 },
        ]
    );
    assert_eq!(light.phase, Phase::Closed);
}

#[test]
fn light_stays_uninitialized_when_setup_fails() {
    let mut light = Light::new(Vector3::new(400, 500, 1000));
    let before = light;
    let mut setup = light.begin_init();
    setup.advance(Reply { name: 1, status: 0, log: b"bad shader".to_vec(), error: 0 });
    assert_eq!(setup.status, SetupStatus::Failed);
    assert_eq!(light.init(&setup), Err("bad shader".to_string()));
    assert_eq!(light, before);
    assert_eq!(light.phase, Phase::Uninitialized);
}

#[test]
fn well_formed_lights() {
    let mut light = Light::new(Vector3::new(i64::MAX, 0, i64::MIN));
    assert!(light.is_well_formed());
    assert!(!light.is_ready());
    light.resource.vao = 3;
    assert!(!light.is_well_formed());
    light.phase = Phase::Ready;
    assert!(light.is_well_formed());
    assert!(light.is_ready());
    light.phase = Phase::Closed;
    assert!(!light.is_well_formed());
    light.close();
    assert!(light.is_well_formed());
    assert!(!light.is_ready());
}

#[test]
fn close_without_init_releases_nothing() {
    let mut light = Light::new(Vector3::new(0, 0, 0));
    assert_eq!(
        light.close(),
        vec![
            Command::DeleteBuffer { vbo: 0 },
            Command::DeleteVertexArray { vao: 0 },
            Command::RemoveProgram { program: 0 },
        ]
    );
    assert_eq!(light.phase, Phase::Closed);
}

#[test]
fn directional_record() {
    let d = Directional::new("direction_to_light".to_string(), Vector3::new(400, 500, 1000));
    assert_eq!(d.name, "direction_to_light");
    assert_eq!(d.position, Vector3::new(400, 500, 1000));
}
