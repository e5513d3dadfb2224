use star_scene::backend::{Attribute, Command, Phase, Reply, ShaderKind, Shape, Step, Topology};
use star_scene::draw_object::{read_sources, triangle_vertices, DrawObject, DrawObjectParameter};
use star_scene::mesh::Mesh;
use star_scene::setup::SetupStatus;
use star_scene::vector::Vector4;

fn healthy(name: u32) -> Reply {
    Reply { name, status: 1, log: Vec::new(), error: 0 }
}

#[test]
fn sources_that_were_read_pass_through() {
    assert_eq!(
        read_sources(Ok("void main() {}".to_string()), Ok("out vec4 c;".to_string())),
        Ok(("void main() {}".to_string(), "out vec4 c;".to_string()))
    );
}

#[test]
fn unreadable_vertex_shader() {
    assert_eq!(
        read_sources(Err("No such file".to_string()), Ok("x".to_string())),
        Err("Failed reading vertex shader: No such file".to_string())
    );
    assert_eq!(
        read_sources(Err("first".to_string()), Err("second".to_string())),
        Err("Failed reading vertex shader: first".to_string())
    );
}

#[test]
fn unreadable_fragment_shader() {
    assert_eq!(
        read_sources(Ok("x".to_string()), Err("Permission denied".to_string())),
        Err("Failed reading fragment shader: Permission denied".to_string())
    );
    assert_eq!(
        read_sources(Ok("x".to_string()), Err(String::new())),
        Err("Failed reading fragment shader: ".to_string())
    );
}

#[test]
fn triangle_corners() {
    assert_eq!(
        triangle_vertices(),
        vec![
            Vector4::new(750, 750, 0, 1000),
            Vector4::new(750, -750, 0, 1000),
            Vector4::new(-750, -750, 0, 1000),
        ]
    );
}

#[test]
fn parameter_holds_the_paths() {
    let p = DrawObjectParameter {
        fragment_shader_path: "draw_object/fragment.glsl",
        vertex_shader_path: "draw_object/vertex.glsl",
    };
    assert_eq!(p.vertex_shader_path, "draw_object/vertex.glsl");
    assert_eq!(p.fragment_shader_path, "draw_object/fragment.glsl");
}

#[test]
fn triangle_lifecycle() {
    let mut object = DrawObject::new();
    assert_eq!(
        object,
        DrawObject { shader_program: 0, vao: 0, vbo: 0, phase: Phase::Uninitialized }
    );
    let mut setup = object.begin_init();
    assert_eq!(setup.mesh, Mesh::Triangle(triangle_vertices()));
    assert_eq!(setup.mesh.kind(), Shape::Triangle);
    assert_eq!(setup.mesh.vertex_count(), 3);
    assert_eq!(setup.mesh.byte_count(), 48);
    let mut issued = Vec::new();
    let mut name = 0;
    while let Some(command) = setup.pending() {
        issued.push(command);
        name += 1;
        setup.advance(healthy(name));
    }
    assert_eq!(issued.len(), 13);
    assert_eq!(
        issued[0],
        Command::CompileShader { shape: Shape::Triangle, kind: ShaderKind::Vertex }
    );
    assert_eq!(
        issued[9],
        Command::BufferData { shape: Shape::Triangle, vertex_count: 3, byte_size: 48 }
    );
    assert_eq!(issued[10], Command::EnableVertexAttribArray { slot: 0 });
    assert_eq!(
        issued[11],
        Command::VertexAttribPointer {
            attribute: Attribute { slot: 0, components: 4, stride: 0, offset: 0 }
        }
    );
    assert_eq!(object.init(&setup), Ok(()));
    assert_eq!(object, DrawObject { shader_program: 3, vao: 6, vbo: 8, phase: Phase::Ready });

    let checked = |command| Step { command, checked: true };
    let plain = |command| Step { command, checked: false };
    assert_eq!(
        object.draw(),
        vec![
            checked(Command::UseProgram { program: 3 }),
            checked(Command::BindVertexArray { vao: 6 }),
            checked(Command::DrawArrays { topology: Topology::Triangles, first: 0, count: 3 }),
            plain(Command::BindVertexArray { vao: 0 }),
            plain(Command::UseProgram { program: 0 }),
        ]
    );
    assert_eq!(
        object.close(),
        vec![
            Command::DeleteBuffer { vbo: 8 },
            Command::DeleteVertexArray { vao: 6 },
            Command::RemoveProgram { program: 3 },
        ]
    );
    assert_eq!(object, DrawObject { shader_program: 0, vao: 0, vbo: 0, phase: Phase::Closed });
    assert_eq!(
        object.close(),
        vec![
            Command::DeleteBuffer { vbo: 0 },
            Command::DeleteVertexArray { vao: 0 },
            Command::RemoveProgram { program: 0 },
        ]
    );
}

#[test]
fn triangle_stays_uninitialized_when_setup_fails() {
    let mut object = DrawObject::new();
    let mut setup = object.begin_init();
    setup.advance(Reply { name: 4, status: 0, log: b"no main".to_vec(), error: 0 });
    assert_eq!(setup.status, SetupStatus::Failed);
    assert_eq!(object.init(&setup), Err("no main".to_string()));
    assert_eq!(object, DrawObject::new());
}
