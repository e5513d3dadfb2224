use star_scene::backend::{
    attribute_layout, translation_matrix, vertex_components, Attribute, Command, GlResource,
    UniformName,
};
use star_scene::vector::{Vector3, Vector4};

#[test]
fn star_vertex_layout() {
    let layout = attribute_layout(&vec![3, 3, 4]);
    assert_eq!(
        layout,
        vec![
            Attribute { slot: 0, components: 3, stride: 40, offset: 0 },
            Attribute { slot: 1, components: 3, stride: 40, offset: 12 },
            Attribute { slot: 2, components: 4, stride: 40, offset: 24 },
        ]
    );
}

#[test]
fn ring_vertex_layout() {
    let layout = attribute_layout(&vec![3, 4]);
    assert_eq!(
        layout,
        vec![
            Attribute { slot: 0, components: 3, stride: 28, offset: 0 },
            Attribute { slot: 1, components: 4, stride: 28, offset: 12 },
        ]
    );
}

#[test]
fn layout_edge_cases() {
    assert_eq!(attribute_layout(&Vec::new()), Vec::new());
    assert_eq!(vertex_components(&Vec::new()), 0);
    assert_eq!(
        attribute_layout(&vec![1]),
        vec![Attribute { slot: 0, components: 1, stride: 4, offset: 0 }]
    );
    let full = attribute_layout(&vec![4; 16]);
    assert_eq!(full.len(), 16);
    assert_eq!(full[15], Attribute { slot: 15, components: 4, stride: 256, offset: 240 });
    assert_eq!(vertex_components(&vec![4; 16]), 64);
    assert_eq!(vertex_components(&vec![3, 3, 4]), 10);
}

#[test]
fn translation_matrix_entries() {
    assert_eq!(
        translation_matrix(Vector3::new(400, 500, 1000)),
        vec![1000, 0, 0, 0, 0, 1000, 0, 0, 0, 0, 1000, 0, 400, 500, 1000, 1000]
    );
    assert_eq!(
        translation_matrix(Vector3::new(0, 0, 0)),
        vec![1000, 0, 0, 0, 0, 1000, 0, 0, 0, 0, 1000, 0, 0, 0, 0, 1000]
    );
}

#[test]
fn uniform_names() {
    assert_eq!(UniformName::DirectionToLight.text(), "direction_to_light");
    assert_eq!(UniformName::Mvp.text(), "mvp");
}

#[test]
fn resource_release() {
    assert_eq!(
        GlResource::empty(),
        GlResource { shader_program: 0, vao: 0, vbo: 0, indice_num: 0 }
    );
    let r = GlResource { shader_program: 3, vao: 4, vbo: 5, indice_num: 48 };
    let mut commands = vec![Command::Flush];
    r.release_into(&mut commands);
    assert_eq!(
        commands,
        vec![
            Command::Flush,
            Command::DeleteBuffer { vbo: 5 },
            Command::DeleteVertexArray { vao: 4 },
            Command::RemoveProgram { program: 3 },
        ]
    );
}

#[test]
fn vector_constructors() {
    assert_eq!(Vector3::new(1, -2, 3), Vector3 { x: 1, y: -2, z: 3 });
    assert_eq!(Vector4::new(1, -2, 3, 4), Vector4 { x: 1, y: -2, z: 3, w: 4 });
}
