use render_core::geometry::{
    Mesh, Vertex, VertexAttribute, VertexBufferLayout, VertexFormat, VertexStepMode,
};

fn vertex(position: [f32; 3], color: [f32; 3]) -> Vertex {
    Vertex {
        position: [position[0].to_bits(), position[1].to_bits(), position[2].to_bits()],
        color: [color[0].to_bits(), color[1].to_bits(), color[2].to_bits()],
    }
}

#[test]
fn pentagon_has_five_vertices_and_nine_indices() {
    let mesh = Mesh::pentagon();
    assert_eq!(mesh.vertices.len(), 5);
    assert_eq!(mesh.indices.len(), 9);
    assert_eq!(mesh.indices, vec![0, 1, 4, 1, 2, 4, 2, 3, 4]);
    assert_eq!(mesh.index_count(), 9);
}

#[test]
fn pentagon_indices_name_vertices() {
    let mesh = Mesh::pentagon();
    for index in mesh.indices.iter() {
        assert!((*index as usize) < 5);
    }
}

#[test]
fn pentagon_vertices_are_the_given_points() {
    let mesh = Mesh::pentagon();
    let purple = [0.5, 0.0, 0.5];
    let expected = vec![
        vertex([-0.0868241, 0.49240386, 0.0], purple),
        vertex([-0.49513406, 0.06958647, 0.0], purple),
        vertex([-0.21918549, -0.44939706, 0.0], purple),
        vertex([0.35966998, -0.3473291, 0.0], purple),
        vertex([0.44147372, 0.2347359, 0.0], purple),
    ];
    assert_eq!(mesh.vertices, expected);
}

#[test]
fn vertex_words_are_position_then_color() {
    let v = vertex([1.0, 2.0, 3.0], [4.0, 5.0, 6.0]);
    let words = v.words();
    let floats: Vec<f32> = words.iter().map(|w| f32::from_bits(*w)).collect();
    assert_eq!(floats, vec![1.0, 2.0, 3.0, 4.0, 5.0, 6.0]);
}

#[test]
fn layout_matches_the_shader() {
    let layout = Vertex::desc();
    let expected = VertexBufferLayout {
        array_stride: 24,
        step_mode: VertexStepMode::Vertex,
        attributes: vec![
            VertexAttribute { offset: 0, shader_location: 0, format: VertexFormat::Float32x3 },
            VertexAttribute { offset: 12, shader_location: 1, format: VertexFormat::Float32x3 },
        ],
    };
    assert_eq!(layout, expected);
    assert_eq!(VertexFormat::Float32x3.size(), 12);
}

#[test]
fn index_bytes_are_the_indices_in_memory_order() {
    let mesh = Mesh::pentagon();
    let bytes = mesh.index_bytes();
    assert_eq!(bytes.len(), 18);
    let mut expected: Vec<u8> = Vec::new();
    for index in [0u16, 1, 4, 1, 2, 4, 2, 3, 4] {
        expected.extend_from_slice(&index.to_ne_bytes());
    }
    assert_eq!(bytes, expected);
}

#[test]
fn vertex_bytes_are_packed_components() {
    let mesh = Mesh::pentagon();
    let bytes = mesh.vertex_bytes();
    assert_eq!(bytes.len(), 5 * 24);
    let mut expected: Vec<u8> = Vec::new();
    for v in mesh.vertices.iter() {
        for c in v.position.iter().chain(v.color.iter()) {
            expected.extend_from_slice(&f32::from_bits(*c).to_ne_bytes());
        }
    }
    assert_eq!(bytes, expected);
    assert_eq!(&bytes[0..4], &(-0.0868241f32).to_ne_bytes());
    assert_eq!(&bytes[12..16], &0.5f32.to_ne_bytes());
}

#[test]
fn mesh_new_accepts_indices_in_range() {
    let v = vertex([0.0, 0.0, 0.0], [1.0, 1.0, 1.0]);
    let mesh = Mesh::new(vec![v, v, v], vec![0, 1, 2, 2, 1, 0]);
    let mesh = mesh.expect("every index names a vertex");
    assert_eq!(mesh.index_count(), 6);
    assert_eq!(mesh.vertices.len(), 3);
}

#[test]
fn mesh_new_rejects_an_index_out_of_range() {
    let v = vertex([0.0, 0.0, 0.0], [1.0, 1.0, 1.0]);
    assert!(Mesh::new(vec![v, v, v], vec![0, 1, 3]).is_none());
    assert!(Mesh::new(vec![], vec![0]).is_none());
    assert!(Mesh::new(vec![], vec![]).is_some());
}
