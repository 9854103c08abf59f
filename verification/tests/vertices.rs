use lyon_renderer::vertex::{
    pack_vertices, AttributeFormat, StepMode, VertexAttribute, VertexLayout, ATTRIBUTE_COUNT,
    WORDS_PER_VERTEX, WORD_SIZE,
};
use lyon_renderer::{Vertex, VertexConstructor};

#[test]
fn new_vertex_takes_color_and_depth_from_the_attributes() {
    let attributes = [1.0f32.to_bits(), 0.5f32.to_bits(), 0.25f32.to_bits(), 0.75f32.to_bits()];
    let vertex =
        VertexConstructor.new_vertex([10.0f32.to_bits(), (-20.0f32).to_bits()], &attributes);
    assert_eq!(f32::from_bits(vertex.position[0]), 10.0);
    assert_eq!(f32::from_bits(vertex.position[1]), -20.0);
    assert_eq!(f32::from_bits(vertex.color[0]), 1.0);
    assert_eq!(f32::from_bits(vertex.color[1]), 0.5);
    assert_eq!(f32::from_bits(vertex.color[2]), 0.25);
    assert_eq!(f32::from_bits(vertex.z), 0.75);
}

#[test]
fn new_vertex_keeps_every_bit() {
    let vertex = VertexConstructor.new_vertex([1, 2], &[3, 4, 5, 6]);
    assert_eq!(vertex, Vertex { position: [1, 2], color: [3, 4, 5], z: 6 });
}

#[test]
fn a_vertex_is_made_from_four_attributes() {
    assert_eq!(ATTRIBUTE_COUNT, 4);
    assert_eq!(WORDS_PER_VERTEX, 6);
    assert_eq!(WORD_SIZE, 4);
}

#[test]
fn layout_declares_position_color_and_depth() {
    assert_eq!(
        Vertex::layout(),
        VertexLayout {
            array_stride: 24,
            step_mode: StepMode::Vertex,
            attributes: vec![
                VertexAttribute {
                    format: AttributeFormat::Float32x2,
                    offset: 0,
                    shader_location: 0
                },
                VertexAttribute {
                    format: AttributeFormat::Float32x3,
                    offset: 8,
                    shader_location: 1
                },
                VertexAttribute { format: AttributeFormat::Float32, offset: 20, shader_location: 2 },
            ],
        }
    );
}

#[test]
fn layout_attributes_tile_the_stride() {
    let layout = Vertex::layout();
    let mut offset = 0;
    for attribute in &layout.attributes {
        assert_eq!(attribute.offset, offset);
        offset += attribute.format.size();
    }
    assert_eq!(offset, layout.array_stride);
    assert_eq!(layout.array_stride, std::mem::size_of::<Vertex>() as u64);
}

#[test]
fn attribute_formats_have_four_bytes_for_each_scalar() {
    assert_eq!(AttributeFormat::Float32.size(), 4);
    assert_eq!(AttributeFormat::Float32x2.size(), 8);
    assert_eq!(AttributeFormat::Float32x3.size(), 12);
}

#[test]
fn pack_vertices_lays_out_position_color_depth() {
    let vertices = [
        Vertex { position: [1, 2], color: [3, 4, 5], z: 6 },
        Vertex { position: [7, 8], color: [9, 10, 11], z: 12 },
    ];
    assert_eq!(pack_vertices(&vertices), vec![1, 2, 3, 4, 5, 6, 7, 8, 9, 10, 11, 12]);
}

#[test]
fn pack_vertices_of_nothing_is_empty() {
    assert_eq!(pack_vertices(&[]), Vec::<u32>::new());
}

#[test]
fn a_vertex_is_built_from_exactly_four_attributes() {
    assert_eq!(
        VertexConstructor.try_new_vertex([1, 2], &[3, 4, 5, 6]),
        Some(Vertex { position: [1, 2], color: [3, 4, 5], z: 6 })
    );
    assert_eq!(VertexConstructor.try_new_vertex([1, 2], &[3, 4, 5]), None);
    assert_eq!(VertexConstructor.try_new_vertex([1, 2], &[3, 4, 5, 6, 7]), None);
    assert_eq!(VertexConstructor.try_new_vertex([1, 2], &[]), None);
}

#[test]
fn layout_steps_vertex_by_vertex() {
    assert_eq!(Vertex::layout().step_mode, StepMode::Vertex);
    assert_ne!(Vertex::layout().step_mode, StepMode::Instance);
}
