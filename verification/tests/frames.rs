use render_service::frame::{
    Bounds, Frame, GpuVertex, Uniforms, VertexAttribute, VertexFormat, VertexStepMode,
};

fn vertex(position: [f32; 2], color: [f32; 4]) -> GpuVertex {
    GpuVertex {
        position: position.map(f32::to_bits),
        color: color.map(f32::to_bits),
    }
}

fn frame() -> Frame {
    Frame {
        vertices: vec![
            vertex([1.5, -2.0], [0.1, 0.2, 0.3, 0.4]),
            vertex([3.25, 4.0], [0.5, 0.6, 0.7, 0.8]),
        ],
        indices: vec![0, 1, 0x0102_0304],
        bounds: Bounds {
            min: [0, 0],
            max: [0, 0],
        },
    }
}

#[test]
fn vertices_are_described() {
    let layout = GpuVertex::desc();
    assert_eq!(layout.array_stride, 24);
    assert_eq!(layout.step_mode, VertexStepMode::Vertex);
    assert_eq!(
        layout.attributes,
        vec![
            VertexAttribute {
                offset: 0,
                shader_location: 0,
                format: VertexFormat::Float32x2,
            },
            VertexAttribute {
                offset: 8,
                shader_location: 1,
                format: VertexFormat::Float32x4,
            },
        ]
    );
}

#[test]
fn vertex_buffer_holds_the_floats_in_order() {
    let bytes = frame().vertex_bytes();
    let floats: [f32; 12] = [1.5, -2.0, 0.1, 0.2, 0.3, 0.4, 3.25, 4.0, 0.5, 0.6, 0.7, 0.8];
    let expected: Vec<u8> = floats.iter().flat_map(|f| f.to_ne_bytes()).collect();
    assert_eq!(bytes, expected);
}

#[test]
fn vertex_buffer_matches_its_description() {
    let frame = frame();
    let bytes = frame.vertex_bytes();
    let layout = GpuVertex::desc();
    for (i, vertex) in frame.vertices.iter().enumerate() {
        let slot = i * layout.array_stride as usize;
        let position = slot + layout.attributes[0].offset as usize;
        let color = slot + layout.attributes[1].offset as usize;
        let words = |at: usize, n: usize| -> Vec<u32> {
            bytes[at..at + 4 * n]
                .chunks(4)
                .map(|c| u32::from_ne_bytes([c[0], c[1], c[2], c[3]]))
                .collect()
        };
        assert_eq!(words(position, 2), vertex.position);
        assert_eq!(words(color, 4), vertex.color);
    }
}

#[test]
fn index_buffer_holds_the_indices() {
    let expected: Vec<u8> = [0u32, 1, 0x0102_0304].iter().flat_map(|i| i.to_ne_bytes()).collect();
    assert_eq!(frame().index_bytes(), expected);
    assert_eq!(frame().index_count(), 3);
}

#[test]
fn an_empty_frame_has_empty_buffers() {
    let empty = Frame {
        vertices: vec![],
        indices: vec![],
        bounds: Bounds {
            min: [0, 0],
            max: [0, 0],
        },
    };
    assert!(empty.vertex_bytes().is_empty());
    assert!(empty.index_bytes().is_empty());
    assert_eq!(empty.index_count(), 0);
}

#[test]
fn uniforms_are_written_by_columns() {
    let uniforms = Uniforms {
        transform: [[0, 1, 2, 3], [4, 5, 6, 7], [8, 9, 10, 11], [12, 13, 14, 15]],
    };
    let expected: Vec<u8> = (0..16u32).flat_map(|i| i.to_ne_bytes()).collect();
    assert_eq!(uniforms.bytes(), expected);
}
