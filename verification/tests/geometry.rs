use render_harness::geometry::{
    buffer_byte_length, upload, GeometryError, HandleAllocator, VertexLayout,
};

fn bits(values: &[f32]) -> Vec<u32> {
    values.iter().map(|v| v.to_bits()).collect()
}

#[test]
fn upload_returns_distinct_non_zero_handles() {
    let mut alloc = HandleAllocator::new();
    let layout = VertexLayout::position_only();
    let vertices = bits(&[-0.5, -0.5, 0.0, 0.5, -0.5, 0.0, 0.0, 0.5, 0.0]);
    let geometry = upload(&mut alloc, &vertices, &layout).unwrap();
    assert_ne!(geometry.vbo, 0);
    assert_ne!(geometry.vao, 0);
    assert_ne!(geometry.vbo, geometry.vao);
    assert_eq!(geometry.vertex_count, 3);
}

#[test]
fn upload_accepts_every_positive_multiple_of_three() {
    let layout = VertexLayout::position_only();
    for vertex_count in 1..8u32 {
        let mut alloc = HandleAllocator::new();
        let vertices = vec![0u32; (vertex_count * 3) as usize];
        let geometry = upload(&mut alloc, &vertices, &layout).unwrap();
        assert_ne!(geometry.vbo, 0);
        assert_ne!(geometry.vao, 0);
        assert_ne!(geometry.vbo, geometry.vao);
        assert_eq!(geometry.vertex_count, vertex_count);
    }
}

#[test]
fn upload_rejects_empty_vertex_data() {
    let mut alloc = HandleAllocator::new();
    let layout = VertexLayout::position_only();
    let vertices: Vec<u32> = Vec::new();
    assert_eq!(
        upload(&mut alloc, &vertices, &layout),
        Err(GeometryError::InvalidLayout)
    );
}

#[test]
fn upload_rejects_partial_vertex() {
    let mut alloc = HandleAllocator::new();
    let layout = VertexLayout::position_only();
    let vertices = bits(&[0.5, -0.5, 0.0, 1.0]);
    assert_eq!(
        upload(&mut alloc, &vertices, &layout),
        Err(GeometryError::InvalidLayout)
    );
}

#[test]
fn byte_length_is_four_per_component() {
    let vertices = bits(&[-0.5, -0.5, 0.0, 0.5, -0.5, 0.0, 0.0, 0.5, 0.0]);
    assert_eq!(buffer_byte_length(&vertices), 36);
}

#[test]
fn position_layout_is_tightly_packed() {
    let layout = VertexLayout::position_only();
    assert_eq!(layout.attribute_index, 0);
    assert_eq!(layout.components, 3);
    assert_eq!(layout.stride_bytes, 12);
    assert_eq!(layout.offset_bytes, 0);
}

#[test]
fn allocator_names_never_repeat() {
    let mut alloc = HandleAllocator::new();
    let a = alloc.fresh();
    let b = alloc.fresh();
    let c = alloc.fresh();
    assert_ne!(a, 0);
    assert_ne!(b, 0);
    assert_ne!(c, 0);
    assert!(a != b && b != c && a != c);
}
