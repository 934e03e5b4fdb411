use golem::buffer::{ElementBuffer, VertexBuffer};
use golem::call::GlCall;
use golem::error::GolemError;

#[test]
fn new_vertex_buffer_is_empty() {
    let vb = VertexBuffer::new(Ok(3)).unwrap();
    assert_eq!(vb.stride(), 0);
    assert_eq!(vb.size(), 0);
}

#[test]
fn new_vertex_buffer_hands_on_the_creation_error() {
    assert_eq!(
        VertexBuffer::new(Err(String::from("no memory"))).unwrap_err(),
        GolemError::ContextError(String::from("no memory"))
    );
}

#[test]
fn vertex_data_is_bound_then_handed_over() {
    let mut vb = VertexBuffer::new(Ok(3)).unwrap();
    let data = [7u8; 64];
    let calls = vb.set_data(&data, 16).unwrap();
    assert_eq!(
        calls,
        vec![
            GlCall::BindBuffer { target: glow::ARRAY_BUFFER, buffer: Some(3) },
            GlCall::BufferDataU8 { target: 0x8892, data: &data[..], usage: 0x88E4 },
        ]
    );
    assert_eq!(vb.stride(), 16);
    assert_eq!(vb.size(), 4);
}

#[test]
fn vertex_data_replaces_what_was_there() {
    let mut vb = VertexBuffer::new(Ok(3)).unwrap();
    vb.set_data(&[0u8; 64], 16).unwrap();
    vb.set_data(&[0u8; 24], 8).unwrap();
    assert_eq!(vb.stride(), 8);
    assert_eq!(vb.size(), 3);
    vb.set_data(&[], 4).unwrap();
    assert_eq!(vb.stride(), 4);
    assert_eq!(vb.size(), 0);
}

#[test]
fn vertex_data_that_is_no_whole_number_of_vertices_is_refused() {
    let mut vb = VertexBuffer::new(Ok(3)).unwrap();
    vb.set_data(&[0u8; 64], 16).unwrap();
    assert_eq!(
        vb.set_data(&[0u8; 63], 16).unwrap_err(),
        GolemError::BufferLayoutError { bytes: 63, stride: 16 }
    );
    assert_eq!(
        vb.set_data(&[0u8; 8], 0).unwrap_err(),
        GolemError::BufferLayoutError { bytes: 8, stride: 0 }
    );
    assert_eq!(
        vb.set_data(&[], 0).unwrap_err(),
        GolemError::BufferLayoutError { bytes: 0, stride: 0 }
    );
    assert_eq!(vb.stride(), 16);
    assert_eq!(vb.size(), 4);
}

#[test]
fn vertex_buffer_release_deletes_it_once() {
    let vb = VertexBuffer::new(Ok(3)).unwrap();
    assert_eq!(vb.release(), vec![GlCall::DeleteBuffer { buffer: 3 }]);
}

#[test]
fn new_element_buffer_is_empty() {
    let eb = ElementBuffer::new(Ok(4)).unwrap();
    assert_eq!(eb.size(), 0);
}

#[test]
fn new_element_buffer_hands_on_the_creation_error() {
    assert_eq!(
        ElementBuffer::new(Err(String::from("lost"))).unwrap_err(),
        GolemError::ContextError(String::from("lost"))
    );
}

#[test]
fn element_data_is_bound_then_handed_over() {
    let mut eb = ElementBuffer::new(Ok(4)).unwrap();
    let indices = [0u32, 1, 2, 2, 3, 0];
    let calls = eb.set_data(&indices);
    assert_eq!(
        calls,
        vec![
            GlCall::BindBuffer { target: glow::ELEMENT_ARRAY_BUFFER, buffer: Some(4) },
            GlCall::BufferDataU32 { target: 0x8893, data: &indices[..], usage: glow::STATIC_DRAW },
        ]
    );
    assert_eq!(eb.size(), 6);
    eb.set_data(&[]);
    assert_eq!(eb.size(), 0);
}

#[test]
fn element_buffer_release_deletes_it_once() {
    let eb = ElementBuffer::new(Ok(4)).unwrap();
    assert_eq!(eb.release(), vec![GlCall::DeleteBuffer { buffer: 4 }]);
}
