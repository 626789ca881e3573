use glkit::{Command, CommandBuffer, Ibo, Vbo, Vertex, VERTEX_STRIDE, VERTEX_WORDS};

fn vertex(seed: u32) -> Vertex {
    Vertex {
        position: [seed, seed + 1, seed + 2],
        normals: [seed + 3, seed + 4, seed + 5],
        color: [seed + 6, seed + 7, seed + 8],
        texture_coordinates: [seed + 9, seed + 10],
    }
}

#[test]
fn command_buffer_starts_empty() {
    let out = CommandBuffer::new();
    assert_eq!(out.len(), 0);
    assert!(out.commands().is_empty());
}

#[test]
fn command_buffer_keeps_order() {
    let mut out = CommandBuffer::new();
    out.push(Command::BindVertexArray { array: 3 });
    out.push(Command::GenerateMipmap);
    out.push(Command::BindVertexArray { array: 0 });
    assert_eq!(out.len(), 3);
    assert_eq!(
        out.commands(),
        &vec![
            Command::BindVertexArray { array: 3 },
            Command::GenerateMipmap,
            Command::BindVertexArray { array: 0 },
        ]
    );
}

#[test]
fn command_buffer_take_empties_the_record() {
    let mut out = CommandBuffer::new();
    out.push(Command::UseProgram { program: 9 });
    let taken = out.take();
    assert_eq!(taken, vec![Command::UseProgram { program: 9 }]);
    assert_eq!(out.len(), 0);
    out.push(Command::UseProgram { program: 0 });
    assert_eq!(out.take(), vec![Command::UseProgram { program: 0 }]);
}

#[test]
fn vertex_record_is_eleven_words_of_four_bytes() {
    assert_eq!(VERTEX_WORDS, 11);
    assert_eq!(VERTEX_STRIDE, 44);
    assert_eq!(VERTEX_STRIDE, 4 * VERTEX_WORDS);
}

#[test]
fn default_vertex_is_all_zero() {
    let v = Vertex::default();
    assert_eq!(v.position, [0, 0, 0]);
    assert_eq!(v.normals, [0, 0, 0]);
    assert_eq!(v.color, [0, 0, 0]);
    assert_eq!(v.texture_coordinates, [0, 0]);
    assert_eq!(f32::from_bits(v.position[0]), 0.0);
}

#[test]
fn vertex_words_follow_field_order() {
    let words = glkit::vertex::vertex_words(&[vertex(100), vertex(200)]);
    let expected: Vec<u32> = (100..111).chain(200..211).collect();
    assert_eq!(words, expected);
}

#[test]
fn vertex_words_of_nothing_is_empty() {
    assert!(glkit::vertex::vertex_words(&[]).is_empty());
}

#[test]
fn vbo_uploads_44_bytes_per_vertex() {
    let mut out = CommandBuffer::new();
    let vertices = [vertex(0), vertex(20), vertex(40)];
    let _vbo = Vbo::new(&mut out, 17, &vertices);
    let expected: Vec<u32> = (0..11).chain(20..31).chain(40..51).collect();
    assert_eq!(
        out.commands(),
        &vec![Command::BufferData { buffer: 17, byte_len: 132, words: expected }]
    );
}

#[test]
fn vbo_of_no_vertices_uploads_nothing_but_still_allocates() {
    let mut out = CommandBuffer::new();
    let _vbo = Vbo::new(&mut out, 4, &[]);
    assert_eq!(
        out.commands(),
        &vec![Command::BufferData { buffer: 4, byte_len: 0, words: vec![] }]
    );
}

#[test]
fn vbo_destroy_releases_its_buffer_once() {
    let mut out = CommandBuffer::new();
    let vbo = Vbo::new(&mut out, 17, &[vertex(0)]);
    out.take();
    vbo.destroy(&mut out);
    assert_eq!(out.take(), vec![Command::DeleteBuffer { buffer: 17 }]);
}

#[test]
fn ibo_uploads_4_bytes_per_index_and_counts_them() {
    let mut out = CommandBuffer::new();
    let ibo = Ibo::new(&mut out, 23, &[0, 1, 2, 2, 3, 0]);
    assert_eq!(ibo.count(), 6);
    assert_eq!(
        out.commands(),
        &vec![Command::BufferData { buffer: 23, byte_len: 24, words: vec![0, 1, 2, 2, 3, 0] }]
    );
}

#[test]
fn ibo_of_no_indices_counts_zero() {
    let mut out = CommandBuffer::new();
    let ibo = Ibo::new(&mut out, 23, &[]);
    assert_eq!(ibo.count(), 0);
    assert_eq!(
        out.commands(),
        &vec![Command::BufferData { buffer: 23, byte_len: 0, words: vec![] }]
    );
}

#[test]
fn ibo_bind_names_the_buffer_and_unbind_names_none() {
    let mut out = CommandBuffer::new();
    let ibo = Ibo::new(&mut out, 23, &[5, 6, 7]);
    out.take();
    ibo.bind(&mut out);
    ibo.unbind(&mut out);
    assert_eq!(
        out.take(),
        vec![Command::BindElementBuffer { buffer: 23 }, Command::BindElementBuffer { buffer: 0 }]
    );
}

#[test]
fn ibo_destroy_releases_its_buffer_once() {
    let mut out = CommandBuffer::new();
    let ibo = Ibo::new(&mut out, 23, &[5, 6, 7]);
    out.take();
    ibo.destroy(&mut out);
    assert_eq!(out.take(), vec![Command::DeleteBuffer { buffer: 23 }]);
}
