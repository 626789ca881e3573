use glkit::point_light::{unit_cube_indices, unit_cube_vertices, HALF, MARKER_SCALE, MINUS_HALF};
use glkit::{Command, CommandBuffer, LocationQuery, PointLight};

fn light(out: &mut CommandBuffer) -> PointLight {
    PointLight::new(out, 1, 2, 3, 4, 5, 6, String::from("vertex"), String::from("fragment"))
}

fn floats(words: [u32; 3]) -> [f32; 3] {
    [f32::from_bits(words[0]), f32::from_bits(words[1]), f32::from_bits(words[2])]
}

#[test]
fn constants_are_the_bit_patterns_of_their_values() {
    assert_eq!(f32::from_bits(HALF), 0.5);
    assert_eq!(f32::from_bits(MINUS_HALF), -0.5);
    assert_eq!(f32::from_bits(MARKER_SCALE), 0.2);
}

#[test]
fn cube_has_the_eight_corners_of_the_unit_cube() {
    let corners: Vec<[f32; 3]> = unit_cube_vertices().iter().map(|v| floats(v.position)).collect();
    assert_eq!(
        corners,
        vec![
            [-0.5, -0.5, -0.5],
            [0.5, -0.5, -0.5],
            [0.5, -0.5, 0.5],
            [-0.5, -0.5, 0.5],
            [-0.5, 0.5, -0.5],
            [0.5, 0.5, -0.5],
            [0.5, 0.5, 0.5],
            [-0.5, 0.5, 0.5],
        ]
    );
}

#[test]
fn cube_vertices_carry_nothing_but_a_position() {
    for vertex in unit_cube_vertices() {
        assert_eq!(vertex.normals, [0; 3]);
        assert_eq!(vertex.color, [0; 3]);
        assert_eq!(vertex.texture_coordinates, [0; 2]);
    }
}

#[test]
fn cube_has_twelve_triangles() {
    assert_eq!(
        unit_cube_indices(),
        vec![
            0, 1, 2, 2, 3, 0, //
            0, 1, 5, 5, 4, 0, //
            1, 2, 6, 6, 5, 1, //
            2, 3, 7, 7, 6, 2, //
            3, 0, 4, 4, 7, 3, //
            4, 5, 6, 6, 7, 4,
        ]
    );
}

#[test]
fn every_cube_triangle_lies_in_a_face() {
    let vertices = unit_cube_vertices();
    let indices = unit_cube_indices();
    for triangle in indices.chunks(3) {
        let corners: Vec<[f32; 3]> =
            triangle.iter().map(|i| floats(vertices[*i as usize].position)).collect();
        let flat = (0..3).any(|axis| {
            corners[0][axis] == corners[1][axis] && corners[1][axis] == corners[2][axis]
        });
        assert!(flat, "triangle {:?} cuts through the cube", triangle);
    }
}

#[test]
fn new_light_stands_at_the_origin_scaled_to_a_fifth() {
    let mut out = CommandBuffer::new();
    let light = light(&mut out);
    assert_eq!(floats(light.position()), [0.0, 0.0, 0.0]);
    assert_eq!(floats(light.scale()), [0.2, 0.2, 0.2]);
}

#[test]
fn creation_uploads_the_cube_then_builds_the_program() {
    let mut out = CommandBuffer::new();
    let _light = light(&mut out);
    let recorded = out.take();
    assert_eq!(recorded.len(), 16 + 12);
    assert_eq!(
        recorded[0],
        Command::BufferData {
            buffer: 2,
            byte_len: 8 * 44,
            words: glkit::vertex::vertex_words(&unit_cube_vertices()),
        }
    );
    assert_eq!(
        recorded[1],
        Command::BufferData { buffer: 3, byte_len: 36 * 4, words: unit_cube_indices() }
    );
    assert_eq!(
        recorded[15],
        Command::ElementBuffer { array: 1, buffer: 3 }
    );
    assert_eq!(recorded[16], Command::ShaderSource { shader: 5, source: String::from("vertex") });
    assert_eq!(recorded[19], Command::ShaderSource { shader: 6, source: String::from("fragment") });
    assert_eq!(recorded[24], Command::LinkProgram { program: 4 });
    assert_eq!(recorded[25], Command::CheckLinkStatus { program: 4 });
}

#[test]
fn set_position_moves_the_light_only() {
    let mut out = CommandBuffer::new();
    let mut light = light(&mut out);
    let target = [0.0f32.to_bits(), 0.3f32.to_bits(), (-2.5f32).to_bits()];
    light.set_position(target);
    assert_eq!(light.position(), target);
    assert_eq!(floats(light.position()), [0.0, 0.3, -2.5]);
    assert_eq!(floats(light.scale()), [0.2, 0.2, 0.2]);
}

#[test]
fn first_draw_asks_for_the_transform_uniform() {
    let mut out = CommandBuffer::new();
    let light = light(&mut out);
    out.take();
    assert_eq!(
        light.draw(&mut out, [0; 16]),
        Err(LocationQuery { program: 4, name: String::from("uMVP") })
    );
    assert_eq!(out.len(), 0);
}

#[test]
fn draw_activates_the_program_stores_the_transform_and_draws_the_cube() {
    let mut out = CommandBuffer::new();
    let mut light = light(&mut out);
    out.take();
    light.cache_location("uMVP", 0);
    let mut matrix = [0u32; 16];
    matrix[0] = 1.0f32.to_bits();
    matrix[5] = 1.0f32.to_bits();
    matrix[10] = 1.0f32.to_bits();
    matrix[15] = 1.0f32.to_bits();
    assert_eq!(light.draw(&mut out, matrix), Ok(()));
    assert_eq!(
        out.take(),
        vec![
            Command::UseProgram { program: 4 },
            Command::UniformMat4 { location: 0, matrix },
            Command::BindVertexArray { array: 1 },
            Command::DrawIndexedTriangles { count: 36 },
            Command::BindVertexArray { array: 0 },
        ]
    );
}

#[test]
fn draws_ask_for_the_transform_uniform_once() {
    let mut out = CommandBuffer::new();
    let mut light = light(&mut out);
    let mut lookups = 0;
    for _ in 0..4 {
        if let Err(query) = light.draw(&mut out, [0; 16]) {
            lookups += 1;
            light.cache_location(&query.name, 12);
            assert_eq!(light.draw(&mut out, [0; 16]), Ok(()));
        }
    }
    assert_eq!(lookups, 1);
}

#[test]
fn light_destroy_releases_the_cube_then_the_program() {
    let mut out = CommandBuffer::new();
    let light = light(&mut out);
    out.take();
    light.destroy(&mut out);
    assert_eq!(
        out.take(),
        vec![
            Command::DeleteVertexArray { array: 1 },
            Command::DeleteBuffer { buffer: 3 },
            Command::DeleteBuffer { buffer: 2 },
            Command::DeleteProgram { program: 4 },
        ]
    );
}
