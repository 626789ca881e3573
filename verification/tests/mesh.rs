use glkit::{
    Bitmap, Command, CommandBuffer, ComponentType, Mesh, Texture, TextureKind, Vertex,
};
use std::collections::HashMap;

fn corner(x: f32, z: f32, u: f32, v: f32) -> Vertex {
    Vertex {
        position: [x.to_bits(), 0.0f32.to_bits(), z.to_bits()],
        normals: [0.0f32.to_bits(), 1.0f32.to_bits(), 0.0f32.to_bits()],
        color: [0; 3],
        texture_coordinates: [u.to_bits(), v.to_bits()],
    }
}

fn quad() -> (Vec<Vertex>, Vec<u32>) {
    (
        vec![
            corner(0.0, 0.0, 0.0, 0.0),
            corner(1.0, 0.0, 1.0, 0.0),
            corner(1.0, 1.0, 1.0, 1.0),
            corner(0.0, 1.0, 0.0, 1.0),
        ],
        vec![0, 1, 2, 2, 3, 0],
    )
}

fn texture(out: &mut CommandBuffer, id: u32, kind: TextureKind) -> Texture {
    Texture::new(out, id, kind, Bitmap::new(1, 1, vec![255; 4]).unwrap())
}

/// What the vertex array had attached when a draw call came.
#[derive(Debug, PartialEq)]
struct DrawCall {
    count: i32,
    vertex_array: u32,
    vertex_buffer: Option<(u32, i32)>,
    element_buffer: Option<u32>,
    textures: Vec<(u32, u32)>,
}

/// A device that only keeps track of what is bound and attached.
#[derive(Default)]
struct Device {
    vertex_array: u32,
    active_unit: u32,
    units: HashMap<u32, u32>,
    vertex_buffers: HashMap<u32, (u32, i32)>,
    element_buffers: HashMap<u32, u32>,
    buffers: HashMap<u32, Vec<u32>>,
    draws: Vec<DrawCall>,
}

impl Device {
    fn run(&mut self, commands: &[Command]) {
        for command in commands {
            match command {
                Command::BufferData { buffer, words, .. } => {
                    self.buffers.insert(*buffer, words.clone());
                }
                Command::BindVertexArray { array } => self.vertex_array = *array,
                Command::VertexBuffer { array, buffer, stride, .. } => {
                    self.vertex_buffers.insert(*array, (*buffer, *stride));
                }
                Command::ElementBuffer { array, buffer } => {
                    self.element_buffers.insert(*array, *buffer);
                }
                Command::ActiveTexture { unit } => self.active_unit = *unit,
                Command::BindTexture2d { texture } => {
                    self.units.insert(self.active_unit, *texture);
                }
                Command::DrawIndexedTriangles { count } => {
                    let mut textures: Vec<(u32, u32)> =
                        self.units.iter().map(|(u, t)| (*u, *t)).filter(|(_, t)| *t != 0).collect();
                    textures.sort();
                    self.draws.push(DrawCall {
                        count: *count,
                        vertex_array: self.vertex_array,
                        vertex_buffer: self.vertex_buffers.get(&self.vertex_array).copied(),
                        element_buffer: self.element_buffers.get(&self.vertex_array).copied(),
                        textures,
                    });
                }
                _ => {}
            }
        }
    }
}

#[test]
fn creation_uploads_both_buffers_and_describes_the_vertex_record() {
    let mut out = CommandBuffer::new();
    let (vertices, indices) = quad();
    let words = glkit::vertex::vertex_words(&vertices);
    let _mesh = Mesh::new(&mut out, 1, 2, 3, vertices, indices, vec![]);
    let attribute = |slot: u32, components: i32, offset: u32| {
        vec![
            Command::AttribFormat {
                array: 1,
                slot,
                components,
                kind: ComponentType::Float,
                offset,
            },
            Command::AttribBinding { array: 1, slot, binding: 0 },
            Command::EnableAttrib { array: 1, slot },
        ]
    };
    let mut expected = vec![
        Command::BufferData { buffer: 2, byte_len: 176, words },
        Command::BufferData { buffer: 3, byte_len: 24, words: vec![0, 1, 2, 2, 3, 0] },
    ];
    expected.extend(attribute(0, 3, 0));
    expected.extend(attribute(1, 3, 12));
    expected.extend(attribute(2, 3, 24));
    expected.extend(attribute(3, 2, 36));
    expected.push(Command::VertexBuffer { array: 1, binding: 0, buffer: 2, start: 0, stride: 44 });
    expected.push(Command::ElementBuffer { array: 1, buffer: 3 });
    assert_eq!(out.take(), expected);
}

#[test]
fn quad_draw_is_one_indexed_draw_of_six_indices() {
    let mut out = CommandBuffer::new();
    let (vertices, indices) = quad();
    let mesh = Mesh::new(&mut out, 1, 2, 3, vertices, indices, vec![]);
    out.take();
    mesh.draw(&mut out);
    assert_eq!(
        out.take(),
        vec![
            Command::BindVertexArray { array: 1 },
            Command::DrawIndexedTriangles { count: 6 },
            Command::BindVertexArray { array: 0 },
        ]
    );
}

#[test]
fn quad_draw_happens_with_its_buffers_attached_and_leaves_none_bound() {
    let mut out = CommandBuffer::new();
    let mut device = Device::default();
    let (vertices, indices) = quad();
    let words = glkit::vertex::vertex_words(&vertices);
    let mesh = Mesh::new(&mut out, 1, 2, 3, vertices, indices, vec![]);
    device.run(&out.take());
    assert!(device.draws.is_empty());
    assert_eq!(device.vertex_array, 0);

    mesh.draw(&mut out);
    device.run(&out.take());
    assert_eq!(
        device.draws,
        vec![DrawCall {
            count: 6,
            vertex_array: 1,
            vertex_buffer: Some((2, 44)),
            element_buffer: Some(3),
            textures: vec![],
        }]
    );
    assert_eq!(device.vertex_array, 0);
    assert_eq!(device.buffers[&2], words);
    assert_eq!(device.buffers[&3], vec![0, 1, 2, 2, 3, 0]);
}

#[test]
fn every_draw_is_one_more_draw_call() {
    let mut out = CommandBuffer::new();
    let mut device = Device::default();
    let (vertices, indices) = quad();
    let mesh = Mesh::new(&mut out, 1, 2, 3, vertices, indices, vec![]);
    for _ in 0..3 {
        mesh.draw(&mut out);
    }
    device.run(&out.take());
    assert_eq!(device.draws.len(), 3);
    assert!(device.draws.iter().all(|call| call.count == 6 && call.vertex_array == 1));
    assert_eq!(device.vertex_array, 0);
}

#[test]
fn textures_are_bound_in_order_before_the_draw_and_unbound_after() {
    let mut out = CommandBuffer::new();
    let diffuse = texture(&mut out, 10, TextureKind::DIFFUSE);
    let specular = texture(&mut out, 11, TextureKind::SPECULAR);
    let (vertices, indices) = quad();
    let mesh = Mesh::new(&mut out, 1, 2, 3, vertices, indices, vec![diffuse, specular]);
    out.take();
    mesh.draw(&mut out);
    assert_eq!(
        out.take(),
        vec![
            Command::BindVertexArray { array: 1 },
            Command::ActiveTexture { unit: 0 },
            Command::BindTexture2d { texture: 10 },
            Command::ActiveTexture { unit: 1 },
            Command::BindTexture2d { texture: 11 },
            Command::DrawIndexedTriangles { count: 6 },
            Command::BindTexture2d { texture: 0 },
            Command::BindTexture2d { texture: 0 },
            Command::BindVertexArray { array: 0 },
        ]
    );
}

#[test]
fn textures_of_different_kinds_are_both_bound_at_the_draw() {
    let mut out = CommandBuffer::new();
    let mut device = Device::default();
    let specular = texture(&mut out, 11, TextureKind::SPECULAR);
    let diffuse = texture(&mut out, 10, TextureKind::DIFFUSE);
    let (vertices, indices) = quad();
    let mesh = Mesh::new(&mut out, 1, 2, 3, vertices, indices, vec![specular, diffuse]);
    mesh.draw(&mut out);
    device.run(&out.take());
    assert_eq!(device.draws.len(), 1);
    assert_eq!(device.draws[0].textures, vec![(0, 10), (1, 11)]);
    // The unit that was active last is cleared.
    assert_eq!(device.active_unit, 0);
    assert_eq!(device.units[&0], 0);
}

#[test]
fn mesh_without_geometry_still_draws_once() {
    let mut out = CommandBuffer::new();
    let mesh = Mesh::new(&mut out, 1, 2, 3, vec![], vec![], vec![]);
    assert_eq!(out.len(), 16);
    out.take();
    mesh.draw(&mut out);
    assert_eq!(
        out.take(),
        vec![
            Command::BindVertexArray { array: 1 },
            Command::DrawIndexedTriangles { count: 0 },
            Command::BindVertexArray { array: 0 },
        ]
    );
}

#[test]
fn destroy_releases_everything_once_layout_first() {
    let mut out = CommandBuffer::new();
    let diffuse = texture(&mut out, 10, TextureKind::DIFFUSE);
    let specular = texture(&mut out, 11, TextureKind::SPECULAR);
    let (vertices, indices) = quad();
    let mesh = Mesh::new(&mut out, 1, 2, 3, vertices, indices, vec![diffuse, specular]);
    out.take();
    mesh.destroy(&mut out);
    assert_eq!(
        out.take(),
        vec![
            Command::DeleteVertexArray { array: 1 },
            Command::DeleteBuffer { buffer: 3 },
            Command::DeleteBuffer { buffer: 2 },
            Command::DeleteTexture { texture: 10 },
            Command::DeleteTexture { texture: 11 },
        ]
    );
}

#[test]
fn sizes_that_the_device_can_take() {
    assert!(Mesh::accepts(0, 0));
    assert!(Mesh::accepts(4, 6));
    assert!(Mesh::accepts(1 << 20, i32::MAX as usize));
    if usize::BITS > 32 {
        assert!(!Mesh::accepts(4, i32::MAX as usize + 1));
        assert!(Mesh::accepts(isize::MAX as usize / 44, 0));
        assert!(!Mesh::accepts(isize::MAX as usize / 44 + 1, 0));
    }
}
