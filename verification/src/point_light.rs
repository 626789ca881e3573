//! The point light's marker: a small unlit cube with a shader of its own, at
//! a position in the world.

use vstd::prelude::*;
use crate::command::{CommandBuffer, CommandView};
use crate::mesh::Mesh;
use crate::shader::{LocationQuery, Shader};
use crate::vertex::Vertex;

verus! {

/// Bit pattern of `0.5`.
pub const HALF: u32 = 0x3f00_0000;

/// Bit pattern of `-0.5`.
pub const MINUS_HALF: u32 = 0xbf00_0000;

/// Bit pattern of `0.2`, the factor by which the unit cube is scaled.
pub const MARKER_SCALE: u32 = 0x3e4c_cccd;

/// Corner `k` of the unit cube centred on the origin. Corners 0 to 3 go
/// round the bottom face, corners 4 to 7 stand above them.
pub open spec fn cube_corner(k: int) -> Vertex {
    Vertex {
        position: [
            if k % 4 == 1 || k % 4 == 2 {
                HALF
            } else {
                MINUS_HALF
            },
            if k >= 4 {
                HALF
            } else {
                MINUS_HALF
            },
            if k % 4 >= 2 {
                HALF
            } else {
                MINUS_HALF
            },
        ],
        normals: [0u32, 0u32, 0u32],
        color: [0u32, 0u32, 0u32],
        texture_coordinates: [0u32, 0u32],
    }
}

/// The eight corners of the unit cube.
pub open spec fn cube_vertices() -> Seq<Vertex> {
    Seq::new(8, |k: int| cube_corner(k))
}

/// The six faces of the unit cube, each by its four corners in order round
/// the face.
pub open spec fn cube_faces() -> Seq<(u32, u32, u32, u32)> {
    seq![
        (0u32, 1u32, 2u32, 3u32),
        (0u32, 1u32, 5u32, 4u32),
        (1u32, 2u32, 6u32, 5u32),
        (2u32, 3u32, 7u32, 6u32),
        (3u32, 0u32, 4u32, 7u32),
        (4u32, 5u32, 6u32, 7u32),
    ]
}

/// The two triangles that cover a face: they share the diagonal from the
/// first corner to the third.
pub open spec fn face_indices(face: (u32, u32, u32, u32)) -> Seq<u32> {
    seq![face.0, face.1, face.2, face.2, face.3, face.0]
}

/// The indices of the unit cube: the triangles of its faces, face by face.
pub open spec fn cube_indices() -> Seq<u32> {
    face_indices(cube_faces()[0]) + face_indices(cube_faces()[1]) + face_indices(cube_faces()[2])
        + face_indices(cube_faces()[3]) + face_indices(cube_faces()[4]) + face_indices(
        cube_faces()[5],
    )
}

/// Every index of the cube names one of its eight corners, and the four
/// corners of each face lie in one plane: they agree in the coordinate that
/// the face is perpendicular to.
pub proof fn lemma_cube_is_sound()
    ensures
        cube_indices().len() == 36,
        forall|i: int| 0 <= i < 36 ==> (#[trigger] cube_indices()[i]) < 8,
        forall|f: int|
            0 <= f < 6 ==> exists|axis: int|
                0 <= axis < 3 && face_is_flat(#[trigger] cube_faces()[f], axis),
{
    assert(face_is_flat(cube_faces()[0], 1));
    assert(face_is_flat(cube_faces()[1], 2));
    assert(face_is_flat(cube_faces()[2], 0));
    assert(face_is_flat(cube_faces()[3], 2));
    assert(face_is_flat(cube_faces()[4], 0));
    assert(face_is_flat(cube_faces()[5], 1));
}

/// Whether the four corners of `face` have the same coordinate on `axis`.
pub open spec fn face_is_flat(face: (u32, u32, u32, u32), axis: int) -> bool {
    let level = cube_corner(face.0 as int).position[axis];
    &&& cube_corner(face.1 as int).position[axis] == level
    &&& cube_corner(face.2 as int).position[axis] == level
    &&& cube_corner(face.3 as int).position[axis] == level
}

/// The eight corners of the unit cube.
pub fn unit_cube_vertices() -> (vertices: Vec<Vertex>)
    ensures
        vertices@ == cube_vertices(),
{
    let zero: [u32; 3] = [0, 0, 0];
    let vertices = vec![
        Vertex {
            position: [MINUS_HALF, MINUS_HALF, MINUS_HALF],
            normals: zero,
            color: zero,
            texture_coordinates: [0, 0],
        },
        Vertex {
            position: [HALF, MINUS_HALF, MINUS_HALF],
            normals: zero,
            color: zero,
            texture_coordinates: [0, 0],
        },
        Vertex {
            position: [HALF, MINUS_HALF, HALF],
            normals: zero,
            color: zero,
            texture_coordinates: [0, 0],
        },
        Vertex {
            position: [MINUS_HALF, MINUS_HALF, HALF],
            normals: zero,
            color: zero,
            texture_coordinates: [0, 0],
        },
        Vertex {
            position: [MINUS_HALF, HALF, MINUS_HALF],
            normals: zero,
            color: zero,
            texture_coordinates: [0, 0],
        },
        Vertex {
            position: [HALF, HALF, MINUS_HALF],
            normals: zero,
            color: zero,
            texture_coordinates: [0, 0],
        },
        Vertex {
            position: [HALF, HALF, HALF],
            normals: zero,
            color: zero,
            texture_coordinates: [0, 0],
        },
        Vertex {
            position: [MINUS_HALF, HALF, HALF],
            normals: zero,
            color: zero,
            texture_coordinates: [0, 0],
        },
    ];
    assert(vertices@ =~= cube_vertices());
    vertices
}

/// The thirty-six indices of the unit cube's twelve triangles.
pub fn unit_cube_indices() -> (indices: Vec<u32>)
    ensures
        indices@ == cube_indices(),
{
    let indices = vec![
        0, 1, 2, 2, 3, 0,
        0, 1, 5, 5, 4, 0,
        1, 2, 6, 6, 5, 1,
        2, 3, 7, 7, 6, 2,
        3, 0, 4, 4, 7, 3,
        4, 5, 6, 6, 7, 4,
    ];
    assert(indices@ =~= cube_indices());
    indices
}

/// Name of the uniform that takes the marker's combined transform.
pub open spec fn transform_uniform() -> Seq<char> {
    "uMVP"@
}

/// A cube mesh, the program that draws it, and where it stands.
///
/// Position and scale are kept as bit patterns of three floats each. The
/// transform that places the cube is computed from them by the caller, who
/// hands it to [`PointLight::draw`].
pub struct PointLight {
    mesh: Mesh,
    shader: Shader,
    position: [u32; 3],
    scale: [u32; 3],
}

impl PointLight {
    /// The cube.
    pub closed spec fn mesh(&self) -> Mesh {
        self.mesh
    }

    /// The program that draws the cube.
    pub closed spec fn shader(&self) -> Shader {
        self.shader
    }

    /// Where the marker stands.
    pub closed spec fn spec_position(&self) -> [u32; 3] {
        self.position
    }

    /// The factor by which the cube is scaled along each axis.
    pub closed spec fn spec_scale(&self) -> [u32; 3] {
        self.scale
    }

    /// The device calls of a [`PointLight::draw`] with `matrix`, once the
    /// location of the transform uniform is known: the program is activated,
    /// the matrix is stored, the cube is drawn. The program stays active.
    pub open spec fn draw_trace(&self, matrix: Seq<u32>) -> Seq<CommandView> {
        seq![
            CommandView::UseProgram { program: self.shader().handle() },
            CommandView::UniformMat4 {
                location: self.shader().locations()[transform_uniform()],
                matrix,
            },
        ] + self.mesh().draw_trace()
    }

    /// Takes ownership of the unused device objects named by the arguments
    /// and records the upload of the unit cube and the build of the program
    /// from the two sources. The marker stands at the origin, scaled to a
    /// fifth.
    pub fn new(
        out: &mut CommandBuffer,
        vertex_array: u32,
        vertex_buffer: u32,
        index_buffer: u32,
        program: u32,
        vertex_shader: u32,
        fragment_shader: u32,
        vertex_source: String,
        fragment_source: String,
    ) -> (light: PointLight)
        ensures
            light.mesh().vertex_array() == vertex_array,
            light.mesh().vertex_buffer() == vertex_buffer,
            light.mesh().index_buffer() == index_buffer,
            light.mesh().index_count() == 36,
            light.mesh().textures().len() == 0,
            light.shader().handle() == program,
            light.shader().locations() == Map::<Seq<char>, i32>::empty(),
            light.spec_position()@ == seq![0u32, 0u32, 0u32],
            light.spec_scale()@ == seq![MARKER_SCALE, MARKER_SCALE, MARKER_SCALE],
            final(out)@ == old(out)@ + crate::mesh::creation_trace(
                vertex_array,
                vertex_buffer,
                index_buffer,
                cube_vertices(),
                cube_indices(),
            ) + crate::shader::creation_trace(
                program,
                vertex_shader,
                fragment_shader,
                vertex_source@,
                fragment_source@,
            ),
    {
        let vertices = unit_cube_vertices();
        let indices = unit_cube_indices();
        let mesh = Mesh::new(
            out,
            vertex_array,
            vertex_buffer,
            index_buffer,
            vertices,
            indices,
            Vec::new(),
        );
        let shader = Shader::new(
            out,
            program,
            vertex_shader,
            fragment_shader,
            vertex_source,
            fragment_source,
        );
        let light = PointLight {
            mesh,
            shader,
            position: [0, 0, 0],
            scale: [MARKER_SCALE, MARKER_SCALE, MARKER_SCALE],
        };
        assert(light.spec_position()@ =~= seq![0u32, 0u32, 0u32]);
        assert(light.spec_scale()@ =~= seq![MARKER_SCALE, MARKER_SCALE, MARKER_SCALE]);
        light
    }

    /// Where the marker stands.
    pub fn position(&self) -> (position: [u32; 3])
        ensures
            position == self.spec_position(),
    {
        self.position
    }

    /// The factor by which the cube is scaled along each axis.
    pub fn scale(&self) -> (scale: [u32; 3])
        ensures
            scale == self.spec_scale(),
    {
        self.scale
    }

    /// Moves the marker.
    pub fn set_position(&mut self, new_position: [u32; 3])
        ensures
            final(self).spec_position() == new_position,
            final(self).spec_scale() == old(self).spec_scale(),
            final(self).mesh() == old(self).mesh(),
            final(self).shader() == old(self).shader(),
    {
        self.position = new_position;
    }

    /// Stores the device's answer to the [`LocationQuery`] that a draw asked.
    pub fn cache_location(&mut self, name: &str, location: i32)
        ensures
            final(self).shader().handle() == old(self).shader().handle(),
            final(self).shader().locations() == crate::shader::remember(
                old(self).shader().locations(),
                name@,
                location,
            ),
            final(self).mesh() == old(self).mesh(),
            final(self).spec_position() == old(self).spec_position(),
            final(self).spec_scale() == old(self).spec_scale(),
    {
        self.shader.cache_location(name, location);
    }

    /// Records one draw of the marker with the combined transform `matrix`
    /// (projection x view x model, column-major), or asks for the location of
    /// the transform uniform if it is not known yet and records nothing.
    pub fn draw(&self, out: &mut CommandBuffer, matrix: [u32; 16]) -> (status: Result<
        (),
        LocationQuery,
    >)
        ensures
            self.shader().requested(transform_uniform(), status),
            final(out)@ == (match status {
                Ok(_) => old(out)@ + self.draw_trace(matrix@),
                Err(_) => old(out)@,
            }),
    {
        if self.shader.get_location("uMVP").is_none() {
            return Err(self.shader.query("uMVP"));
        }
        self.shader.bind(out);
        let status = self.shader.set_uniform_mat4(out, "uMVP", matrix);
        self.mesh.draw(out);
        assert(out@ =~= old(out)@ + self.draw_trace(matrix@));
        status
    }

    /// Records the release of the cube and of the program.
    pub fn destroy(self, out: &mut CommandBuffer)
        ensures
            final(out)@ == old(out)@ + self.mesh().destroy_trace().push(
                CommandView::DeleteProgram { program: self.shader().handle() },
            ),
    {
        let PointLight { mesh, shader, position, scale } = self;
        mesh.destroy(out);
        shader.destroy(out);
        assert(out@ =~= old(out)@ + self.mesh().destroy_trace().push(
            CommandView::DeleteProgram { program: self.shader().handle() },
        ));
    }
}

} // verus!
