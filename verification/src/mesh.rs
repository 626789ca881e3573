//! The mesh: geometry on the device together with the textures it is drawn
//! with, drawn as a whole in one call.

use vstd::prelude::*;
use crate::command::{Command, CommandBuffer, CommandView, ComponentType};
use crate::device::{
    lemma_run_concat, lemma_run_push, BufferBinding, DeviceState, Draw, VertexArrayState,
};
use crate::ibo::{Ibo, INDEX_SIZE};
use crate::texture::{lemma_bind_effect, lemma_unbind_effect, Texture};
use crate::vao::{lemma_attribute_effect, Attribute, Vao};
use crate::vbo::Vbo;
use crate::vertex::{flatten, lemma_flatten_index, Vertex, VERTEX_STRIDE};

verus! {

/// The four attributes of a [`Vertex`]: position, normal and colour with three
/// floats each and texture coordinates with two, at bytes 0, 12, 24 and 36,
/// for shader inputs 0 to 3.
pub open spec fn vertex_attributes() -> Seq<Attribute> {
    seq![
        Attribute { slot: 0, components: 3, kind: ComponentType::Float, offset: 0 },
        Attribute { slot: 1, components: 3, kind: ComponentType::Float, offset: 12 },
        Attribute { slot: 2, components: 3, kind: ComponentType::Float, offset: 24 },
        Attribute { slot: 3, components: 2, kind: ComponentType::Float, offset: 36 },
    ]
}

/// The device calls that put a mesh on the device: the upload of the vertex
/// records, the upload of the indices, the four [`vertex_attributes`], and the
/// attachment of the two buffers to the vertex array.
pub open spec fn creation_trace(
    vertex_array: u32,
    vertex_buffer: u32,
    index_buffer: u32,
    vertices: Seq<Vertex>,
    indices: Seq<u32>,
) -> Seq<CommandView> {
    seq![
        CommandView::BufferData {
            buffer: vertex_buffer,
            byte_len: vertices.len() * VERTEX_STRIDE,
            words: flatten(vertices),
        },
        CommandView::BufferData {
            buffer: index_buffer,
            byte_len: indices.len() * INDEX_SIZE,
            words: indices,
        },
    ] + vertex_attributes()[0].trace(vertex_array) + vertex_attributes()[1].trace(vertex_array)
        + vertex_attributes()[2].trace(vertex_array) + vertex_attributes()[3].trace(vertex_array)
        + seq![
        CommandView::VertexBuffer {
            array: vertex_array,
            binding: 0,
            buffer: vertex_buffer,
            start: 0,
            stride: VERTEX_STRIDE as int,
        },
        CommandView::ElementBuffer { array: vertex_array, buffer: index_buffer },
    ]
}

/// The device calls that bind `textures`, first to last.
pub open spec fn bind_all(textures: Seq<Texture>) -> Seq<CommandView>
    decreases textures.len(),
{
    if textures.len() == 0 {
        Seq::empty()
    } else {
        bind_all(textures.drop_last()) + textures.last().bind_trace()
    }
}

/// The device calls that unbind `textures`, first to last.
pub open spec fn unbind_all(textures: Seq<Texture>) -> Seq<CommandView>
    decreases textures.len(),
{
    if textures.len() == 0 {
        Seq::empty()
    } else {
        unbind_all(textures.drop_last()) + textures.last().unbind_trace()
    }
}

/// The device calls that release `textures`, first to last.
pub open spec fn delete_all(textures: Seq<Texture>) -> Seq<CommandView>
    decreases textures.len(),
{
    if textures.len() == 0 {
        Seq::empty()
    } else {
        delete_all(textures.drop_last()).push(
            CommandView::DeleteTexture { texture: textures.last().handle() },
        )
    }
}

/// Owner of a vertex array, the two buffers behind it, and the textures to
/// draw with.
///
/// The geometry is fixed at creation. Everything is released together by
/// [`Mesh::destroy`], which consumes the owner.
#[derive(Debug)]
pub struct Mesh {
    vao: Vao,
    ibo: Ibo,
    vbo: Vbo,
    textures: Vec<Texture>,
}

impl Mesh {
    #[verifier::type_invariant]
    spec fn well_formed(self) -> bool {
        &&& self.vao.attributes() == vertex_attributes()
        &&& self.vao.vertex_buffer() == Some(self.vbo.handle())
        &&& self.vao.stride() == Some(VERTEX_STRIDE as int)
        &&& self.vao.index_buffer() == Some(self.ibo.handle())
    }

    /// The device's name for the vertex array.
    pub closed spec fn vertex_array(&self) -> u32 {
        self.vao.handle()
    }

    /// The device's name for the buffer of vertex records.
    pub closed spec fn vertex_buffer(&self) -> u32 {
        self.vbo.handle()
    }

    /// The device's name for the buffer of indices.
    pub closed spec fn index_buffer(&self) -> u32 {
        self.ibo.handle()
    }

    /// Number of indices that a draw covers.
    pub closed spec fn index_count(&self) -> nat {
        self.ibo.index_count()
    }

    /// The textures, in the order in which a draw binds them.
    pub closed spec fn textures(&self) -> Seq<Texture> {
        self.textures@
    }

    /// The device calls of [`Mesh::draw`]: the vertex array is bound, every
    /// texture is bound, all indices are drawn as triangles, every texture is
    /// unbound, the vertex array is unbound.
    pub open spec fn draw_trace(&self) -> Seq<CommandView> {
        seq![CommandView::BindVertexArray { array: self.vertex_array() }] + bind_all(
            self.textures(),
        ) + seq![CommandView::DrawIndexedTriangles { count: self.index_count() as int }]
            + unbind_all(self.textures()) + seq![CommandView::BindVertexArray { array: 0 }]
    }

    /// The device calls of [`Mesh::destroy`]: the vertex array goes first,
    /// then the index buffer, the vertex buffer, and the textures in order.
    pub open spec fn destroy_trace(&self) -> Seq<CommandView> {
        seq![
            CommandView::DeleteVertexArray { array: self.vertex_array() },
            CommandView::DeleteBuffer { buffer: self.index_buffer() },
            CommandView::DeleteBuffer { buffer: self.vertex_buffer() },
        ] + delete_all(self.textures())
    }

    /// Whether geometry of these sizes can be put on the device: the number of
    /// indices fits the signed 32-bit integer that a draw call takes, and the
    /// byte sizes of both uploads fit a signed pointer-sized integer.
    pub open spec fn admits(vertex_count: nat, index_count: nat) -> bool {
        &&& vertex_count * VERTEX_STRIDE <= isize::MAX
        &&& index_count <= i32::MAX
        &&& index_count * INDEX_SIZE <= isize::MAX
    }

    /// Tells whether [`Mesh::new`] may be called with this many vertices and
    /// indices.
    pub fn accepts(vertex_count: usize, index_count: usize) -> (ok: bool)
        ensures
            ok == Self::admits(vertex_count as nat, index_count as nat),
    {
        vertex_count <= isize::MAX as usize / VERTEX_STRIDE && index_count <= 0x7fff_ffff
            && index_count <= isize::MAX as usize / INDEX_SIZE
    }

    /// Takes ownership of the unused vertex array and buffers and of
    /// `textures`, and records the upload of `vertices` and `indices` and the
    /// configuration of the vertex array for [`Vertex`] records.
    pub fn new(
        out: &mut CommandBuffer,
        vertex_array: u32,
        vertex_buffer: u32,
        index_buffer: u32,
        vertices: Vec<Vertex>,
        indices: Vec<u32>,
        textures: Vec<Texture>,
    ) -> (mesh: Mesh)
        requires
            Self::admits(vertices@.len(), indices@.len()),
        ensures
            mesh.vertex_array() == vertex_array,
            mesh.vertex_buffer() == vertex_buffer,
            mesh.index_buffer() == index_buffer,
            mesh.index_count() == indices@.len(),
            mesh.textures() == textures@,
            final(out)@ == old(out)@ + creation_trace(
                vertex_array,
                vertex_buffer,
                index_buffer,
                vertices@,
                indices@,
            ),
    {
        let vbo = Vbo::new(out, vertex_buffer, vertices.as_slice());
        let ibo = Ibo::new(out, index_buffer, indices.as_slice());

        let vao = Vao::new(vertex_array);
        proof {
            reveal_with_fuel(crate::vao::footprint, 5);
        }
        let vao = vao.with_layout(out, 0, 3, ComponentType::Float, 0);
        assert(vao.attributes() =~= vertex_attributes().take(1));
        let vao = vao.with_layout(out, 1, 3, ComponentType::Float, 12);
        assert(vao.attributes() =~= vertex_attributes().take(2));
        let vao = vao.with_layout(out, 2, 3, ComponentType::Float, 24);
        assert(vao.attributes() =~= vertex_attributes().take(3));
        let vao = vao.with_layout(out, 3, 2, ComponentType::Float, 36);
        assert(vao.attributes() =~= vertex_attributes());
        let vao = vao.with_vbo(out, &vbo, VERTEX_STRIDE as i32);
        let vao = vao.with_ibo(out, &ibo);

        assert(out@ =~= old(out)@ + creation_trace(
            vertex_array,
            vertex_buffer,
            index_buffer,
            vertices@,
            indices@,
        ));
        Mesh { vao, ibo, vbo, textures }
    }

    /// Records one draw of the whole mesh.
    pub fn draw(&self, out: &mut CommandBuffer)
        ensures
            final(out)@ == old(out)@ + self.draw_trace(),
    {
        self.vao.bind(out);
        let ghost bound = out@;

        let mut i: usize = 0;
        while i < self.textures.len()
            invariant
                i <= self.textures@.len(),
                out@ == bound + bind_all(self.textures@.take(i as int)),
            decreases self.textures@.len() - i,
        {
            self.textures[i].bind(out);
            proof {
                let next = self.textures@.take(i + 1);
                assert(next.drop_last() =~= self.textures@.take(i as int));
                assert(out@ =~= bound + bind_all(next));
            }
            i += 1;
        }
        assert(self.textures@.take(i as int) =~= self.textures@);

        out.push(Command::DrawIndexedTriangles { count: self.ibo.count() });
        let ghost drawn = out@;

        let mut i: usize = 0;
        while i < self.textures.len()
            invariant
                i <= self.textures@.len(),
                out@ == drawn + unbind_all(self.textures@.take(i as int)),
            decreases self.textures@.len() - i,
        {
            self.textures[i].unbind(out);
            proof {
                let next = self.textures@.take(i + 1);
                assert(next.drop_last() =~= self.textures@.take(i as int));
                assert(out@ =~= drawn + unbind_all(next));
            }
            i += 1;
        }
        assert(self.textures@.take(i as int) =~= self.textures@);

        self.vao.unbind(out);
        assert(out@ =~= old(out)@ + self.draw_trace());
    }

    /// Records the release of everything the mesh owns.
    pub fn destroy(self, out: &mut CommandBuffer)
        ensures
            final(out)@ == old(out)@ + self.destroy_trace(),
    {
        let Mesh { vao, ibo, vbo, textures } = self;
        vao.destroy(out);
        ibo.destroy(out);
        vbo.destroy(out);
        let ghost released = out@;

        let mut i: usize = 0;
        while i < textures.len()
            invariant
                i <= textures@.len(),
                out@ == released + delete_all(textures@.take(i as int)),
            decreases textures@.len() - i,
        {
            out.push(Command::DeleteTexture { texture: textures[i].id() });
            proof {
                let next = textures@.take(i + 1);
                assert(next.drop_last() =~= textures@.take(i as int));
                assert(out@ =~= released + delete_all(next));
            }
            i += 1;
        }
        assert(textures@.take(i as int) =~= textures@);
        assert(out@ =~= old(out)@ + self.destroy_trace());
    }
}

/// The configuration of a vertex array after a mesh was created on it: the
/// four [`vertex_attributes`] are registered, the vertex buffer is attached to
/// the first binding point with records 44 bytes apart, and the index buffer
/// is attached.
pub open spec fn configured_layout(
    layout: VertexArrayState,
    vertex_buffer: u32,
    index_buffer: u32,
) -> VertexArrayState {
    let described = vertex_attributes()[3].applied_to(
        vertex_attributes()[2].applied_to(
            vertex_attributes()[1].applied_to(vertex_attributes()[0].applied_to(layout)),
        ),
    );
    VertexArrayState {
        vertex_buffers: described.vertex_buffers.insert(
            0,
            BufferBinding { buffer: vertex_buffer, start: 0, stride: VERTEX_STRIDE as int },
        ),
        element_buffer: index_buffer,
        ..described
    }
}

/// The creation of a mesh fills its two buffers, configures its vertex array
/// as [`configured_layout`] says, and changes nothing else: what is bound
/// stays bound and nothing is drawn.
pub proof fn lemma_creation_effect(
    vertex_array: u32,
    vertex_buffer: u32,
    index_buffer: u32,
    vertices: Seq<Vertex>,
    indices: Seq<u32>,
    before: DeviceState,
)
    ensures
        before.run(
            creation_trace(vertex_array, vertex_buffer, index_buffer, vertices, indices),
        ) == (DeviceState {
            buffers: before.buffers.insert(vertex_buffer, flatten(vertices)).insert(
                index_buffer,
                indices,
            ),
            vertex_arrays: before.vertex_arrays.insert(
                vertex_array,
                configured_layout(before.layout(vertex_array), vertex_buffer, index_buffer),
            ),
            ..before
        }),
{
    let trace = creation_trace(vertex_array, vertex_buffer, index_buffer, vertices, indices);
    let uploads = seq![trace[0], trace[1]];
    let attach = seq![trace[14], trace[15]];
    let a0 = vertex_attributes()[0];
    let a1 = vertex_attributes()[1];
    let a2 = vertex_attributes()[2];
    let a3 = vertex_attributes()[3];
    assert(trace =~= uploads + a0.trace(vertex_array) + a1.trace(vertex_array) + a2.trace(
        vertex_array,
    ) + a3.trace(vertex_array) + attach);

    let s0 = before.run(uploads);
    let s1 = s0.run(a0.trace(vertex_array));
    let s2 = s1.run(a1.trace(vertex_array));
    let s3 = s2.run(a2.trace(vertex_array));
    let s4 = s3.run(a3.trace(vertex_array));
    let s5 = s4.run(attach);
    lemma_run_concat(before, uploads, a0.trace(vertex_array));
    lemma_run_concat(before, uploads + a0.trace(vertex_array), a1.trace(vertex_array));
    lemma_run_concat(
        before,
        uploads + a0.trace(vertex_array) + a1.trace(vertex_array),
        a2.trace(vertex_array),
    );
    lemma_run_concat(
        before,
        uploads + a0.trace(vertex_array) + a1.trace(vertex_array) + a2.trace(vertex_array),
        a3.trace(vertex_array),
    );
    lemma_run_concat(
        before,
        uploads + a0.trace(vertex_array) + a1.trace(vertex_array) + a2.trace(vertex_array)
            + a3.trace(vertex_array),
        attach,
    );
    assert(before.run(trace) == s5);

    assert(s0 == before.step(trace[0]).step(trace[1])) by {
        reveal_with_fuel(DeviceState::run, 3);
    }
    lemma_attribute_effect(a0, vertex_array, s0);
    lemma_attribute_effect(a1, vertex_array, s1);
    lemma_attribute_effect(a2, vertex_array, s2);
    lemma_attribute_effect(a3, vertex_array, s3);
    assert(s5 == s4.step(trace[14]).step(trace[15])) by {
        reveal_with_fuel(DeviceState::run, 3);
    }
    assert(s0.layout(vertex_array) == before.layout(vertex_array));
    assert(s5.vertex_arrays =~= before.vertex_arrays.insert(
        vertex_array,
        configured_layout(before.layout(vertex_array), vertex_buffer, index_buffer),
    ));
}

/// Once a mesh is created, the device reads the four attributes of vertex
/// number `index` from the fields of that vertex: input 0 from the position,
/// input 1 from the normal, input 2 from the colour and input 3 from the
/// texture coordinates.
pub proof fn lemma_attributes_read_fields(
    vertex_array: u32,
    vertex_buffer: u32,
    index_buffer: u32,
    vertices: Seq<Vertex>,
    indices: Seq<u32>,
    before: DeviceState,
    index: int,
)
    requires
        vertex_buffer != index_buffer,
        0 <= index < vertices.len(),
    ensures
        ({
            let after = before.run(
                creation_trace(vertex_array, vertex_buffer, index_buffer, vertices, indices),
            );
            &&& after.fetch(vertex_array, 0, index) == vertices[index].position@
            &&& after.fetch(vertex_array, 1, index) == vertices[index].normals@
            &&& after.fetch(vertex_array, 2, index) == vertices[index].color@
            &&& after.fetch(vertex_array, 3, index) == vertices[index].texture_coordinates@
        }),
{
    let after = before.run(
        creation_trace(vertex_array, vertex_buffer, index_buffer, vertices, indices),
    );
    lemma_creation_effect(vertex_array, vertex_buffer, index_buffer, vertices, indices, before);
    let words = flatten(vertices);
    let vertex = vertices[index];
    let base = 11 * index;
    assert forall|k: int| 0 <= k < 11 implies #[trigger] words[base + k] == vertex.words()[k] by {
        lemma_flatten_index(vertices, index, k);
    }
    lemma_flatten_index(vertices, index, 0);
    assert(after.fetch(vertex_array, 0, index) == words.subrange(base, base + 3));
    assert(after.fetch(vertex_array, 1, index) == words.subrange(base + 3, base + 6));
    assert(after.fetch(vertex_array, 2, index) == words.subrange(base + 6, base + 9));
    assert(after.fetch(vertex_array, 3, index) == words.subrange(base + 9, base + 11));
    assert forall|k: int| 0 <= k < 3 implies words.subrange(base, base + 3)[k]
        == vertex.position@[k] by {
        assert(words[base + k] == vertex.words()[k]);
    }
    assert forall|k: int| 0 <= k < 3 implies words.subrange(base + 3, base + 6)[k]
        == vertex.normals@[k] by {
        assert(words[base + (3 + k)] == vertex.words()[3 + k]);
    }
    assert forall|k: int| 0 <= k < 3 implies words.subrange(base + 6, base + 9)[k]
        == vertex.color@[k] by {
        assert(words[base + (6 + k)] == vertex.words()[6 + k]);
    }
    assert forall|k: int| 0 <= k < 2 implies words.subrange(base + 9, base + 11)[k]
        == vertex.texture_coordinates@[k] by {
        assert(words[base + (9 + k)] == vertex.words()[9 + k]);
    }
    assert(after.fetch(vertex_array, 0, index) =~= vertex.position@);
    assert(after.fetch(vertex_array, 1, index) =~= vertex.normals@);
    assert(after.fetch(vertex_array, 2, index) =~= vertex.color@);
    assert(after.fetch(vertex_array, 3, index) =~= vertex.texture_coordinates@);
}

/// Binding textures changes only which unit is active and what the units
/// have bound.
pub proof fn lemma_bind_all_frame(textures: Seq<Texture>, before: DeviceState)
    ensures
        ({
            let after = before.run(bind_all(textures));
            after == (DeviceState {
                active_unit: after.active_unit,
                bound_textures: after.bound_textures,
                ..before
            })
        }),
    decreases textures.len(),
{
    if textures.len() > 0 {
        let earlier = textures.drop_last();
        lemma_bind_all_frame(earlier, before);
        lemma_run_concat(before, bind_all(earlier), textures.last().bind_trace());
        lemma_bind_effect(textures.last(), before.run(bind_all(earlier)));
    }
}

/// After textures are bound in order, each is bound to the unit of its kind,
/// unless a later one of the same kind took its place.
pub proof fn lemma_bind_all_binds(textures: Seq<Texture>, before: DeviceState, i: int)
    requires
        0 <= i < textures.len(),
        forall|j: int| i < j < textures.len() ==> (#[trigger] textures[j]).spec_kind()
            != textures[i].spec_kind(),
    ensures
        before.run(bind_all(textures)).texture_at(textures[i].spec_kind().spec_unit())
            == textures[i].handle(),
    decreases textures.len(),
{
    let earlier = textures.drop_last();
    let last = textures.last();
    lemma_run_concat(before, bind_all(earlier), last.bind_trace());
    lemma_bind_effect(last, before.run(bind_all(earlier)));
    if i < textures.len() - 1 {
        lemma_bind_all_binds(earlier, before, i);
        assert(textures[textures.len() - 1].spec_kind() != textures[i].spec_kind());
    }
}

/// Unbinding textures clears the 2D binding of the unit that is active, if
/// there is any texture to unbind, and changes nothing else.
pub proof fn lemma_unbind_all_effect(textures: Seq<Texture>, before: DeviceState)
    ensures
        before.run(unbind_all(textures)) == (DeviceState {
            bound_textures: if textures.len() > 0 {
                before.bound_textures.insert(before.active_unit, 0)
            } else {
                before.bound_textures
            },
            ..before
        }),
    decreases textures.len(),
{
    if textures.len() > 0 {
        let earlier = textures.drop_last();
        lemma_unbind_all_effect(earlier, before);
        lemma_run_concat(before, unbind_all(earlier), textures.last().unbind_trace());
        lemma_unbind_effect(textures.last(), before.run(unbind_all(earlier)));
        assert(before.bound_textures.insert(before.active_unit, 0).insert(before.active_unit, 0)
            =~= before.bound_textures.insert(before.active_unit, 0));
    }
}

/// A draw of a mesh makes exactly one draw call. The call covers all indices
/// of the mesh and happens with the mesh's vertex array active, configured as
/// it was before the draw, with the program that was active before, and with
/// the mesh's textures bound. Afterwards no vertex array is active, and the
/// unit that the last texture went to, if there is a texture, has none bound.
/// The draw changes nothing else.
pub proof fn lemma_draw_effect(mesh: Mesh, before: DeviceState)
    ensures
        ({
            let bound = (DeviceState { vertex_array: mesh.vertex_array(), ..before }).run(
                bind_all(mesh.textures()),
            );
            let after = before.run(mesh.draw_trace());
            &&& after.draws == before.draws.push(
                Draw {
                    count: mesh.index_count() as int,
                    vertex_array: mesh.vertex_array(),
                    layout: before.layout(mesh.vertex_array()),
                    program: before.program,
                    textures: bound.bound_textures,
                },
            )
            &&& after.vertex_array == 0
            &&& after.active_unit == bound.active_unit
            &&& after.bound_textures == if mesh.textures().len() > 0 {
                bound.bound_textures.insert(bound.active_unit, 0)
            } else {
                before.bound_textures
            }
            &&& after.program == before.program
            &&& after.vertex_arrays == before.vertex_arrays
            &&& after.buffers == before.buffers
            &&& after.textures == before.textures
            &&& after.uniforms == before.uniforms
        }),
{
    let textures = mesh.textures();
    let bind = seq![CommandView::BindVertexArray { array: mesh.vertex_array() }];
    let draw = seq![CommandView::DrawIndexedTriangles { count: mesh.index_count() as int }];
    let unbind = seq![CommandView::BindVertexArray { array: 0 }];
    let s1 = before.run(bind);
    let s2 = s1.run(bind_all(textures));
    let s3 = s2.run(draw);
    let s4 = s3.run(unbind_all(textures));
    let s5 = s4.run(unbind);
    lemma_run_concat(before, bind, bind_all(textures));
    lemma_run_concat(before, bind + bind_all(textures), draw);
    lemma_run_concat(before, bind + bind_all(textures) + draw, unbind_all(textures));
    lemma_run_concat(before, bind + bind_all(textures) + draw + unbind_all(textures), unbind);
    assert(before.run(mesh.draw_trace()) == s5);

    assert(s1 == before.step(bind[0])) by {
        reveal_with_fuel(DeviceState::run, 2);
    }
    lemma_bind_all_frame(textures, s1);
    assert(s3 == s2.step(draw[0])) by {
        reveal_with_fuel(DeviceState::run, 2);
    }
    lemma_unbind_all_effect(textures, s3);
    assert(s5 == s4.step(unbind[0])) by {
        reveal_with_fuel(DeviceState::run, 2);
    }
    if textures.len() == 0 {
        assert(s2 == s1) by {
            reveal_with_fuel(DeviceState::run, 1);
        }
    }
}

/// A mesh that was just created draws from its own buffers: at the draw
/// call, its vertex array is active, its vertex buffer is attached to the
/// first binding point with records 44 bytes apart and holds the vertices,
/// and its index buffer is attached and holds the indices. It is the only draw
/// call, it covers all indices, and no vertex array is active afterwards.
pub proof fn lemma_new_mesh_draws_from_its_buffers(
    mesh: Mesh,
    vertices: Seq<Vertex>,
    indices: Seq<u32>,
    before: DeviceState,
)
    requires
        mesh.vertex_buffer() != mesh.index_buffer(),
        mesh.index_count() == indices.len(),
    ensures
        ({
            let after = before.run(
                creation_trace(
                    mesh.vertex_array(),
                    mesh.vertex_buffer(),
                    mesh.index_buffer(),
                    vertices,
                    indices,
                ) + mesh.draw_trace(),
            );
            let call = after.draws.last();
            &&& after.draws.len() == before.draws.len() + 1
            &&& after.draws.drop_last() == before.draws
            &&& call.count == indices.len()
            &&& call.vertex_array == mesh.vertex_array()
            &&& call.layout.vertex_buffers[0] == BufferBinding {
                buffer: mesh.vertex_buffer(),
                start: 0,
                stride: VERTEX_STRIDE as int,
            }
            &&& call.layout.element_buffer == mesh.index_buffer()
            &&& after.buffers[mesh.vertex_buffer()] == flatten(vertices)
            &&& after.buffers[mesh.index_buffer()] == indices
            &&& after.vertex_array == 0
        }),
{
    let creation = creation_trace(
        mesh.vertex_array(),
        mesh.vertex_buffer(),
        mesh.index_buffer(),
        vertices,
        indices,
    );
    let created = before.run(creation);
    lemma_run_concat(before, creation, mesh.draw_trace());
    lemma_creation_effect(
        mesh.vertex_array(),
        mesh.vertex_buffer(),
        mesh.index_buffer(),
        vertices,
        indices,
        before,
    );
    lemma_draw_effect(mesh, created);
    let after = created.run(mesh.draw_trace());
    assert(after.draws.drop_last() =~= before.draws);
}

/// Whether `texture` is the name of one of `textures`.
pub open spec fn names(textures: Seq<Texture>, texture: u32) -> bool {
    exists|i: int| 0 <= i < textures.len() && (#[trigger] textures[i]).handle() == texture
}

/// The names of `textures`.
pub open spec fn named(textures: Seq<Texture>) -> Set<u32> {
    Set::new(|texture: u32| names(textures, texture))
}

/// After textures are released, the device holds none of them, no unit has
/// one of them bound, and every other texture is as it was. Nothing but
/// textures and their bindings changes.
pub proof fn lemma_delete_all_effect(textures: Seq<Texture>, before: DeviceState)
    ensures
        ({
            let after = before.run(delete_all(textures));
            &&& after.textures == before.textures.remove_keys(named(textures))
            &&& forall|unit: u32|
                after.texture_at(unit) == if names(textures, before.texture_at(unit)) {
                    0
                } else {
                    before.texture_at(unit)
                }
            &&& after == (DeviceState {
                textures: after.textures,
                bound_textures: after.bound_textures,
                ..before
            })
        }),
    decreases textures.len(),
{
    let after = before.run(delete_all(textures));
    if textures.len() == 0 {
        assert(forall|t: u32| !names(textures, t));
        assert(after == before);
        assert(after.textures =~= before.textures.remove_keys(named(textures)));
    } else {
        let earlier = textures.drop_last();
        let last = textures.last();
        let middle = before.run(delete_all(earlier));
        lemma_delete_all_effect(earlier, before);
        lemma_run_push(
            before,
            delete_all(earlier),
            CommandView::DeleteTexture { texture: last.handle() },
        );
        assert(after == middle.step(CommandView::DeleteTexture { texture: last.handle() }));
        assert forall|t: u32| names(textures, t) <==> names(earlier, t) || t
            == last.handle() by {
            if names(textures, t) {
                let i = choose|i: int| 0 <= i < textures.len() && (#[trigger] textures[i]).handle()
                    == t;
                if i < earlier.len() {
                    assert(earlier[i].handle() == t);
                }
            }
            if names(earlier, t) {
                let i = choose|i: int| 0 <= i < earlier.len() && (#[trigger] earlier[i]).handle()
                    == t;
                assert(textures[i].handle() == t);
            }
            if t == last.handle() {
                assert(textures[textures.len() - 1].handle() == t);
            }
        }
        assert forall|unit: u32|
            after.texture_at(unit) == if names(textures, before.texture_at(unit)) {
                0
            } else {
                before.texture_at(unit)
            } by {
            assert(middle.texture_at(unit) == if names(earlier, before.texture_at(unit)) {
                0
            } else {
                before.texture_at(unit)
            });
            assert(names(textures, middle.texture_at(unit)) <==> names(
                earlier,
                middle.texture_at(unit),
            ) || middle.texture_at(unit) == last.handle());
            assert(names(textures, before.texture_at(unit)) <==> names(
                earlier,
                before.texture_at(unit),
            ) || before.texture_at(unit) == last.handle());
        }
        assert(after.textures =~= before.textures.remove_keys(named(textures))) by {
            assert forall|t: u32| named(textures).contains(t) <==> named(earlier).contains(t)
                || t == last.handle() by {
                assert(names(textures, t) <==> names(earlier, t) || t == last.handle());
            }
        }
    }
}

/// After a mesh is destroyed, the device holds nothing of it: not its vertex
/// array, not its buffers, not its textures; its vertex array is not active
/// and none of its textures is bound. Programs, uniforms and past draws are
/// untouched.
pub proof fn lemma_destroy_effect(mesh: Mesh, before: DeviceState)
    ensures
        ({
            let after = before.run(mesh.destroy_trace());
            &&& !after.vertex_arrays.contains_key(mesh.vertex_array())
            &&& !after.buffers.contains_key(mesh.vertex_buffer())
            &&& !after.buffers.contains_key(mesh.index_buffer())
            &&& forall|t: u32| names(mesh.textures(), t) ==> !after.textures.contains_key(t)
            &&& forall|unit: u32|
                after.texture_at(unit) != 0 ==> !names(mesh.textures(), after.texture_at(unit))
            &&& after.vertex_array == mesh.vertex_array() ==> mesh.vertex_array() == 0
            &&& after.program == before.program
            &&& after.uniforms == before.uniforms
            &&& after.draws == before.draws
        }),
{
    let head = seq![
        CommandView::DeleteVertexArray { array: mesh.vertex_array() },
        CommandView::DeleteBuffer { buffer: mesh.index_buffer() },
        CommandView::DeleteBuffer { buffer: mesh.vertex_buffer() },
    ];
    let released = before.run(head);
    lemma_run_concat(before, head, delete_all(mesh.textures()));
    assert(released == before.step(head[0]).step(head[1]).step(head[2])) by {
        reveal_with_fuel(DeviceState::run, 4);
    }
    lemma_delete_all_effect(mesh.textures(), released);
}

} // verus!
