//! The vertex layout: which bytes of a vertex record feed which shader input,
//! and which buffers the records and the indices come from.

use vstd::prelude::*;
use crate::command::{Command, CommandBuffer, CommandView, ComponentType};
use crate::device::{AttributeFormat, DeviceState, VertexArrayState};
use crate::ibo::Ibo;
use crate::vbo::Vbo;

verus! {

/// Description of one shader input.
#[derive(Debug, Clone, Copy, PartialEq, Eq)]
pub struct Attribute {
    /// Input slot of the shader.
    pub slot: u32,
    /// Number of components, 1 to 4.
    pub components: u32,
    /// Type of each component.
    pub kind: ComponentType,
    /// Byte offset of the first component within the vertex record.
    pub offset: u32,
}

impl Attribute {
    /// Number of bytes of the vertex record that the attribute covers.
    pub open spec fn footprint(self) -> int {
        self.components * self.kind.spec_size()
    }

    /// The device calls that register the attribute with vertex array `array`:
    /// its format, its buffer binding point (always the first) and its
    /// activation.
    pub open spec fn trace(self, array: u32) -> Seq<CommandView> {
        seq![
            CommandView::AttribFormat {
                array,
                slot: self.slot,
                components: self.components as int,
                kind: self.kind,
                offset: self.offset as int,
            },
            CommandView::AttribBinding { array, slot: self.slot, binding: 0 },
            CommandView::EnableAttrib { array, slot: self.slot },
        ]
    }
}

impl Attribute {
    /// The configuration of a vertex array after the attribute has been
    /// registered with it: the slot has the attribute's format, reads from the
    /// first buffer binding point and is switched on.
    pub open spec fn applied_to(self, layout: VertexArrayState) -> VertexArrayState {
        VertexArrayState {
            formats: layout.formats.insert(
                self.slot,
                AttributeFormat {
                    components: self.components as int,
                    kind: self.kind,
                    offset: self.offset as int,
                },
            ),
            bindings: layout.bindings.insert(self.slot, 0),
            enabled: layout.enabled.insert(self.slot),
            ..layout
        }
    }
}

/// Registering an attribute with a vertex array reconfigures that vertex
/// array as [`Attribute::applied_to`] says and changes nothing else.
pub proof fn lemma_attribute_effect(attribute: Attribute, array: u32, before: DeviceState)
    ensures
        before.run(attribute.trace(array)) == before.with_layout(
            array,
            attribute.applied_to(before.layout(array)),
        ),
{
    let trace = attribute.trace(array);
    let s1 = before.step(trace[0]);
    let s2 = s1.step(trace[1]);
    let s3 = s2.step(trace[2]);
    assert(before.run(trace) == s3) by {
        reveal_with_fuel(DeviceState::run, 4);
    }
    assert(s3.vertex_arrays =~= before.vertex_arrays.insert(
        array,
        attribute.applied_to(before.layout(array)),
    ));
}

/// Total number of bytes that `attributes` cover.
pub open spec fn footprint(attributes: Seq<Attribute>) -> int
    decreases attributes.len(),
{
    if attributes.len() == 0 {
        0
    } else {
        footprint(attributes.drop_last()) + attributes.last().footprint()
    }
}

/// Whether one of `attributes` feeds `slot`.
pub open spec fn has_slot(attributes: Seq<Attribute>, slot: u32) -> bool {
    exists|i: int| 0 <= i < attributes.len() && #[trigger] attributes[i].slot == slot
}

/// Whether `attributes` can be read from records `stride` bytes apart: every
/// attribute starts inside the record and their total footprint does not
/// exceed it.
pub open spec fn fits(attributes: Seq<Attribute>, stride: int) -> bool {
    &&& 0 <= stride
    &&& footprint(attributes) <= stride
    &&& forall|i: int| 0 <= i < attributes.len() ==> (#[trigger] attributes[i]).offset < stride
}

/// Whether `attributes`, read from records `stride` bytes apart once a vertex
/// buffer is attached, form a layout that the device accepts: no slot is
/// described twice, every attribute has 1 to 4 components, and the attributes
/// fit the record.
pub open spec fn valid_layout(attributes: Seq<Attribute>, stride: Option<int>) -> bool {
    &&& forall|i: int, j: int|
        0 <= i < j < attributes.len() ==> (#[trigger] attributes[i]).slot != (
        #[trigger] attributes[j]).slot
    &&& forall|i: int|
        0 <= i < attributes.len() ==> 1 <= (#[trigger] attributes[i]).components <= 4
    &&& footprint(attributes) <= i32::MAX
    &&& stride matches Some(bytes) ==> fits(attributes, bytes)
}

/// Appending an attribute adds its footprint.
pub proof fn lemma_footprint_push(attributes: Seq<Attribute>, attribute: Attribute)
    ensures
        footprint(attributes.push(attribute)) == footprint(attributes) + attribute.footprint(),
{
    assert(attributes.push(attribute).drop_last() =~= attributes);
}

/// Owner of one device vertex array, with a record of what it was told.
///
/// A layout is configured once, by [`Vao::with_layout`], [`Vao::with_vbo`] and
/// [`Vao::with_ibo`] in any order, and then only bound and unbound. Every
/// layout that these functions return is a [`valid_layout`].
#[derive(Debug)]
pub struct Vao {
    id: u32,
    attributes: Vec<Attribute>,
    footprint: u32,
    vertex_buffer: Option<(u32, i32)>,
    index_buffer: Option<u32>,
}

impl Vao {
    #[verifier::type_invariant]
    spec fn well_formed(self) -> bool {
        &&& self.footprint == footprint(self.attributes@)
        &&& valid_layout(self.attributes@, self.stride())
    }

    /// The device's name for the vertex array.
    pub closed spec fn handle(&self) -> u32 {
        self.id
    }

    /// The registered attributes, in order of registration.
    pub closed spec fn attributes(&self) -> Seq<Attribute> {
        self.attributes@
    }

    /// Name of the attached vertex buffer, if one is attached.
    pub closed spec fn vertex_buffer(&self) -> Option<u32> {
        match self.vertex_buffer {
            Some(attached) => Some(attached.0),
            None => None,
        }
    }

    /// Distance in bytes between two vertex records, once a vertex buffer is
    /// attached.
    pub closed spec fn stride(&self) -> Option<int> {
        match self.vertex_buffer {
            Some(attached) => Some(attached.1 as int),
            None => None,
        }
    }

    /// Name of the attached index buffer, if one is attached.
    pub closed spec fn index_buffer(&self) -> Option<u32> {
        self.index_buffer
    }

    /// Whether the layout is one that the device accepts.
    pub open spec fn valid(&self) -> bool {
        valid_layout(self.attributes(), self.stride())
    }

    /// Whether an attribute may be registered with these values: the slot
    /// is free, there are 1 to 4 components, the offset can be told to the
    /// device, and the layout stays valid.
    pub open spec fn admits_attribute(
        &self,
        index: u32,
        num_components: u32,
        component_type: ComponentType,
        offset: usize,
    ) -> bool {
        &&& 1 <= num_components <= 4
        &&& offset <= u32::MAX
        &&& !has_slot(self.attributes(), index)
        &&& footprint(self.attributes()) + num_components * component_type.spec_size() <= i32::MAX
        &&& self.stride() matches Some(bytes) ==> {
            &&& offset < bytes
            &&& footprint(self.attributes()) + num_components * component_type.spec_size() <= bytes
        }
    }

    /// Takes ownership of the unused vertex array `id`. The layout is empty
    /// and nothing is attached.
    pub fn new(id: u32) -> (vao: Vao)
        ensures
            vao.handle() == id,
            vao.attributes() == Seq::<Attribute>::empty(),
            vao.vertex_buffer() == None::<u32>,
            vao.stride() == None::<int>,
            vao.index_buffer() == None::<u32>,
            vao.valid(),
    {
        Vao {
            id,
            attributes: Vec::new(),
            footprint: 0,
            vertex_buffer: None,
            index_buffer: None,
        }
    }

    /// Records making this the active vertex array.
    pub fn bind(&self, out: &mut CommandBuffer)
        ensures
            final(out)@ == old(out)@.push(CommandView::BindVertexArray { array: self.handle() }),
    {
        out.push(Command::BindVertexArray { array: self.id });
    }

    /// Records leaving no vertex array active.
    pub fn unbind(&self, out: &mut CommandBuffer)
        ensures
            final(out)@ == old(out)@.push(CommandView::BindVertexArray { array: 0 }),
    {
        out.push(Command::BindVertexArray { array: 0 });
    }

    /// Tells whether [`Vao::with_layout`] may be called with these values.
    pub fn accepts_attribute(
        &self,
        index: u32,
        num_components: u32,
        component_type: ComponentType,
        offset: usize,
    ) -> (ok: bool)
        ensures
            ok == self.admits_attribute(index, num_components, component_type, offset),
    {
        proof {
            use_type_invariant(self);
        }
        if num_components < 1 || num_components > 4 || offset > 0xffff_ffff {
            return false;
        }
        let mut i: usize = 0;
        while i < self.attributes.len()
            invariant
                i <= self.attributes@.len(),
                forall|k: int| 0 <= k < i ==> (#[trigger] self.attributes@[k]).slot != index,
            decreases self.attributes@.len() - i,
        {
            if self.attributes[i].slot == index {
                return false;
            }
            i += 1;
        }
        let added: u32 = num_components * component_type.size();
        let total: u64 = self.footprint as u64 + added as u64;
        if total > 0x7fff_ffff {
            return false;
        }
        match self.vertex_buffer {
            Some(attached) => (offset as u64) < (attached.1 as u64) && total <= attached.1 as u64,
            None => true,
        }
    }

    /// Registers one attribute: shader input `index` reads `num_components`
    /// values of type `component_type`, starting `offset` bytes into each
    /// vertex record of the first buffer binding point.
    pub fn with_layout(
        self,
        out: &mut CommandBuffer,
        index: u32,
        num_components: u32,
        component_type: ComponentType,
        offset: usize,
    ) -> (vao: Vao)
        requires
            self.admits_attribute(index, num_components, component_type, offset),
        ensures
            vao.handle() == self.handle(),
            vao.attributes() == self.attributes().push(
                Attribute {
                    slot: index,
                    components: num_components,
                    kind: component_type,
                    offset: offset as u32,
                },
            ),
            vao.vertex_buffer() == self.vertex_buffer(),
            vao.stride() == self.stride(),
            vao.index_buffer() == self.index_buffer(),
            vao.valid(),
            final(out)@ == old(out)@ + vao.attributes().last().trace(self.handle()),
    {
        proof {
            use_type_invariant(&self);
        }
        let attribute = Attribute {
            slot: index,
            components: num_components,
            kind: component_type,
            offset: offset as u32,
        };
        let added: u32 = num_components * component_type.size();
        let Vao { id, mut attributes, footprint, vertex_buffer, index_buffer } = self;
        proof {
            lemma_footprint_push(attributes@, attribute);
        }
        attributes.push(attribute);
        out.push(
            Command::AttribFormat {
                array: id,
                slot: index,
                components: num_components as i32,
                kind: component_type,
                offset: offset as u32,
            },
        );
        out.push(Command::AttribBinding { array: id, slot: index, binding: 0 });
        out.push(Command::EnableAttrib { array: id, slot: index });
        assert(out@ =~= old(out)@ + attribute.trace(id));
        Vao { id, attributes, footprint: footprint + added, vertex_buffer, index_buffer }
    }

    /// Tells whether [`Vao::with_vbo`] may be called with `stride`: it is not
    /// negative, every registered attribute starts before it, and the
    /// attributes' total footprint does not exceed it.
    pub fn accepts_stride(&self, stride: i32) -> (ok: bool)
        ensures
            ok == fits(self.attributes(), stride as int),
    {
        proof {
            use_type_invariant(self);
        }
        if stride < 0 || self.footprint as u64 > stride as u64 {
            return false;
        }
        let mut i: usize = 0;
        while i < self.attributes.len()
            invariant
                i <= self.attributes@.len(),
                0 <= stride,
                forall|k: int| 0 <= k < i ==> (#[trigger] self.attributes@[k]).offset < stride,
            decreases self.attributes@.len() - i,
        {
            if self.attributes[i].offset as u64 >= stride as u64 {
                return false;
            }
            i += 1;
        }
        true
    }

    /// Attaches `vbo` as the source of vertex records, `stride` bytes apart
    /// from the start of the buffer, at the first buffer binding point.
    pub fn with_vbo(self, out: &mut CommandBuffer, vbo: &Vbo, stride: i32) -> (vao: Vao)
        requires
            fits(self.attributes(), stride as int),
        ensures
            vao.handle() == self.handle(),
            vao.attributes() == self.attributes(),
            vao.vertex_buffer() == Some(vbo.handle()),
            vao.stride() == Some(stride as int),
            vao.index_buffer() == self.index_buffer(),
            vao.valid(),
            final(out)@ == old(out)@.push(
                CommandView::VertexBuffer {
                    array: self.handle(),
                    binding: 0,
                    buffer: vbo.handle(),
                    start: 0,
                    stride: stride as int,
                },
            ),
    {
        proof {
            use_type_invariant(&self);
        }
        let buffer = vbo.id();
        let Vao { id, attributes, footprint, vertex_buffer, index_buffer } = self;
        out.push(Command::VertexBuffer { array: id, binding: 0, buffer, start: 0, stride });
        Vao { id, attributes, footprint, vertex_buffer: Some((buffer, stride)), index_buffer }
    }

    /// Attaches `ibo` as the source of indices.
    pub fn with_ibo(self, out: &mut CommandBuffer, ibo: &Ibo) -> (vao: Vao)
        ensures
            vao.handle() == self.handle(),
            vao.attributes() == self.attributes(),
            vao.vertex_buffer() == self.vertex_buffer(),
            vao.stride() == self.stride(),
            vao.index_buffer() == Some(ibo.handle()),
            vao.valid(),
            final(out)@ == old(out)@.push(
                CommandView::ElementBuffer { array: self.handle(), buffer: ibo.handle() },
            ),
    {
        proof {
            use_type_invariant(&self);
        }
        let buffer = ibo.id();
        let Vao { id, attributes, footprint, vertex_buffer, index_buffer } = self;
        out.push(Command::ElementBuffer { array: id, buffer });
        Vao { id, attributes, footprint, vertex_buffer, index_buffer: Some(buffer) }
    }

    /// Records the release of the vertex array.
    pub fn destroy(self, out: &mut CommandBuffer)
        ensures
            final(out)@ == old(out)@.push(CommandView::DeleteVertexArray { array: self.handle() }),
    {
        out.push(Command::DeleteVertexArray { array: self.id });
    }
}

} // verus!
