//! A mathematical model of the part of the graphics device that this crate
//! relies on: what is bound, how vertex arrays are configured, what buffers
//! and textures hold, and which draws were made.
//!
//! The model exists only in specifications. It gives the traces that the
//! crate records a meaning, so that properties such as "the draw happens with
//! this mesh's vertex array bound and none is bound afterwards" can be stated
//! and proved. Shader compilation and linking are not modelled: their commands
//! leave the state as it is.

use vstd::prelude::*;
use crate::command::{CommandView, ComponentType, TextureParameter, TextureSetting};

verus! {

/// How one attribute slot reads its values from a vertex record.
pub struct AttributeFormat {
    pub components: int,
    pub kind: ComponentType,
    pub offset: int,
}

/// A buffer attached to a binding point of a vertex array.
pub struct BufferBinding {
    pub buffer: u32,
    pub start: int,
    pub stride: int,
}

/// Configuration of one vertex array.
pub struct VertexArrayState {
    /// Format of each described attribute slot.
    pub formats: Map<u32, AttributeFormat>,
    /// Binding point that each attribute slot reads from.
    pub bindings: Map<u32, u32>,
    /// Attribute slots that are switched on.
    pub enabled: Set<u32>,
    /// Buffer attached to each binding point.
    pub vertex_buffers: Map<u32, BufferBinding>,
    /// Element-array buffer, `0` for none.
    pub element_buffer: u32,
}

impl VertexArrayState {
    /// A vertex array that nothing was done to yet.
    pub open spec fn fresh() -> VertexArrayState {
        VertexArrayState {
            formats: Map::empty(),
            bindings: Map::empty(),
            enabled: Set::empty(),
            vertex_buffers: Map::empty(),
            element_buffer: 0,
        }
    }
}

/// Base level of a 2D texture: RGBA8 texels, rows in upload order.
pub struct TextureImage {
    pub width: int,
    pub height: int,
    pub pixels: Seq<u8>,
}

/// Contents and sampling state of one texture object.
pub struct TextureState {
    pub image: Option<TextureImage>,
    pub settings: Map<TextureParameter, TextureSetting>,
    /// Whether the smaller levels were derived from the current base level.
    pub mipmapped: bool,
}

impl TextureState {
    /// A texture object that nothing was done to yet.
    pub open spec fn fresh() -> TextureState {
        TextureState { image: None, settings: Map::empty(), mipmapped: false }
    }
}

/// Value stored in a uniform.
pub enum UniformValue {
    Int(i32),
    Mat4(Seq<u32>),
    Vec3(Seq<u32>),
}

/// What the device had bound at the moment of one draw call.
pub struct Draw {
    /// Number of indices drawn.
    pub count: int,
    /// The active vertex array.
    pub vertex_array: u32,
    /// Configuration of the active vertex array.
    pub layout: VertexArrayState,
    /// The active program.
    pub program: u32,
    /// Texture bound to the 2D target of each unit.
    pub textures: Map<u32, u32>,
}

/// The modelled state of the device.
pub struct DeviceState {
    /// The active vertex array, `0` for none.
    pub vertex_array: u32,
    /// The active program, `0` for none.
    pub program: u32,
    /// The active texture unit.
    pub active_unit: u32,
    /// Texture bound to the 2D target of each unit; a unit without an entry
    /// has none bound.
    pub bound_textures: Map<u32, u32>,
    /// Configuration of each vertex array that was configured.
    pub vertex_arrays: Map<u32, VertexArrayState>,
    /// Contents of each buffer that was filled.
    pub buffers: Map<u32, Seq<u32>>,
    /// State of each texture object that was touched.
    pub textures: Map<u32, TextureState>,
    /// Uniform values, by program and location.
    pub uniforms: Map<(u32, i32), UniformValue>,
    /// Every draw call so far, oldest first.
    pub draws: Seq<Draw>,
}

impl DeviceState {
    /// Configuration of vertex array `array`.
    pub open spec fn layout(self, array: u32) -> VertexArrayState {
        if self.vertex_arrays.contains_key(array) {
            self.vertex_arrays[array]
        } else {
            VertexArrayState::fresh()
        }
    }

    /// Texture bound to the 2D target of `unit`, `0` for none.
    pub open spec fn texture_at(self, unit: u32) -> u32 {
        if self.bound_textures.contains_key(unit) {
            self.bound_textures[unit]
        } else {
            0
        }
    }

    /// State of texture object `texture`.
    pub open spec fn texture(self, texture: u32) -> TextureState {
        if self.textures.contains_key(texture) {
            self.textures[texture]
        } else {
            TextureState::fresh()
        }
    }

    /// The words from which the device reads attribute `slot` of vertex
    /// number `index` when it draws through vertex array `array`. The model
    /// covers attributes of four-byte components that start at a multiple of
    /// four bytes.
    pub open spec fn fetch(self, array: u32, slot: u32, index: int) -> Seq<u32> {
        let layout = self.layout(array);
        let format = layout.formats[slot];
        let source = layout.vertex_buffers[layout.bindings[slot]];
        let first = (source.start + index * source.stride + format.offset) / 4;
        self.buffers[source.buffer].subrange(first, first + format.components)
    }

    /// The state with vertex array `array` reconfigured to `layout`.
    pub open spec fn with_layout(self, array: u32, layout: VertexArrayState) -> DeviceState {
        DeviceState { vertex_arrays: self.vertex_arrays.insert(array, layout), ..self }
    }

    /// The state with the texture bound to the active unit replaced by `state`.
    pub open spec fn with_active_texture(self, state: TextureState) -> DeviceState {
        DeviceState {
            textures: self.textures.insert(self.texture_at(self.active_unit), state),
            ..self
        }
    }

    /// The state after the device has carried out `command`.
    pub open spec fn step(self, command: CommandView) -> DeviceState {
        match command {
            CommandView::BufferData { buffer, byte_len, words } => DeviceState {
                buffers: self.buffers.insert(buffer, words),
                ..self
            },
            CommandView::BindElementBuffer { buffer } => self.with_layout(
                self.vertex_array,
                VertexArrayState { element_buffer: buffer, ..self.layout(self.vertex_array) },
            ),
            CommandView::DeleteBuffer { buffer } => DeviceState {
                buffers: self.buffers.remove(buffer),
                ..self
            },
            CommandView::BindVertexArray { array } => DeviceState { vertex_array: array, ..self },
            CommandView::AttribFormat { array, slot, components, kind, offset } => self.with_layout(
                array,
                VertexArrayState {
                    formats: self.layout(array).formats.insert(
                        slot,
                        AttributeFormat { components, kind, offset },
                    ),
                    ..self.layout(array)
                },
            ),
            CommandView::AttribBinding { array, slot, binding } => self.with_layout(
                array,
                VertexArrayState {
                    bindings: self.layout(array).bindings.insert(slot, binding),
                    ..self.layout(array)
                },
            ),
            CommandView::EnableAttrib { array, slot } => self.with_layout(
                array,
                VertexArrayState {
                    enabled: self.layout(array).enabled.insert(slot),
                    ..self.layout(array)
                },
            ),
            CommandView::VertexBuffer { array, binding, buffer, start, stride } => self.with_layout(
                array,
                VertexArrayState {
                    vertex_buffers: self.layout(array).vertex_buffers.insert(
                        binding,
                        BufferBinding { buffer, start, stride },
                    ),
                    ..self.layout(array)
                },
            ),
            CommandView::ElementBuffer { array, buffer } => self.with_layout(
                array,
                VertexArrayState { element_buffer: buffer, ..self.layout(array) },
            ),
            CommandView::DeleteVertexArray { array } => DeviceState {
                vertex_arrays: self.vertex_arrays.remove(array),
                vertex_array: if self.vertex_array == array {
                    0
                } else {
                    self.vertex_array
                },
                ..self
            },
            CommandView::DrawIndexedTriangles { count } => DeviceState {
                draws: self.draws.push(
                    Draw {
                        count,
                        vertex_array: self.vertex_array,
                        layout: self.layout(self.vertex_array),
                        program: self.program,
                        textures: self.bound_textures,
                    },
                ),
                ..self
            },
            CommandView::ShaderSource { .. } => self,
            CommandView::CompileShader { .. } => self,
            CommandView::CheckCompileStatus { .. } => self,
            CommandView::AttachShader { .. } => self,
            CommandView::LinkProgram { .. } => self,
            CommandView::CheckLinkStatus { .. } => self,
            CommandView::DeleteShader { .. } => self,
            CommandView::UseProgram { program } => DeviceState { program, ..self },
            CommandView::UniformInt { location, value } => DeviceState {
                uniforms: self.uniforms.insert((self.program, location), UniformValue::Int(value)),
                ..self
            },
            CommandView::UniformMat4 { location, matrix } => DeviceState {
                uniforms: self.uniforms.insert(
                    (self.program, location),
                    UniformValue::Mat4(matrix),
                ),
                ..self
            },
            CommandView::UniformVec3 { location, vector } => DeviceState {
                uniforms: self.uniforms.insert(
                    (self.program, location),
                    UniformValue::Vec3(vector),
                ),
                ..self
            },
            CommandView::DeleteProgram { .. } => self,
            CommandView::ActiveTexture { unit } => DeviceState { active_unit: unit, ..self },
            CommandView::BindTexture2d { texture } => DeviceState {
                bound_textures: self.bound_textures.insert(self.active_unit, texture),
                ..self
            },
            CommandView::TexParameter { parameter, setting } => self.with_active_texture(
                TextureState {
                    settings: self.texture(self.texture_at(self.active_unit)).settings.insert(
                        parameter,
                        setting,
                    ),
                    ..self.texture(self.texture_at(self.active_unit))
                },
            ),
            CommandView::TexImage2d { width, height, pixels } => self.with_active_texture(
                TextureState {
                    image: Some(TextureImage { width, height, pixels }),
                    mipmapped: false,
                    ..self.texture(self.texture_at(self.active_unit))
                },
            ),
            CommandView::GenerateMipmap => self.with_active_texture(
                TextureState {
                    mipmapped: true,
                    ..self.texture(self.texture_at(self.active_unit))
                },
            ),
            CommandView::DeleteTexture { texture } => DeviceState {
                textures: self.textures.remove(texture),
                bound_textures: Map::new(
                    |unit: u32| self.bound_textures.contains_key(unit),
                    |unit: u32|
                        if self.bound_textures[unit] == texture {
                            0
                        } else {
                            self.bound_textures[unit]
                        },
                ),
                ..self
            },
        }
    }

    /// The state after the device has carried out `trace` from first to last.
    pub open spec fn run(self, trace: Seq<CommandView>) -> DeviceState
        decreases trace.len(),
    {
        if trace.len() == 0 {
            self
        } else {
            self.run(trace.drop_last()).step(trace.last())
        }
    }
}

/// Running one more command is one more step.
pub proof fn lemma_run_push(state: DeviceState, trace: Seq<CommandView>, command: CommandView)
    ensures
        state.run(trace.push(command)) == state.run(trace).step(command),
{
    assert(trace.push(command).drop_last() =~= trace);
}

/// Running two traces back to back is running their concatenation.
pub proof fn lemma_run_concat(state: DeviceState, first: Seq<CommandView>, second: Seq<CommandView>)
    ensures
        state.run(first + second) == state.run(first).run(second),
    decreases second.len(),
{
    if second.len() == 0 {
        assert(first + second =~= first);
    } else {
        lemma_run_concat(state, first, second.drop_last());
        assert((first + second).drop_last() =~= first + second.drop_last());
        assert((first + second).last() == second.last());
    }
}

} // verus!
