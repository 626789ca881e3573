//! The vocabulary in which this crate talks to the graphics device.
//!
//! Nothing in this crate touches the device. Every operation appends
//! [`Command`]s to a [`CommandBuffer`]; whoever owns the graphics context
//! replays them in order. A command names exactly one device call, so the
//! replay is a plain `match`.
//!
//! Contracts are stated over [`CommandView`], the mathematical image of a
//! command: the same variants, with payloads as sequences.

use vstd::prelude::*;

verus! {

/// Scalar type of one component of a vertex attribute.
#[derive(Debug, Clone, Copy, PartialEq, Eq)]
pub enum ComponentType {
    Byte,
    UnsignedByte,
    Short,
    UnsignedShort,
    Int,
    UnsignedInt,
    Float,
}

impl ComponentType {
    /// Width of one component in bytes.
    pub open spec fn spec_size(self) -> int {
        match self {
            ComponentType::Byte | ComponentType::UnsignedByte => 1,
            ComponentType::Short | ComponentType::UnsignedShort => 2,
            ComponentType::Int | ComponentType::UnsignedInt | ComponentType::Float => 4,
        }
    }

    /// Width of one component in bytes.
    pub fn size(self) -> (bytes: u32)
        ensures
            bytes == self.spec_size(),
    {
        match self {
            ComponentType::Byte | ComponentType::UnsignedByte => 1,
            ComponentType::Short | ComponentType::UnsignedShort => 2,
            ComponentType::Int | ComponentType::UnsignedInt | ComponentType::Float => 4,
        }
    }
}

/// Programmable stage that a shader object is compiled for.
#[derive(Debug, Clone, Copy, PartialEq, Eq)]
pub enum ShaderStage {
    Vertex,
    Fragment,
}

/// Sampling parameter of a 2D texture.
#[derive(Debug, Clone, Copy, PartialEq, Eq)]
pub enum TextureParameter {
    MinFilter,
    MagFilter,
    WrapS,
    WrapT,
}

/// Value that a [`TextureParameter`] can be set to.
#[derive(Debug, Clone, Copy, PartialEq, Eq)]
pub enum TextureSetting {
    Linear,
    LinearMipmapLinear,
    Repeat,
}

/// One call to the graphics device.
///
/// Handles are the device's own object names; `0` is the device's "no object".
/// Floating-point payloads travel as IEEE-754 binary32 bit patterns, one `u32`
/// per number, which is how the device reads them from memory.
#[derive(Debug, PartialEq, Eq)]
pub enum Command {
    /// Allocate `byte_len` bytes of immutable storage for `buffer` and fill it
    /// with `words`.
    BufferData { buffer: u32, byte_len: usize, words: Vec<u32> },
    /// Make `buffer` the element-array buffer of the bound vertex array.
    BindElementBuffer { buffer: u32 },
    /// Release `buffer`.
    DeleteBuffer { buffer: u32 },
    /// Make `array` the active vertex array.
    BindVertexArray { array: u32 },
    /// Describe attribute `slot` of `array`: `components` unnormalised values
    /// of type `kind`, `offset` bytes into the vertex record.
    AttribFormat { array: u32, slot: u32, components: i32, kind: ComponentType, offset: u32 },
    /// Let attribute `slot` of `array` read from buffer binding point `binding`.
    AttribBinding { array: u32, slot: u32, binding: u32 },
    /// Switch attribute `slot` of `array` on.
    EnableAttrib { array: u32, slot: u32 },
    /// Attach `buffer` to binding point `binding` of `array`, records `stride`
    /// bytes apart starting at byte `start`.
    VertexBuffer { array: u32, binding: u32, buffer: u32, start: usize, stride: i32 },
    /// Attach `buffer` to `array` as its element-array buffer.
    ElementBuffer { array: u32, buffer: u32 },
    /// Release `array`.
    DeleteVertexArray { array: u32 },
    /// Draw `count` 32-bit indices, from the start of the element-array buffer
    /// of the bound vertex array, as a triangle list.
    DrawIndexedTriangles { count: i32 },
    /// Replace the source text of `shader`.
    ShaderSource { shader: u32, source: String },
    /// Compile `shader`.
    CompileShader { shader: u32 },
    /// Read back whether `shader` compiled and report a failure for `stage`.
    CheckCompileStatus { shader: u32, stage: ShaderStage },
    /// Attach `shader` to `program`.
    AttachShader { program: u32, shader: u32 },
    /// Link `program`.
    LinkProgram { program: u32 },
    /// Read back whether `program` linked and report a failure.
    CheckLinkStatus { program: u32 },
    /// Release `shader`.
    DeleteShader { shader: u32 },
    /// Make `program` the active program.
    UseProgram { program: u32 },
    /// Store an integer in the uniform at `location` of the active program.
    UniformInt { location: i32, value: i32 },
    /// Store one column-major 4x4 matrix in the uniform at `location`.
    UniformMat4 { location: i32, matrix: [u32; 16] },
    /// Store a 3-vector in the uniform at `location`.
    UniformVec3 { location: i32, vector: [u32; 3] },
    /// Release `program`.
    DeleteProgram { program: u32 },
    /// Make texture unit `unit` the active one.
    ActiveTexture { unit: u32 },
    /// Bind `texture` to the 2D target of the active unit.
    BindTexture2d { texture: u32 },
    /// Set a sampling parameter of the texture bound to the active unit.
    TexParameter { parameter: TextureParameter, setting: TextureSetting },
    /// Give the texture bound to the active unit a base level of
    /// `width` x `height` RGBA8 texels, rows in the order of `pixels`.
    TexImage2d { width: i32, height: i32, pixels: Vec<u8> },
    /// Derive all smaller levels of the texture bound to the active unit.
    GenerateMipmap,
    /// Release `texture`.
    DeleteTexture { texture: u32 },
}

/// Mathematical image of a [`Command`].
pub enum CommandView {
    BufferData { buffer: u32, byte_len: int, words: Seq<u32> },
    BindElementBuffer { buffer: u32 },
    DeleteBuffer { buffer: u32 },
    BindVertexArray { array: u32 },
    AttribFormat { array: u32, slot: u32, components: int, kind: ComponentType, offset: int },
    AttribBinding { array: u32, slot: u32, binding: u32 },
    EnableAttrib { array: u32, slot: u32 },
    VertexBuffer { array: u32, binding: u32, buffer: u32, start: int, stride: int },
    ElementBuffer { array: u32, buffer: u32 },
    DeleteVertexArray { array: u32 },
    DrawIndexedTriangles { count: int },
    ShaderSource { shader: u32, source: Seq<char> },
    CompileShader { shader: u32 },
    CheckCompileStatus { shader: u32, stage: ShaderStage },
    AttachShader { program: u32, shader: u32 },
    LinkProgram { program: u32 },
    CheckLinkStatus { program: u32 },
    DeleteShader { shader: u32 },
    UseProgram { program: u32 },
    UniformInt { location: i32, value: i32 },
    UniformMat4 { location: i32, matrix: Seq<u32> },
    UniformVec3 { location: i32, vector: Seq<u32> },
    DeleteProgram { program: u32 },
    ActiveTexture { unit: u32 },
    BindTexture2d { texture: u32 },
    TexParameter { parameter: TextureParameter, setting: TextureSetting },
    TexImage2d { width: int, height: int, pixels: Seq<u8> },
    GenerateMipmap,
    DeleteTexture { texture: u32 },
}

impl View for Command {
    type V = CommandView;

    open spec fn view(&self) -> CommandView {
        match *self {
            Command::BufferData { buffer, byte_len, words } => CommandView::BufferData {
                buffer,
                byte_len: byte_len as int,
                words: words@,
            },
            Command::BindElementBuffer { buffer } => CommandView::BindElementBuffer { buffer },
            Command::DeleteBuffer { buffer } => CommandView::DeleteBuffer { buffer },
            Command::BindVertexArray { array } => CommandView::BindVertexArray { array },
            Command::AttribFormat { array, slot, components, kind, offset } => {
                CommandView::AttribFormat {
                    array,
                    slot,
                    components: components as int,
                    kind,
                    offset: offset as int,
                }
            },
            Command::AttribBinding { array, slot, binding } => CommandView::AttribBinding {
                array,
                slot,
                binding,
            },
            Command::EnableAttrib { array, slot } => CommandView::EnableAttrib { array, slot },
            Command::VertexBuffer { array, binding, buffer, start, stride } => {
                CommandView::VertexBuffer {
                    array,
                    binding,
                    buffer,
                    start: start as int,
                    stride: stride as int,
                }
            },
            Command::ElementBuffer { array, buffer } => CommandView::ElementBuffer { array, buffer },
            Command::DeleteVertexArray { array } => CommandView::DeleteVertexArray { array },
            Command::DrawIndexedTriangles { count } => CommandView::DrawIndexedTriangles {
                count: count as int,
            },
            Command::ShaderSource { shader, source } => CommandView::ShaderSource {
                shader,
                source: source@,
            },
            Command::CompileShader { shader } => CommandView::CompileShader { shader },
            Command::CheckCompileStatus { shader, stage } => CommandView::CheckCompileStatus {
                shader,
                stage,
            },
            Command::AttachShader { program, shader } => CommandView::AttachShader {
                program,
                shader,
            },
            Command::LinkProgram { program } => CommandView::LinkProgram { program },
            Command::CheckLinkStatus { program } => CommandView::CheckLinkStatus { program },
            Command::DeleteShader { shader } => CommandView::DeleteShader { shader },
            Command::UseProgram { program } => CommandView::UseProgram { program },
            Command::UniformInt { location, value } => CommandView::UniformInt { location, value },
            Command::UniformMat4 { location, matrix } => CommandView::UniformMat4 {
                location,
                matrix: matrix@,
            },
            Command::UniformVec3 { location, vector } => CommandView::UniformVec3 {
                location,
                vector: vector@,
            },
            Command::DeleteProgram { program } => CommandView::DeleteProgram { program },
            Command::ActiveTexture { unit } => CommandView::ActiveTexture { unit },
            Command::BindTexture2d { texture } => CommandView::BindTexture2d { texture },
            Command::TexParameter { parameter, setting } => CommandView::TexParameter {
                parameter,
                setting,
            },
            Command::TexImage2d { width, height, pixels } => CommandView::TexImage2d {
                width: width as int,
                height: height as int,
                pixels: pixels@,
            },
            Command::GenerateMipmap => CommandView::GenerateMipmap,
            Command::DeleteTexture { texture } => CommandView::DeleteTexture { texture },
        }
    }
}

/// The views of a sequence of commands, in order.
pub open spec fn trace_of(commands: Seq<Command>) -> Seq<CommandView> {
    commands.map_values(|c: Command| c@)
}

/// An ordered record of device calls that are still to be made.
pub struct CommandBuffer {
    commands: Vec<Command>,
}

impl View for CommandBuffer {
    type V = Seq<CommandView>;

    closed spec fn view(&self) -> Seq<CommandView> {
        trace_of(self.commands@)
    }
}

impl CommandBuffer {
    /// An empty record.
    pub fn new() -> (out: CommandBuffer)
        ensures
            out@ == Seq::<CommandView>::empty(),
    {
        let out = CommandBuffer { commands: Vec::new() };
        assert(out@ =~= Seq::<CommandView>::empty());
        out
    }

    /// Appends one command.
    pub fn push(&mut self, command: Command)
        ensures
            final(self)@ == old(self)@.push(command@),
    {
        self.commands.push(command);
        assert(self@ =~= old(self)@.push(command@));
    }

    /// Number of recorded commands.
    pub fn len(&self) -> (n: usize)
        ensures
            n == self@.len(),
    {
        self.commands.len()
    }

    /// The recorded commands, oldest first.
    pub fn commands(&self) -> (recorded: &Vec<Command>)
        ensures
            trace_of(recorded@) == self@,
    {
        &self.commands
    }

    /// Hands the recorded commands over and leaves the record empty, ready for
    /// the next batch.
    pub fn take(&mut self) -> (recorded: Vec<Command>)
        ensures
            trace_of(recorded@) == old(self)@,
            final(self)@ == Seq::<CommandView>::empty(),
    {
        let mut recorded: Vec<Command> = Vec::new();
        std::mem::swap(&mut self.commands, &mut recorded);
        assert(self@ =~= Seq::<CommandView>::empty());
        recorded
    }
}

} // verus!
