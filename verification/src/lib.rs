//! A device-independent core for a small real-time renderer.
//!
//! The crate owns the bookkeeping of GPU resources (buffers, vertex layouts,
//! shader programs, textures, meshes) and decides which device calls each
//! operation makes and in which order. It never talks to the device itself:
//! operations append [`Command`]s to a [`CommandBuffer`], and the owner of the
//! graphics context replays them.

pub mod bitmap;
pub mod command;
pub mod device;
pub mod ibo;
pub mod mesh;
pub mod point_light;
pub mod shader;
pub mod texture;
pub mod utils;
pub mod vao;
pub mod vbo;
pub mod vertex;

pub use command::{
    Command, CommandBuffer, CommandView, ComponentType, ShaderStage, TextureParameter,
    TextureSetting,
};
pub use device::DeviceState;
pub use bitmap::Bitmap;
pub use ibo::Ibo;
pub use mesh::Mesh;
pub use point_light::PointLight;
pub use shader::{LocationQuery, Shader};
pub use texture::{Texture, TextureKind};
pub use vao::{Attribute, Vao};
pub use vbo::Vbo;
pub use vertex::{Vertex, VERTEX_STRIDE, VERTEX_WORDS};
