//! The texture: one 2D device texture and the role it plays in shading.

use vstd::prelude::*;
use crate::bitmap::{flip_rows, Bitmap};
use crate::command::{Command, CommandBuffer, CommandView, TextureParameter, TextureSetting};
use crate::device::{DeviceState, TextureImage};

verus! {

/// The role of a texture, which decides the unit it is bound to.
#[allow(non_camel_case_types)]
#[derive(Debug, Clone, Copy, PartialEq, Eq)]
pub enum TextureKind {
    /// Surface colour, on unit 0.
    DIFFUSE,
    /// Highlight strength, on unit 1.
    SPECULAR,
}

impl TextureKind {
    /// The texture unit of the kind.
    pub open spec fn spec_unit(self) -> u32 {
        match self {
            TextureKind::DIFFUSE => 0,
            TextureKind::SPECULAR => 1,
        }
    }

    /// The texture unit of the kind.
    pub fn unit(self) -> (unit: u32)
        ensures
            unit == self.spec_unit(),
    {
        match self {
            TextureKind::DIFFUSE => 0,
            TextureKind::SPECULAR => 1,
        }
    }
}

/// The device calls that turn texture `id` into a mipmapped, linearly
/// filtered, repeating 2D texture of `width` x `height` texels with the rows
/// of `pixels` from the bottom up, through the unit of `kind`, and leave that
/// unit without a texture.
pub open spec fn creation_trace(
    id: u32,
    kind: TextureKind,
    width: int,
    height: int,
    pixels: Seq<u8>,
) -> Seq<CommandView> {
    seq![
        CommandView::ActiveTexture { unit: kind.spec_unit() },
        CommandView::BindTexture2d { texture: id },
        CommandView::TexParameter {
            parameter: TextureParameter::MinFilter,
            setting: TextureSetting::LinearMipmapLinear,
        },
        CommandView::TexParameter {
            parameter: TextureParameter::MagFilter,
            setting: TextureSetting::Linear,
        },
        CommandView::TexParameter {
            parameter: TextureParameter::WrapS,
            setting: TextureSetting::Repeat,
        },
        CommandView::TexParameter {
            parameter: TextureParameter::WrapT,
            setting: TextureSetting::Repeat,
        },
        CommandView::TexImage2d { width, height, pixels },
        CommandView::GenerateMipmap,
        CommandView::BindTexture2d { texture: 0 },
    ]
}

/// Owner of one device texture, tagged with its kind.
///
/// The texture is released by [`Texture::destroy`], which consumes the owner.
#[derive(Debug)]
pub struct Texture {
    id: u32,
    kind: TextureKind,
}

impl Texture {
    /// The device's name for the texture.
    pub closed spec fn handle(&self) -> u32 {
        self.id
    }

    /// The role of the texture.
    pub closed spec fn spec_kind(&self) -> TextureKind {
        self.kind
    }

    /// The device calls of [`Texture::bind`].
    pub open spec fn bind_trace(&self) -> Seq<CommandView> {
        seq![
            CommandView::ActiveTexture { unit: self.spec_kind().spec_unit() },
            CommandView::BindTexture2d { texture: self.handle() },
        ]
    }

    /// The device calls of [`Texture::unbind`].
    pub open spec fn unbind_trace(&self) -> Seq<CommandView> {
        seq![CommandView::BindTexture2d { texture: 0 }]
    }

    /// Takes ownership of the unused texture `id` and records the upload of
    /// `image` into it.
    ///
    /// `image` has its first row at the top, as decoders deliver it. The
    /// device puts the first row it is given at the bottom, so the rows are
    /// uploaded in reverse order.
    pub fn new(out: &mut CommandBuffer, id: u32, kind: TextureKind, image: Bitmap) -> (texture:
        Texture)
        ensures
            texture.handle() == id,
            texture.spec_kind() == kind,
            final(out)@ == old(out)@ + creation_trace(
                id,
                kind,
                image.spec_width() as int,
                image.spec_height() as int,
                flip_rows(image.spec_pixels(), image.row_len(), image.spec_height() as int),
            ),
    {
        let flipped = image.flipv();
        let width = flipped.width();
        let height = flipped.height();
        let pixels = flipped.into_pixels();
        out.push(Command::ActiveTexture { unit: kind.unit() });
        out.push(Command::BindTexture2d { texture: id });
        out.push(
            Command::TexParameter {
                parameter: TextureParameter::MinFilter,
                setting: TextureSetting::LinearMipmapLinear,
            },
        );
        out.push(
            Command::TexParameter {
                parameter: TextureParameter::MagFilter,
                setting: TextureSetting::Linear,
            },
        );
        out.push(
            Command::TexParameter {
                parameter: TextureParameter::WrapS,
                setting: TextureSetting::Repeat,
            },
        );
        out.push(
            Command::TexParameter {
                parameter: TextureParameter::WrapT,
                setting: TextureSetting::Repeat,
            },
        );
        out.push(Command::TexImage2d { width: width as i32, height: height as i32, pixels });
        out.push(Command::GenerateMipmap);
        out.push(Command::BindTexture2d { texture: 0 });
        assert(out@ =~= old(out)@ + creation_trace(
            id,
            kind,
            image.spec_width() as int,
            image.spec_height() as int,
            flip_rows(image.spec_pixels(), image.row_len(), image.spec_height() as int),
        ));
        Texture { id, kind }
    }

    /// The device's name for the texture.
    pub(crate) fn id(&self) -> (id: u32)
        ensures
            id == self.handle(),
    {
        self.id
    }

    /// The role of the texture.
    pub fn kind(&self) -> (kind: TextureKind)
        ensures
            kind == self.spec_kind(),
    {
        self.kind
    }

    /// Records activating the unit of the texture's kind and binding the
    /// texture to it.
    pub fn bind(&self, out: &mut CommandBuffer)
        ensures
            final(out)@ == old(out)@ + self.bind_trace(),
    {
        out.push(Command::ActiveTexture { unit: self.kind.unit() });
        out.push(Command::BindTexture2d { texture: self.id });
        assert(out@ =~= old(out)@ + self.bind_trace());
    }

    /// Records clearing the 2D binding of whichever unit is active.
    pub fn unbind(&self, out: &mut CommandBuffer)
        ensures
            final(out)@ == old(out)@ + self.unbind_trace(),
    {
        out.push(Command::BindTexture2d { texture: 0 });
        assert(out@ =~= old(out)@ + self.unbind_trace());
    }

    /// Records the release of the texture.
    pub fn destroy(self, out: &mut CommandBuffer)
        ensures
            final(out)@ == old(out)@.push(CommandView::DeleteTexture { texture: self.handle() }),
    {
        out.push(Command::DeleteTexture { texture: self.id });
    }
}

/// After [`Texture::bind`], the unit of the texture's kind is active and has
/// the texture bound; nothing else changes.
pub proof fn lemma_bind_effect(texture: Texture, before: DeviceState)
    ensures
        before.run(texture.bind_trace()) == (DeviceState {
            active_unit: texture.spec_kind().spec_unit(),
            bound_textures: before.bound_textures.insert(
                texture.spec_kind().spec_unit(),
                texture.handle(),
            ),
            ..before
        }),
        before.run(texture.bind_trace()).texture_at(texture.spec_kind().spec_unit())
            == texture.handle(),
{
    reveal_with_fuel(DeviceState::run, 3);
}

/// After [`Texture::unbind`], the active unit has no texture bound; nothing
/// else changes.
pub proof fn lemma_unbind_effect(texture: Texture, before: DeviceState)
    ensures
        before.run(texture.unbind_trace()) == (DeviceState {
            bound_textures: before.bound_textures.insert(before.active_unit, 0),
            ..before
        }),
        before.run(texture.unbind_trace()).texture_at(before.active_unit) == 0,
{
    reveal_with_fuel(DeviceState::run, 2);
}

/// After the creation of a texture, the texture object holds the uploaded
/// image with its smaller levels derived, it filters linearly between texels
/// and levels and repeats in both directions, and the unit it went through is
/// active and has no texture bound. Buffers, vertex arrays, programs, uniforms
/// and other texture objects are as before.
pub proof fn lemma_creation_effect(
    id: u32,
    kind: TextureKind,
    width: int,
    height: int,
    pixels: Seq<u8>,
    before: DeviceState,
)
    ensures
        ({
            let after = before.run(creation_trace(id, kind, width, height, pixels));
            &&& after.texture(id).image == Some(TextureImage { width, height, pixels })
            &&& after.texture(id).mipmapped
            &&& after.texture(id).settings == before.texture(id).settings.insert(
                TextureParameter::MinFilter,
                TextureSetting::LinearMipmapLinear,
            ).insert(TextureParameter::MagFilter, TextureSetting::Linear).insert(
                TextureParameter::WrapS,
                TextureSetting::Repeat,
            ).insert(TextureParameter::WrapT, TextureSetting::Repeat)
            &&& after.textures == before.textures.insert(id, after.texture(id))
            &&& after.active_unit == kind.spec_unit()
            &&& after.bound_textures == before.bound_textures.insert(kind.spec_unit(), 0)
            &&& after.vertex_array == before.vertex_array
            &&& after.program == before.program
            &&& after.vertex_arrays == before.vertex_arrays
            &&& after.buffers == before.buffers
            &&& after.uniforms == before.uniforms
            &&& after.draws == before.draws
        }),
{
    let trace = creation_trace(id, kind, width, height, pixels);
    let s1 = before.step(trace[0]);
    let s2 = s1.step(trace[1]);
    let s3 = s2.step(trace[2]);
    let s4 = s3.step(trace[3]);
    let s5 = s4.step(trace[4]);
    let s6 = s5.step(trace[5]);
    let s7 = s6.step(trace[6]);
    let s8 = s7.step(trace[7]);
    let s9 = s8.step(trace[8]);
    assert(before.run(trace) == s9) by {
        reveal_with_fuel(DeviceState::run, 10);
    }
    assert(s2.texture_at(s2.active_unit) == id);
    assert(s9.textures =~= before.textures.insert(id, s9.texture(id)));
    assert(s9.bound_textures =~= before.bound_textures.insert(kind.spec_unit(), 0));
}

} // verus!
