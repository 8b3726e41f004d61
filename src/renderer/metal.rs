//! Metal backing stores and their raw encoding.
use vstd::prelude::*;

use super::{DestructionCallback, RendererUserData};
use crate::enums::{MetalExternalTexturePixelFormat, MetalExternalTextureYUVColorSpace, RendererType};
use crate::graphics::FrameInfo;

verus! {

/// A texture that the embedder owns and the engine renders into.
#[derive(Debug, Clone, Copy, PartialEq, Eq, Hash, Structural)]
pub struct MetalTexture {
    /// The embedder's identifier of the texture; it comes back with the
    /// present callback.
    pub texture_id: i64,
    /// The handle of the `MTLTexture`. Encoding hands its ownership to the
    /// raw value, whose destruction callback releases it.
    pub texture: usize,
}

/// A Metal texture as the engine reads it.
#[derive(Debug, Clone, Copy, PartialEq, Eq, Hash, Structural)]
pub struct RawMetalTexture {
    pub user_data: usize,
    pub destruction_callback: Option<DestructionCallback>,
    pub texture_id: i64,
    pub texture: usize,
}

impl MetalTexture {
    /// The texture handle travels as the user data of the destruction
    /// callback, which releases it.
    pub open spec fn encoded(self) -> RawMetalTexture {
        RawMetalTexture {
            user_data: self.texture,
            destruction_callback: Some(DestructionCallback::MetalTexture),
            texture_id: self.texture_id,
            texture: self.texture,
        }
    }

    pub open spec fn decodable(raw: RawMetalTexture) -> bool {
        raw.destruction_callback == Some(DestructionCallback::MetalTexture)
    }

    pub open spec fn decoded(raw: RawMetalTexture) -> MetalTexture {
        MetalTexture { texture_id: raw.texture_id, texture: raw.texture }
    }

    pub fn to_raw(self) -> (r: RawMetalTexture)
        ensures
            r == self.encoded(),
    {
        RawMetalTexture {
            user_data: self.texture,
            destruction_callback: Some(DestructionCallback::MetalTexture),
            texture_id: self.texture_id,
            texture: self.texture,
        }
    }

    pub fn is_decodable(raw: &RawMetalTexture) -> (r: bool)
        ensures
            r == Self::decodable(*raw),
    {
        matches!(raw.destruction_callback, Some(DestructionCallback::MetalTexture))
    }

    /// Reads a texture that this layer wrote.
    pub fn from_raw(raw: &RawMetalTexture) -> (r: MetalTexture)
        requires
            Self::decodable(*raw),
        ensures
            r == Self::decoded(*raw),
    {
        MetalTexture { texture_id: raw.texture_id, texture: raw.texture }
    }
}

/// A Metal backing store. The native union has one member and no tag.
#[derive(Debug, Clone, Copy, PartialEq, Eq, Hash, Structural)]
pub enum MetalBackingStore {
    Texture(MetalTexture),
}

/// A Metal backing store as the engine reads it.
#[derive(Debug, Clone, Copy, PartialEq, Eq, Hash, Structural)]
pub struct RawMetalBackingStore {
    pub texture: RawMetalTexture,
}

impl MetalBackingStore {
    pub open spec fn encoded(self) -> RawMetalBackingStore {
        match self {
            MetalBackingStore::Texture(t) => RawMetalBackingStore { texture: t.encoded() },
        }
    }

    pub open spec fn decodable(raw: RawMetalBackingStore) -> bool {
        MetalTexture::decodable(raw.texture)
    }

    pub open spec fn decoded(raw: RawMetalBackingStore) -> MetalBackingStore {
        MetalBackingStore::Texture(MetalTexture::decoded(raw.texture))
    }

    pub fn to_raw(self) -> (r: RawMetalBackingStore)
        ensures
            r == self.encoded(),
    {
        match self {
            MetalBackingStore::Texture(t) => RawMetalBackingStore { texture: t.to_raw() },
        }
    }

    pub fn is_decodable(raw: &RawMetalBackingStore) -> (r: bool)
        ensures
            r == Self::decodable(*raw),
    {
        MetalTexture::is_decodable(&raw.texture)
    }

    /// Reads a backing store that this layer wrote.
    pub fn from_raw(raw: &RawMetalBackingStore) -> (r: MetalBackingStore)
        requires
            Self::decodable(*raw),
        ensures
            r == Self::decoded(*raw),
    {
        MetalBackingStore::Texture(MetalTexture::from_raw(&raw.texture))
    }
}

/// The frame of an external texture that the embedder supplies on request.
pub struct MetalExternalTexture {
    pub width: usize,
    pub height: usize,
    pub pixel_format: MetalExternalTexturePixelFormat,
    pub yuv_color_space: MetalExternalTextureYUVColorSpace,
    /// The planes of the frame, as `MTLTexture` handles.
    pub textures: Vec<usize>,
}

/// What the embedder supplies for Metal rendering.
pub trait MetalRendererHandler {
    /// A texture to render the next frame into.
    fn get_next_drawable(&mut self, frame_info: FrameInfo) -> MetalTexture;

    /// Presents a fully rendered texture.
    fn present_drawable(&mut self, texture: MetalTexture) -> bool;

    /// The current frame of external texture `texture_id`, if one is ready.
    fn external_texture_frame(&mut self, texture_id: i64, width: usize, height: usize) -> Option<
        MetalExternalTexture,
    >;
}

/// Asks the embedder for the texture of the next frame, written for the
/// engine, which takes over the texture.
pub fn get_next_drawable<G, S, H: MetalRendererHandler, V>(
    user_data: &mut RendererUserData<G, S, MetalRendererConfig<H>, V>,
    frame_info: FrameInfo,
) -> (r: RawMetalTexture)
    requires
        old(user_data).kind() == RendererType::Metal,
    ensures
        MetalTexture::decodable(r),
        final(user_data).kind() == RendererType::Metal,
{
    let config = user_data.metal();
    let texture = config.handler.get_next_drawable(frame_info);
    texture.to_raw()
}

/// Hands a finished texture to the embedder. Only a texture that this layer
/// wrote can be read.
pub fn present_drawable<G, S, H: MetalRendererHandler, V>(
    user_data: &mut RendererUserData<G, S, MetalRendererConfig<H>, V>,
    raw: &RawMetalTexture,
) -> (r: bool)
    requires
        old(user_data).kind() == RendererType::Metal,
        MetalTexture::decodable(*raw),
    ensures
        final(user_data).kind() == RendererType::Metal,
{
    let texture = MetalTexture::from_raw(raw);
    let config = user_data.metal();
    config.handler.present_drawable(texture)
}

/// The Metal renderer: the device and queue that the engine renders with,
/// and the embedder's callbacks.
pub struct MetalRendererConfig<H: MetalRendererHandler> {
    /// The `MTLDevice` handle.
    pub device: usize,
    /// The `MTLCommandQueue` handle that presents are made on.
    pub present_command_queue: usize,
    pub handler: H,
}

} // verus!
