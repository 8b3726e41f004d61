//! OpenGL backing stores and their raw encoding.
use vstd::prelude::*;

use super::{DestructionCallback, RendererUserData};
use crate::bridge::return_out_param;
use crate::compositor::Region;
use crate::damage::{kept, presented, waiting_for, DamageCache};
use crate::enums::{OpenGLTargetType, RendererType};
use crate::graphics::{FrameInfo, Rect, Transformation};
use crate::native_enum::NativeEnum;

verus! {

/// A texture that the engine renders a layer into.
#[derive(Debug, Clone, Copy, PartialEq, Eq, Hash, Structural)]
pub struct OpenGLTexture {
    /// Target of the active texture unit (for example `GL_TEXTURE_2D`).
    pub target: u32,
    /// The name of the texture.
    pub name: u32,
    /// The texture format (for example `GL_RGBA8`).
    pub format: u32,
    /// Width of the texture; 0 leaves it unspecified.
    pub width: usize,
    /// Height of the texture; 0 leaves it unspecified.
    pub height: usize,
}

/// An OpenGL texture as the engine reads it.
#[derive(Debug, Clone, Copy, PartialEq, Eq, Hash, Structural)]
pub struct RawOpenGLTexture {
    pub user_data: usize,
    pub destruction_callback: Option<DestructionCallback>,
    pub target: u32,
    pub name: u32,
    pub format: u32,
    pub width: usize,
    pub height: usize,
}

impl OpenGLTexture {
    /// The raw form this layer writes: its own destruction callback, no user data.
    pub open spec fn encoded(self) -> RawOpenGLTexture {
        RawOpenGLTexture {
            user_data: 0,
            destruction_callback: Some(DestructionCallback::OpenGLTexture),
            target: self.target,
            name: self.name,
            format: self.format,
            width: self.width,
            height: self.height,
        }
    }

    /// Whether a raw texture carries the callback that this layer installs,
    /// and so was written by it.
    pub open spec fn decodable(raw: RawOpenGLTexture) -> bool {
        raw.destruction_callback == Some(DestructionCallback::OpenGLTexture)
    }

    pub open spec fn decoded(raw: RawOpenGLTexture) -> OpenGLTexture {
        OpenGLTexture {
            target: raw.target,
            name: raw.name,
            format: raw.format,
            width: raw.width,
            height: raw.height,
        }
    }

    pub fn to_raw(self) -> (r: RawOpenGLTexture)
        ensures
            r == self.encoded(),
    {
        RawOpenGLTexture {
            user_data: 0,
            destruction_callback: Some(DestructionCallback::OpenGLTexture),
            target: self.target,
            name: self.name,
            format: self.format,
            width: self.width,
            height: self.height,
        }
    }

    pub fn is_decodable(raw: &RawOpenGLTexture) -> (r: bool)
        ensures
            r == Self::decodable(*raw),
    {
        matches!(raw.destruction_callback, Some(DestructionCallback::OpenGLTexture))
    }

    /// Reads a texture that this layer wrote.
    pub fn from_raw(raw: &RawOpenGLTexture) -> (r: OpenGLTexture)
        requires
            Self::decodable(*raw),
        ensures
            r == Self::decoded(*raw),
    {
        OpenGLTexture {
            target: raw.target,
            name: raw.name,
            format: raw.format,
            width: raw.width,
            height: raw.height,
        }
    }
}

/// A framebuffer that the engine renders a layer into.
#[derive(Debug, Clone, Copy, PartialEq, Eq, Hash, Structural)]
pub struct OpenGLFramebuffer {
    /// The format of the color attachment (for example `GL_RGBA8`); 0 where
    /// a window-bound framebuffer leaves it ambiguous.
    pub format: u32,
    /// The name of the framebuffer.
    pub name: u32,
}

/// An OpenGL framebuffer as the engine reads it.
#[derive(Debug, Clone, Copy, PartialEq, Eq, Hash, Structural)]
pub struct RawOpenGLFramebuffer {
    pub user_data: usize,
    pub destruction_callback: Option<DestructionCallback>,
    /// The color attachment format. The native field that holds it is
    /// misnamed `target`; it carries the format.
    pub format: u32,
    pub name: u32,
}

impl OpenGLFramebuffer {
    pub open spec fn encoded(self) -> RawOpenGLFramebuffer {
        RawOpenGLFramebuffer {
            user_data: 0,
            destruction_callback: Some(DestructionCallback::OpenGLFramebuffer),
            format: self.format,
            name: self.name,
        }
    }

    pub open spec fn decodable(raw: RawOpenGLFramebuffer) -> bool {
        raw.destruction_callback == Some(DestructionCallback::OpenGLFramebuffer)
    }

    pub open spec fn decoded(raw: RawOpenGLFramebuffer) -> OpenGLFramebuffer {
        OpenGLFramebuffer { format: raw.format, name: raw.name }
    }

    pub fn to_raw(self) -> (r: RawOpenGLFramebuffer)
        ensures
            r == self.encoded(),
    {
        RawOpenGLFramebuffer {
            user_data: 0,
            destruction_callback: Some(DestructionCallback::OpenGLFramebuffer),
            format: self.format,
            name: self.name,
        }
    }

    pub fn is_decodable(raw: &RawOpenGLFramebuffer) -> (r: bool)
        ensures
            r == Self::decodable(*raw),
    {
        matches!(raw.destruction_callback, Some(DestructionCallback::OpenGLFramebuffer))
    }

    /// Reads a framebuffer that this layer wrote.
    pub fn from_raw(raw: &RawOpenGLFramebuffer) -> (r: OpenGLFramebuffer)
        requires
            Self::decodable(*raw),
        ensures
            r == Self::decoded(*raw),
    {
        OpenGLFramebuffer { format: raw.format, name: raw.name }
    }
}

/// An OpenGL backing store: a texture or a framebuffer.
#[derive(Debug, Clone, Copy, PartialEq, Eq, Hash, Structural)]
pub enum OpenGLBackingStore {
    Texture(OpenGLTexture),
    Framebuffer(OpenGLFramebuffer),
}

/// The member of the raw union that holds valid data.
#[derive(Debug, Clone, Copy, PartialEq, Eq, Hash, Structural)]
pub enum RawOpenGLPayload {
    Texture(RawOpenGLTexture),
    Framebuffer(RawOpenGLFramebuffer),
}

/// An OpenGL backing store as the engine reads it: a tag and a union.
#[derive(Debug, Clone, Copy, PartialEq, Eq, Hash, Structural)]
pub struct RawOpenGLBackingStore {
    pub target_type: u32,
    pub payload: RawOpenGLPayload,
}

impl OpenGLBackingStore {
    pub open spec fn encoded(self) -> RawOpenGLBackingStore {
        match self {
            OpenGLBackingStore::Texture(t) => RawOpenGLBackingStore {
                target_type: OpenGLTargetType::Texture.code(),
                payload: RawOpenGLPayload::Texture(t.encoded()),
            },
            OpenGLBackingStore::Framebuffer(f) => RawOpenGLBackingStore {
                target_type: OpenGLTargetType::Framebuffer.code(),
                payload: RawOpenGLPayload::Framebuffer(f.encoded()),
            },
        }
    }

    /// The tag names the member that holds data, and that member was
    /// written by this layer.
    pub open spec fn decodable(raw: RawOpenGLBackingStore) -> bool {
        match OpenGLTargetType::of_code(raw.target_type) {
            Some(OpenGLTargetType::Texture) => match raw.payload {
                RawOpenGLPayload::Texture(t) => OpenGLTexture::decodable(t),
                _ => false,
            },
            Some(OpenGLTargetType::Framebuffer) => match raw.payload {
                RawOpenGLPayload::Framebuffer(f) => OpenGLFramebuffer::decodable(f),
                _ => false,
            },
            None => false,
        }
    }

    pub open spec fn decoded(raw: RawOpenGLBackingStore) -> OpenGLBackingStore {
        match raw.payload {
            RawOpenGLPayload::Texture(t) => OpenGLBackingStore::Texture(OpenGLTexture::decoded(t)),
            RawOpenGLPayload::Framebuffer(f) => OpenGLBackingStore::Framebuffer(
                OpenGLFramebuffer::decoded(f),
            ),
        }
    }

    pub fn to_raw(self) -> (r: RawOpenGLBackingStore)
        ensures
            r == self.encoded(),
    {
        match self {
            OpenGLBackingStore::Texture(t) => RawOpenGLBackingStore {
                target_type: OpenGLTargetType::Texture.to_raw(),
                payload: RawOpenGLPayload::Texture(t.to_raw()),
            },
            OpenGLBackingStore::Framebuffer(f) => RawOpenGLBackingStore {
                target_type: OpenGLTargetType::Framebuffer.to_raw(),
                payload: RawOpenGLPayload::Framebuffer(f.to_raw()),
            },
        }
    }

    pub fn is_decodable(raw: &RawOpenGLBackingStore) -> (r: bool)
        ensures
            r == Self::decodable(*raw),
    {
        match OpenGLTargetType::from_raw(raw.target_type) {
            Ok(OpenGLTargetType::Texture) => match &raw.payload {
                RawOpenGLPayload::Texture(t) => OpenGLTexture::is_decodable(t),
                _ => false,
            },
            Ok(OpenGLTargetType::Framebuffer) => match &raw.payload {
                RawOpenGLPayload::Framebuffer(f) => OpenGLFramebuffer::is_decodable(f),
                _ => false,
            },
            Err(_) => false,
        }
    }

    /// Reads a backing store that this layer wrote.
    pub fn from_raw(raw: &RawOpenGLBackingStore) -> (r: OpenGLBackingStore)
        requires
            Self::decodable(*raw),
        ensures
            r == Self::decoded(*raw),
    {
        match &raw.payload {
            RawOpenGLPayload::Texture(t) => OpenGLBackingStore::Texture(OpenGLTexture::from_raw(t)),
            RawOpenGLPayload::Framebuffer(f) => OpenGLBackingStore::Framebuffer(
                OpenGLFramebuffer::from_raw(f),
            ),
        }
    }
}

/// What the engine reports when it presents a framebuffer.
pub struct PresentInfo<N> {
    /// The framebuffer that was presented.
    pub fbo_id: u32,
    /// The area that the compositor needs to render.
    pub frame_damage: Region<N>,
    /// The area that sets the buffer's damage region.
    pub buffer_damage: Region<N>,
}

/// What the embedder supplies for OpenGL rendering.
pub trait OpenGLRendererHandler<N> {
    fn make_current(&mut self) -> bool;

    fn clear_current(&mut self) -> bool;

    /// Presents a frame; the damage it reports drives dirty-region management.
    fn present(&mut self, present_info: PresentInfo<N>) -> bool;

    /// The framebuffer that the engine is to render the next frame into.
    fn fbo_callback(&mut self, frame_info: FrameInfo) -> u32;

    /// Makes a context of the same share group current on a background
    /// thread, for texture uploads; `false` if there is none.
    fn make_resource_current(&mut self) -> bool;

    /// The transformation to apply to the render target.
    fn surface_transformation(&mut self) -> Transformation<N>;

    /// The address of the OpenGL function whose NUL-terminated name starts
    /// at address `name`.
    fn gl_proc_resolver(&mut self, name: usize) -> usize;

    /// The current frame of external texture `texture_id`, if one is ready.
    fn gl_external_texture_frame(&mut self, texture_id: i64, width: usize, height: usize) -> Option<
        OpenGLTexture,
    >;

    /// The area of framebuffer `fbo_id` that changed since it was last used.
    fn populate_existing_damage(&mut self, fbo_id: isize) -> Region<N>;
}

/// The OpenGL renderer: the embedder's callbacks, and the damage buffers
/// that the engine borrows between a request for damage and the next
/// present of the same framebuffer.
pub struct OpenGLRendererConfig<H, N> {
    /// Whether the engine asks for a new framebuffer after every present.
    pub fbo_reset_after_present: bool,
    pub handler: H,
    /// The damage buffers that the engine borrows.
    pub damage: DamageCache<Vec<Rect<N>>>,
}

impl<H: OpenGLRendererHandler<N>, N> OpenGLRendererConfig<H, N> {
    /// The damage buffers that wait for each framebuffer.
    pub open spec fn damage_waiting(&self) -> Map<isize, Seq<Vec<Rect<N>>>> {
        self.damage.waiting()
    }

    /// A configuration with no damage buffer waiting.
    pub fn new(fbo_reset_after_present: bool, handler: H) -> (r: OpenGLRendererConfig<H, N>)
        ensures
            r.fbo_reset_after_present == fbo_reset_after_present,
            r.handler == handler,
            r.damage_waiting() == Map::<isize, Seq<Vec<Rect<N>>>>::empty(),
    {
        OpenGLRendererConfig { fbo_reset_after_present, handler, damage: DamageCache::new() }
    }

    /// The damage buffer that the engine borrows for framebuffer `fbo_id`:
    /// the one handed out last.
    pub fn borrowed_damage(&self, fbo_id: isize) -> (r: Option<&Vec<Rect<N>>>)
        ensures
            r == (if waiting_for(self.damage_waiting(), fbo_id).len() > 0 {
                Some(&waiting_for(self.damage_waiting(), fbo_id).last())
            } else {
                None::<&Vec<Rect<N>>>
            }),
    {
        self.damage.newest(fbo_id)
    }
}

/// The OpenGL state of the user data, which callbacks of this backend reach.
pub open spec fn opengl_state<H, N, S, M, V>(
    user_data: RendererUserData<OpenGLRendererConfig<H, N>, S, M, V>,
) -> OpenGLRendererConfig<H, N>
    recommends
        user_data.kind() == RendererType::OpenGL,
{
    match user_data {
        RendererUserData::OpenGL(g) => g,
        _ => arbitrary(),
    }
}

pub fn make_current<H: OpenGLRendererHandler<N>, N, S, M, V>(
    user_data: &mut RendererUserData<OpenGLRendererConfig<H, N>, S, M, V>,
) -> (r: bool)
    requires
        old(user_data).kind() == RendererType::OpenGL,
    ensures
        final(user_data).kind() == RendererType::OpenGL,
        opengl_state(*final(user_data)).damage_waiting() == opengl_state(
            *old(user_data),
        ).damage_waiting(),
{
    user_data.opengl().handler.make_current()
}

pub fn clear_current<H: OpenGLRendererHandler<N>, N, S, M, V>(
    user_data: &mut RendererUserData<OpenGLRendererConfig<H, N>, S, M, V>,
) -> (r: bool)
    requires
        old(user_data).kind() == RendererType::OpenGL,
    ensures
        final(user_data).kind() == RendererType::OpenGL,
        opengl_state(*final(user_data)).damage_waiting() == opengl_state(
            *old(user_data),
        ).damage_waiting(),
{
    user_data.opengl().handler.clear_current()
}

pub fn make_resource_current<H: OpenGLRendererHandler<N>, N, S, M, V>(
    user_data: &mut RendererUserData<OpenGLRendererConfig<H, N>, S, M, V>,
) -> (r: bool)
    requires
        old(user_data).kind() == RendererType::OpenGL,
    ensures
        final(user_data).kind() == RendererType::OpenGL,
        opengl_state(*final(user_data)).damage_waiting() == opengl_state(
            *old(user_data),
        ).damage_waiting(),
{
    user_data.opengl().handler.make_resource_current()
}

pub fn fbo_with_frame_info<H: OpenGLRendererHandler<N>, N, S, M, V>(
    user_data: &mut RendererUserData<OpenGLRendererConfig<H, N>, S, M, V>,
    frame_info: FrameInfo,
) -> (r: u32)
    requires
        old(user_data).kind() == RendererType::OpenGL,
    ensures
        final(user_data).kind() == RendererType::OpenGL,
        opengl_state(*final(user_data)).damage_waiting() == opengl_state(
            *old(user_data),
        ).damage_waiting(),
{
    user_data.opengl().handler.fbo_callback(frame_info)
}

pub fn surface_transformation<H: OpenGLRendererHandler<N>, N, S, M, V>(
    user_data: &mut RendererUserData<OpenGLRendererConfig<H, N>, S, M, V>,
) -> (r: Transformation<N>)
    requires
        old(user_data).kind() == RendererType::OpenGL,
    ensures
        final(user_data).kind() == RendererType::OpenGL,
        opengl_state(*final(user_data)).damage_waiting() == opengl_state(
            *old(user_data),
        ).damage_waiting(),
{
    user_data.opengl().handler.surface_transformation()
}

pub fn gl_proc_resolver<H: OpenGLRendererHandler<N>, N, S, M, V>(
    user_data: &mut RendererUserData<OpenGLRendererConfig<H, N>, S, M, V>,
    name: usize,
) -> (r: usize)
    requires
        old(user_data).kind() == RendererType::OpenGL,
    ensures
        final(user_data).kind() == RendererType::OpenGL,
        opengl_state(*final(user_data)).damage_waiting() == opengl_state(
            *old(user_data),
        ).damage_waiting(),
{
    user_data.opengl().handler.gl_proc_resolver(name)
}

/// Asks the embedder for the current frame of an external texture and
/// writes it, encoded, into the engine's slot; reports whether there was one.
pub fn gl_external_texture_frame<H: OpenGLRendererHandler<N>, N, S, M, V>(
    user_data: &mut RendererUserData<OpenGLRendererConfig<H, N>, S, M, V>,
    texture_id: i64,
    width: usize,
    height: usize,
    texture_out: &mut RawOpenGLTexture,
) -> (r: bool)
    requires
        old(user_data).kind() == RendererType::OpenGL,
    ensures
        final(user_data).kind() == RendererType::OpenGL,
        opengl_state(*final(user_data)).damage_waiting() == opengl_state(
            *old(user_data),
        ).damage_waiting(),
        r ==> OpenGLTexture::decodable(*final(texture_out)),
        !r ==> *final(texture_out) == *old(texture_out),
{
    let texture = user_data.opengl().handler.gl_external_texture_frame(texture_id, width, height);
    let raw = match texture {
        Some(t) => Some(t.to_raw()),
        None => None,
    };
    return_out_param(texture_out, raw)
}

/// The engine asks for the existing damage of framebuffer `fbo_id`. The
/// embedder's answer is kept, behind any buffer that already waits for
/// the framebuffer, until the next present of it; the engine borrows it
/// through [`OpenGLRendererConfig::borrowed_damage`].
pub fn populate_existing_damage<H: OpenGLRendererHandler<N>, N, S, M, V>(
    user_data: &mut RendererUserData<OpenGLRendererConfig<H, N>, S, M, V>,
    fbo_id: isize,
)
    requires
        old(user_data).kind() == RendererType::OpenGL,
    ensures
        final(user_data).kind() == RendererType::OpenGL,
        exists|damage: Vec<Rect<N>>|
            opengl_state(*final(user_data)).damage_waiting() == kept(
                opengl_state(*old(user_data)).damage_waiting(),
                fbo_id,
                damage,
            ),
{
    let ghost before = opengl_state(*user_data).damage_waiting();
    let state = user_data.opengl();
    let region = state.handler.populate_existing_damage(fbo_id);
    let ghost damage = region.rects;
    state.damage.keep_until_present(fbo_id, region.rects);
    assert(state.damage.waiting() == kept(before, fbo_id, damage));
}

/// The engine presents a framebuffer: every damage buffer that waited for
/// it is released, then the embedder presents.
pub fn present_with_info<H: OpenGLRendererHandler<N>, N, S, M, V>(
    user_data: &mut RendererUserData<OpenGLRendererConfig<H, N>, S, M, V>,
    present_info: PresentInfo<N>,
) -> (r: bool)
    requires
        old(user_data).kind() == RendererType::OpenGL,
    ensures
        final(user_data).kind() == RendererType::OpenGL,
        opengl_state(*final(user_data)).damage_waiting() == presented(
            opengl_state(*old(user_data)).damage_waiting(),
            present_info.fbo_id,
        ).0,
{
    let state = user_data.opengl();
    // the buffers go out of scope, and are freed, here
    let _released = state.damage.release_on_present(present_info.fbo_id);
    state.handler.present(present_info)
}

} // verus!
