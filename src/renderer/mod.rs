//! The four renderer backends and the tagged union of their backing stores.
//!
//! A backing store crosses the boundary as a tag and a union, and carries the
//! destruction callback that the engine calls when it discards the store.
//! This layer installs a callback of its own for each kind of store, and
//! reads back only stores that carry the callback it installed for their
//! kind: anything else was not written by it, and its memory cannot be
//! trusted to have the layout that the tag claims.
use vstd::prelude::*;

pub mod metal;
pub mod opengl;
pub mod software;
pub mod vulkan;

use crate::enums::{BackingStoreType, RendererType};
use crate::native_enum::NativeEnum;
use metal::{MetalBackingStore, RawMetalBackingStore};
use opengl::{OpenGLBackingStore, RawOpenGLBackingStore};
use software::{RawSoftwareBackingStore, SoftwareBackingStore, SoftwareRendererHandler};
use vulkan::{RawVulkanBackingStore, VulkanBackingStore};

verus! {

/// The identity of a destruction callback in a raw value.
#[derive(Debug, Clone, Copy, PartialEq, Eq, Hash, Structural)]
pub enum DestructionCallback {
    /// Installed by this layer on OpenGL textures.
    OpenGLTexture,
    /// Installed by this layer on OpenGL framebuffers.
    OpenGLFramebuffer,
    /// Installed by this layer on software backing stores.
    Software,
    /// Installed by this layer on Metal textures; releases the texture.
    MetalTexture,
    /// Installed by this layer on Vulkan backing stores.
    Vulkan,
    /// A callback that this layer did not install, by its address.
    Foreign(usize),
}

/// A surface that the engine renders one layer of one frame into.
#[derive(Debug, Clone, Copy, PartialEq, Eq, Hash, Structural)]
pub enum BackingStore {
    OpenGL(OpenGLBackingStore),
    Software(SoftwareBackingStore),
    Metal(MetalBackingStore),
    Vulkan(VulkanBackingStore),
}

/// The member of the raw union that holds valid data.
#[derive(Debug, Clone, Copy, PartialEq, Eq, Hash, Structural)]
pub enum RawBackingStorePayload {
    OpenGL(RawOpenGLBackingStore),
    /// The deprecated software layout.
    Software(RawSoftwareBackingStore),
    Software2(RawSoftwareBackingStore),
    Metal(RawMetalBackingStore),
    Vulkan(RawVulkanBackingStore),
}

/// A backing store as the engine reads it: its own size, a tag and a union.
#[derive(Debug, Clone, Copy, PartialEq, Eq, Hash, Structural)]
pub struct RawBackingStore {
    /// The size of the native structure, by which the engine tells which
    /// version of the layout it was given.
    pub struct_size: usize,
    pub store_type: u32,
    pub payload: RawBackingStorePayload,
}

impl BackingStore {
    /// The raw form that this layer writes, as a structure of
    /// `struct_size` bytes. Software stores use the current software layout.
    pub open spec fn encoded(self, struct_size: usize) -> RawBackingStore {
        match self {
            BackingStore::OpenGL(s) => RawBackingStore {
                struct_size,
                store_type: BackingStoreType::OpenGL.code(),
                payload: RawBackingStorePayload::OpenGL(s.encoded()),
            },
            BackingStore::Software(s) => RawBackingStore {
                struct_size,
                store_type: BackingStoreType::Software2.code(),
                payload: RawBackingStorePayload::Software2(s.encoded()),
            },
            BackingStore::Metal(s) => RawBackingStore {
                struct_size,
                store_type: BackingStoreType::Metal.code(),
                payload: RawBackingStorePayload::Metal(s.encoded()),
            },
            BackingStore::Vulkan(s) => RawBackingStore {
                struct_size,
                store_type: BackingStoreType::Vulkan.code(),
                payload: RawBackingStorePayload::Vulkan(s.encoded()),
            },
        }
    }

    /// The tag names the member that holds data, in a layout this layer
    /// writes, and that member carries the destruction callback this layer
    /// installs for its kind.
    pub open spec fn decodable(raw: RawBackingStore) -> bool {
        match BackingStoreType::of_code(raw.store_type) {
            Some(BackingStoreType::OpenGL) => match raw.payload {
                RawBackingStorePayload::OpenGL(s) => OpenGLBackingStore::decodable(s),
                _ => false,
            },
            Some(BackingStoreType::Software2) => match raw.payload {
                RawBackingStorePayload::Software2(s) => SoftwareBackingStore::decodable(s),
                _ => false,
            },
            Some(BackingStoreType::Metal) => match raw.payload {
                RawBackingStorePayload::Metal(s) => MetalBackingStore::decodable(s),
                _ => false,
            },
            Some(BackingStoreType::Vulkan) => match raw.payload {
                RawBackingStorePayload::Vulkan(s) => VulkanBackingStore::decodable(s),
                _ => false,
            },
            _ => false,
        }
    }

    pub open spec fn decoded(raw: RawBackingStore) -> BackingStore
        recommends
            Self::decodable(raw),
    {
        match raw.payload {
            RawBackingStorePayload::OpenGL(s) => BackingStore::OpenGL(OpenGLBackingStore::decoded(s)),
            RawBackingStorePayload::Software(s) => BackingStore::Software(
                SoftwareBackingStore::decoded(s),
            ),
            RawBackingStorePayload::Software2(s) => BackingStore::Software(
                SoftwareBackingStore::decoded(s),
            ),
            RawBackingStorePayload::Metal(s) => BackingStore::Metal(MetalBackingStore::decoded(s)),
            RawBackingStorePayload::Vulkan(s) => BackingStore::Vulkan(VulkanBackingStore::decoded(s)),
        }
    }

    /// Writes the backing store for the engine, as a structure of
    /// `struct_size` bytes.
    pub fn to_raw(self, struct_size: usize) -> (r: RawBackingStore)
        ensures
            r == self.encoded(struct_size),
            r.struct_size == struct_size,
    {
        match self {
            BackingStore::OpenGL(s) => RawBackingStore {
                struct_size,
                store_type: BackingStoreType::OpenGL.to_raw(),
                payload: RawBackingStorePayload::OpenGL(s.to_raw()),
            },
            BackingStore::Software(s) => RawBackingStore {
                struct_size,
                store_type: BackingStoreType::Software2.to_raw(),
                payload: RawBackingStorePayload::Software2(s.to_raw()),
            },
            BackingStore::Metal(s) => RawBackingStore {
                struct_size,
                store_type: BackingStoreType::Metal.to_raw(),
                payload: RawBackingStorePayload::Metal(s.to_raw()),
            },
            BackingStore::Vulkan(s) => RawBackingStore {
                struct_size,
                store_type: BackingStoreType::Vulkan.to_raw(),
                payload: RawBackingStorePayload::Vulkan(s.to_raw()),
            },
        }
    }

    /// Whether `raw` can be read back; a value for which this is false must
    /// not be read at all.
    pub fn is_decodable(raw: &RawBackingStore) -> (r: bool)
        ensures
            r == Self::decodable(*raw),
    {
        match BackingStoreType::from_raw(raw.store_type) {
            Ok(BackingStoreType::OpenGL) => match &raw.payload {
                RawBackingStorePayload::OpenGL(s) => OpenGLBackingStore::is_decodable(s),
                _ => false,
            },
            Ok(BackingStoreType::Software2) => match &raw.payload {
                RawBackingStorePayload::Software2(s) => SoftwareBackingStore::is_decodable(s),
                _ => false,
            },
            Ok(BackingStoreType::Metal) => match &raw.payload {
                RawBackingStorePayload::Metal(s) => MetalBackingStore::is_decodable(s),
                _ => false,
            },
            Ok(BackingStoreType::Vulkan) => match &raw.payload {
                RawBackingStorePayload::Vulkan(s) => VulkanBackingStore::is_decodable(s),
                _ => false,
            },
            _ => false,
        }
    }

    /// Reads back a backing store that this layer wrote.
    pub fn from_raw(raw: &RawBackingStore) -> (r: BackingStore)
        requires
            Self::decodable(*raw),
        ensures
            r == Self::decoded(*raw),
    {
        match &raw.payload {
            RawBackingStorePayload::OpenGL(s) => BackingStore::OpenGL(OpenGLBackingStore::from_raw(s)),
            RawBackingStorePayload::Software(s) => BackingStore::Software(
                SoftwareBackingStore::from_raw(s),
            ),
            RawBackingStorePayload::Software2(s) => BackingStore::Software(
                SoftwareBackingStore::from_raw(s),
            ),
            RawBackingStorePayload::Metal(s) => BackingStore::Metal(MetalBackingStore::from_raw(s)),
            RawBackingStorePayload::Vulkan(s) => BackingStore::Vulkan(VulkanBackingStore::from_raw(s)),
        }
    }

    /// The destruction callback that the raw form of this store carries.
    pub open spec fn installed_callback(self) -> DestructionCallback {
        match self {
            BackingStore::OpenGL(OpenGLBackingStore::Texture(_)) => DestructionCallback::OpenGLTexture,
            BackingStore::OpenGL(OpenGLBackingStore::Framebuffer(_)) => DestructionCallback::OpenGLFramebuffer,
            BackingStore::Software(_) => DestructionCallback::Software,
            BackingStore::Metal(_) => DestructionCallback::MetalTexture,
            BackingStore::Vulkan(_) => DestructionCallback::Vulkan,
        }
    }
}

/// The destruction callback that a raw backing store carries in the member
/// that its payload holds.
pub open spec fn raw_callback(raw: RawBackingStore) -> Option<DestructionCallback> {
    match raw.payload {
        RawBackingStorePayload::OpenGL(s) => match s.payload {
            opengl::RawOpenGLPayload::Texture(t) => t.destruction_callback,
            opengl::RawOpenGLPayload::Framebuffer(f) => f.destruction_callback,
        },
        RawBackingStorePayload::Software(s) => s.destruction_callback,
        RawBackingStorePayload::Software2(s) => s.destruction_callback,
        RawBackingStorePayload::Metal(s) => s.texture.destruction_callback,
        RawBackingStorePayload::Vulkan(s) => s.destruction_callback,
    }
}

/// Every backing store, written and read back, is the same store; the raw
/// form carries the callback this layer installs for that kind of store.
pub proof fn lemma_backing_store_round_trip(store: BackingStore, struct_size: usize)
    ensures
        BackingStore::decodable(store.encoded(struct_size)),
        BackingStore::decoded(store.encoded(struct_size)) == store,
        raw_callback(store.encoded(struct_size)) == Some(store.installed_callback()),
        store.encoded(struct_size).struct_size == struct_size,
{
    match store {
        BackingStore::Software(s) => {
            s.pixel_format.lemma_round_trip();
        },
        _ => {},
    }
}

/// A raw backing store is read back only if it carries the callback this
/// layer installs for the kind it decodes to, so one with a callback that
/// this layer did not install, or with none, is never read.
pub proof fn lemma_foreign_callback_refused(raw: RawBackingStore)
    ensures
        BackingStore::decodable(raw) ==> raw_callback(raw) == Some(
            BackingStore::decoded(raw).installed_callback(),
        ),
        (raw_callback(raw) is None || raw_callback(raw) matches Some(DestructionCallback::Foreign(_)))
            ==> !BackingStore::decodable(raw),
{
}

/// The renderer chosen when the engine starts: one of the four backends, with
/// the embedder's configuration for it.
pub enum RendererConfig<G, S, M, V> {
    OpenGL(G),
    Software(S),
    Metal(M),
    Vulkan(V),
}

/// The embedder's renderer state that the engine's renderer callbacks reach
/// through the user data. Its backend is the one the engine was configured
/// with.
pub enum RendererUserData<G, S, M, V> {
    OpenGL(G),
    Software(S),
    Metal(M),
    Vulkan(V),
}

impl<G, S, M, V> RendererConfig<G, S, M, V> {
    pub open spec fn kind(&self) -> RendererType {
        match self {
            RendererConfig::OpenGL(_) => RendererType::OpenGL,
            RendererConfig::Software(_) => RendererType::Software,
            RendererConfig::Metal(_) => RendererType::Metal,
            RendererConfig::Vulkan(_) => RendererType::Vulkan,
        }
    }

    /// Splits the configuration into the tag of the raw configuration and
    /// the state kept as user data; both name the same backend.
    pub fn into_user_data(self) -> (r: (RendererType, RendererUserData<G, S, M, V>))
        ensures
            r.0 == self.kind(),
            r.1.kind() == self.kind(),
            match (self, r.1) {
                (RendererConfig::OpenGL(a), RendererUserData::OpenGL(b)) => a == b,
                (RendererConfig::Software(a), RendererUserData::Software(b)) => a == b,
                (RendererConfig::Metal(a), RendererUserData::Metal(b)) => a == b,
                (RendererConfig::Vulkan(a), RendererUserData::Vulkan(b)) => a == b,
                _ => false,
            },
    {
        match self {
            RendererConfig::OpenGL(g) => (RendererType::OpenGL, RendererUserData::OpenGL(g)),
            RendererConfig::Software(s) => (RendererType::Software, RendererUserData::Software(s)),
            RendererConfig::Metal(m) => (RendererType::Metal, RendererUserData::Metal(m)),
            RendererConfig::Vulkan(v) => (RendererType::Vulkan, RendererUserData::Vulkan(v)),
        }
    }
}

impl<G, S, M, V> RendererUserData<G, S, M, V> {
    pub open spec fn kind(&self) -> RendererType {
        match self {
            RendererUserData::OpenGL(_) => RendererType::OpenGL,
            RendererUserData::Software(_) => RendererType::Software,
            RendererUserData::Metal(_) => RendererType::Metal,
            RendererUserData::Vulkan(_) => RendererType::Vulkan,
        }
    }

    /// The backend of the state.
    pub fn renderer_type(&self) -> (r: RendererType)
        ensures
            r == self.kind(),
    {
        match self {
            RendererUserData::OpenGL(_) => RendererType::OpenGL,
            RendererUserData::Software(_) => RendererType::Software,
            RendererUserData::Metal(_) => RendererType::Metal,
            RendererUserData::Vulkan(_) => RendererType::Vulkan,
        }
    }

    /// The OpenGL state, for a callback of the OpenGL backend.
    pub fn opengl(&mut self) -> (r: &mut G)
        requires
            old(self).kind() == RendererType::OpenGL,
        ensures
            *old(self) matches RendererUserData::OpenGL(g) && *r == g,
            *final(self) == RendererUserData::<G, S, M, V>::OpenGL(*final(r)),
    {
        match self {
            RendererUserData::OpenGL(g) => g,
            _ => unreached(),
        }
    }

    /// The software state, for a callback of the software backend.
    pub fn software(&mut self) -> (r: &mut S)
        requires
            old(self).kind() == RendererType::Software,
        ensures
            *old(self) matches RendererUserData::Software(x) && *r == x,
            *final(self) == RendererUserData::<G, S, M, V>::Software(*final(r)),
    {
        match self {
            RendererUserData::Software(x) => x,
            _ => unreached(),
        }
    }

    /// The Metal state, for a callback of the Metal backend.
    pub fn metal(&mut self) -> (r: &mut M)
        requires
            old(self).kind() == RendererType::Metal,
        ensures
            *old(self) matches RendererUserData::Metal(x) && *r == x,
            *final(self) == RendererUserData::<G, S, M, V>::Metal(*final(r)),
    {
        match self {
            RendererUserData::Metal(x) => x,
            _ => unreached(),
        }
    }

    /// The Vulkan state, for a callback of the Vulkan backend.
    pub fn vulkan(&mut self) -> (r: &mut V)
        requires
            old(self).kind() == RendererType::Vulkan,
        ensures
            *old(self) matches RendererUserData::Vulkan(x) && *r == x,
            *final(self) == RendererUserData::<G, S, M, V>::Vulkan(*final(r)),
    {
        match self {
            RendererUserData::Vulkan(x) => x,
            _ => unreached(),
        }
    }
}

/// Each part of a backing store is read back only when it carries the
/// callback this layer installs for that part; with any other callback, or
/// with none, it is never read.
pub proof fn lemma_parts_need_their_callback(
    texture: opengl::RawOpenGLTexture,
    framebuffer: opengl::RawOpenGLFramebuffer,
    software: RawSoftwareBackingStore,
    metal: metal::RawMetalTexture,
    vulkan: RawVulkanBackingStore,
)
    ensures
        opengl::OpenGLTexture::decodable(texture) <==> texture.destruction_callback == Some(
            DestructionCallback::OpenGLTexture,
        ),
        opengl::OpenGLFramebuffer::decodable(framebuffer) <==> framebuffer.destruction_callback
            == Some(DestructionCallback::OpenGLFramebuffer),
        SoftwareBackingStore::decodable(software) ==> software.destruction_callback == Some(
            DestructionCallback::Software,
        ),
        metal::MetalTexture::decodable(metal) <==> metal.destruction_callback == Some(
            DestructionCallback::MetalTexture,
        ),
        VulkanBackingStore::decodable(vulkan) <==> vulkan.destruction_callback == Some(
            DestructionCallback::Vulkan,
        ),
{
}

/// The software renderer: the embedder's present callback.
pub struct SoftwareRendererConfig<H: SoftwareRendererHandler> {
    pub handler: H,
}

} // verus!
