//! Software backing stores and their raw encoding.
use vstd::prelude::*;

use super::{DestructionCallback, RendererUserData, SoftwareRendererConfig};
use crate::enums::{RendererType, SoftwarePixelFormat};
use crate::native_enum::NativeEnum;

verus! {

/// A block of memory that the engine renders a layer into.
#[derive(Debug, Clone, Copy, PartialEq, Eq, Hash, Structural)]
pub struct SoftwareBackingStore {
    /// The address of the first byte of the allocation.
    pub allocation: usize,
    /// The number of bytes in one row of the allocation.
    pub row_bytes: usize,
    /// The number of rows in the allocation.
    pub height: usize,
    /// The pixel format that the engine renders into the allocation with.
    pub pixel_format: SoftwarePixelFormat,
}

/// A software backing store as the engine reads it.
#[derive(Debug, Clone, Copy, PartialEq, Eq, Hash, Structural)]
pub struct RawSoftwareBackingStore {
    pub user_data: usize,
    pub destruction_callback: Option<DestructionCallback>,
    pub allocation: usize,
    pub row_bytes: usize,
    pub height: usize,
    pub pixel_format: u32,
}

impl SoftwareBackingStore {
    pub open spec fn encoded(self) -> RawSoftwareBackingStore {
        RawSoftwareBackingStore {
            user_data: 0,
            destruction_callback: Some(DestructionCallback::Software),
            allocation: self.allocation,
            row_bytes: self.row_bytes,
            height: self.height,
            pixel_format: self.pixel_format.code(),
        }
    }

    /// Written by this layer, with a pixel format that it knows.
    pub open spec fn decodable(raw: RawSoftwareBackingStore) -> bool {
        &&& raw.destruction_callback == Some(DestructionCallback::Software)
        &&& SoftwarePixelFormat::of_code(raw.pixel_format) is Some
    }

    pub open spec fn decoded(raw: RawSoftwareBackingStore) -> SoftwareBackingStore {
        SoftwareBackingStore {
            allocation: raw.allocation,
            row_bytes: raw.row_bytes,
            height: raw.height,
            pixel_format: SoftwarePixelFormat::of_code(raw.pixel_format).unwrap(),
        }
    }

    pub fn to_raw(self) -> (r: RawSoftwareBackingStore)
        ensures
            r == self.encoded(),
    {
        RawSoftwareBackingStore {
            user_data: 0,
            destruction_callback: Some(DestructionCallback::Software),
            allocation: self.allocation,
            row_bytes: self.row_bytes,
            height: self.height,
            pixel_format: self.pixel_format.to_raw(),
        }
    }

    pub fn is_decodable(raw: &RawSoftwareBackingStore) -> (r: bool)
        ensures
            r == Self::decodable(*raw),
    {
        matches!(raw.destruction_callback, Some(DestructionCallback::Software))
            && SoftwarePixelFormat::from_raw(raw.pixel_format).is_ok()
    }

    /// Reads a backing store that this layer wrote.
    pub fn from_raw(raw: &RawSoftwareBackingStore) -> (r: SoftwareBackingStore)
        requires
            Self::decodable(*raw),
        ensures
            r == Self::decoded(*raw),
    {
        let pixel_format = match SoftwarePixelFormat::from_raw(raw.pixel_format) {
            Ok(format) => format,
            Err(_) => SoftwarePixelFormat::Native32,
        };
        SoftwareBackingStore {
            allocation: raw.allocation,
            row_bytes: raw.row_bytes,
            height: raw.height,
            pixel_format,
        }
    }
}

/// What the embedder supplies for software rendering.
pub trait SoftwareRendererHandler {
    /// Presents a fully rendered buffer, in the native 32-bit format, that
    /// the engine owns; it must be copied if it is needed after the call.
    fn surface_present(&mut self, allocation: usize, row_bytes: usize, height: usize) -> bool;
}

/// Hands a finished frame of the software renderer to the embedder. The
/// engine only calls this on an engine configured for software rendering.
pub fn surface_present<G, H: SoftwareRendererHandler, M, V>(
    user_data: &mut RendererUserData<G, SoftwareRendererConfig<H>, M, V>,
    allocation: usize,
    row_bytes: usize,
    height: usize,
) -> (r: bool)
    requires
        old(user_data).kind() == RendererType::Software,
    ensures
        final(user_data).kind() == RendererType::Software,
{
    let config = user_data.software();
    config.handler.surface_present(allocation, row_bytes, height)
}

} // verus!
