//! Vulkan backing stores and their raw encoding.
use vstd::prelude::*;

use super::DestructionCallback;

verus! {

/// An image that the embedder owns and the engine renders into.
#[derive(Debug, Clone, Copy, PartialEq, Eq, Hash, Structural)]
pub struct VulkanImage {
    /// The `VkImage` handle.
    pub image_handle: u64,
    /// The `VkFormat` of the image.
    pub format: u32,
}

/// A Vulkan image as the engine reads it.
#[derive(Debug, Clone, Copy, PartialEq, Eq, Hash, Structural)]
pub struct RawVulkanImage {
    pub image: u64,
    pub format: u32,
}

impl VulkanImage {
    pub open spec fn encoded(self) -> RawVulkanImage {
        RawVulkanImage { image: self.image_handle, format: self.format }
    }

    pub open spec fn decoded(raw: RawVulkanImage) -> VulkanImage {
        VulkanImage { image_handle: raw.image, format: raw.format }
    }

    pub fn to_raw(self) -> (r: RawVulkanImage)
        ensures
            r == self.encoded(),
    {
        RawVulkanImage { image: self.image_handle, format: self.format }
    }

    pub fn from_raw(raw: &RawVulkanImage) -> (r: VulkanImage)
        ensures
            r == Self::decoded(*raw),
    {
        VulkanImage { image_handle: raw.image, format: raw.format }
    }
}

/// A Vulkan backing store: the image that a layer is rendered into.
#[derive(Debug, Clone, Copy, PartialEq, Eq, Hash, Structural)]
pub struct VulkanBackingStore {
    pub image: VulkanImage,
}

/// A Vulkan backing store as the engine reads it.
#[derive(Debug, Clone, Copy, PartialEq, Eq, Hash, Structural)]
pub struct RawVulkanBackingStore {
    pub user_data: usize,
    pub destruction_callback: Option<DestructionCallback>,
    pub image: RawVulkanImage,
}

impl VulkanBackingStore {
    pub open spec fn encoded(self) -> RawVulkanBackingStore {
        RawVulkanBackingStore {
            user_data: 0,
            destruction_callback: Some(DestructionCallback::Vulkan),
            image: self.image.encoded(),
        }
    }

    pub open spec fn decodable(raw: RawVulkanBackingStore) -> bool {
        raw.destruction_callback == Some(DestructionCallback::Vulkan)
    }

    pub open spec fn decoded(raw: RawVulkanBackingStore) -> VulkanBackingStore {
        VulkanBackingStore { image: VulkanImage::decoded(raw.image) }
    }

    pub fn to_raw(self) -> (r: RawVulkanBackingStore)
        ensures
            r == self.encoded(),
    {
        RawVulkanBackingStore {
            user_data: 0,
            destruction_callback: Some(DestructionCallback::Vulkan),
            image: self.image.to_raw(),
        }
    }

    pub fn is_decodable(raw: &RawVulkanBackingStore) -> (r: bool)
        ensures
            r == Self::decodable(*raw),
    {
        matches!(raw.destruction_callback, Some(DestructionCallback::Vulkan))
    }

    /// Reads a backing store that this layer wrote.
    pub fn from_raw(raw: &RawVulkanBackingStore) -> (r: VulkanBackingStore)
        requires
            Self::decodable(*raw),
        ensures
            r == Self::decoded(*raw),
    {
        VulkanBackingStore { image: VulkanImage::from_raw(&raw.image) }
    }
}

} // verus!
