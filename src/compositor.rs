//! The compositor's backing-store callbacks.
use vstd::prelude::*;

use crate::bridge::return_out_param;
use crate::enums::{LayerContentType, PlatformViewMutationType};
use crate::graphics::{Point, Rect, RoundedRect, Size, Transformation};
use crate::native_enum::NativeEnum;
use crate::renderer::{BackingStore, RawBackingStore};

verus! {

/// Answers the engine's request for a backing store: writes the store that
/// the embedder produced into the engine's slot and reports whether there
/// was one, as a structure of `struct_size` bytes. Without a store the slot
/// is left untouched.
pub fn provide_backing_store(
    out: &mut RawBackingStore,
    store: Option<BackingStore>,
    struct_size: usize,
) -> (r: bool)
    ensures
        r == store is Some,
        match store {
            Some(s) => *final(out) == s.encoded(struct_size),
            None => *final(out) == *old(out),
        },
{
    let raw = match store {
        Some(s) => Some(s.to_raw(struct_size)),
        None => None,
    };
    return_out_param(out, raw)
}

/// Reads back a backing store that the engine hands in to be collected.
/// Only a store that this layer wrote can be read; see
/// [`BackingStore::is_decodable`].
pub fn collect_backing_store(raw: &RawBackingStore) -> (r: BackingStore)
    requires
        BackingStore::decodable(*raw),
    ensures
        r == BackingStore::decoded(*raw),
{
    BackingStore::from_raw(raw)
}

/// One change that a platform view undergoes before it is composited.
#[derive(Debug, Clone, Copy, PartialEq, Eq, Hash, Structural)]
pub enum PlatformViewMutation<N> {
    Opacity(N),
    ClipRect(Rect<N>),
    ClipRoundedRect(RoundedRect<N>),
    Transformation(Transformation<N>),
}

/// A mutation as the engine writes it: a tag and a union.
#[derive(Debug, Clone, Copy, PartialEq, Eq, Hash, Structural)]
pub struct RawPlatformViewMutation<N> {
    pub mutation_type: u32,
    pub payload: PlatformViewMutation<N>,
}

impl<N: Copy> PlatformViewMutation<N> {
    /// The tag names the member that holds data.
    pub open spec fn decodable(raw: RawPlatformViewMutation<N>) -> bool {
        match (PlatformViewMutationType::of_code(raw.mutation_type), raw.payload) {
            (Some(PlatformViewMutationType::Opacity), PlatformViewMutation::Opacity(_)) => true,
            (Some(PlatformViewMutationType::ClipRect), PlatformViewMutation::ClipRect(_)) => true,
            (Some(PlatformViewMutationType::ClipRoundedRect), PlatformViewMutation::ClipRoundedRect(_)) => true,
            (Some(PlatformViewMutationType::Transformation), PlatformViewMutation::Transformation(_)) => true,
            _ => false,
        }
    }

    pub fn is_decodable(raw: &RawPlatformViewMutation<N>) -> (r: bool)
        ensures
            r == Self::decodable(*raw),
    {
        match (PlatformViewMutationType::from_raw(raw.mutation_type), &raw.payload) {
            (Ok(PlatformViewMutationType::Opacity), PlatformViewMutation::Opacity(_)) => true,
            (Ok(PlatformViewMutationType::ClipRect), PlatformViewMutation::ClipRect(_)) => true,
            (Ok(PlatformViewMutationType::ClipRoundedRect), PlatformViewMutation::ClipRoundedRect(_)) => true,
            (Ok(PlatformViewMutationType::Transformation), PlatformViewMutation::Transformation(_)) => true,
            _ => false,
        }
    }
}

/// An area made of rectangles.
pub struct Region<N> {
    pub rects: Vec<Rect<N>>,
}

/// What is known of a backing store when it is presented.
pub struct BackingStorePresentInfo<N> {
    /// The area of the store that holds the engine's contents; the rest is
    /// transparent.
    pub paint_region: Region<N>,
}

/// A view whose contents the embedder renders.
pub struct PlatformView<N> {
    /// The identifier that the application gave the view.
    pub identifier: i64,
    /// The mutations to apply, in order.
    pub mutations: Vec<PlatformViewMutation<N>>,
}

/// Who renders the contents of a layer.
pub enum LayerContent<N> {
    /// The engine rendered it into this backing store.
    BackingStore(BackingStore, BackingStorePresentInfo<N>),
    /// The embedder renders it.
    PlatformView(PlatformView<N>),
}

/// One composited surface of one frame.
pub struct Layer<N> {
    /// The offset of the layer, in physical pixels, from the top left of the
    /// root surface.
    pub offset: Point<N>,
    /// The size of the layer, in physical pixels.
    pub size: Size<N>,
    pub content: LayerContent<N>,
    /// When the frame is to be presented, in nanoseconds; 0 if unknown.
    pub presentation_time: u64,
}

/// The member of a raw layer's union that holds valid data.
pub enum RawLayerPayload<N> {
    /// A backing store and the rectangles of its paint region.
    BackingStore(RawBackingStore, Vec<Rect<N>>),
    /// A platform view's identifier and its mutations.
    PlatformView(i64, Vec<RawPlatformViewMutation<N>>),
}

/// A layer as the engine writes it.
pub struct RawLayer<N> {
    pub offset: Point<N>,
    pub size: Size<N>,
    pub content_type: u32,
    pub payload: RawLayerPayload<N>,
    pub presentation_time: u64,
}

/// The contents of a decoded layer, as plain values.
pub open spec fn content_view<N>(content: LayerContent<N>) -> (bool, BackingStore, Seq<Rect<N>>, i64, Seq<PlatformViewMutation<N>>) {
    match content {
        LayerContent::BackingStore(store, info) => (true, store, info.paint_region.rects@, 0, Seq::empty()),
        LayerContent::PlatformView(view) => (false, arbitrary(), Seq::empty(), view.identifier, view.mutations@),
    }
}

impl<N: Copy> Layer<N> {
    /// The tag names the member that holds data, and that member can be
    /// read: a backing store that this layer wrote, or mutations whose tags
    /// name their members.
    pub open spec fn decodable(raw: &RawLayer<N>) -> bool {
        match LayerContentType::of_code(raw.content_type) {
            Some(LayerContentType::BackingStore) => match &raw.payload {
                RawLayerPayload::BackingStore(store, _) => BackingStore::decodable(*store),
                _ => false,
            },
            Some(LayerContentType::PlatformView) => match &raw.payload {
                RawLayerPayload::PlatformView(_, mutations) => forall|i: int|
                    0 <= i < mutations@.len() ==> PlatformViewMutation::decodable(
                        #[trigger] mutations@[i],
                    ),
                _ => false,
            },
            None => false,
        }
    }

    /// Whether `layer` is what `raw` decodes to.
    pub open spec fn decodes_to(raw: &RawLayer<N>, layer: &Layer<N>) -> bool {
        &&& layer.offset == raw.offset
        &&& layer.size == raw.size
        &&& layer.presentation_time == raw.presentation_time
        &&& match &raw.payload {
            RawLayerPayload::BackingStore(store, rects) => content_view(layer.content) == (
                true,
                BackingStore::decoded(*store),
                rects@,
                0i64,
                Seq::<PlatformViewMutation<N>>::empty(),
            ),
            RawLayerPayload::PlatformView(identifier, mutations) => {
                let v = content_view(layer.content);
                &&& !v.0
                &&& v.3 == *identifier
                &&& v.4 == mutations@.map_values(|m: RawPlatformViewMutation<N>| m.payload)
            },
        }
    }

    pub fn is_decodable(raw: &RawLayer<N>) -> (r: bool)
        ensures
            r == Self::decodable(raw),
    {
        match LayerContentType::from_raw(raw.content_type) {
            Ok(LayerContentType::BackingStore) => match &raw.payload {
                RawLayerPayload::BackingStore(store, _) => BackingStore::is_decodable(store),
                _ => false,
            },
            Ok(LayerContentType::PlatformView) => match &raw.payload {
                RawLayerPayload::PlatformView(_, mutations) => all_mutations_decodable(mutations),
                _ => false,
            },
            Err(_) => false,
        }
    }

    /// Reads a layer that the engine wrote.
    pub fn from_raw(raw: &RawLayer<N>) -> (r: Layer<N>)
        requires
            Self::decodable(raw),
        ensures
            Self::decodes_to(raw, &r),
    {
        let content = match &raw.payload {
            RawLayerPayload::BackingStore(store, rects) => {
                let mut copied: Vec<Rect<N>> = Vec::new();
                let mut i: usize = 0;
                while i < rects.len()
                    invariant
                        i <= rects@.len(),
                        copied@ == rects@.subrange(0, i as int),
                    decreases rects@.len() - i,
                {
                    copied.push(rects[i]);
                    assert(rects@.subrange(0, i as int + 1) =~= rects@.subrange(0, i as int).push(rects@[i as int]));
                    i = i + 1;
                }
                assert(rects@.subrange(0, i as int) =~= rects@);
                LayerContent::BackingStore(
                    BackingStore::from_raw(store),
                    BackingStorePresentInfo { paint_region: Region { rects: copied } },
                )
            },
            RawLayerPayload::PlatformView(identifier, mutations) => {
                let mut copied: Vec<PlatformViewMutation<N>> = Vec::new();
                let mut i: usize = 0;
                while i < mutations.len()
                    invariant
                        i <= mutations@.len(),
                        copied@ == mutations@.subrange(0, i as int).map_values(
                            |m: RawPlatformViewMutation<N>| m.payload,
                        ),
                    decreases mutations@.len() - i,
                {
                    copied.push(mutations[i].payload);
                    assert(mutations@.subrange(0, i as int + 1).map_values(
                        |m: RawPlatformViewMutation<N>| m.payload,
                    ) =~= mutations@.subrange(0, i as int).map_values(
                        |m: RawPlatformViewMutation<N>| m.payload,
                    ).push(mutations@[i as int].payload));
                    i = i + 1;
                }
                assert(mutations@.subrange(0, i as int) =~= mutations@);
                LayerContent::PlatformView(PlatformView { identifier: *identifier, mutations: copied })
            },
        };
        Layer { offset: raw.offset, size: raw.size, content, presentation_time: raw.presentation_time }
    }
}

fn all_mutations_decodable<N: Copy>(mutations: &Vec<RawPlatformViewMutation<N>>) -> (r: bool)
    ensures
        r == forall|i: int|
            0 <= i < mutations@.len() ==> PlatformViewMutation::decodable(#[trigger] mutations@[i]),
{
    let mut i: usize = 0;
    while i < mutations.len()
        invariant
            i <= mutations@.len(),
            forall|j: int| 0 <= j < i ==> PlatformViewMutation::decodable(#[trigger] mutations@[j]),
        decreases mutations@.len() - i,
    {
        if !PlatformViewMutation::is_decodable(&mutations[i]) {
            return false;
        }
        i = i + 1;
    }
    true
}

/// Reads the layers that the engine hands to a present, in order. No layers
/// give no layers.
pub fn decode_layers<N: Copy>(raw: &[RawLayer<N>]) -> (r: Vec<Layer<N>>)
    requires
        forall|i: int| 0 <= i < raw@.len() ==> Layer::decodable(&#[trigger] raw@[i]),
    ensures
        r@.len() == raw@.len(),
        forall|i: int| 0 <= i < raw@.len() ==> Layer::decodes_to(&raw@[i], &#[trigger] r@[i]),
{
    let mut layers: Vec<Layer<N>> = Vec::new();
    let mut i: usize = 0;
    while i < raw.len()
        invariant
            i <= raw@.len(),
            layers@.len() == i,
            forall|j: int| 0 <= j < raw@.len() ==> Layer::decodable(&#[trigger] raw@[j]),
            forall|j: int| 0 <= j < i ==> Layer::decodes_to(&raw@[j], &#[trigger] layers@[j]),
        decreases raw@.len() - i,
    {
        let layer = Layer::from_raw(&raw[i]);
        layers.push(layer);
        i = i + 1;
    }
    layers
}

} // verus!
