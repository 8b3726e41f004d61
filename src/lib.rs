//! A safe layer over the native embedder interface of a UI engine.
//!
//! The engine hands out raw handles and calls back into the embedder through
//! C-style callbacks that carry an opaque user-data address. This crate holds
//! the protocol that makes that safe: status-code mapping, single-use
//! exchanges whose continuations run exactly once, the engine lifecycle and
//! its teardown order, the tagged-union encodings of backing stores, the
//! damage cache of the OpenGL backend and the task-runner bridge.
pub mod aot;
pub mod bridge;
pub mod build_support;
pub mod c_string;
pub mod compositor;
pub mod damage;
pub mod engine;
pub mod enums;
pub mod error;
pub mod events;
pub mod exchange;
pub mod graphics;
pub mod native_enum;
pub mod pointer;
pub mod renderer;
pub mod task_runners;
pub mod time;

pub use aot::{AOTData, AOTDataSource};
pub use bridge::{return_out_param, SlotToken, Slots};
pub use build_support::{DartFrontend, FlutterApp, FlutterAppBuilder, MissingTool, Mode};
pub use c_string::nul_terminated;
pub use compositor::{
    collect_backing_store, decode_layers, provide_backing_store, BackingStorePresentInfo, Layer,
    LayerContent, PlatformView, PlatformViewMutation, RawLayer, RawLayerPayload,
    RawPlatformViewMutation, Region,
};
pub use damage::DamageCache;
pub use engine::{
    Engine, EngineState, EngineUserData, PlatformMessageResponse, TeardownStep, ViewId, VsyncBaton,
    IMPLICIT_VIEW_ID,
};
pub use enums::{
    BackingStoreType, DartObjectType, DisplaysUpdateType, LayerContentType, PlatformViewMutationType, KeyEventDeviceType, KeyPhase, MetalExternalTexturePixelFormat,
    MetalExternalTextureYUVColorSpace, NativeThreadType, OpenGLTargetType, PointerDeviceKind,
    PointerPhase, PointerSignalKind, RendererType, SoftwarePixelFormat,
};
pub use error::{EngineResult, Error, FlutterEngineResult};
pub use events::{
    encode_key_event, raw_locales, DartObject, KeyEvent, Locale, RawDartObject, RawDartValue,
    RawKeyEvent, RawLocale,
};
pub use exchange::{Exchange, Exchanges};
pub use graphics::{Coordinate, FrameInfo, Point, Rect, RoundedRect, Size, Transformation};
pub use native_enum::NativeEnum;
pub use pointer::PointerButtons;
pub use renderer::metal::{
    MetalBackingStore, MetalExternalTexture, MetalRendererConfig, MetalRendererHandler, MetalTexture,
    RawMetalBackingStore, RawMetalTexture,
};
pub use renderer::opengl::{
    OpenGLBackingStore, OpenGLFramebuffer, OpenGLRendererConfig, OpenGLRendererHandler, OpenGLTexture,
    PresentInfo, RawOpenGLBackingStore, RawOpenGLFramebuffer,
    RawOpenGLPayload, RawOpenGLTexture,
};
pub use renderer::software::{RawSoftwareBackingStore, SoftwareBackingStore, SoftwareRendererHandler};
pub use renderer::vulkan::{RawVulkanBackingStore, RawVulkanImage, VulkanBackingStore, VulkanImage};
pub use renderer::{
    BackingStore, DestructionCallback, RawBackingStore, RawBackingStorePayload, RendererConfig,
    RendererUserData, SoftwareRendererConfig,
};
pub use task_runners::{
    CustomTaskRunners, PostedTask, Task, TaskRunnerDescription, TaskRunnerHandler, TaskSchedule,
};
