//! The integer-coded enumerations of the embedder interface.
use vstd::prelude::*;

use crate::native_enum::NativeEnum;

verus! {

/// The pixel format that the engine renders into a software backing store with.
#[derive(Debug, Clone, Copy, PartialEq, Eq, Hash, Structural)]
pub enum SoftwarePixelFormat {
    /// 8-bit grayscale; the luma value of red, green and blue.
    Gray8,
    /// 5 bits red, 6 bits green, 5 bits blue in a 16-bit word.
    RGB565,
    /// 4 bits each of red, green, blue and alpha in a 16-bit word.
    RGBA4444,
    /// 8 bits each of red, green, blue and alpha, in that byte order.
    RGBA8888,
    /// 8 bits each of red, green and blue, then 8 unused bits.
    RGBX8888,
    /// 8 bits each of blue, green, red and alpha, in that byte order.
    BGRA8888,
    /// Either `BGRA8888` or `RGBA8888`, as the platform prefers.
    Native32,
}

impl NativeEnum for SoftwarePixelFormat {
    open spec fn code(self) -> u32 {
        match self {
            SoftwarePixelFormat::Gray8 => 0,
            SoftwarePixelFormat::RGB565 => 1,
            SoftwarePixelFormat::RGBA4444 => 2,
            SoftwarePixelFormat::RGBA8888 => 3,
            SoftwarePixelFormat::RGBX8888 => 4,
            SoftwarePixelFormat::BGRA8888 => 5,
            SoftwarePixelFormat::Native32 => 6,
        }
    }

    open spec fn of_code(raw: u32) -> Option<Self> {
        match raw {
            0 => Some(SoftwarePixelFormat::Gray8),
            1 => Some(SoftwarePixelFormat::RGB565),
            2 => Some(SoftwarePixelFormat::RGBA4444),
            3 => Some(SoftwarePixelFormat::RGBA8888),
            4 => Some(SoftwarePixelFormat::RGBX8888),
            5 => Some(SoftwarePixelFormat::BGRA8888),
            6 => Some(SoftwarePixelFormat::Native32),
            _ => None,
        }
    }

    fn to_raw(self) -> (r: u32) {
        match self {
            SoftwarePixelFormat::Gray8 => 0,
            SoftwarePixelFormat::RGB565 => 1,
            SoftwarePixelFormat::RGBA4444 => 2,
            SoftwarePixelFormat::RGBA8888 => 3,
            SoftwarePixelFormat::RGBX8888 => 4,
            SoftwarePixelFormat::BGRA8888 => 5,
            SoftwarePixelFormat::Native32 => 6,
        }
    }

    fn from_raw(raw: u32) -> (r: Result<Self, u32>) {
        match raw {
            0 => Ok(SoftwarePixelFormat::Gray8),
            1 => Ok(SoftwarePixelFormat::RGB565),
            2 => Ok(SoftwarePixelFormat::RGBA4444),
            3 => Ok(SoftwarePixelFormat::RGBA8888),
            4 => Ok(SoftwarePixelFormat::RGBX8888),
            5 => Ok(SoftwarePixelFormat::BGRA8888),
            6 => Ok(SoftwarePixelFormat::Native32),
            _ => Err(raw),
        }
    }

    proof fn lemma_round_trip(self) {
    }

    proof fn lemma_code_of_decoded(raw: u32) {
    }
}

/// The phase of a pointer event.
#[derive(Debug, Clone, Copy, PartialEq, Eq, Hash, Structural)]
pub enum PointerPhase {
    /// The pointer stopped sending events without completing its gesture.
    Cancel,
    /// The pointer, which was down, is now up.
    Up,
    /// The pointer, which was up, is now down.
    Down,
    /// The pointer moved while down.
    Move,
    /// The pointer started sending input.
    Add,
    /// The pointer stopped sending input.
    Remove,
    /// The pointer moved while up.
    Hover,
    /// A pan or zoom started on this pointer.
    PanZoomStart,
    /// The pan or zoom changed.
    PanZoomUpdate,
    /// The pan or zoom ended.
    PanZoomEnd,
}

impl NativeEnum for PointerPhase {
    open spec fn code(self) -> u32 {
        match self {
            PointerPhase::Cancel => 0,
            PointerPhase::Up => 1,
            PointerPhase::Down => 2,
            PointerPhase::Move => 3,
            PointerPhase::Add => 4,
            PointerPhase::Remove => 5,
            PointerPhase::Hover => 6,
            PointerPhase::PanZoomStart => 7,
            PointerPhase::PanZoomUpdate => 8,
            PointerPhase::PanZoomEnd => 9,
        }
    }

    open spec fn of_code(raw: u32) -> Option<Self> {
        match raw {
            0 => Some(PointerPhase::Cancel),
            1 => Some(PointerPhase::Up),
            2 => Some(PointerPhase::Down),
            3 => Some(PointerPhase::Move),
            4 => Some(PointerPhase::Add),
            5 => Some(PointerPhase::Remove),
            6 => Some(PointerPhase::Hover),
            7 => Some(PointerPhase::PanZoomStart),
            8 => Some(PointerPhase::PanZoomUpdate),
            9 => Some(PointerPhase::PanZoomEnd),
            _ => None,
        }
    }

    fn to_raw(self) -> (r: u32) {
        match self {
            PointerPhase::Cancel => 0,
            PointerPhase::Up => 1,
            PointerPhase::Down => 2,
            PointerPhase::Move => 3,
            PointerPhase::Add => 4,
            PointerPhase::Remove => 5,
            PointerPhase::Hover => 6,
            PointerPhase::PanZoomStart => 7,
            PointerPhase::PanZoomUpdate => 8,
            PointerPhase::PanZoomEnd => 9,
        }
    }

    fn from_raw(raw: u32) -> (r: Result<Self, u32>) {
        match raw {
            0 => Ok(PointerPhase::Cancel),
            1 => Ok(PointerPhase::Up),
            2 => Ok(PointerPhase::Down),
            3 => Ok(PointerPhase::Move),
            4 => Ok(PointerPhase::Add),
            5 => Ok(PointerPhase::Remove),
            6 => Ok(PointerPhase::Hover),
            7 => Ok(PointerPhase::PanZoomStart),
            8 => Ok(PointerPhase::PanZoomUpdate),
            9 => Ok(PointerPhase::PanZoomEnd),
            _ => Err(raw),
        }
    }

    proof fn lemma_round_trip(self) {
    }

    proof fn lemma_code_of_decoded(raw: u32) {
    }
}

/// The kind of device that produced a pointer event.
#[derive(Debug, Clone, Copy, PartialEq, Eq, Hash, Structural)]
pub enum PointerDeviceKind {
    Mouse,
    Touch,
    Stylus,
    Trackpad,
}

impl NativeEnum for PointerDeviceKind {
    open spec fn code(self) -> u32 {
        match self {
            PointerDeviceKind::Mouse => 1,
            PointerDeviceKind::Touch => 2,
            PointerDeviceKind::Stylus => 3,
            PointerDeviceKind::Trackpad => 4,
        }
    }

    open spec fn of_code(raw: u32) -> Option<Self> {
        match raw {
            1 => Some(PointerDeviceKind::Mouse),
            2 => Some(PointerDeviceKind::Touch),
            3 => Some(PointerDeviceKind::Stylus),
            4 => Some(PointerDeviceKind::Trackpad),
            _ => None,
        }
    }

    fn to_raw(self) -> (r: u32) {
        match self {
            PointerDeviceKind::Mouse => 1,
            PointerDeviceKind::Touch => 2,
            PointerDeviceKind::Stylus => 3,
            PointerDeviceKind::Trackpad => 4,
        }
    }

    fn from_raw(raw: u32) -> (r: Result<Self, u32>) {
        match raw {
            1 => Ok(PointerDeviceKind::Mouse),
            2 => Ok(PointerDeviceKind::Touch),
            3 => Ok(PointerDeviceKind::Stylus),
            4 => Ok(PointerDeviceKind::Trackpad),
            _ => Err(raw),
        }
    }

    proof fn lemma_round_trip(self) {
    }

    proof fn lemma_code_of_decoded(raw: u32) {
    }
}

/// The kind of signal that a pointer event carries.
#[derive(Debug, Clone, Copy, PartialEq, Eq, Hash, Structural)]
pub enum PointerSignalKind {
    /// The event carries no signal.
    NoSignal,
    Scroll,
    ScrollInertiaCancel,
    Scale,
}

impl NativeEnum for PointerSignalKind {
    open spec fn code(self) -> u32 {
        match self {
            PointerSignalKind::NoSignal => 0,
            PointerSignalKind::Scroll => 1,
            PointerSignalKind::ScrollInertiaCancel => 2,
            PointerSignalKind::Scale => 3,
        }
    }

    open spec fn of_code(raw: u32) -> Option<Self> {
        match raw {
            0 => Some(PointerSignalKind::NoSignal),
            1 => Some(PointerSignalKind::Scroll),
            2 => Some(PointerSignalKind::ScrollInertiaCancel),
            3 => Some(PointerSignalKind::Scale),
            _ => None,
        }
    }

    fn to_raw(self) -> (r: u32) {
        match self {
            PointerSignalKind::NoSignal => 0,
            PointerSignalKind::Scroll => 1,
            PointerSignalKind::ScrollInertiaCancel => 2,
            PointerSignalKind::Scale => 3,
        }
    }

    fn from_raw(raw: u32) -> (r: Result<Self, u32>) {
        match raw {
            0 => Ok(PointerSignalKind::NoSignal),
            1 => Ok(PointerSignalKind::Scroll),
            2 => Ok(PointerSignalKind::ScrollInertiaCancel),
            3 => Ok(PointerSignalKind::Scale),
            _ => Err(raw),
        }
    }

    proof fn lemma_round_trip(self) {
    }

    proof fn lemma_code_of_decoded(raw: u32) {
    }
}

/// The phase of a key event.
#[derive(Debug, Clone, Copy, PartialEq, Eq, Hash, Structural)]
pub enum KeyPhase {
    Up,
    Down,
    Repeat,
}

impl NativeEnum for KeyPhase {
    open spec fn code(self) -> u32 {
        match self {
            KeyPhase::Up => 1,
            KeyPhase::Down => 2,
            KeyPhase::Repeat => 3,
        }
    }

    open spec fn of_code(raw: u32) -> Option<Self> {
        match raw {
            1 => Some(KeyPhase::Up),
            2 => Some(KeyPhase::Down),
            3 => Some(KeyPhase::Repeat),
            _ => None,
        }
    }

    fn to_raw(self) -> (r: u32) {
        match self {
            KeyPhase::Up => 1,
            KeyPhase::Down => 2,
            KeyPhase::Repeat => 3,
        }
    }

    fn from_raw(raw: u32) -> (r: Result<Self, u32>) {
        match raw {
            1 => Ok(KeyPhase::Up),
            2 => Ok(KeyPhase::Down),
            3 => Ok(KeyPhase::Repeat),
            _ => Err(raw),
        }
    }

    proof fn lemma_round_trip(self) {
    }

    proof fn lemma_code_of_decoded(raw: u32) {
    }
}

/// The kind of device that produced a key event.
#[derive(Debug, Clone, Copy, PartialEq, Eq, Hash, Structural)]
pub enum KeyEventDeviceType {
    Keyboard,
    DirectionalPad,
    Gamepad,
    Joystick,
    Hdmi,
}

impl NativeEnum for KeyEventDeviceType {
    open spec fn code(self) -> u32 {
        match self {
            KeyEventDeviceType::Keyboard => 1,
            KeyEventDeviceType::DirectionalPad => 2,
            KeyEventDeviceType::Gamepad => 3,
            KeyEventDeviceType::Joystick => 4,
            KeyEventDeviceType::Hdmi => 5,
        }
    }

    open spec fn of_code(raw: u32) -> Option<Self> {
        match raw {
            1 => Some(KeyEventDeviceType::Keyboard),
            2 => Some(KeyEventDeviceType::DirectionalPad),
            3 => Some(KeyEventDeviceType::Gamepad),
            4 => Some(KeyEventDeviceType::Joystick),
            5 => Some(KeyEventDeviceType::Hdmi),
            _ => None,
        }
    }

    fn to_raw(self) -> (r: u32) {
        match self {
            KeyEventDeviceType::Keyboard => 1,
            KeyEventDeviceType::DirectionalPad => 2,
            KeyEventDeviceType::Gamepad => 3,
            KeyEventDeviceType::Joystick => 4,
            KeyEventDeviceType::Hdmi => 5,
        }
    }

    fn from_raw(raw: u32) -> (r: Result<Self, u32>) {
        match raw {
            1 => Ok(KeyEventDeviceType::Keyboard),
            2 => Ok(KeyEventDeviceType::DirectionalPad),
            3 => Ok(KeyEventDeviceType::Gamepad),
            4 => Ok(KeyEventDeviceType::Joystick),
            5 => Ok(KeyEventDeviceType::Hdmi),
            _ => Err(raw),
        }
    }

    proof fn lemma_round_trip(self) {
    }

    proof fn lemma_code_of_decoded(raw: u32) {
    }
}

/// The role of a thread that the engine manages.
#[derive(Debug, Clone, Copy, PartialEq, Eq, Hash, Structural)]
pub enum NativeThreadType {
    /// The thread on which the engine was started; one per engine.
    Platform,
    /// The thread that runs rendering commands; one per engine.
    Render,
    /// The thread that services the root isolate; one per engine.
    UI,
    /// One of the threads for long-running background work.
    Worker,
}

impl NativeEnum for NativeThreadType {
    open spec fn code(self) -> u32 {
        match self {
            NativeThreadType::Platform => 0,
            NativeThreadType::Render => 1,
            NativeThreadType::UI => 2,
            NativeThreadType::Worker => 3,
        }
    }

    open spec fn of_code(raw: u32) -> Option<Self> {
        match raw {
            0 => Some(NativeThreadType::Platform),
            1 => Some(NativeThreadType::Render),
            2 => Some(NativeThreadType::UI),
            3 => Some(NativeThreadType::Worker),
            _ => None,
        }
    }

    fn to_raw(self) -> (r: u32) {
        match self {
            NativeThreadType::Platform => 0,
            NativeThreadType::Render => 1,
            NativeThreadType::UI => 2,
            NativeThreadType::Worker => 3,
        }
    }

    fn from_raw(raw: u32) -> (r: Result<Self, u32>) {
        match raw {
            0 => Ok(NativeThreadType::Platform),
            1 => Ok(NativeThreadType::Render),
            2 => Ok(NativeThreadType::UI),
            3 => Ok(NativeThreadType::Worker),
            _ => Err(raw),
        }
    }

    proof fn lemma_round_trip(self) {
    }

    proof fn lemma_code_of_decoded(raw: u32) {
    }
}

/// Why the embedder reports its displays.
#[derive(Debug, Clone, Copy, PartialEq, Eq, Hash, Structural)]
pub enum DisplaysUpdateType {
    /// The displays that were active when the engine started.
    Startup,
    Count,
}

impl NativeEnum for DisplaysUpdateType {
    open spec fn code(self) -> u32 {
        match self {
            DisplaysUpdateType::Startup => 0,
            DisplaysUpdateType::Count => 1,
        }
    }

    open spec fn of_code(raw: u32) -> Option<Self> {
        match raw {
            0 => Some(DisplaysUpdateType::Startup),
            1 => Some(DisplaysUpdateType::Count),
            _ => None,
        }
    }

    fn to_raw(self) -> (r: u32) {
        match self {
            DisplaysUpdateType::Startup => 0,
            DisplaysUpdateType::Count => 1,
        }
    }

    fn from_raw(raw: u32) -> (r: Result<Self, u32>) {
        match raw {
            0 => Ok(DisplaysUpdateType::Startup),
            1 => Ok(DisplaysUpdateType::Count),
            _ => Err(raw),
        }
    }

    proof fn lemma_round_trip(self) {
    }

    proof fn lemma_code_of_decoded(raw: u32) {
    }
}

/// The pixel layout of an external Metal texture.
#[derive(Debug, Clone, Copy, PartialEq, Eq, Hash, Structural)]
pub enum MetalExternalTexturePixelFormat {
    YUVA,
    RGBA,
}

impl NativeEnum for MetalExternalTexturePixelFormat {
    open spec fn code(self) -> u32 {
        match self {
            MetalExternalTexturePixelFormat::YUVA => 0,
            MetalExternalTexturePixelFormat::RGBA => 1,
        }
    }

    open spec fn of_code(raw: u32) -> Option<Self> {
        match raw {
            0 => Some(MetalExternalTexturePixelFormat::YUVA),
            1 => Some(MetalExternalTexturePixelFormat::RGBA),
            _ => None,
        }
    }

    fn to_raw(self) -> (r: u32) {
        match self {
            MetalExternalTexturePixelFormat::YUVA => 0,
            MetalExternalTexturePixelFormat::RGBA => 1,
        }
    }

    fn from_raw(raw: u32) -> (r: Result<Self, u32>) {
        match raw {
            0 => Ok(MetalExternalTexturePixelFormat::YUVA),
            1 => Ok(MetalExternalTexturePixelFormat::RGBA),
            _ => Err(raw),
        }
    }

    proof fn lemma_round_trip(self) {
    }

    proof fn lemma_code_of_decoded(raw: u32) {
    }
}

/// The color space of a YUV external Metal texture.
#[derive(Debug, Clone, Copy, PartialEq, Eq, Hash, Structural)]
pub enum MetalExternalTextureYUVColorSpace {
    BT601FullRange,
    BT601LimitedRange,
}

impl NativeEnum for MetalExternalTextureYUVColorSpace {
    open spec fn code(self) -> u32 {
        match self {
            MetalExternalTextureYUVColorSpace::BT601FullRange => 0,
            MetalExternalTextureYUVColorSpace::BT601LimitedRange => 1,
        }
    }

    open spec fn of_code(raw: u32) -> Option<Self> {
        match raw {
            0 => Some(MetalExternalTextureYUVColorSpace::BT601FullRange),
            1 => Some(MetalExternalTextureYUVColorSpace::BT601LimitedRange),
            _ => None,
        }
    }

    fn to_raw(self) -> (r: u32) {
        match self {
            MetalExternalTextureYUVColorSpace::BT601FullRange => 0,
            MetalExternalTextureYUVColorSpace::BT601LimitedRange => 1,
        }
    }

    fn from_raw(raw: u32) -> (r: Result<Self, u32>) {
        match raw {
            0 => Ok(MetalExternalTextureYUVColorSpace::BT601FullRange),
            1 => Ok(MetalExternalTextureYUVColorSpace::BT601LimitedRange),
            _ => Err(raw),
        }
    }

    proof fn lemma_round_trip(self) {
    }

    proof fn lemma_code_of_decoded(raw: u32) {
    }
}

/// The tag of a raw backing store: which member of its union is valid.
#[derive(Debug, Clone, Copy, PartialEq, Eq, Hash, Structural)]
pub enum BackingStoreType {
    OpenGL,
    /// The deprecated software layout, which this layer never writes.
    Software,
    Metal,
    Vulkan,
    Software2,
}

impl NativeEnum for BackingStoreType {
    open spec fn code(self) -> u32 {
        match self {
            BackingStoreType::OpenGL => 0,
            BackingStoreType::Software => 1,
            BackingStoreType::Metal => 2,
            BackingStoreType::Vulkan => 3,
            BackingStoreType::Software2 => 4,
        }
    }

    open spec fn of_code(raw: u32) -> Option<Self> {
        match raw {
            0 => Some(BackingStoreType::OpenGL),
            1 => Some(BackingStoreType::Software),
            2 => Some(BackingStoreType::Metal),
            3 => Some(BackingStoreType::Vulkan),
            4 => Some(BackingStoreType::Software2),
            _ => None,
        }
    }

    fn to_raw(self) -> (r: u32) {
        match self {
            BackingStoreType::OpenGL => 0,
            BackingStoreType::Software => 1,
            BackingStoreType::Metal => 2,
            BackingStoreType::Vulkan => 3,
            BackingStoreType::Software2 => 4,
        }
    }

    fn from_raw(raw: u32) -> (r: Result<Self, u32>) {
        match raw {
            0 => Ok(BackingStoreType::OpenGL),
            1 => Ok(BackingStoreType::Software),
            2 => Ok(BackingStoreType::Metal),
            3 => Ok(BackingStoreType::Vulkan),
            4 => Ok(BackingStoreType::Software2),
            _ => Err(raw),
        }
    }

    proof fn lemma_round_trip(self) {
    }

    proof fn lemma_code_of_decoded(raw: u32) {
    }
}

/// The tag of a raw OpenGL backing store.
#[derive(Debug, Clone, Copy, PartialEq, Eq, Hash, Structural)]
pub enum OpenGLTargetType {
    Texture,
    Framebuffer,
}

impl NativeEnum for OpenGLTargetType {
    open spec fn code(self) -> u32 {
        match self {
            OpenGLTargetType::Texture => 0,
            OpenGLTargetType::Framebuffer => 1,
        }
    }

    open spec fn of_code(raw: u32) -> Option<Self> {
        match raw {
            0 => Some(OpenGLTargetType::Texture),
            1 => Some(OpenGLTargetType::Framebuffer),
            _ => None,
        }
    }

    fn to_raw(self) -> (r: u32) {
        match self {
            OpenGLTargetType::Texture => 0,
            OpenGLTargetType::Framebuffer => 1,
        }
    }

    fn from_raw(raw: u32) -> (r: Result<Self, u32>) {
        match raw {
            0 => Ok(OpenGLTargetType::Texture),
            1 => Ok(OpenGLTargetType::Framebuffer),
            _ => Err(raw),
        }
    }

    proof fn lemma_round_trip(self) {
    }

    proof fn lemma_code_of_decoded(raw: u32) {
    }
}

/// The tag of a raw renderer configuration.
#[derive(Debug, Clone, Copy, PartialEq, Eq, Hash, Structural)]
pub enum RendererType {
    OpenGL,
    Software,
    Metal,
    Vulkan,
}

impl NativeEnum for RendererType {
    open spec fn code(self) -> u32 {
        match self {
            RendererType::OpenGL => 0,
            RendererType::Software => 1,
            RendererType::Metal => 2,
            RendererType::Vulkan => 3,
        }
    }

    open spec fn of_code(raw: u32) -> Option<Self> {
        match raw {
            0 => Some(RendererType::OpenGL),
            1 => Some(RendererType::Software),
            2 => Some(RendererType::Metal),
            3 => Some(RendererType::Vulkan),
            _ => None,
        }
    }

    fn to_raw(self) -> (r: u32) {
        match self {
            RendererType::OpenGL => 0,
            RendererType::Software => 1,
            RendererType::Metal => 2,
            RendererType::Vulkan => 3,
        }
    }

    fn from_raw(raw: u32) -> (r: Result<Self, u32>) {
        match raw {
            0 => Ok(RendererType::OpenGL),
            1 => Ok(RendererType::Software),
            2 => Ok(RendererType::Metal),
            3 => Ok(RendererType::Vulkan),
            _ => Err(raw),
        }
    }

    proof fn lemma_round_trip(self) {
    }

    proof fn lemma_code_of_decoded(raw: u32) {
    }
}

/// The tag of a raw platform-view mutation.
#[derive(Debug, Clone, Copy, PartialEq, Eq, Hash, Structural)]
pub enum PlatformViewMutationType {
    Opacity,
    ClipRect,
    ClipRoundedRect,
    Transformation,
}

impl NativeEnum for PlatformViewMutationType {
    open spec fn code(self) -> u32 {
        match self {
            PlatformViewMutationType::Opacity => 0,
            PlatformViewMutationType::ClipRect => 1,
            PlatformViewMutationType::ClipRoundedRect => 2,
            PlatformViewMutationType::Transformation => 3,
        }
    }

    open spec fn of_code(raw: u32) -> Option<Self> {
        match raw {
            0 => Some(PlatformViewMutationType::Opacity),
            1 => Some(PlatformViewMutationType::ClipRect),
            2 => Some(PlatformViewMutationType::ClipRoundedRect),
            3 => Some(PlatformViewMutationType::Transformation),
            _ => None,
        }
    }

    fn to_raw(self) -> (r: u32) {
        match self {
            PlatformViewMutationType::Opacity => 0,
            PlatformViewMutationType::ClipRect => 1,
            PlatformViewMutationType::ClipRoundedRect => 2,
            PlatformViewMutationType::Transformation => 3,
        }
    }

    fn from_raw(raw: u32) -> (r: Result<Self, u32>) {
        match raw {
            0 => Ok(PlatformViewMutationType::Opacity),
            1 => Ok(PlatformViewMutationType::ClipRect),
            2 => Ok(PlatformViewMutationType::ClipRoundedRect),
            3 => Ok(PlatformViewMutationType::Transformation),
            _ => Err(raw),
        }
    }

    proof fn lemma_round_trip(self) {
    }

    proof fn lemma_code_of_decoded(raw: u32) {
    }
}

/// The tag of a raw layer: who renders its contents.
#[derive(Debug, Clone, Copy, PartialEq, Eq, Hash, Structural)]
pub enum LayerContentType {
    BackingStore,
    PlatformView,
}

impl NativeEnum for LayerContentType {
    open spec fn code(self) -> u32 {
        match self {
            LayerContentType::BackingStore => 0,
            LayerContentType::PlatformView => 1,
        }
    }

    open spec fn of_code(raw: u32) -> Option<Self> {
        match raw {
            0 => Some(LayerContentType::BackingStore),
            1 => Some(LayerContentType::PlatformView),
            _ => None,
        }
    }

    fn to_raw(self) -> (r: u32) {
        match self {
            LayerContentType::BackingStore => 0,
            LayerContentType::PlatformView => 1,
        }
    }

    fn from_raw(raw: u32) -> (r: Result<Self, u32>) {
        match raw {
            0 => Ok(LayerContentType::BackingStore),
            1 => Ok(LayerContentType::PlatformView),
            _ => Err(raw),
        }
    }

    proof fn lemma_round_trip(self) {
    }

    proof fn lemma_code_of_decoded(raw: u32) {
    }
}

/// The tag of a raw object posted to an isolate port.
#[derive(Debug, Clone, Copy, PartialEq, Eq, Hash, Structural)]
pub enum DartObjectType {
    Null,
    Bool,
    Int32,
    Int64,
    Double,
    String,
    Buffer,
}

impl NativeEnum for DartObjectType {
    open spec fn code(self) -> u32 {
        match self {
            DartObjectType::Null => 0,
            DartObjectType::Bool => 1,
            DartObjectType::Int32 => 2,
            DartObjectType::Int64 => 3,
            DartObjectType::Double => 4,
            DartObjectType::String => 5,
            DartObjectType::Buffer => 6,
        }
    }

    open spec fn of_code(raw: u32) -> Option<Self> {
        match raw {
            0 => Some(DartObjectType::Null),
            1 => Some(DartObjectType::Bool),
            2 => Some(DartObjectType::Int32),
            3 => Some(DartObjectType::Int64),
            4 => Some(DartObjectType::Double),
            5 => Some(DartObjectType::String),
            6 => Some(DartObjectType::Buffer),
            _ => None,
        }
    }

    fn to_raw(self) -> (r: u32) {
        match self {
            DartObjectType::Null => 0,
            DartObjectType::Bool => 1,
            DartObjectType::Int32 => 2,
            DartObjectType::Int64 => 3,
            DartObjectType::Double => 4,
            DartObjectType::String => 5,
            DartObjectType::Buffer => 6,
        }
    }

    fn from_raw(raw: u32) -> (r: Result<Self, u32>) {
        match raw {
            0 => Ok(DartObjectType::Null),
            1 => Ok(DartObjectType::Bool),
            2 => Ok(DartObjectType::Int32),
            3 => Ok(DartObjectType::Int64),
            4 => Ok(DartObjectType::Double),
            5 => Ok(DartObjectType::String),
            6 => Ok(DartObjectType::Buffer),
            _ => Err(raw),
        }
    }

    proof fn lemma_round_trip(self) {
    }

    proof fn lemma_code_of_decoded(raw: u32) {
    }
}

} // verus!
