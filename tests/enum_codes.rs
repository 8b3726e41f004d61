use fluster::{DartObjectType, LayerContentType, PlatformViewMutationType};
use fluster::{
    BackingStoreType, DisplaysUpdateType, KeyEventDeviceType, KeyPhase, MetalExternalTexturePixelFormat, MetalExternalTextureYUVColorSpace, NativeThreadType, OpenGLTargetType, PointerDeviceKind, PointerPhase, PointerSignalKind, RendererType, SoftwarePixelFormat, NativeEnum,
};

#[test]
fn software_pixel_format_codes_round_trip() {
    let all = [
        SoftwarePixelFormat::Gray8,
        SoftwarePixelFormat::RGB565,
        SoftwarePixelFormat::RGBA4444,
        SoftwarePixelFormat::RGBA8888,
        SoftwarePixelFormat::RGBX8888,
        SoftwarePixelFormat::BGRA8888,
        SoftwarePixelFormat::Native32,
    ];
    for (i, v) in all.iter().enumerate() {
        assert_eq!(v.to_raw(), 0 + i as u32);
        assert_eq!(SoftwarePixelFormat::from_raw(v.to_raw()), Ok(*v));
    }
    let past_end = 7;
    assert_eq!(SoftwarePixelFormat::from_raw(past_end), Err(past_end));
}

#[test]
fn pointer_phase_codes_round_trip() {
    let all = [
        PointerPhase::Cancel,
        PointerPhase::Up,
        PointerPhase::Down,
        PointerPhase::Move,
        PointerPhase::Add,
        PointerPhase::Remove,
        PointerPhase::Hover,
        PointerPhase::PanZoomStart,
        PointerPhase::PanZoomUpdate,
        PointerPhase::PanZoomEnd,
    ];
    for (i, v) in all.iter().enumerate() {
        assert_eq!(v.to_raw(), 0 + i as u32);
        assert_eq!(PointerPhase::from_raw(v.to_raw()), Ok(*v));
    }
    let past_end = 10;
    assert_eq!(PointerPhase::from_raw(past_end), Err(past_end));
}

#[test]
fn pointer_device_kind_codes_round_trip() {
    let all = [
        PointerDeviceKind::Mouse,
        PointerDeviceKind::Touch,
        PointerDeviceKind::Stylus,
        PointerDeviceKind::Trackpad,
    ];
    for (i, v) in all.iter().enumerate() {
        assert_eq!(v.to_raw(), 1 + i as u32);
        assert_eq!(PointerDeviceKind::from_raw(v.to_raw()), Ok(*v));
    }
    let past_end = 5;
    assert_eq!(PointerDeviceKind::from_raw(past_end), Err(past_end));
    assert_eq!(PointerDeviceKind::from_raw(0), Err(0));
}

#[test]
fn pointer_signal_kind_codes_round_trip() {
    let all = [
        PointerSignalKind::NoSignal,
        PointerSignalKind::Scroll,
        PointerSignalKind::ScrollInertiaCancel,
        PointerSignalKind::Scale,
    ];
    for (i, v) in all.iter().enumerate() {
        assert_eq!(v.to_raw(), 0 + i as u32);
        assert_eq!(PointerSignalKind::from_raw(v.to_raw()), Ok(*v));
    }
    let past_end = 4;
    assert_eq!(PointerSignalKind::from_raw(past_end), Err(past_end));
}

#[test]
fn key_phase_codes_round_trip() {
    let all = [
        KeyPhase::Up,
        KeyPhase::Down,
        KeyPhase::Repeat,
    ];
    for (i, v) in all.iter().enumerate() {
        assert_eq!(v.to_raw(), 1 + i as u32);
        assert_eq!(KeyPhase::from_raw(v.to_raw()), Ok(*v));
    }
    let past_end = 4;
    assert_eq!(KeyPhase::from_raw(past_end), Err(past_end));
    assert_eq!(KeyPhase::from_raw(0), Err(0));
}

#[test]
fn key_event_device_type_codes_round_trip() {
    let all = [
        KeyEventDeviceType::Keyboard,
        KeyEventDeviceType::DirectionalPad,
        KeyEventDeviceType::Gamepad,
        KeyEventDeviceType::Joystick,
        KeyEventDeviceType::Hdmi,
    ];
    for (i, v) in all.iter().enumerate() {
        assert_eq!(v.to_raw(), 1 + i as u32);
        assert_eq!(KeyEventDeviceType::from_raw(v.to_raw()), Ok(*v));
    }
    let past_end = 6;
    assert_eq!(KeyEventDeviceType::from_raw(past_end), Err(past_end));
    assert_eq!(KeyEventDeviceType::from_raw(0), Err(0));
}

#[test]
fn native_thread_type_codes_round_trip() {
    let all = [
        NativeThreadType::Platform,
        NativeThreadType::Render,
        NativeThreadType::UI,
        NativeThreadType::Worker,
    ];
    for (i, v) in all.iter().enumerate() {
        assert_eq!(v.to_raw(), 0 + i as u32);
        assert_eq!(NativeThreadType::from_raw(v.to_raw()), Ok(*v));
    }
    let past_end = 4;
    assert_eq!(NativeThreadType::from_raw(past_end), Err(past_end));
}

#[test]
fn displays_update_type_codes_round_trip() {
    let all = [
        DisplaysUpdateType::Startup,
        DisplaysUpdateType::Count,
    ];
    for (i, v) in all.iter().enumerate() {
        assert_eq!(v.to_raw(), 0 + i as u32);
        assert_eq!(DisplaysUpdateType::from_raw(v.to_raw()), Ok(*v));
    }
    let past_end = 2;
    assert_eq!(DisplaysUpdateType::from_raw(past_end), Err(past_end));
}

#[test]
fn metal_external_texture_pixel_format_codes_round_trip() {
    let all = [
        MetalExternalTexturePixelFormat::YUVA,
        MetalExternalTexturePixelFormat::RGBA,
    ];
    for (i, v) in all.iter().enumerate() {
        assert_eq!(v.to_raw(), 0 + i as u32);
        assert_eq!(MetalExternalTexturePixelFormat::from_raw(v.to_raw()), Ok(*v));
    }
    let past_end = 2;
    assert_eq!(MetalExternalTexturePixelFormat::from_raw(past_end), Err(past_end));
}

#[test]
fn metal_external_texture_yuv_color_space_codes_round_trip() {
    let all = [
        MetalExternalTextureYUVColorSpace::BT601FullRange,
        MetalExternalTextureYUVColorSpace::BT601LimitedRange,
    ];
    for (i, v) in all.iter().enumerate() {
        assert_eq!(v.to_raw(), 0 + i as u32);
        assert_eq!(MetalExternalTextureYUVColorSpace::from_raw(v.to_raw()), Ok(*v));
    }
    let past_end = 2;
    assert_eq!(MetalExternalTextureYUVColorSpace::from_raw(past_end), Err(past_end));
}

#[test]
fn backing_store_type_codes_round_trip() {
    let all = [
        BackingStoreType::OpenGL,
        BackingStoreType::Software,
        BackingStoreType::Metal,
        BackingStoreType::Vulkan,
        BackingStoreType::Software2,
    ];
    for (i, v) in all.iter().enumerate() {
        assert_eq!(v.to_raw(), 0 + i as u32);
        assert_eq!(BackingStoreType::from_raw(v.to_raw()), Ok(*v));
    }
    let past_end = 5;
    assert_eq!(BackingStoreType::from_raw(past_end), Err(past_end));
}

#[test]
fn opengl_target_type_codes_round_trip() {
    let all = [
        OpenGLTargetType::Texture,
        OpenGLTargetType::Framebuffer,
    ];
    for (i, v) in all.iter().enumerate() {
        assert_eq!(v.to_raw(), 0 + i as u32);
        assert_eq!(OpenGLTargetType::from_raw(v.to_raw()), Ok(*v));
    }
    let past_end = 2;
    assert_eq!(OpenGLTargetType::from_raw(past_end), Err(past_end));
}

#[test]
fn renderer_type_codes_round_trip() {
    let all = [
        RendererType::OpenGL,
        RendererType::Software,
        RendererType::Metal,
        RendererType::Vulkan,
    ];
    for (i, v) in all.iter().enumerate() {
        assert_eq!(v.to_raw(), 0 + i as u32);
        assert_eq!(RendererType::from_raw(v.to_raw()), Ok(*v));
    }
    let past_end = 4;
    assert_eq!(RendererType::from_raw(past_end), Err(past_end));
}

#[test]
fn layer_and_object_tags_round_trip() {
    for (i, v) in [LayerContentType::BackingStore, LayerContentType::PlatformView].iter().enumerate() {
        assert_eq!(v.to_raw(), i as u32);
        assert_eq!(LayerContentType::from_raw(i as u32), Ok(*v));
    }
    assert_eq!(LayerContentType::from_raw(2), Err(2));
    assert_eq!(PlatformViewMutationType::from_raw(3), Ok(PlatformViewMutationType::Transformation));
    assert_eq!(PlatformViewMutationType::from_raw(4), Err(4));
    assert_eq!(DartObjectType::from_raw(6), Ok(DartObjectType::Buffer));
    assert_eq!(DartObjectType::from_raw(7), Err(7));
}
