use fluster::renderer::metal::{get_next_drawable, present_drawable};
use fluster::renderer::software::surface_present;
use fluster::{
    FrameInfo, MetalExternalTexture, MetalRendererConfig, MetalRendererHandler, MetalTexture,
    RendererConfig, RendererType, RendererUserData, Size, SoftwareRendererConfig,
    SoftwareRendererHandler,
};

struct Screen {
    frames: Vec<(usize, usize, usize)>,
}

impl SoftwareRendererHandler for Screen {
    fn surface_present(&mut self, allocation: usize, row_bytes: usize, height: usize) -> bool {
        self.frames.push((allocation, row_bytes, height));
        true
    }
}

struct Drawables {
    presented: Vec<MetalTexture>,
}

impl MetalRendererHandler for Drawables {
    fn get_next_drawable(&mut self, frame_info: FrameInfo) -> MetalTexture {
        MetalTexture { texture_id: frame_info.size.width as i64, texture: 0x77 }
    }

    fn present_drawable(&mut self, texture: MetalTexture) -> bool {
        self.presented.push(texture);
        true
    }

    fn external_texture_frame(&mut self, _: i64, _: usize, _: usize) -> Option<MetalExternalTexture> {
        None
    }
}

type Config = RendererConfig<(), SoftwareRendererConfig<Screen>, MetalRendererConfig<Drawables>, ()>;
type UserData = RendererUserData<(), SoftwareRendererConfig<Screen>, MetalRendererConfig<Drawables>, ()>;

#[test]
fn software_config_tags_and_dispatches_to_software_handler() {
    let config: Config = RendererConfig::Software(SoftwareRendererConfig { handler: Screen { frames: vec![] } });
    let (tag, mut user_data): (RendererType, UserData) = config.into_user_data();
    assert_eq!(tag, RendererType::Software);
    assert_eq!(user_data.renderer_type(), RendererType::Software);
    assert!(surface_present(&mut user_data, 0x10, 64, 8));
    assert_eq!(user_data.software().handler.frames, vec![(0x10, 64, 8)]);
}

#[test]
fn metal_drawable_round_trips_through_the_engine() {
    let config: Config = RendererConfig::Metal(MetalRendererConfig {
        device: 1,
        present_command_queue: 2,
        handler: Drawables { presented: vec![] },
    });
    let (tag, mut user_data) = config.into_user_data();
    assert_eq!(tag, RendererType::Metal);
    let raw = get_next_drawable(&mut user_data, FrameInfo { size: Size { width: 800, height: 600 } });
    assert!(MetalTexture::is_decodable(&raw));
    assert_eq!(raw.user_data, 0x77);
    assert!(present_drawable(&mut user_data, &raw));
    assert_eq!(
        user_data.metal().handler.presented,
        vec![MetalTexture { texture_id: 800, texture: 0x77 }]
    );
}
