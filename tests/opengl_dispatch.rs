use fluster::renderer::opengl::{
    clear_current, fbo_with_frame_info, gl_external_texture_frame, make_current, populate_existing_damage,
    present_with_info,
};
use fluster::{
    FrameInfo, OpenGLRendererConfig, OpenGLRendererHandler, OpenGLTexture, PresentInfo, RawOpenGLTexture,
    Rect, Region, RendererConfig, RendererUserData, Size, Transformation,
};

struct Gl {
    damage_asked: u32,
    presented: Vec<u32>,
}

impl OpenGLRendererHandler<f64> for Gl {
    fn make_current(&mut self) -> bool {
        true
    }
    fn clear_current(&mut self) -> bool {
        false
    }
    fn present(&mut self, present_info: PresentInfo<f64>) -> bool {
        self.presented.push(present_info.fbo_id);
        true
    }
    fn fbo_callback(&mut self, frame_info: FrameInfo) -> u32 {
        frame_info.size.width
    }
    fn make_resource_current(&mut self) -> bool {
        false
    }
    fn surface_transformation(&mut self) -> Transformation<f64> {
        Transformation { scale_x: 1.0, skew_x: 0.0, trans_x: 0.0, skew_y: 0.0, scale_y: 1.0, trans_y: 0.0, pers0: 0.0, pers1: 0.0, pers2: 1.0 }
    }
    fn gl_proc_resolver(&mut self, _name: usize) -> usize {
        0
    }
    fn gl_external_texture_frame(&mut self, texture_id: i64, width: usize, height: usize) -> Option<OpenGLTexture> {
        (texture_id == 1).then_some(OpenGLTexture { target: 1, name: 2, format: 3, width, height })
    }
    fn populate_existing_damage(&mut self, _fbo_id: isize) -> Region<f64> {
        self.damage_asked += 1;
        let v = self.damage_asked as f64;
        Region { rects: vec![Rect { left: v, top: v, right: v, bottom: v }] }
    }
}

type UserData = RendererUserData<OpenGLRendererConfig<Gl, f64>, (), (), ()>;

fn user_data() -> UserData {
    let config: RendererConfig<OpenGLRendererConfig<Gl, f64>, (), (), ()> =
        RendererConfig::OpenGL(OpenGLRendererConfig::new(false, Gl { damage_asked: 0, presented: vec![] }));
    config.into_user_data().1
}

#[test]
fn damage_asked_twice_is_kept_until_the_present_of_its_framebuffer() {
    let mut ud = user_data();
    populate_existing_damage(&mut ud, 4);
    populate_existing_damage(&mut ud, 4);
    let newest = ud.opengl().borrowed_damage(4).cloned();
    assert_eq!(newest, Some(vec![Rect { left: 2.0, top: 2.0, right: 2.0, bottom: 2.0 }]));
    let info = |fbo_id| PresentInfo { fbo_id, frame_damage: Region { rects: vec![] }, buffer_damage: Region { rects: vec![] } };
    assert!(present_with_info(&mut ud, info(9)));
    assert!(ud.opengl().borrowed_damage(4).is_some());
    assert!(present_with_info(&mut ud, info(4)));
    assert!(ud.opengl().borrowed_damage(4).is_none());
    assert_eq!(ud.opengl().handler.presented, vec![9, 4]);
}

#[test]
fn simple_callbacks_reach_the_handler() {
    let mut ud = user_data();
    assert!(make_current(&mut ud));
    assert!(!clear_current(&mut ud));
    assert_eq!(fbo_with_frame_info(&mut ud, FrameInfo { size: Size { width: 33, height: 1 } }), 33);
}

#[test]
fn external_texture_is_written_only_when_there_is_one() {
    let mut ud = user_data();
    let mut out = OpenGLTexture { target: 0, name: 0, format: 0, width: 0, height: 0 }.to_raw();
    let before: RawOpenGLTexture = out;
    assert!(!gl_external_texture_frame(&mut ud, 2, 8, 8, &mut out));
    assert_eq!(out, before);
    assert!(gl_external_texture_frame(&mut ud, 1, 8, 6, &mut out));
    assert_eq!(OpenGLTexture::from_raw(&out), OpenGLTexture { target: 1, name: 2, format: 3, width: 8, height: 6 });
}
