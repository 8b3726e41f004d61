use fluster::build_support::select_frontend;
use fluster::{DartFrontend, FlutterApp, MissingTool, Mode};

#[test]
fn mode_flags() {
    assert_eq!(Mode::Debug.flag(), "--debug");
    assert_eq!(Mode::Release.flag(), "--release");
    assert_eq!(Mode::Profile.flag(), "--profile");
}

#[test]
fn builder_defaults_and_setters() {
    let mut builder = FlutterApp::builder(Mode::Debug, "/work/app");
    assert_eq!(builder.selected_mode(), Mode::Debug);
    assert_eq!(builder.root(), "/work/app");
    assert_eq!(builder.entry(), "lib/main.dart");
    assert!(builder.experimental_features().is_empty());
    builder
        .mode(Mode::Release)
        .entrypoint("lib/other.dart")
        .project_root("/elsewhere")
        .with_experimental_feature("records")
        .with_experimental_feature("macros");
    assert_eq!(builder.selected_mode(), Mode::Release);
    assert_eq!(builder.root(), "/elsewhere");
    assert_eq!(builder.entry(), "lib/other.dart");
    assert_eq!(builder.experimental_features(), &["records".to_string(), "macros".to_string()]);
}

#[test]
fn built_app_paths() {
    let app = FlutterApp::new("out/assets".to_string(), "out/dependencies".to_string(), None);
    assert_eq!(app.assets(), "out/assets");
    assert_eq!(app.depfile(), "out/dependencies");
    assert_eq!(app.app_library(), None);
    let aot = FlutterApp::new("a".to_string(), "d".to_string(), Some("out/app.so".to_string()));
    assert_eq!(aot.app_library(), Some("out/app.so"));
}

#[test]
fn frontend_selection() {
    assert_eq!(select_frontend(true, true, true, true), Ok(DartFrontend::Jit));
    assert_eq!(select_frontend(true, false, true, true), Err(MissingTool::Dart { wanted_aot: false }));
    assert_eq!(select_frontend(false, true, true, true), Ok(DartFrontend::Aot));
    assert_eq!(select_frontend(false, true, true, false), Err(MissingTool::Dart { wanted_aot: true }));
    assert_eq!(select_frontend(false, true, false, true), Err(MissingTool::FrontendServer));
}
