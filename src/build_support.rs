//! The description of an application bundle to build for the engine, and the
//! choices that building it makes.
use vstd::prelude::*;

verus! {

/// The build mode of the application.
#[derive(Debug, Clone, Copy, PartialEq, Eq, Hash, Structural)]
pub enum Mode {
    Debug,
    Release,
    Profile,
}

impl Mode {
    pub open spec fn flag_text(self) -> Seq<char> {
        match self {
            Mode::Debug => "--debug"@,
            Mode::Release => "--release"@,
            Mode::Profile => "--profile"@,
        }
    }

    /// The command-line flag that selects this mode.
    pub fn flag(self) -> (r: &'static str)
        ensures
            r@ == self.flag_text(),
    {
        match self {
            Mode::Debug => {
                proof {
                    reveal_strlit("--debug");
                }
                "--debug"
            },
            Mode::Release => {
                proof {
                    reveal_strlit("--release");
                }
                "--release"
            },
            Mode::Profile => {
                proof {
                    reveal_strlit("--profile");
                }
                "--profile"
            },
        }
    }
}

/// The outputs of a built application.
pub struct FlutterApp {
    asset_dir: String,
    depfile: String,
    app_library: Option<String>,
}

/// What to build.
pub struct FlutterAppBuilder {
    mode: Mode,
    project_root: String,
    entrypoint: String,
    experimental_features: Vec<String>,
}

impl FlutterApp {
    pub closed spec fn asset_dir_text(&self) -> Seq<char> {
        self.asset_dir@
    }

    pub closed spec fn depfile_text(&self) -> Seq<char> {
        self.depfile@
    }

    pub closed spec fn app_library_text(&self) -> Option<Seq<char>> {
        match self.app_library {
            Some(s) => Some(s@),
            None => None,
        }
    }

    /// The outputs at the given paths; only an AOT build has an app library.
    pub fn new(asset_dir: String, depfile: String, app_library: Option<String>) -> (r: FlutterApp)
        ensures
            r.asset_dir_text() == asset_dir@,
            r.depfile_text() == depfile@,
            r.app_library_text() == (match app_library {
                Some(s) => Some(s@),
                None => None,
            }),
    {
        FlutterApp { asset_dir, depfile, app_library }
    }

    /// The directory of the built assets.
    pub fn assets(&self) -> (r: &str)
        ensures
            r@ == self.asset_dir_text(),
    {
        self.asset_dir.as_str()
    }

    /// The compiled application library, which only an AOT build has.
    pub fn app_library(&self) -> (r: Option<&str>)
        ensures
            match r {
                Some(s) => self.app_library_text() == Some(s@),
                None => self.app_library_text() is None,
            },
    {
        match &self.app_library {
            Some(s) => Some(s.as_str()),
            None => None,
        }
    }

    /// The file that lists what the build read.
    pub fn depfile(&self) -> (r: &str)
        ensures
            r@ == self.depfile_text(),
    {
        self.depfile.as_str()
    }

    /// A build of the project at `project_root` in `mode`, from the
    /// entrypoint `lib/main.dart`, with no experimental features.
    pub fn builder(mode: Mode, project_root: &str) -> (r: FlutterAppBuilder)
        ensures
            r.mode_of() == mode,
            r.project_root_text() == project_root@,
            r.entrypoint_text() == "lib/main.dart"@,
            r.features() == Seq::<Seq<char>>::empty(),
    {
        proof {
            reveal_strlit("lib/main.dart");
        }
        FlutterAppBuilder {
            mode,
            project_root: project_root.to_owned(),
            entrypoint: "lib/main.dart".to_owned(),
            experimental_features: Vec::new(),
        }
    }
}

impl FlutterAppBuilder {
    pub closed spec fn mode_of(&self) -> Mode {
        self.mode
    }

    pub closed spec fn project_root_text(&self) -> Seq<char> {
        self.project_root@
    }

    pub closed spec fn entrypoint_text(&self) -> Seq<char> {
        self.entrypoint@
    }

    /// The experimental features to enable, in the order they were added.
    pub closed spec fn features(&self) -> Seq<Seq<char>> {
        self.experimental_features@.map_values(|f: String| f@)
    }

    /// Sets the build mode.
    pub fn mode(&mut self, mode: Mode) -> (r: &mut FlutterAppBuilder)
        ensures
            r.mode_of() == mode,
            r.project_root_text() == old(self).project_root_text(),
            r.entrypoint_text() == old(self).entrypoint_text(),
            r.features() == old(self).features(),
            *final(self) == *final(r),
    {
        self.mode = mode;
        self
    }

    /// Sets the directory of the project.
    pub fn project_root(&mut self, project_root: &str) -> (r: &mut FlutterAppBuilder)
        ensures
            r.mode_of() == old(self).mode_of(),
            r.project_root_text() == project_root@,
            r.entrypoint_text() == old(self).entrypoint_text(),
            r.features() == old(self).features(),
            *final(self) == *final(r),
    {
        self.project_root = project_root.to_owned();
        self
    }

    /// Sets the entrypoint, relative to the project directory.
    pub fn entrypoint(&mut self, entrypoint: &str) -> (r: &mut FlutterAppBuilder)
        ensures
            r.mode_of() == old(self).mode_of(),
            r.project_root_text() == old(self).project_root_text(),
            r.entrypoint_text() == entrypoint@,
            r.features() == old(self).features(),
            *final(self) == *final(r),
    {
        self.entrypoint = entrypoint.to_owned();
        self
    }

    /// Adds an experimental language feature to enable.
    pub fn with_experimental_feature(&mut self, feature: &str) -> (r: &mut FlutterAppBuilder)
        ensures
            r.mode_of() == old(self).mode_of(),
            r.project_root_text() == old(self).project_root_text(),
            r.entrypoint_text() == old(self).entrypoint_text(),
            r.features() == old(self).features().push(feature@),
            *final(self) == *final(r),
    {
        self.experimental_features.push(feature.to_owned());
        proof {
            assert(self.experimental_features@.map_values(|f: String| f@) =~= old(
                self,
            ).experimental_features@.map_values(|f: String| f@).push(feature@));
        }
        self
    }

    /// The build mode.
    pub fn selected_mode(&self) -> (r: Mode)
        ensures
            r == self.mode_of(),
    {
        self.mode
    }

    /// The directory of the project.
    pub fn root(&self) -> (r: &str)
        ensures
            r@ == self.project_root_text(),
    {
        self.project_root.as_str()
    }

    /// The entrypoint, relative to the project directory.
    pub fn entry(&self) -> (r: &str)
        ensures
            r@ == self.entrypoint_text(),
    {
        self.entrypoint.as_str()
    }

    /// The experimental features, in the order they were added.
    pub fn experimental_features(&self) -> (r: &[String])
        ensures
            r@.map_values(|f: String| f@) == self.features(),
    {
        self.experimental_features.as_slice()
    }
}

/// Which front end compiles the application ahead of time.
#[derive(Debug, Clone, Copy, PartialEq, Eq, Hash, Structural)]
pub enum DartFrontend {
    /// The JIT snapshot of the front end, run by `dart`.
    Jit,
    /// The AOT snapshot of the front end, run by `dartaotruntime`.
    Aot,
}

/// A tool that an AOT build needs and that the engine build lacks.
#[derive(Debug, Clone, Copy, PartialEq, Eq, Hash, Structural)]
pub enum MissingTool {
    /// The runtime for the front end that was found; `wanted_aot` tells
    /// whether `dartaotruntime` or `dart` was wanted.
    Dart { wanted_aot: bool },
    /// Neither snapshot of the front end.
    FrontendServer,
}

/// The front end to compile with, given which files the engine build holds:
/// the JIT snapshot if there is one, else the AOT snapshot; each needs its
/// own runtime.
pub fn select_frontend(
    jit_snapshot: bool,
    dart_runtime: bool,
    aot_snapshot: bool,
    aot_runtime: bool,
) -> (r: Result<DartFrontend, MissingTool>)
    ensures
        r == (if jit_snapshot {
            if dart_runtime {
                Ok(DartFrontend::Jit)
            } else {
                Err(MissingTool::Dart { wanted_aot: false })
            }
        } else if aot_snapshot {
            if aot_runtime {
                Ok(DartFrontend::Aot)
            } else {
                Err(MissingTool::Dart { wanted_aot: true })
            }
        } else {
            Err(MissingTool::FrontendServer)
        }),
{
    if jit_snapshot {
        if !dart_runtime {
            return Err(MissingTool::Dart { wanted_aot: false });
        }
        Ok(DartFrontend::Jit)
    } else if aot_snapshot {
        if !aot_runtime {
            return Err(MissingTool::Dart { wanted_aot: true });
        }
        Ok(DartFrontend::Aot)
    } else {
        Err(MissingTool::FrontendServer)
    }
}

} // verus!
