//! Configuration: the application's, and the list of programs a baker is made
//! from.

use vstd::prelude::*;
use crate::programs::{ComputeProgram, GraphicsProgram};

verus! {

/// The window the application opens.
#[derive(Clone, Copy, Debug, PartialEq, Eq, Structural)]
pub struct WindowConfig {
    pub width: u16,
    pub height: u16,
}

/// The application's configuration.
#[derive(Clone, Debug, PartialEq, Eq)]
pub struct AppConfig {
    pub window: WindowConfig,
    pub scene_file: String,
}

/// What is wrong with an application configuration.
#[derive(Clone, Copy, Debug, PartialEq, Eq, Structural)]
pub enum ConfigError {
    /// The window has no width or no height.
    WindowSize,
    /// There is nothing at the path of the scene file.
    SceneFileNotFound,
}

/// Whether the window has an area.
pub open spec fn spec_window_valid(window: WindowConfig) -> bool {
    window.width > 0 && window.height > 0
}

/// What the validation of an application configuration gives, knowing
/// whether the scene file exists.
pub open spec fn spec_check_app_config(window: WindowConfig, scene_file_exists: bool) -> Result<
    (),
    ConfigError,
> {
    if !spec_window_valid(window) {
        Err(ConfigError::WindowSize)
    } else if !scene_file_exists {
        Err(ConfigError::SceneFileNotFound)
    } else {
        Ok(())
    }
}

/// Accepts a window that has both a width and a height.
pub fn validate_window_config(config: &WindowConfig) -> (r: Result<(), ConfigError>)
    ensures
        r == (if spec_window_valid(*config) {
            Ok::<(), ConfigError>(())
        } else {
            Err(ConfigError::WindowSize)
        }),
{
    if config.width == 0 || config.height == 0 {
        return Err(ConfigError::WindowSize);
    }
    Ok(())
}

/// Validates a configuration, given whether its scene file exists: the
/// window is looked at first, the scene file second.
pub fn check_app_config(config: &AppConfig, scene_file_exists: bool) -> (r: Result<(), ConfigError>)
    ensures
        r == spec_check_app_config(config.window, scene_file_exists),
{
    match validate_window_config(&config.window) {
        Err(e) => {
            return Err(e);
        },
        Ok(()) => {},
    }
    if !scene_file_exists {
        return Err(ConfigError::SceneFileNotFound);
    }
    Ok(())
}

/// `std::path::Path::exists` on the given path: whether it leads to something
/// on disk at the moment of the call. Nothing is claimed of the answer.
#[verifier::external_body]
fn path_exists(path: &str) -> (exists: bool) {
    std::path::Path::new(path).exists()
}

/// Validates a configuration: the window must have an area and the scene
/// file must exist. Whether it exists is asked of the file system once the
/// window has passed, so two calls may differ; for either answer the result
/// is the one of [`check_app_config`].
pub fn validate_app_config(config: &AppConfig) -> (r: Result<(), ConfigError>)
    ensures
        r == spec_check_app_config(config.window, true) || r == spec_check_app_config(
            config.window,
            false,
        ),
        !spec_window_valid(config.window) ==> r == Err::<(), ConfigError>(ConfigError::WindowSize),
{
    match validate_window_config(&config.window) {
        Err(e) => Err(e),
        Ok(()) => {
            let exists = path_exists(config.scene_file.as_str());
            check_app_config(config, exists)
        },
    }
}

/// A compute kernel as configured: its identity and how many bindings its
/// parameter set has.
#[derive(Clone, Copy, Debug, PartialEq, Eq, Structural)]
pub struct ComputeProgramDesc {
    pub program: ComputeProgram,
    pub bindings: usize,
}

/// A rasterizing program as configured.
#[derive(Clone, Copy, Debug, PartialEq, Eq, Structural)]
pub struct GraphicsProgramDesc {
    pub program: GraphicsProgram,
    pub bindings: usize,
}

/// The programs a baker is configured with.
#[derive(Clone, Debug, PartialEq, Eq)]
pub struct BakerConfig {
    pub compute_programs: Vec<ComputeProgramDesc>,
    pub graphics_programs: Vec<GraphicsProgramDesc>,
}

/// The number of bindings of the first entry for a kernel, if there is one.
pub open spec fn spec_compute_bindings(
    programs: Seq<ComputeProgramDesc>,
    program: ComputeProgram,
) -> Option<usize>
    decreases programs.len(),
{
    if programs.len() == 0 {
        None
    } else if programs[0].program == program {
        Some(programs[0].bindings)
    } else {
        spec_compute_bindings(programs.drop_first(), program)
    }
}

/// The number of bindings of the first entry for a rasterizing program, if
/// there is one.
pub open spec fn spec_graphics_bindings(
    programs: Seq<GraphicsProgramDesc>,
    program: GraphicsProgram,
) -> Option<usize>
    decreases programs.len(),
{
    if programs.len() == 0 {
        None
    } else if programs[0].program == program {
        Some(programs[0].bindings)
    } else {
        spec_graphics_bindings(programs.drop_first(), program)
    }
}

impl BakerConfig {
    /// The number of bindings a kernel is configured with, if it is
    /// configured.
    pub fn compute_bindings(&self, program: ComputeProgram) -> (bindings: Option<usize>)
        ensures
            bindings == spec_compute_bindings(self.compute_programs@, program),
    {
        let mut i: usize = 0;
        assert(self.compute_programs@.skip(0) =~= self.compute_programs@);
        while i < self.compute_programs.len()
            invariant
                i <= self.compute_programs.len(),
                spec_compute_bindings(self.compute_programs@, program) == spec_compute_bindings(
                    self.compute_programs@.skip(i as int),
                    program,
                ),
            decreases self.compute_programs.len() - i,
        {
            let desc = self.compute_programs[i];
            if desc.program == program {
                return Some(desc.bindings);
            }
            proof {
                assert(self.compute_programs@.skip(i as int).drop_first()
                    =~= self.compute_programs@.skip(i + 1));
            }
            i = i + 1;
        }
        None
    }

    /// The number of bindings a rasterizing program is configured with, if
    /// it is configured.
    pub fn graphics_bindings(&self, program: GraphicsProgram) -> (bindings: Option<usize>)
        ensures
            bindings == spec_graphics_bindings(self.graphics_programs@, program),
    {
        let mut i: usize = 0;
        assert(self.graphics_programs@.skip(0) =~= self.graphics_programs@);
        while i < self.graphics_programs.len()
            invariant
                i <= self.graphics_programs.len(),
                spec_graphics_bindings(self.graphics_programs@, program) == spec_graphics_bindings(
                    self.graphics_programs@.skip(i as int),
                    program,
                ),
            decreases self.graphics_programs.len() - i,
        {
            let desc = self.graphics_programs[i];
            if desc.program == program {
                return Some(desc.bindings);
            }
            proof {
                assert(self.graphics_programs@.skip(i as int).drop_first()
                    =~= self.graphics_programs@.skip(i + 1));
            }
            i = i + 1;
        }
        None
    }
}

} // verus!
