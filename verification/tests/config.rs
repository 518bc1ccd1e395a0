use hala_sdf_baker::config::{
    check_app_config, validate_app_config, validate_window_config, AppConfig, BakerConfig,
    ComputeProgramDesc, ConfigError, GraphicsProgramDesc, WindowConfig,
};
use hala_sdf_baker::programs::{ComputeProgram, GraphicsProgram};

fn app_config(width: u16, height: u16, scene_file: &str) -> AppConfig {
    AppConfig { window: WindowConfig { width, height }, scene_file: scene_file.to_string() }
}

#[test]
fn window_needs_an_area() {
    assert_eq!(validate_window_config(&WindowConfig { width: 800, height: 600 }), Ok(()));
    assert_eq!(
        validate_window_config(&WindowConfig { width: 0, height: 600 }),
        Err(ConfigError::WindowSize)
    );
    assert_eq!(
        validate_window_config(&WindowConfig { width: 800, height: 0 }),
        Err(ConfigError::WindowSize)
    );
}

#[test]
fn window_is_checked_before_the_scene_file() {
    let config = app_config(0, 0, "scene.glb");
    assert_eq!(check_app_config(&config, false), Err(ConfigError::WindowSize));
    assert_eq!(check_app_config(&config, true), Err(ConfigError::WindowSize));
}

#[test]
fn scene_file_must_exist() {
    let config = app_config(1280, 720, "scene.glb");
    assert_eq!(check_app_config(&config, false), Err(ConfigError::SceneFileNotFound));
    assert_eq!(check_app_config(&config, true), Ok(()));
}

#[test]
fn validation_asks_the_file_system() {
    assert_eq!(validate_app_config(&app_config(1280, 720, "/")), Ok(()));
    assert_eq!(
        validate_app_config(&app_config(1280, 720, "/no/such/directory/scene.glb")),
        Err(ConfigError::SceneFileNotFound)
    );
    assert_eq!(validate_app_config(&app_config(0, 720, "/")), Err(ConfigError::WindowSize));
}

#[test]
fn first_entry_of_a_program_counts() {
    let config = BakerConfig {
        compute_programs: vec![
            ComputeProgramDesc { program: ComputeProgram::Jfa, bindings: 2 },
            ComputeProgramDesc { program: ComputeProgram::Init, bindings: 8 },
            ComputeProgramDesc { program: ComputeProgram::Jfa, bindings: 0 },
        ],
        graphics_programs: vec![GraphicsProgramDesc {
            program: GraphicsProgram::WriteUvwAndCoverage,
            bindings: 5,
        }],
    };
    assert_eq!(config.compute_bindings(ComputeProgram::Jfa), Some(2));
    assert_eq!(config.compute_bindings(ComputeProgram::Init), Some(8));
    assert_eq!(config.compute_bindings(ComputeProgram::BlockSum), None);
    assert_eq!(config.graphics_bindings(GraphicsProgram::WriteUvwAndCoverage), Some(5));
    assert_eq!(config.graphics_bindings(GraphicsProgram::WriteTriangleIdsToVoxels), None);
}
