use triangle_demo::input::{code_command, KeyCommand};
use triangle_demo::shader::ShaderInUse;
use triangle_demo::state::State;
use triangle_demo::surface::{
    acquisition_result, choose_surface_format, negotiate_config, preferred_format_index,
    srgb_flags, AcquireError, InitError, SurfaceConfig,
};
use wgpu::TextureFormat;
use winit::keyboard::KeyCode;

fn fresh_platform(width: u32, height: u32) -> State {
    State::new(
        width,
        height,
        &vec![wgpu::TextureFormat::Bgra8Unorm, wgpu::TextureFormat::Bgra8UnormSrgb],
        &vec![wgpu::PresentMode::Fifo, wgpu::PresentMode::Mailbox],
        &vec![wgpu::CompositeAlphaMode::Opaque],
    )
    .unwrap()
}

fn config_platform(width: u32, height: u32) -> SurfaceConfig {
    SurfaceConfig {
        width,
        height,
        format: wgpu::TextureFormat::Bgra8UnormSrgb,
        present_mode: wgpu::PresentMode::Fifo,
        alpha_mode: wgpu::CompositeAlphaMode::Opaque,
    }
}

#[test]
fn first_srgb_format_is_preferred() {
    let formats = vec![
        TextureFormat::Bgra8Unorm,
        TextureFormat::Rgba8UnormSrgb,
        TextureFormat::Bgra8UnormSrgb,
    ];
    assert_eq!(srgb_flags(&formats), vec![false, true, true]);
    assert_eq!(choose_surface_format(&formats), Some(TextureFormat::Rgba8UnormSrgb));
}

#[test]
fn first_format_is_the_fallback() {
    let formats = vec![TextureFormat::Rgba16Float, TextureFormat::Bgra8Unorm];
    assert_eq!(srgb_flags(&formats), vec![false, false]);
    assert_eq!(choose_surface_format(&formats), Some(TextureFormat::Rgba16Float));
}

#[test]
fn no_format_no_choice() {
    let formats: Vec<TextureFormat> = Vec::new();
    assert_eq!(choose_surface_format(&formats), None);
    assert_eq!(preferred_format_index(&Vec::new()), None);
}

#[test]
fn preferred_index_on_flags() {
    assert_eq!(preferred_format_index(&vec![true]), Some(0));
    assert_eq!(preferred_format_index(&vec![false]), Some(0));
    assert_eq!(preferred_format_index(&vec![false, false, true, true]), Some(2));
    assert_eq!(preferred_format_index(&vec![false, false, false]), Some(0));
    assert_eq!(preferred_format_index(&vec![true, false, true]), Some(0));
}

#[test]
fn acquisition_errors_keep_their_kind() {
    assert_eq!(acquisition_result(Ok(())), Ok(()));
    assert_eq!(acquisition_result(Err(wgpu::SurfaceError::Timeout)), Err(AcquireError::Timeout));
    assert_eq!(acquisition_result(Err(wgpu::SurfaceError::Outdated)), Err(AcquireError::Outdated));
    assert_eq!(acquisition_result(Err(wgpu::SurfaceError::Lost)), Err(AcquireError::Lost));
    assert_eq!(
        acquisition_result(Err(wgpu::SurfaceError::OutOfMemory)),
        Err(AcquireError::OutOfMemory)
    );
    assert_eq!(acquisition_result(Err(wgpu::SurfaceError::Other)), Err(AcquireError::Other));
}

#[test]
fn key_codes_map_to_commands() {
    assert_eq!(code_command(KeyCode::Escape, true), KeyCommand::Exit);
    assert_eq!(code_command(KeyCode::Space, true), KeyCommand::TogglePipeline);
    assert_eq!(code_command(KeyCode::KeyA, true), KeyCommand::Ignore);
    assert_eq!(code_command(KeyCode::Enter, true), KeyCommand::Ignore);
    assert_eq!(code_command(KeyCode::Escape, false), KeyCommand::Ignore);
    assert_eq!(code_command(KeyCode::Space, false), KeyCommand::Ignore);
}

#[test]
fn key_codes_drive_the_state() {
    let mut state = fresh_platform(640, 480);
    assert!(!state.handle_key(KeyCode::Space, true));
    assert_eq!(state.shader_in_use(), ShaderInUse::Shader2);
    assert!(!state.handle_key(KeyCode::Space, false));
    assert_eq!(state.shader_in_use(), ShaderInUse::Shader2);
    assert!(!state.handle_key(KeyCode::KeyQ, true));
    assert!(state.handle_key(KeyCode::Escape, true));
    assert_eq!(state.shader_in_use(), ShaderInUse::Shader2);
}

#[test]
fn negotiated_configuration() {
    let formats = vec![TextureFormat::Bgra8Unorm, TextureFormat::Bgra8UnormSrgb];
    let present = vec![wgpu::PresentMode::Fifo];
    let alpha = vec![wgpu::CompositeAlphaMode::Opaque];
    assert_eq!(negotiate_config(640, 480, &formats, &present, &alpha), Ok(config_platform(640, 480)));
    assert_eq!(
        negotiate_config(640, 480, &Vec::new(), &present, &alpha),
        Err(InitError::NoSurfaceFormat)
    );
    assert_eq!(
        negotiate_config(640, 480, &formats, &Vec::new(), &alpha),
        Err(InitError::NoPresentMode)
    );
    assert_eq!(
        negotiate_config(640, 480, &formats, &present, &Vec::new()),
        Err(InitError::NoAlphaMode)
    );
    let state = State::with_config(config_platform(640, 480));
    assert_eq!(state.config(), config_platform(640, 480));
    assert!(!state.is_surface_configured());
}
