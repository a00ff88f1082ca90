use shader_playground::color::PackedColor;
use shader_playground::pipeline::MSAA_SAMPLES;
use shader_playground::viewport::{
    target_texture, PresentMode, Reconfigure, Size, SurfaceCapabilities, SurfaceConfiguration,
    TargetTexture, Viewport, ViewportDesc, ALPHA_MODES_INDEX, FORMAT_INDEX, MAX_TARGET_DIMENSION,
};
use wgpu::{CompositeAlphaMode, TextureFormat};

fn capabilities() -> SurfaceCapabilities {
    SurfaceCapabilities {
        formats: vec![TextureFormat::Bgra8UnormSrgb, TextureFormat::Rgba8Unorm],
        alpha_modes: vec![CompositeAlphaMode::Opaque, CompositeAlphaMode::PreMultiplied],
    }
}

fn viewport_800_by_600() -> Viewport {
    ViewportDesc::new(7, PackedColor::new(255, 0, 0, 255))
        .build(&capabilities(), Size { width: 800, height: 600 })
}

#[test]
fn the_first_reported_format_and_alpha_mode_are_taken() {
    assert_eq!(FORMAT_INDEX, 0);
    assert_eq!(ALPHA_MODES_INDEX, 0);
}

#[test]
fn one_sample_per_pixel_needs_no_offscreen_target() {
    assert_eq!(MSAA_SAMPLES, 1);
    let size = Size { width: 640, height: 480 };
    assert_eq!(target_texture(1, size, TextureFormat::Rgba8Unorm), None);
    assert_eq!(target_texture(0, size, TextureFormat::Rgba8Unorm), None);
}

#[test]
fn several_samples_per_pixel_need_an_offscreen_target_of_the_surface_size() {
    let size = Size { width: 640, height: 480 };
    assert_eq!(
        target_texture(4, size, TextureFormat::Bgra8Unorm),
        Some(TargetTexture {
            width: 640,
            height: 480,
            sample_count: 4,
            format: TextureFormat::Bgra8Unorm
        })
    );
}

#[test]
fn offscreen_target_is_limited_to_2048_pixels_each_way() {
    assert_eq!(MAX_TARGET_DIMENSION, 2048);
    let format = TextureFormat::Rgba8Unorm;
    assert!(target_texture(4, Size { width: 2048, height: 2048 }, format).is_some());
    assert!(target_texture(4, Size { width: 2049, height: 1 }, format).is_none());
    assert!(target_texture(4, Size { width: 1, height: 2049 }, format).is_none());
    assert!(target_texture(2, Size { width: u32::MAX, height: u32::MAX }, format).is_none());
}

#[test]
fn offscreen_target_of_an_empty_size_is_still_decided_by_the_limits() {
    let format = TextureFormat::Rgba8Unorm;
    assert_eq!(
        target_texture(2, Size { width: 0, height: 0 }, format),
        Some(TargetTexture { width: 0, height: 0, sample_count: 2, format })
    );
}

#[test]
fn description_keeps_window_and_background() {
    let desc = ViewportDesc::new(42, PackedColor::new(1, 2, 3, 4));
    assert_eq!(desc.window, 42);
    assert_eq!(desc.background, PackedColor::new(1, 2, 3, 4));
}

#[test]
fn description_decides_the_target_for_the_fixed_sample_count() {
    let desc = ViewportDesc::new(1, PackedColor::white());
    let size = Size { width: 100, height: 100 };
    assert_eq!(
        desc.create_target_texture(size, TextureFormat::Rgba8Unorm),
        target_texture(MSAA_SAMPLES, size, TextureFormat::Rgba8Unorm)
    );
    assert_eq!(desc.create_target_texture(size, TextureFormat::Rgba8Unorm), None);
}

#[test]
fn build_takes_the_first_format_and_alpha_mode_and_presents_in_step() {
    let viewport = viewport_800_by_600();
    assert_eq!(
        viewport,
        Viewport {
            desc: ViewportDesc { window: 7, background: PackedColor::new(255, 0, 0, 255) },
            config: SurfaceConfiguration {
                format: TextureFormat::Bgra8UnormSrgb,
                width: 800,
                height: 600,
                present_mode: PresentMode::Fifo,
                alpha_mode: CompositeAlphaMode::Opaque,
            },
            render_target: None,
        }
    );
}

#[test]
fn build_with_a_single_format_and_alpha_mode() {
    let caps = SurfaceCapabilities {
        formats: vec![TextureFormat::Rgba16Float],
        alpha_modes: vec![CompositeAlphaMode::Inherit],
    };
    let viewport = ViewportDesc::new(1, PackedColor::white()).build(&caps, Size { width: 1, height: 1 });
    assert_eq!(viewport.config.format, TextureFormat::Rgba16Float);
    assert_eq!(viewport.config.alpha_mode, CompositeAlphaMode::Inherit);
    assert_eq!(viewport.config.width, 1);
    assert_eq!(viewport.config.height, 1);
}

#[test]
fn resize_to_zero_by_zero_changes_nothing() {
    let mut viewport = viewport_800_by_600();
    let before = viewport;
    assert_eq!(viewport.resize(Size { width: 0, height: 0 }), None);
    assert_eq!(viewport, before);
}

#[test]
fn resize_with_one_empty_dimension_changes_nothing() {
    let mut viewport = viewport_800_by_600();
    let before = viewport;
    assert_eq!(viewport.resize(Size { width: 0, height: 600 }), None);
    assert_eq!(viewport.resize(Size { width: 800, height: 0 }), None);
    assert_eq!(viewport, before);
}

#[test]
fn resize_takes_the_new_size_and_keeps_the_rest() {
    let mut viewport = viewport_800_by_600();
    let todo = viewport.resize(Size { width: 1024, height: 768 });
    let config = SurfaceConfiguration {
        format: TextureFormat::Bgra8UnormSrgb,
        width: 1024,
        height: 768,
        present_mode: PresentMode::Fifo,
        alpha_mode: CompositeAlphaMode::Opaque,
    };
    assert_eq!(
        todo,
        Some(Reconfigure { config, render_target: None, release_previous: false })
    );
    assert_eq!(viewport.config, config);
    assert_eq!(viewport.desc, viewport_800_by_600().desc);
    assert_eq!(viewport.render_target, None);
}

#[test]
fn resize_from_zero_back_to_a_size_reconfigures() {
    let mut viewport = viewport_800_by_600();
    viewport.resize(Size { width: 0, height: 0 });
    let todo = viewport.resize(Size { width: 320, height: 200 });
    let mut direct = viewport_800_by_600();
    let expected = direct.resize(Size { width: 320, height: 200 });
    assert!(todo.is_some());
    assert_eq!(todo, expected);
    assert_eq!(viewport, direct);
    assert_eq!(viewport.config.width, 320);
    assert_eq!(viewport.config.height, 200);
}

#[test]
fn resize_releases_a_target_that_was_there() {
    let mut viewport = viewport_800_by_600();
    viewport.render_target = Some(TargetTexture {
        width: 800,
        height: 600,
        sample_count: 4,
        format: TextureFormat::Bgra8UnormSrgb,
    });
    let todo = viewport.resize(Size { width: 10, height: 10 }).unwrap();
    assert!(todo.release_previous);
    assert_eq!(todo.render_target, None);
    assert_eq!(viewport.render_target, None);
}

#[test]
fn resize_to_the_same_size_still_reconfigures() {
    let mut viewport = viewport_800_by_600();
    let todo = viewport.resize(Size { width: 800, height: 600 });
    assert_eq!(
        todo,
        Some(Reconfigure {
            config: viewport_800_by_600().config,
            render_target: None,
            release_previous: false
        })
    );
    assert_eq!(viewport, viewport_800_by_600());
}
