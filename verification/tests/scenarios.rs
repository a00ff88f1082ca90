use shader_playground::app::{App, UiEdits, WindowEvent};
use shader_playground::color::PackedColor;
use shader_playground::driver::{
    after_reload, on_watch, Command, ControlFlow, Driver, Event, WatchAction, WatchPoll,
};
use shader_playground::error::{LoopError, RenderError};
use shader_playground::frame::{FrameStep, LoadOp, TextureView};
use shader_playground::renderer::Renderer;
use shader_playground::viewport::{Size, SurfaceCapabilities, Viewport, ViewportDesc};
use wgpu::{CompositeAlphaMode, TextureFormat};

const WINDOW: u64 = 1;
const SOLID: &str = "\
@group(0) @binding(0) var<uniform> color: vec4<f32>;
@vertex fn vs_main(@location(0) position: vec3<f32>) -> @builtin(position) vec4<f32> {
    return vec4<f32>(position, 1.0);
}
@fragment fn fs_main() -> @location(0) vec4<f32> { return color; }
";
const CONSTANT: &str = "\
@vertex fn vs_main(@location(0) position: vec3<f32>) -> @builtin(position) vec4<f32> {
    return vec4<f32>(position, 1.0);
}
@fragment fn fs_main() -> @location(0) vec4<f32> { return vec4<f32>(0.0, 1.0, 0.0, 1.0); }
";
const BROKEN: &str = "fn vs_main( {";

fn window_viewport() -> Viewport {
    let caps = SurfaceCapabilities {
        formats: vec![TextureFormat::Bgra8UnormSrgb],
        alpha_modes: vec![CompositeAlphaMode::Opaque],
    };
    ViewportDesc::new(WINDOW, PackedColor::new(255, 0, 0, 255))
        .build(&caps, Size { width: 800, height: 600 })
}

fn started() -> (Driver, Renderer, App) {
    let mut driver = Driver::new();
    driver.insert(WINDOW);
    let renderer = Renderer::new(vec![window_viewport()], Some(SOLID.to_string()), true).unwrap();
    (driver, renderer, App::new())
}

/// Carries out what the loop decides for one event, as far as the renderer and
/// the state are concerned, and returns the frames that were laid out.
fn run(
    driver: &Driver,
    renderer: &mut Renderer,
    app: &mut App,
    event: Event,
    size: Size,
) -> (ControlFlow, Vec<Vec<FrameStep>>) {
    let dispatch = driver.dispatch(&event);
    let mut frames = Vec::new();
    for command in dispatch.commands {
        match command {
            Command::Render(window) => frames.push(renderer.render(app, window, size)),
            Command::Resize(window, to) => {
                renderer.resize(window, to);
            }
            Command::AppEvent(window, event) => app.handle_window_event(window, &event),
            Command::RequestRedraw(_) | Command::GuiInput(_) => {}
        }
    }
    (dispatch.control_flow, frames)
}

#[test]
fn editing_the_background_leaves_the_triangle_and_the_white_clear() {
    let (driver, mut renderer, mut app) = started();
    let size = Size { width: 800, height: 600 };
    let (_, before) = run(&driver, &mut renderer, &mut app, Event::RedrawRequested(WINDOW), size);
    app.ui(&UiEdits {
        triangle_color: None,
        bg_color: Some(PackedColor::new(255, 0, 0, 255)),
        blur_kernel: None,
    });
    assert_eq!(app.bg_color, PackedColor::new(255, 0, 0, 255));
    assert_eq!(app.triangle_color, PackedColor::new(0, 0, 255, 255));
    let (_, after) = run(&driver, &mut renderer, &mut app, Event::RedrawRequested(WINDOW), size);
    assert_eq!(before, after);
    assert_eq!(after.len(), 1);
    match after[0][1] {
        FrameStep::Background(pass) => {
            assert_eq!(pass.color, PackedColor::new(0, 0, 255, 255));
            assert_eq!(pass.attachment.load, LoadOp::Clear(PackedColor::new(255, 255, 255, 255)));
            assert_eq!(pass.attachment.view, TextureView::Frame);
        }
        _ => panic!("the second step draws the triangle"),
    }
}

#[test]
fn editing_the_triangle_shows_in_the_next_frame() {
    let (driver, mut renderer, mut app) = started();
    let size = Size { width: 800, height: 600 };
    app.ui(&UiEdits {
        triangle_color: Some(PackedColor::new(0, 255, 0, 255)),
        bg_color: None,
        blur_kernel: None,
    });
    let (_, frames) = run(&driver, &mut renderer, &mut app, Event::RedrawRequested(WINDOW), size);
    match frames[0][1] {
        FrameStep::Background(pass) => assert_eq!(pass.color, PackedColor::new(0, 255, 0, 255)),
        _ => panic!("the second step draws the triangle"),
    }
}

#[test]
fn a_changed_shader_is_in_use_for_the_next_frame() {
    let (driver, mut renderer, mut app) = started();
    let size = Size { width: 800, height: 600 };
    assert_eq!(renderer.bundle().render_pipeline.shader, SOLID);
    assert_eq!(on_watch(WatchPoll::Empty), Ok(WatchAction::Nothing));
    assert_eq!(on_watch(WatchPoll::Changed), Ok(WatchAction::Reload));
    assert_eq!(after_reload(renderer.reload(Some(CONSTANT.to_string()), true)), Ok(()));
    assert_eq!(renderer.bundle().render_pipeline.shader, CONSTANT);
    let (flow, frames) =
        run(&driver, &mut renderer, &mut app, Event::RedrawRequested(WINDOW), size);
    assert_eq!(flow, ControlFlow::Poll);
    assert_eq!(frames.len(), 1);
    assert_eq!(frames[0].len(), 4);
    assert_eq!(frames[0][0], FrameStep::Acquire);
    assert_eq!(frames[0][3], FrameStep::Present);
}

#[test]
fn an_unreadable_shader_at_startup_is_a_setup_error() {
    let made = Renderer::new(vec![window_viewport()], None, false);
    let error = made.err().unwrap();
    assert_eq!(error, RenderError::ShaderUnreadable);
    assert_eq!(error.message(), "failed to read the shader source");
}

#[test]
fn an_unreadable_shader_after_a_change_ends_the_loop_and_keeps_the_pipeline() {
    let (_, mut renderer, _) = started();
    let outcome = after_reload(renderer.reload(None, false));
    assert_eq!(outcome, Err(LoopError::ReloadFailed(RenderError::ShaderUnreadable)));
    assert_eq!(renderer.bundle().render_pipeline.shader, SOLID);
}

#[test]
fn minimising_and_restoring_the_window_reconfigures_once() {
    let (driver, mut renderer, mut app) = started();
    let empty = Size { width: 0, height: 0 };
    let restored = Size { width: 1024, height: 768 };
    let minimise = Event::WindowEvent { window_id: WINDOW, event: WindowEvent::Resized(empty) };
    let (_, frames) = run(&driver, &mut renderer, &mut app, minimise, empty);
    assert!(frames.is_empty());
    assert_eq!(renderer.viewport(WINDOW), Some(window_viewport()));
    let (_, frames) =
        run(&driver, &mut renderer, &mut app, Event::RedrawRequested(WINDOW), empty);
    assert_eq!(frames, vec![vec![]]);
    let restore = Event::WindowEvent { window_id: WINDOW, event: WindowEvent::Resized(restored) };
    run(&driver, &mut renderer, &mut app, restore, restored);
    let viewport = renderer.viewport(WINDOW).unwrap();
    assert_eq!(viewport.config.width, 1024);
    assert_eq!(viewport.config.height, 768);
    assert_eq!(viewport.config.format, TextureFormat::Bgra8UnormSrgb);
    let (_, frames) =
        run(&driver, &mut renderer, &mut app, Event::RedrawRequested(WINDOW), restored);
    assert_eq!(frames[0].len(), 4);
}

#[test]
fn closing_the_window_ends_the_loop() {
    let (driver, mut renderer, mut app) = started();
    let close = Event::WindowEvent { window_id: WINDOW, event: WindowEvent::CloseRequested };
    let (flow, frames) =
        run(&driver, &mut renderer, &mut app, close, Size { width: 800, height: 600 });
    assert_eq!(flow, ControlFlow::Exit);
    assert!(frames.is_empty());
}

#[test]
fn a_shader_that_does_not_compile_at_startup_is_a_setup_error() {
    let asked = Renderer::plan(&vec![window_viewport()], &Some(BROKEN.to_string()));
    assert!(asked.is_some());
    let made = Renderer::new(vec![window_viewport()], Some(BROKEN.to_string()), false);
    let error = made.err().unwrap();
    assert_eq!(error, RenderError::PipelineRejected);
    assert_eq!(error.message(), "failed to build the pipeline from the shader source");
}

#[test]
fn a_shader_that_does_not_compile_after_a_change_keeps_the_pipeline_in_use() {
    let (driver, mut renderer, mut app) = started();
    let size = Size { width: 800, height: 600 };
    let (_, before) = run(&driver, &mut renderer, &mut app, Event::RedrawRequested(WINDOW), size);
    assert_eq!(on_watch(WatchPoll::Changed), Ok(WatchAction::Reload));
    let outcome = after_reload(renderer.reload(Some(BROKEN.to_string()), false));
    assert_eq!(outcome, Err(LoopError::ReloadFailed(RenderError::PipelineRejected)));
    assert_eq!(renderer.bundle().render_pipeline.shader, SOLID);
    let (_, after) = run(&driver, &mut renderer, &mut app, Event::RedrawRequested(WINDOW), size);
    assert_eq!(before, after);
}
