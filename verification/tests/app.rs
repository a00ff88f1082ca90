use shader_playground::app::{clamp_blur_kernel, App, UiEdits, WindowEvent, MAX_BLUR_KERNEL};
use shader_playground::color::PackedColor;
use shader_playground::viewport::Size;

fn no_edits() -> UiEdits {
    UiEdits { triangle_color: None, bg_color: None, blur_kernel: None }
}

#[test]
fn starts_with_grey_background_blue_triangle_and_no_blur() {
    let app = App::new();
    assert_eq!(app.bg_color, PackedColor { r: 26, g: 26, b: 26, a: 255 });
    assert_eq!(app.triangle_color, PackedColor { r: 0, g: 0, b: 255, a: 255 });
    assert_eq!(app.blur_kernel, 0);
}

#[test]
fn the_triangle_starts_in_the_pickers_blue() {
    assert_eq!(PackedColor::blue(), PackedColor { r: 0, g: 0, b: 255, a: 255 });
    assert_eq!(PackedColor::blue().to_array(), egui::Color32::BLUE.to_array());
    assert_eq!(App::new().triangle_color, PackedColor::blue());
}

#[test]
fn blur_kernel_bound_is_120() {
    assert_eq!(MAX_BLUR_KERNEL, 120);
}

#[test]
fn clamp_keeps_values_within_the_bounds() {
    assert_eq!(clamp_blur_kernel(0), 0);
    assert_eq!(clamp_blur_kernel(1), 1);
    assert_eq!(clamp_blur_kernel(57), 57);
    assert_eq!(clamp_blur_kernel(119), 119);
    assert_eq!(clamp_blur_kernel(120), 120);
}

#[test]
fn clamp_brings_values_below_the_bounds_to_zero() {
    assert_eq!(clamp_blur_kernel(-1), 0);
    assert_eq!(clamp_blur_kernel(-120), 0);
    assert_eq!(clamp_blur_kernel(i64::MIN), 0);
}

#[test]
fn clamp_brings_values_above_the_bounds_to_120() {
    assert_eq!(clamp_blur_kernel(121), 120);
    assert_eq!(clamp_blur_kernel(255), 120);
    assert_eq!(clamp_blur_kernel(256), 120);
    assert_eq!(clamp_blur_kernel(376), 120);
    assert_eq!(clamp_blur_kernel(i64::MAX), 120);
}

#[test]
fn clamp_is_never_farther_than_any_value_within_the_bounds() {
    for attempted in -300i64..=300 {
        let clamped = clamp_blur_kernel(attempted) as i64;
        assert!((0..=120).contains(&clamped));
        for other in 0i64..=120 {
            assert!((attempted - clamped).abs() <= (attempted - other).abs());
        }
    }
}

#[test]
fn ui_without_edits_changes_nothing() {
    let mut app = App::new();
    app.ui(&no_edits());
    assert_eq!(app, App::new());
}

#[test]
fn ui_takes_over_the_triangle_colour_alone() {
    let mut app = App::new();
    let picked = PackedColor::new(9, 8, 7, 6);
    app.ui(&UiEdits { triangle_color: Some(picked), ..no_edits() });
    assert_eq!(app.triangle_color, picked);
    assert_eq!(app.bg_color, App::new().bg_color);
    assert_eq!(app.blur_kernel, 0);
}

#[test]
fn ui_takes_over_the_background_colour_alone() {
    let mut app = App::new();
    let picked = PackedColor::new(255, 0, 0, 255);
    app.ui(&UiEdits { bg_color: Some(picked), ..no_edits() });
    assert_eq!(app.bg_color, picked);
    assert_eq!(app.triangle_color, App::new().triangle_color);
    assert_eq!(app.blur_kernel, 0);
}

#[test]
fn ui_takes_over_a_blur_kernel_within_the_bounds() {
    let mut app = App::new();
    app.ui(&UiEdits { blur_kernel: Some(64), ..no_edits() });
    assert_eq!(app.blur_kernel, 64);
    app.ui(&no_edits());
    assert_eq!(app.blur_kernel, 64);
}

#[test]
fn ui_clamps_an_attempted_blur_kernel_to_the_nearest_bound() {
    let mut app = App::new();
    app.ui(&UiEdits { blur_kernel: Some(121), ..no_edits() });
    assert_eq!(app.blur_kernel, 120);
    app.ui(&UiEdits { blur_kernel: Some(-1), ..no_edits() });
    assert_eq!(app.blur_kernel, 0);
    app.ui(&UiEdits { blur_kernel: Some(100_000), ..no_edits() });
    assert_eq!(app.blur_kernel, 120);
}

#[test]
fn ui_brings_a_stored_blur_kernel_back_within_the_bounds() {
    let mut app = App::new();
    app.blur_kernel = 200;
    app.ui(&no_edits());
    assert_eq!(app.blur_kernel, 120);
}

#[test]
fn ui_takes_over_all_edits_of_one_pass() {
    let mut app = App::new();
    let triangle = PackedColor::new(1, 2, 3, 4);
    let background = PackedColor::new(5, 6, 7, 8);
    app.ui(&UiEdits {
        triangle_color: Some(triangle),
        bg_color: Some(background),
        blur_kernel: Some(30),
    });
    assert_eq!(
        app,
        App { bg_color: background, triangle_color: triangle, blur_kernel: 30 }
    );
}

#[test]
fn window_events_leave_the_state_alone() {
    let mut app = App::new();
    app.ui(&UiEdits { blur_kernel: Some(12), ..no_edits() });
    let before = app;
    app.handle_window_event(1, &WindowEvent::Other);
    app.handle_window_event(1, &WindowEvent::CloseRequested);
    app.handle_window_event(2, &WindowEvent::Resized(Size { width: 3, height: 4 }));
    assert_eq!(app, before);
}
